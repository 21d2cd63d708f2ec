//! Files as stored.

use vstd::prelude::*;

pub use crate::common::FileTypeSpecificity;

verus! {

/// A file or directory recorded in the database.
#[derive(Debug, PartialEq, Eq, Clone)]
pub struct File {
    pub id: i64,
    pub directory: String,
    pub name: String,
    pub fingerprint: String,
    /// Modification time, as stored.
    pub mod_time: String,
    pub size: i64,
    pub is_dir: bool,
}

/// `name` joined onto `directory`: an absolute name stands alone, and a
/// separator is added only where neither side has one.
pub open spec fn join_path(directory: Seq<char>, name: Seq<char>) -> Seq<char> {
    if name.len() > 0 && name[0] == '/' {
        name
    } else if directory.len() == 0 {
        name
    } else if directory.last() == '/' {
        directory + name
    } else {
        directory + seq!['/'] + name
    }
}

impl File {
    /// The entry's path: its directory joined with its name.
    pub fn path(&self) -> (r: String)
        ensures
            r@ == join_path(self.directory@, self.name@),
    {
        let n = self.name.as_str().unicode_len();
        let d = self.directory.as_str().unicode_len();
        if n > 0 && self.name.as_str().get_char(0) == '/' {
            return self.name.clone();
        }
        if d == 0 {
            return self.name.clone();
        }
        let mut r = self.directory.clone();
        if self.directory.as_str().get_char(d - 1) != '/' {
            crate::text::push_char(&mut r, '/');
        }
        r.append(self.name.as_str());
        r
    }
}

} // verus!
