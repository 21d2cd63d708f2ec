//! Choosing the root that a new database records.

use vstd::prelude::*;

use crate::path::{components, rooted};
use crate::text::chars_of;

verus! {

/// The directory that holds a local database.
pub open spec fn is_application_directory(c: Seq<char>) -> bool {
    c.len() == 5 && c[0] == '.' && c[1] == 't' && c[2] == 'm' && c[3] == 's' && c[4] == 'u'
}

/// Whether the database path lies directly inside a `.tmsu` directory that
/// has a parent of its own.
pub open spec fn is_local_database(path: Seq<char>) -> bool {
    let cs = components(path);
    cs.len() >= 2 && is_application_directory(cs[cs.len() - 2])
}

/// The root that a new database at `path` (an absolute path) records:
/// `..` for a database inside a `.tmsu` directory, which roots it at that
/// directory's parent, else the filesystem root.
pub fn determine_root(path: &str) -> (r: String)
    ensures
        r@ == (if is_local_database(path@) {
            seq!['.', '.']
        } else {
            seq!['/']
        }),
{
    let s = chars_of(path);
    let cs = crate::path::split_components(&s);
    let n = cs.len();
    let mut r = String::new();
    if n >= 2 {
        let d = &cs[n - 2];
        if d.len() == 5 && d[0] == '.' && d[1] == 't' && d[2] == 'm' && d[3] == 's' && d[4]
            == 'u' {
            crate::text::push_char(&mut r, '.');
            crate::text::push_char(&mut r, '.');
            assert(r@ =~= seq!['.', '.']);
            return r;
        }
    }
    crate::text::push_char(&mut r, '/');
    assert(r@ =~= seq!['/']);
    r
}

/// The root of the database at `path` (a canonical path): the parent of
/// the `.tmsu` directory holding it, else the directory holding it; none
/// when that directory is the filesystem root.
pub open spec fn root_path(path: Seq<char>) -> Option<Seq<char>> {
    let cs = components(path);
    if cs.len() < 2 {
        None
    } else if is_application_directory(cs[cs.len() - 2]) {
        Some(rooted(path, cs.subrange(0, cs.len() - 2)))
    } else {
        Some(rooted(path, cs.subrange(0, cs.len() - 1)))
    }
}

/// The root directory of the database at `path`, or `None` when it cannot
/// be told.
pub fn determine_root_path(path: &str) -> (r: Option<String>)
    ensures
        match r {
            None => root_path(path@) is None,
            Some(root) => root_path(path@) == Some(root@),
        },
{
    let s = chars_of(path);
    let cs = crate::path::split_components(&s);
    let ghost v = cs@.map_values(|c: Vec<char>| c@);
    let n = cs.len();
    if n < 2 {
        return None;
    }
    let absolute = s.len() > 0 && s[0] == '/';
    let d = &cs[n - 2];
    assert(d@ == v[n - 2]);
    if d.len() == 5 && d[0] == '.' && d[1] == 't' && d[2] == 'm' && d[3] == 's' && d[4] == 'u' {
        Some(crate::path::join(&cs, n - 2, absolute))
    } else {
        Some(crate::path::join(&cs, n - 1, absolute))
    }
}

} // verus!
