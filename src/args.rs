//! Command-line options and the matching modes they select.

use vstd::prelude::*;

use crate::common::{Casing, FileTypeSpecificity, TagSpecificity};
use crate::rendering::Separator;

verus! {

/// The subcommands of the command line.
#[derive(Debug, PartialEq, Eq, Clone)]
pub enum Commands {
    /// Show database paths and metrics.
    Info,
    /// Create new, empty databases at the given paths.
    Init { paths: Vec<String> },
    /// List the files that match a query.
    Files {
        query: Vec<String>,
        explicit: bool,
        ignore_case: bool,
        directory: bool,
        file: bool,
        count: bool,
        path: Option<String>,
        sort: Option<String>,
    },
}

/// Command-line options.
#[derive(Debug, PartialEq, Eq, Clone)]
pub struct Args {
    pub database: Option<String>,
    pub verbosity: u8,
    pub print0: bool,
    pub command: Commands,
}

impl Args {
    /// The separator that output lines end with.
    pub fn separator(&self) -> (r: Separator)
        ensures
            r == (if self.print0 {
                Separator::Nul
            } else {
                Separator::Newline
            }),
    {
        match self.print0 {
            true => Separator::Nul,
            false => Separator::Newline,
        }
    }
}

/// Name comparisons fold case only when asked to ignore it.
pub fn casing(ignore_case: bool) -> (r: Casing)
    ensures
        r == (if ignore_case {
            Casing::Insensitive
        } else {
            Casing::Sensitive
        }),
{
    if ignore_case {
        Casing::Insensitive
    } else {
        Casing::Sensitive
    }
}

/// Implied taggings count unless only explicit ones are asked for.
pub fn tag_specificity(explicit: bool) -> (r: TagSpecificity)
    ensures
        r == (if explicit {
            TagSpecificity::ExplicitOnly
        } else {
            TagSpecificity::All
        }),
{
    if explicit {
        TagSpecificity::ExplicitOnly
    } else {
        TagSpecificity::All
    }
}

/// Files only, directories only, or both when both or neither are asked for.
pub fn file_type(file: bool, directory: bool) -> (r: FileTypeSpecificity)
    ensures
        r == (if file && !directory {
            FileTypeSpecificity::FileOnly
        } else if directory && !file {
            FileTypeSpecificity::DirectoryOnly
        } else {
            FileTypeSpecificity::Any
        }),
{
    if file && !directory {
        FileTypeSpecificity::FileOnly
    } else if directory && !file {
        FileTypeSpecificity::DirectoryOnly
    } else {
        FileTypeSpecificity::Any
    }
}

/// The words joined by single spaces.
pub open spec fn joined(words: Seq<Seq<char>>) -> Seq<char>
    decreases words.len(),
{
    if words.len() == 0 {
        Seq::empty()
    } else if words.len() == 1 {
        words[0]
    } else {
        joined(words.drop_last()) + seq![' '] + words.last()
    }
}

/// The query text that the command-line words make.
pub fn query_text(words: &Vec<String>) -> (r: String)
    ensures
        r@ == joined(words@.map_values(|w: String| w@)),
{
    let ghost v = words@.map_values(|w: String| w@);
    let mut r = String::new();
    let mut k: usize = 0;
    while k < words.len()
        invariant
            k <= words.len(),
            v == words@.map_values(|w: String| w@),
            r@ == joined(v.subrange(0, k as int)),
        decreases words.len() - k,
    {
        if k > 0 {
            crate::text::push_char(&mut r, ' ');
        }
        r.append(words[k].as_str());
        proof {
            let w = v.subrange(0, k + 1);
            assert(w.drop_last() =~= v.subrange(0, k as int));
            assert(w.last() == words@[k as int]@);
            if k == 0 {
                assert(r@ =~= joined(w));
            } else {
                assert(r@ =~= joined(w));
            }
        }
        k = k + 1;
    }
    assert(v.subrange(0, words.len() as int) =~= v);
    r
}

} // verus!
