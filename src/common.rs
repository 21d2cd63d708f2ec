//! Matching modes shared by the query compiler and the stores.

use vstd::prelude::*;

verus! {

/// Whether a query honours implied taggings or only explicit ones.
#[derive(Clone, Copy, Debug, PartialEq, Eq, Structural)]
pub enum TagSpecificity {
    All,
    ExplicitOnly,
}

/// Whether tag and value names are compared with case folding.
#[derive(Clone, Copy, Debug, PartialEq, Eq, Structural)]
pub enum Casing {
    Insensitive,
    Sensitive,
}

/// Which kinds of filesystem entry a query returns.
#[derive(Clone, Copy, Debug, PartialEq, Eq, Structural)]
pub enum FileTypeSpecificity {
    Any,
    FileOnly,
    DirectoryOnly,
}

} // verus!
