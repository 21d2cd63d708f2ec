//! Tag names.

use vstd::prelude::*;

pub use crate::common::TagSpecificity;

verus! {

/// A tag name as written in a query.
#[derive(Debug, PartialEq, Eq, Clone)]
pub struct Tag(pub String);

impl View for Tag {
    type V = Seq<char>;

    open spec fn view(&self) -> Seq<char> {
        self.0@
    }
}

impl Tag {
    /// A copy of this tag.
    pub fn duplicate(&self) -> (r: Tag)
        ensures
            r == *self,
    {
        Tag(self.0.clone())
    }

    /// The tag's name.
    pub fn name(&self) -> (r: &str)
        ensures
            r@ == self@,
    {
        self.0.as_str()
    }
}

} // verus!
