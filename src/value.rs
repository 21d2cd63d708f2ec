//! Value names.

use vstd::prelude::*;


verus! {

/// A value name as written in a query comparison.
#[derive(Debug, PartialEq, Eq, Clone)]
pub struct Value(pub String);

impl View for Value {
    type V = Seq<char>;

    open spec fn view(&self) -> Seq<char> {
        self.0@
    }
}

impl Value {
    /// A copy of this value.
    pub fn duplicate(&self) -> (r: Value)
        ensures
            r == *self,
    {
        Value(self.0.clone())
    }

    /// The value's name.
    pub fn name(&self) -> (r: &str)
        ensures
            r@ == self@,
    {
        self.0.as_str()
    }
}

} // verus!
