//! Output line separators.

use vstd::prelude::*;

verus! {

/// What ends each line of output.
#[derive(Clone, Copy, Debug, PartialEq, Eq, Structural)]
pub enum Separator {
    Nul,
    Newline,
}

impl Separator {
    /// The separator's text.
    pub fn as_str(&self) -> (r: &'static str)
        ensures
            r@ == (match self {
                Separator::Nul => "\0"@,
                Separator::Newline => "\n"@,
            }),
    {
        match self {
            Separator::Nul => "\0",
            Separator::Newline => "\n",
        }
    }
}

} // verus!
