//! Database settings.

use vstd::prelude::*;

verus! {

/// A named database setting.
#[derive(Clone, Copy, Debug, PartialEq, Eq, Structural)]
pub enum Setting {
    /// The directory that stored file paths are relative to.
    Root,
}

impl Setting {
    /// The setting's stored name.
    pub fn name(&self) -> (r: &'static str)
        ensures
            r@ == "database-root"@,
    {
        match self {
            Setting::Root => "database-root",
        }
    }
}

} // verus!
