//! Identifier for a user addressed by moderation and whisper requests.
use vstd::prelude::*;

verus! {

/// A numeric user identifier.
#[derive(Clone, Copy, Debug, Hash, PartialEq, Eq, Structural, PartialOrd, Ord)]
pub struct UserID {
    value: u64,
}

impl UserID {
    /// The numeric value of this identifier.
    pub closed spec fn spec_get(&self) -> u64 {
        self.value
    }

    /// Wrap a raw numeric value as a user identifier.
    pub fn new(value: u64) -> (r: UserID)
        ensures
            r.spec_get() == value,
    {
        UserID { value }
    }

    /// The raw numeric value.
    pub fn get(&self) -> (r: u64)
        ensures
            r == self.spec_get(),
    {
        self.value
    }
}

} // verus!
