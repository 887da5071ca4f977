//! The marker that closes the set of packet types.
use vstd::prelude::*;

verus! {

/// Implemented only inside this crate: the set of packet kinds is closed.
pub trait Sealed {

}

} // verus!
