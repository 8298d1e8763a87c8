use vstd::prelude::*;

verus! {

/// Why a submission was rejected. A rejected submission changes nothing.
#[derive(Debug, Clone, Copy, PartialEq, Eq, Structural)]
pub enum Error {
    /// Adding the value to the stored total would exceed `u32::MAX`.
    StorageOverflow,
    /// The value is larger than the configured ceiling.
    ValueBiggerThanMax,
}

} // verus!
