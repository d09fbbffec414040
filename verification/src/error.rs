//! The two ways in which a region operation can fail.

use vstd::prelude::*;

verus! {

/// Why a region could not be built, or could not serve a request.
#[derive(Debug, Copy, Clone, PartialEq, Eq, Structural)]
pub enum AllocError {
    /// The host could not supply the backing memory for a new region.
    ReservationFailed,
    /// The request does not fit in what is left of the region.
    CapacityExhausted,
}

impl AllocError {
    /// The text reported for this error.
    pub open spec fn spec_message(self) -> Seq<char> {
        "Out of memory"@
    }

    /// Returns the text reported for this error.
    pub fn message(&self) -> (text: &'static str)
        ensures
            text@ == self.spec_message(),
    {
        "Out of memory"
    }
}

} // verus!
