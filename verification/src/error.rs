//! What can go wrong with a transfer.

use vstd::prelude::*;

verus! {

/// Why a packet was not delivered.
#[derive(Clone, Copy, Debug, PartialEq, Eq, Structural)]
pub enum Error {
    /// The logical address is not one of the eight that the radio has.
    InvalidAddress,
    /// Every permitted attempt went by without a valid acknowledgement.
    MaxRetryExceeded,
}

} // verus!
