//! The typed failures of the campaign operations.

use vstd::prelude::*;

verus! {

/// Why an operation on a campaign was refused. Every failure is final for the
/// operation that met it and leaves the state it was given untouched.
#[derive(Clone, Copy, Debug, PartialEq, Eq, Structural, Hash)]
pub enum CampaignError {
    /// A campaign already exists for this administrator.
    DuplicateCampaign,
    /// The caller is not the campaign's administrator.
    NotAuthorized,
    /// The withdrawal would leave less than the mandatory reserve.
    InsufficientFunds,
    /// The transfer of value did not take place.
    TransferFailed,
    /// An amount would leave the range of a 64-bit unsigned integer.
    AmountOverflow,
    /// A donation of zero was offered.
    InvalidAmount,
}

} // verus!
