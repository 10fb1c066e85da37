//! What the host hands to each operation: the accounts it works on.

use vstd::prelude::*;

use crate::identity::Identity;
use crate::ledger::Campaign;

verus! {

/// The accounts of a creation.
#[derive(Debug)]
pub struct Create {
    /// What is stored at the campaign's address: nothing yet, or a record.
    pub campaign: Option<Campaign>,
    /// The caller, who becomes the administrator.
    pub user: Identity,
}

/// The accounts of a withdrawal and of a clearing of the ledger.
#[derive(Debug)]
pub struct Withdraw {
    /// The campaign's record.
    pub campaign: Campaign,
    /// The value held by the campaign's account.
    pub campaign_balance: u64,
    /// The caller.
    pub user: Identity,
    /// The value held by the caller's account.
    pub user_balance: u64,
}

/// The accounts of a donation.
#[derive(Debug)]
pub struct Donate {
    /// The campaign's record.
    pub campaign: Campaign,
    /// The address of the campaign's account.
    pub campaign_address: Identity,
    /// The caller, who gives.
    pub donor: Identity,
}

/// How the host's transfer of value ended.
#[derive(Clone, Copy, Debug, PartialEq, Eq, Structural)]
pub enum TransferOutcome {
    /// The value has moved.
    Completed,
    /// Nothing has moved.
    Failed,
}

} // verus!
