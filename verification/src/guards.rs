//! The two guards that protect a campaign's funds and ledger.

use vstd::prelude::*;

use crate::error::CampaignError;
use crate::identity::Identity;
use crate::ledger::Campaign;

verus! {

/// Whether `balance` can give up `amount` and still hold `reserve`.
pub open spec fn is_solvent(balance: u64, reserve: u64, amount: u64) -> bool {
    balance - reserve >= amount
}

/// Lets only the campaign's administrator through.
pub fn authority_guard(campaign: &Campaign, caller: &Identity) -> (r: Result<(), CampaignError>)
    ensures
        campaign.admin == *caller ==> r == Ok::<(), CampaignError>(()),
        campaign.admin != *caller ==> r == Err::<(), CampaignError>(CampaignError::NotAuthorized),
{
    if campaign.admin == *caller {
        Ok(())
    } else {
        Err(CampaignError::NotAuthorized)
    }
}

/// Lets a withdrawal through only if the account keeps its reserve: what the
/// account holds beyond `reserve` must cover `amount`. An account that holds
/// less than its reserve can give nothing, not even zero.
pub fn solvency_guard(balance: u64, reserve: u64, amount: u64) -> (r: Result<(), CampaignError>)
    ensures
        is_solvent(balance, reserve, amount) ==> r == Ok::<(), CampaignError>(()),
        !is_solvent(balance, reserve, amount) ==> r == Err::<(), CampaignError>(
            CampaignError::InsufficientFunds,
        ),
{
    if balance >= reserve && balance - reserve >= amount {
        Ok(())
    } else {
        Err(CampaignError::InsufficientFunds)
    }
}

} // verus!
