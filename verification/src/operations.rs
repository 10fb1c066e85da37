//! The four operations on a campaign.

use vstd::prelude::*;

use crate::accounts::{Create, Donate, TransferOutcome, Withdraw};
use crate::error::CampaignError;
use crate::host::{is_system_transfer, system_transfer, HostInstruction};
use crate::guards::{authority_guard, is_solvent, solvency_guard};
use crate::identity::Identity;
use crate::ledger::{donation_fits, entries, lemma_with_donation, recorded, Campaign, Donation};

verus! {

/// Creates the campaign of the caller, who becomes its administrator. The new
/// record carries the given name and description and an empty contribution
/// table. Where a record is already stored at the campaign's address, nothing
/// changes and the call fails with `DuplicateCampaign`.
pub fn create(ctx: &mut Create, name: String, description: String) -> (r: Result<
    (),
    CampaignError,
>)
    ensures
        old(ctx).campaign is Some ==> {
            &&& r == Err::<(), CampaignError>(CampaignError::DuplicateCampaign)
            &&& *final(ctx) == *old(ctx)
        },
        old(ctx).campaign is None ==> {
            &&& r == Ok::<(), CampaignError>(())
            &&& final(ctx).user == old(ctx).user
            &&& final(ctx).campaign is Some
            &&& final(ctx).campaign->0.admin == old(ctx).user
            &&& final(ctx).campaign->0.name == name
            &&& final(ctx).campaign->0.description == description
            &&& final(ctx).campaign->0.donations@ == Seq::<Donation>::empty()
            &&& final(ctx).campaign->0.wf()
        },
{
    if ctx.campaign.is_some() {
        return Err(CampaignError::DuplicateCampaign);
    }
    ctx.campaign = Some(Campaign::new(ctx.user, name, description));
    Ok(())
}

/// Moves `amount` from the campaign's account to the administrator's.
///
/// The checks come in this order. A caller who is not the administrator is
/// refused with `NotAuthorized`. A withdrawal that the account cannot cover
/// beyond its `reserve` is refused with `InsufficientFunds`. One that would
/// lift the caller's balance out of sixty-four bits is refused with
/// `AmountOverflow`. A refused call changes nothing. A withdrawal of zero by
/// the administrator from a solvent account succeeds and moves nothing. The
/// record itself is never touched.
pub fn withdraw(ctx: &mut Withdraw, amount: u64, reserve: u64) -> (r: Result<(), CampaignError>)
    ensures
        r == withdraw_result(*old(ctx), amount, reserve),
        *final(ctx) == withdraw_state(*old(ctx), amount, reserve),
        final(ctx).campaign == old(ctx).campaign,
        final(ctx).user == old(ctx).user,
        r is Ok ==> final(ctx).campaign_balance >= reserve,
{
    if authority_guard(&ctx.campaign, &ctx.user).is_err() {
        return Err(CampaignError::NotAuthorized);
    }
    if solvency_guard(ctx.campaign_balance, reserve, amount).is_err() {
        return Err(CampaignError::InsufficientFunds);
    }
    if amount > u64::MAX - ctx.user_balance {
        return Err(CampaignError::AmountOverflow);
    }
    ctx.campaign_balance = ctx.campaign_balance - amount;
    ctx.user_balance = ctx.user_balance + amount;
    Ok(())
}

/// How a withdrawal of `amount` from `ctx` ends when the account must keep
/// `reserve`.
pub open spec fn withdraw_result(ctx: Withdraw, amount: u64, reserve: u64) -> Result<
    (),
    CampaignError,
> {
    if ctx.campaign.admin != ctx.user {
        Err(CampaignError::NotAuthorized)
    } else if !is_solvent(ctx.campaign_balance, reserve, amount) {
        Err(CampaignError::InsufficientFunds)
    } else if ctx.user_balance + amount > u64::MAX {
        Err(CampaignError::AmountOverflow)
    } else {
        Ok(())
    }
}

/// What the accounts hold after a withdrawal of `amount` from `ctx` was asked
/// for: `amount` has moved from the campaign's balance to the caller's where
/// the withdrawal succeeds, and nothing has changed where it fails.
pub open spec fn withdraw_state(ctx: Withdraw, amount: u64, reserve: u64) -> Withdraw {
    if withdraw_result(ctx, amount, reserve) is Ok {
        Withdraw {
            campaign_balance: (ctx.campaign_balance - amount) as u64,
            user_balance: (ctx.user_balance + amount) as u64,
            ..ctx
        }
    } else {
        ctx
    }
}

/// The instruction that a donation of `amount` asks the host to carry out: a
/// transfer by the system program from the donor, who signs, to the campaign's
/// account. A donation of zero is refused with `InvalidAmount` before any
/// value moves.
pub fn donation_transfer(ctx: &Donate, amount: u64) -> (r: Result<HostInstruction, CampaignError>)
    ensures
        amount == 0 ==> r == Err::<HostInstruction, CampaignError>(CampaignError::InvalidAmount),
        amount != 0 ==> r is Ok && is_system_transfer(
            r->Ok_0,
            ctx.donor,
            ctx.campaign_address,
            amount,
        ),
{
    if amount == 0 {
        Err(CampaignError::InvalidAmount)
    } else {
        Ok(system_transfer(&ctx.donor, &ctx.campaign_address, amount))
    }
}

/// How a donation of `amount` to `ctx` ends, given how the transfer ended.
pub open spec fn donate_result(ctx: Donate, amount: u64, transfer: TransferOutcome) -> Result<
    (),
    CampaignError,
> {
    if amount == 0 {
        Err(CampaignError::InvalidAmount)
    } else if transfer == TransferOutcome::Failed {
        Err(CampaignError::TransferFailed)
    } else if !donation_fits(ctx.campaign.donations@, ctx.donor, amount) {
        Err(CampaignError::AmountOverflow)
    } else {
        Ok(())
    }
}

/// Records a donation of `amount` by the caller, once the host has tried the
/// transfer that `donation_transfer` asked for and reports how it ended.
///
/// A donation of zero is refused with `InvalidAmount`, a transfer that failed
/// with `TransferFailed`, and a donation that would lift the donor's total out
/// of sixty-four bits with `AmountOverflow`; a refused call changes nothing.
/// Otherwise the donor's line in the contribution table grows by `amount`, or
/// a line is appended for a donor who had none. Anyone may donate.
pub fn donate(ctx: &mut Donate, amount: u64, transfer: TransferOutcome) -> (r: Result<
    (),
    CampaignError,
>)
    ensures
        r == donate_result(*old(ctx), amount, transfer),
        r is Err ==> *final(ctx) == *old(ctx),
        r is Ok ==> final(ctx).campaign@ == old(ctx).campaign@.with_donation(old(ctx).donor, amount),
        final(ctx).donor == old(ctx).donor,
        final(ctx).campaign_address == old(ctx).campaign_address,
        final(ctx).campaign.admin == old(ctx).campaign.admin,
        final(ctx).campaign.name == old(ctx).campaign.name,
        final(ctx).campaign.description == old(ctx).campaign.description,
        old(ctx).campaign.wf() ==> final(ctx).campaign.wf(),
        r is Ok && old(ctx).campaign.wf() ==> {
            &&& entries(final(ctx).campaign.donations@, old(ctx).donor) == 1
            &&& recorded(final(ctx).campaign.donations@, old(ctx).donor) == recorded(
                old(ctx).campaign.donations@,
                old(ctx).donor,
            ) + amount
            &&& forall|other: Identity|
                other != old(ctx).donor ==> {
                    &&& #[trigger] recorded(final(ctx).campaign.donations@, other) == recorded(
                        old(ctx).campaign.donations@,
                        other,
                    )
                    &&& entries(final(ctx).campaign.donations@, other) == entries(
                        old(ctx).campaign.donations@,
                        other,
                    )
                }
        },
{
    if amount == 0 {
        return Err(CampaignError::InvalidAmount);
    }
    if transfer == TransferOutcome::Failed {
        return Err(CampaignError::TransferFailed);
    }
    proof {
        if ctx.campaign.wf() && donation_fits(ctx.campaign.donations@, ctx.donor, amount) {
            lemma_with_donation(ctx.campaign.donations@, ctx.donor, amount);
        }
    }
    ctx.campaign.record_donation(ctx.donor, amount)
}

/// Empties the contribution table. A caller who is not the administrator is
/// refused with `NotAuthorized`, and nothing changes. No balance is touched.
pub fn clear_donations(ctx: &mut Withdraw) -> (r: Result<(), CampaignError>)
    ensures
        old(ctx).campaign.admin != old(ctx).user ==> {
            &&& r == Err::<(), CampaignError>(CampaignError::NotAuthorized)
            &&& *final(ctx) == *old(ctx)
        },
        old(ctx).campaign.admin == old(ctx).user ==> {
            &&& r == Ok::<(), CampaignError>(())
            &&& final(ctx).campaign@ == old(ctx).campaign@.cleared()
            &&& final(ctx).campaign.wf()
        },
        final(ctx).user == old(ctx).user,
        final(ctx).campaign_balance == old(ctx).campaign_balance,
        final(ctx).user_balance == old(ctx).user_balance,
        final(ctx).campaign.admin == old(ctx).campaign.admin,
        final(ctx).campaign.name == old(ctx).campaign.name,
        final(ctx).campaign.description == old(ctx).campaign.description,
{
    if authority_guard(&ctx.campaign, &ctx.user).is_err() {
        return Err(CampaignError::NotAuthorized);
    }
    ctx.campaign.donations.clear();
    Ok(())
}

} // verus!
