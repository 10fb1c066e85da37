//! What holds of the operations taken together.

use vstd::prelude::*;

use crate::accounts::Withdraw;
use crate::error::CampaignError;
use crate::identity::Identity;
use crate::ledger::{
    contributions, donation_fits, donors_unique, entries, entry_index, has_entry, lemma_first_entry,
    lemma_present, lemma_with_donation, recorded, with_donation, CampaignView, Donation,
};
use crate::operations::{withdraw_result, withdraw_state};

verus! {

/// One successful call on an existing campaign.
pub enum Step {
    /// A donation by a donor of an amount.
    Donation(Identity, u64),
    /// A withdrawal, which leaves the record alone.
    Withdrawal,
    /// A clearing of the contribution table.
    Clearing,
}

/// The record after one step.
pub open spec fn after_step(record: CampaignView, step: Step) -> CampaignView {
    match step {
        Step::Donation(donor, amount) => record.with_donation(donor, amount),
        Step::Withdrawal => record,
        Step::Clearing => record.cleared(),
    }
}

/// The record after a run of steps, taken in order.
pub open spec fn after_steps(record: CampaignView, steps: Seq<Step>) -> CampaignView
    decreases steps.len(),
{
    if steps.len() == 0 {
        record
    } else {
        after_step(after_steps(record, steps.drop_last()), steps.last())
    }
}

/// The table after `donor` gave each of `amounts` in turn.
pub open spec fn after_donations(table: Seq<Donation>, donor: Identity, amounts: Seq<u64>) -> Seq<
    Donation,
>
    decreases amounts.len(),
{
    if amounts.len() == 0 {
        table
    } else {
        with_donation(after_donations(table, donor, amounts.drop_last()), donor, amounts.last())
    }
}

/// The sum of `amounts`.
pub open spec fn total(amounts: Seq<u64>) -> nat
    decreases amounts.len(),
{
    if amounts.len() == 0 {
        0
    } else {
        total(amounts.drop_last()) + amounts.last() as nat
    }
}

/// Whatever donations, withdrawals and clearings follow its creation, a
/// campaign keeps its administrator, its name and its description.
pub proof fn law_administrator_is_kept(record: CampaignView, steps: Seq<Step>)
    ensures
        after_steps(record, steps).admin == record.admin,
        after_steps(record, steps).name == record.name,
        after_steps(record, steps).description == record.description,
    decreases steps.len(),
{
    if steps.len() > 0 {
        law_administrator_is_kept(record, steps.drop_last());
    }
}

/// Donations by one donor add up: after the donor gave each of `amounts`, and
/// the total stayed within sixty-four bits, the table holds exactly one line
/// for them, and what it records for them has grown by the sum of the amounts.
/// The table still has no repeated donor.
pub proof fn law_donations_add_up(table: Seq<Donation>, donor: Identity, amounts: Seq<u64>)
    requires
        donors_unique(table),
        amounts.len() > 0,
        recorded(table, donor) + total(amounts) <= u64::MAX,
    ensures
        donors_unique(after_donations(table, donor, amounts)),
        entries(after_donations(table, donor, amounts), donor) == 1,
        recorded(after_donations(table, donor, amounts), donor) == recorded(table, donor) + total(
            amounts,
        ),
    decreases amounts.len(),
{
    let earlier = amounts.drop_last();
    let before = after_donations(table, donor, earlier);
    assert(total(amounts) == total(earlier) + amounts.last());
    if earlier.len() > 0 {
        law_donations_add_up(table, donor, earlier);
    } else {
        assert(total(earlier) == 0);
        assert(before == table);
    }
    lemma_fits(before, donor, amounts.last());
    lemma_with_donation(before, donor, amounts.last());
}

/// Only the aggregate per donor matters: a donation changes what the table
/// holds for its donor, by the amount given, and for nobody else.
pub proof fn law_donation_is_per_donor(table: Seq<Donation>, donor: Identity, amount: u64)
    requires
        donors_unique(table),
        donation_fits(table, donor, amount),
    ensures
        contributions(with_donation(table, donor, amount)) == contributions(table).insert(
            donor,
            recorded(table, donor) + amount as nat,
        ),
{
    let after = with_donation(table, donor, amount);
    lemma_with_donation(table, donor, amount);
    assert forall|d: Identity| has_entry(after, d) <==> (d == donor || has_entry(table, d)) by {
        if has_entry(table, donor) {
            lemma_first_entry(table, donor);
            let i = entry_index(table, donor);
            if has_entry(after, d) {
                let k = choose|k: int| 0 <= k < after.len() && (#[trigger] after[k]).donor == d;
                assert(table[k].donor == d);
            }
            if has_entry(table, d) {
                let k = choose|k: int| 0 <= k < table.len() && (#[trigger] table[k]).donor == d;
                assert(after[k].donor == d);
            }
            if d == donor {
                assert(after[i].donor == donor);
            }
        } else {
            let last = table.len() as int;
            if has_entry(after, d) {
                let k = choose|k: int| 0 <= k < after.len() && (#[trigger] after[k]).donor == d;
                if k < last {
                    assert(table[k].donor == d);
                }
            }
            if has_entry(table, d) {
                let k = choose|k: int| 0 <= k < table.len() && (#[trigger] table[k]).donor == d;
                assert(after[k].donor == d);
            }
            if d == donor {
                assert(after[last].donor == donor);
            }
        }
    }
    assert(contributions(after) =~= contributions(table).insert(
        donor,
        recorded(table, donor) + amount as nat,
    ));
}

/// A donation fits where the donor's recorded total leaves room for it.
proof fn lemma_fits(table: Seq<Donation>, donor: Identity, amount: u64)
    requires
        donors_unique(table),
        recorded(table, donor) + amount <= u64::MAX,
    ensures
        donation_fits(table, donor, amount),
{
    if has_entry(table, donor) {
        lemma_first_entry(table, donor);
        lemma_present(table, donor, entry_index(table, donor));
    }
}

/// A caller who is not the administrator cannot withdraw: the call fails with
/// `NotAuthorized`, whatever the amount and the balances, and the accounts
/// stay as they were.
pub proof fn law_only_administrator_withdraws(ctx: Withdraw, amount: u64, reserve: u64)
    requires
        ctx.user != ctx.campaign.admin,
    ensures
        withdraw_result(ctx, amount, reserve) == Err::<(), CampaignError>(
            CampaignError::NotAuthorized,
        ),
        withdraw_state(ctx, amount, reserve) == ctx,
{
}

/// The administrator cannot withdraw below the reserve: where the balance
/// beyond the reserve does not cover the amount, the call fails with
/// `InsufficientFunds` and the accounts stay as they were.
pub proof fn law_reserve_is_kept(ctx: Withdraw, amount: u64, reserve: u64)
    requires
        ctx.user == ctx.campaign.admin,
        ctx.campaign_balance - reserve < amount,
    ensures
        withdraw_result(ctx, amount, reserve) == Err::<(), CampaignError>(
            CampaignError::InsufficientFunds,
        ),
        withdraw_state(ctx, amount, reserve) == ctx,
{
}

/// After every withdrawal that succeeds the campaign's account still holds its
/// reserve, and no value is made or lost between the two accounts.
pub proof fn law_withdrawal_conserves(ctx: Withdraw, amount: u64, reserve: u64)
    requires
        withdraw_result(ctx, amount, reserve) is Ok,
    ensures
        withdraw_state(ctx, amount, reserve).campaign_balance >= reserve,
        withdraw_state(ctx, amount, reserve).campaign_balance + withdraw_state(
            ctx,
            amount,
            reserve,
        ).user_balance == ctx.campaign_balance + ctx.user_balance,
{
}

/// Clearing a second time changes nothing: the table is as empty as after the
/// first.
pub proof fn law_clearing_is_idempotent(record: CampaignView)
    ensures
        record.cleared().cleared() == record.cleared(),
        record.cleared().donations.len() == 0,
        donors_unique(record.cleared().donations),
        contributions(record.cleared().donations) == Map::<Identity, nat>::empty(),
{
    assert(contributions(record.cleared().donations) =~= Map::<Identity, nat>::empty());
}

} // verus!
