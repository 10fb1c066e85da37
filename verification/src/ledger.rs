//! The persisted record of a campaign and its per-donor contribution table.

use vstd::prelude::*;

use crate::error::CampaignError;
use crate::identity::Identity;

verus! {

/// One line of the contribution table: a donor and what they gave in total.
#[derive(Clone, Copy, Debug, PartialEq, Eq)]
pub struct Donation {
    pub donor: Identity,
    pub amount: u64,
}

/// The record of one campaign.
#[derive(Clone, Debug)]
pub struct Campaign {
    /// The only identity that may withdraw funds or clear the table.
    pub admin: Identity,
    pub name: String,
    pub description: String,
    /// The contribution table, with at most one line per donor. Nothing here
    /// bounds its length: the space that the host has allotted to the record
    /// does.
    pub donations: Vec<Donation>,
}

/// What a campaign record holds, as mathematical values.
pub struct CampaignView {
    pub admin: Identity,
    pub name: Seq<char>,
    pub description: Seq<char>,
    pub donations: Seq<Donation>,
}

impl View for Campaign {
    type V = CampaignView;

    open spec fn view(&self) -> CampaignView {
        CampaignView {
            admin: self.admin,
            name: self.name@,
            description: self.description@,
            donations: self.donations@,
        }
    }
}

impl CampaignView {
    /// The same record with an empty contribution table.
    pub open spec fn cleared(self) -> CampaignView {
        CampaignView { donations: Seq::empty(), ..self }
    }

    /// The same record after `donor` gave `amount`.
    pub open spec fn with_donation(self, donor: Identity, amount: u64) -> CampaignView {
        CampaignView { donations: with_donation(self.donations, donor, amount), ..self }
    }
}

/// Whether line `i` of `table` is the first one that belongs to `donor`.
pub open spec fn is_entry_of(table: Seq<Donation>, donor: Identity, i: int) -> bool {
    &&& 0 <= i < table.len()
    &&& table[i].donor == donor
    &&& forall|j: int| 0 <= j < i ==> (#[trigger] table[j]).donor != donor
}

/// Whether `table` has a line for `donor`.
pub open spec fn has_entry(table: Seq<Donation>, donor: Identity) -> bool {
    exists|i: int| 0 <= i < table.len() && (#[trigger] table[i]).donor == donor
}

/// The position of the first line of `donor`, where `table` has one.
pub open spec fn entry_index(table: Seq<Donation>, donor: Identity) -> int {
    choose|i: int| is_entry_of(table, donor, i)
}

/// No donor has two lines in `table`.
pub open spec fn donors_unique(table: Seq<Donation>) -> bool {
    forall|i: int, j: int|
        0 <= i < j < table.len() ==> (#[trigger] table[i]).donor != (#[trigger] table[j]).donor
}

/// The sum of the amounts on the lines of `donor`.
pub open spec fn recorded(table: Seq<Donation>, donor: Identity) -> nat
    decreases table.len(),
{
    if table.len() == 0 {
        0
    } else {
        let rest = recorded(table.drop_last(), donor);
        if table.last().donor == donor {
            rest + table.last().amount as nat
        } else {
            rest
        }
    }
}

/// The number of lines of `donor`.
pub open spec fn entries(table: Seq<Donation>, donor: Identity) -> nat
    decreases table.len(),
{
    if table.len() == 0 {
        0
    } else {
        let rest = entries(table.drop_last(), donor);
        if table.last().donor == donor {
            rest + 1
        } else {
            rest
        }
    }
}

/// What each donor of `table` has given in all, whatever the order of the
/// lines.
pub open spec fn contributions(table: Seq<Donation>) -> Map<Identity, nat> {
    Map::new(|donor: Identity| has_entry(table, donor), |donor: Identity| recorded(table, donor))
}

/// Whether `amount` can be added to what `table` holds for `donor` within
/// sixty-four bits.
pub open spec fn donation_fits(table: Seq<Donation>, donor: Identity, amount: u64) -> bool {
    has_entry(table, donor) ==> table[entry_index(table, donor)].amount + amount <= u64::MAX
}

/// The table after `donor` gave `amount`: their line grows by `amount`, or a
/// new line is appended when they had none.
pub open spec fn with_donation(table: Seq<Donation>, donor: Identity, amount: u64) -> Seq<
    Donation,
> {
    if has_entry(table, donor) {
        let i = entry_index(table, donor);
        table.update(i, Donation { donor, amount: (table[i].amount + amount) as u64 })
    } else {
        table.push(Donation { donor, amount })
    }
}

/// The first line of a donor is the one that `entry_index` names.
pub proof fn lemma_entry_index(table: Seq<Donation>, donor: Identity, i: int)
    requires
        is_entry_of(table, donor, i),
    ensures
        has_entry(table, donor),
        entry_index(table, donor) == i,
{
    let k = entry_index(table, donor);
    assert(is_entry_of(table, donor, k));
    if k < i {
        assert(table[k].donor != donor);
    }
    if i < k {
        assert(table[i].donor != donor);
    }
}

/// A table with a line for a donor has a first such line.
pub proof fn lemma_first_entry(table: Seq<Donation>, donor: Identity)
    requires
        has_entry(table, donor),
    ensures
        is_entry_of(table, donor, entry_index(table, donor)),
    decreases table.len(),
{
    let k = choose|i: int| 0 <= i < table.len() && (#[trigger] table[i]).donor == donor;
    let front = table.subrange(0, k);
    if has_entry(front, donor) {
        lemma_first_entry(front, donor);
        let f = entry_index(front, donor);
        assert(front[f] == table[f]);
        assert forall|j: int| 0 <= j < f implies (#[trigger] table[j]).donor != donor by {
            assert(front[j] == table[j]);
        }
        assert(is_entry_of(table, donor, f));
    } else {
        assert forall|j: int| 0 <= j < k implies (#[trigger] table[j]).donor != donor by {
            assert(front[j] == table[j]);
        }
        assert(is_entry_of(table, donor, k));
    }
}

/// A donor without a line has given nothing.
pub proof fn lemma_absent(table: Seq<Donation>, donor: Identity)
    requires
        !has_entry(table, donor),
    ensures
        recorded(table, donor) == 0,
        entries(table, donor) == 0,
    decreases table.len(),
{
    if table.len() > 0 {
        let rest = table.drop_last();
        assert(table[table.len() - 1].donor != donor);
        assert forall|i: int| 0 <= i < rest.len() implies (#[trigger] rest[i]).donor != donor by {
            assert(table[i].donor != donor);
        }
        lemma_absent(rest, donor);
    }
}

/// In a table without repeated donors, a donor's line is their only one and
/// holds all they gave.
pub proof fn lemma_present(table: Seq<Donation>, donor: Identity, i: int)
    requires
        donors_unique(table),
        0 <= i < table.len(),
        table[i].donor == donor,
    ensures
        recorded(table, donor) == table[i].amount,
        entries(table, donor) == 1,
    decreases table.len(),
{
    let rest = table.drop_last();
    let last = table.len() - 1;
    if i == last {
        assert forall|j: int| 0 <= j < rest.len() implies (#[trigger] rest[j]).donor != donor by {
            assert(table[j].donor != table[last].donor);
        }
        lemma_absent(rest, donor);
    } else {
        assert(table[i].donor != table[last].donor);
        assert forall|a: int, b: int| 0 <= a < b < rest.len() implies (#[trigger] rest[a]).donor
            != (#[trigger] rest[b]).donor by {
            assert(table[a].donor != table[b].donor);
        }
        assert(rest[i] == table[i]);
        lemma_present(rest, donor, i);
    }
}

/// What a donation does to a table without repeated donors: the donor ends
/// with exactly one line, which holds `amount` more than before; the table
/// still has no repeated donor; and every other donor's lines are as they were.
pub proof fn lemma_with_donation(table: Seq<Donation>, donor: Identity, amount: u64)
    requires
        donors_unique(table),
        donation_fits(table, donor, amount),
    ensures
        donors_unique(with_donation(table, donor, amount)),
        entries(with_donation(table, donor, amount), donor) == 1,
        recorded(with_donation(table, donor, amount), donor) == recorded(table, donor) + amount,
        forall|other: Identity|
            other != donor ==> recorded(with_donation(table, donor, amount), other) == recorded(
                table,
                other,
            ) && entries(with_donation(table, donor, amount), other) == entries(table, other),
{
    let after = with_donation(table, donor, amount);
    if has_entry(table, donor) {
        lemma_first_entry(table, donor);
        let i = entry_index(table, donor);
        assert forall|a: int, b: int| 0 <= a < b < after.len() implies (#[trigger] after[a]).donor
            != (#[trigger] after[b]).donor by {
            assert(table[a].donor != table[b].donor);
        }
        lemma_present(table, donor, i);
        lemma_present(after, donor, i);
        assert forall|other: Identity| other != donor implies recorded(after, other) == recorded(
            table,
            other,
        ) && entries(after, other) == entries(table, other) by {
            lemma_others_kept(table, after, other);
        }
    } else {
        lemma_absent(table, donor);
        let last = after.len() - 1;
        assert(after.drop_last() =~= table);
        assert forall|a: int, b: int| 0 <= a < b < after.len() implies (#[trigger] after[a]).donor
            != (#[trigger] after[b]).donor by {
            if b == last {
                assert(table[a].donor != donor);
            } else {
                assert(table[a].donor != table[b].donor);
            }
        }
    }
}

/// Two tables of one length that agree on every line of `other` and on which
/// lines are theirs hold the same for `other`.
pub proof fn lemma_others_kept(before: Seq<Donation>, after: Seq<Donation>, other: Identity)
    requires
        before.len() == after.len(),
        forall|i: int|
            0 <= i < before.len() ==> ((#[trigger] before[i]).donor == other
                <==> (#[trigger] after[i]).donor == other),
        forall|i: int|
            0 <= i < before.len() && (#[trigger] before[i]).donor == other ==> before[i] == after[i],
    ensures
        recorded(after, other) == recorded(before, other),
        entries(after, other) == entries(before, other),
    decreases before.len(),
{
    if before.len() > 0 {
        let last = before.len() - 1;
        assert(before[last].donor == other <==> after[last].donor == other);
        let b = before.drop_last();
        let a = after.drop_last();
        assert forall|i: int| 0 <= i < b.len() implies ((#[trigger] b[i]).donor == other
            <==> (#[trigger] a[i]).donor == other) by {
            assert(before[i].donor == other <==> after[i].donor == other);
        }
        assert forall|i: int| 0 <= i < b.len() && (#[trigger] b[i]).donor == other implies b[i]
            == a[i] by {
            assert(before[i].donor == other);
        }
        lemma_others_kept(b, a, other);
    }
}

impl Campaign {
    /// Whether the record keeps its invariant: no donor has two lines.
    pub open spec fn wf(&self) -> bool {
        donors_unique(self.donations@)
    }

    /// A fresh record for `admin`, with an empty contribution table.
    pub fn new(admin: Identity, name: String, description: String) -> (r: Campaign)
        ensures
            r.admin == admin,
            r.name == name,
            r.description == description,
            r.donations@ == Seq::<Donation>::empty(),
            r.wf(),
    {
        Campaign { admin, name, description, donations: Vec::new() }
    }

    /// Writes a donation of `amount` by `donor` into the table: the donor's
    /// line grows by `amount`, or a new line is appended when they had none.
    /// Where the donor's total would leave sixty-four bits the record stays as
    /// it was.
    pub fn record_donation(&mut self, donor: Identity, amount: u64) -> (r: Result<
        (),
        CampaignError,
    >)
        ensures
            donation_fits(old(self).donations@, donor, amount) ==> r == Ok::<(), CampaignError>(())
                && final(self)@ == old(self)@.with_donation(donor, amount),
            !donation_fits(old(self).donations@, donor, amount) ==> r == Err::<(), CampaignError>(
                CampaignError::AmountOverflow,
            ) && *final(self) == *old(self),
            final(self).admin == old(self).admin,
            final(self).name == old(self).name,
            final(self).description == old(self).description,
    {
        let mut i: usize = 0;
        while i < self.donations.len()
            invariant
                *self == *old(self),
                0 <= i <= self.donations.len(),
                forall|j: int| 0 <= j < i ==> (#[trigger] self.donations@[j]).donor != donor,
            decreases self.donations.len() - i,
        {
            if self.donations[i].donor == donor {
                proof {
                    lemma_entry_index(self.donations@, donor, i as int);
                }
                let held: u64 = self.donations[i].amount;
                if amount > u64::MAX - held {
                    return Err(CampaignError::AmountOverflow);
                }
                self.donations.set(i, Donation { donor, amount: held + amount });
                return Ok(());
            }
            i += 1;
        }
        self.donations.push(Donation { donor, amount });
        Ok(())
    }
}

} // verus!
