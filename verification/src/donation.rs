//! Recorded contributions and the custody arithmetic over them.
//!
//! A project's custody balance is, at every point, the total amount of its
//! donations that have not yet been paid back out ([`sum_unsettled`]). The
//! lemmas here relate that total to appending a donation, settling one, and
//! to the totals of what has already been paid out ([`sum_settled`]) and of
//! everything ever recorded ([`sum_all`]).

use vstd::prelude::*;

verus! {

/// One accepted contribution: who gave, to which project, how much, and in
/// which position of the project's append-only list. A donation is created
/// once and never mutated except for `settled`, which is set exactly when the
/// amount has been moved back out of custody (refunded to the donor, or paid
/// out to the owner as part of the whole balance).
#[derive(Clone, Copy, Debug, PartialEq, Eq, Structural)]
pub struct Donation {
    /// The identity the amount came from.
    pub donor_id: u64,
    /// The project whose custody holds the amount.
    pub project_id: u64,
    /// The contributed amount; always positive.
    pub amount: u64,
    /// Insertion order within the project, for deterministic refund ordering.
    pub sequence: u64,
    /// Whether the amount has left custody again at resolution.
    pub settled: bool,
}

impl Donation {
    /// The same donation after its amount has left custody.
    pub open spec fn with_settled(self) -> Donation {
        Donation { settled: true, ..self }
    }

    /// Everything but the `settled` flag agrees: donations are never edited,
    /// only settled.
    pub open spec fn same_core(self, other: Donation) -> bool {
        &&& self.donor_id == other.donor_id
        &&& self.project_id == other.project_id
        &&& self.amount == other.amount
        &&& self.sequence == other.sequence
    }
}

/// The contribution a donation still makes to the custody balance.
pub open spec fn retained(d: Donation) -> int {
    if d.settled {
        0
    } else {
        d.amount as int
    }
}

/// The amount a donation has already moved back out of custody.
pub open spec fn paid_out(d: Donation) -> int {
    if d.settled {
        d.amount as int
    } else {
        0
    }
}

/// Total amount of the donations still held in custody.
pub open spec fn sum_unsettled(dons: Seq<Donation>) -> int
    decreases dons.len(),
{
    if dons.len() == 0 {
        0
    } else {
        sum_unsettled(dons.drop_last()) + retained(dons.last())
    }
}

/// Total amount already moved back out of custody.
pub open spec fn sum_settled(dons: Seq<Donation>) -> int
    decreases dons.len(),
{
    if dons.len() == 0 {
        0
    } else {
        sum_settled(dons.drop_last()) + paid_out(dons.last())
    }
}

/// Total amount ever recorded, settled or not.
pub open spec fn sum_all(dons: Seq<Donation>) -> int
    decreases dons.len(),
{
    if dons.len() == 0 {
        0
    } else {
        sum_all(dons.drop_last()) + dons.last().amount as int
    }
}

/// Every donation has left custody.
pub open spec fn all_settled(dons: Seq<Donation>) -> bool {
    forall|i: int| 0 <= i < dons.len() ==> (#[trigger] dons[i]).settled
}

/// No donation has left custody yet: the state at every point before
/// resolution first makes progress.
pub open spec fn none_settled(dons: Seq<Donation>) -> bool {
    forall|i: int| 0 <= i < dons.len() ==> !(#[trigger] dons[i]).settled
}

/// `after` is `before` with no donation added, removed or edited: at most the
/// `settled` flags differ.
pub open spec fn cores_unchanged(before: Seq<Donation>, after: Seq<Donation>) -> bool {
    &&& before.len() == after.len()
    &&& forall|i: int| 0 <= i < before.len() ==> (#[trigger] before[i]).same_core(after[i])
}

/// A donation once settled stays settled.
pub open spec fn settled_monotone(before: Seq<Donation>, after: Seq<Donation>) -> bool {
    &&& before.len() == after.len()
    &&& forall|i: int| 0 <= i < before.len() ==> ((#[trigger] before[i]).settled ==> after[i].settled)
}

/// What is recorded splits exactly into what is still held and what has been
/// paid back out: no amount is lost or duplicated by settling.
pub proof fn lemma_sums_split(dons: Seq<Donation>)
    ensures
        sum_all(dons) == sum_settled(dons) + sum_unsettled(dons),
    decreases dons.len(),
{
    if dons.len() > 0 {
        lemma_sums_split(dons.drop_last());
    }
}

/// All three totals are sums of unsigned amounts.
pub proof fn lemma_sums_nonneg(dons: Seq<Donation>)
    ensures
        sum_all(dons) >= 0,
        sum_settled(dons) >= 0,
        sum_unsettled(dons) >= 0,
    decreases dons.len(),
{
    if dons.len() > 0 {
        lemma_sums_nonneg(dons.drop_last());
    }
}

/// Appending a donation grows each total by that donation's share.
pub proof fn lemma_sums_push(dons: Seq<Donation>, d: Donation)
    ensures
        sum_unsettled(dons.push(d)) == sum_unsettled(dons) + retained(d),
        sum_settled(dons.push(d)) == sum_settled(dons) + paid_out(d),
        sum_all(dons.push(d)) == sum_all(dons) + d.amount as int,
{
    assert(dons.push(d).drop_last() =~= dons);
    assert(dons.push(d).last() == d);
}

/// Replacing the donation at `i` moves each total by the difference of the
/// two donations' shares.
pub proof fn lemma_sums_update(dons: Seq<Donation>, i: int, d: Donation)
    requires
        0 <= i < dons.len(),
    ensures
        sum_unsettled(dons.update(i, d)) == sum_unsettled(dons) - retained(dons[i]) + retained(d),
        sum_settled(dons.update(i, d)) == sum_settled(dons) - paid_out(dons[i]) + paid_out(d),
        sum_all(dons.update(i, d)) == sum_all(dons) - dons[i].amount as int + d.amount as int,
    decreases dons.len(),
{
    let updated = dons.update(i, d);
    if i == dons.len() - 1 {
        assert(updated.drop_last() =~= dons.drop_last());
        assert(updated.last() == d);
    } else {
        assert(updated.drop_last() =~= dons.drop_last().update(i, d));
        assert(updated.last() == dons.last());
        lemma_sums_update(dons.drop_last(), i, d);
    }
}

/// Once every donation is settled, nothing is retained in custody.
pub proof fn lemma_all_settled_retains_nothing(dons: Seq<Donation>)
    requires
        all_settled(dons),
    ensures
        sum_unsettled(dons) == 0,
    decreases dons.len(),
{
    if dons.len() > 0 {
        assert(forall|i: int|
            0 <= i < dons.drop_last().len() ==> #[trigger] dons.drop_last()[i] == dons[i]);
        lemma_all_settled_retains_nothing(dons.drop_last());
    }
}

/// Before resolution makes any progress, nothing has been paid back out.
pub proof fn lemma_none_settled_paid_nothing(dons: Seq<Donation>)
    requires
        none_settled(dons),
    ensures
        sum_settled(dons) == 0,
    decreases dons.len(),
{
    if dons.len() > 0 {
        assert(forall|i: int|
            0 <= i < dons.drop_last().len() ==> #[trigger] dons.drop_last()[i] == dons[i]);
        lemma_none_settled_paid_nothing(dons.drop_last());
    }
}

/// An unsettled donation's amount is still covered by the custody total.
pub proof fn lemma_sum_unsettled_at_least(dons: Seq<Donation>, i: int)
    requires
        0 <= i < dons.len(),
        !dons[i].settled,
    ensures
        sum_unsettled(dons) >= dons[i].amount as int,
    decreases dons.len(),
{
    if i == dons.len() - 1 {
        lemma_sums_nonneg(dons.drop_last());
    } else {
        assert(dons.drop_last()[i] == dons[i]);
        lemma_sum_unsettled_at_least(dons.drop_last(), i);
    }
}

} // verus!
