//! A single campaign's record and the operations that move funds through it.
//!
//! [`ProjectAccount`] keeps the persisted record of one campaign: owner,
//! name, target, custody balance, status, and the append-only donation list.
//! [`ProjectAccount::record`] accepts a contribution and
//! [`ProjectAccount::resolve`] closes the campaign, refunding every donor
//! (failure) or paying the whole balance to the owner (success). Both drive
//! the external value-transfer primitive through a [`TransferPort`] and state
//! what holds of the record for every outcome of those transfers.

use vstd::prelude::*;

use crate::donation::{
    all_settled, cores_unchanged, none_settled, settled_monotone, sum_all, sum_settled,
    sum_unsettled, Donation,
};
use crate::donation::{
    lemma_all_settled_retains_nothing, lemma_none_settled_paid_nothing, lemma_sum_unsettled_at_least,
    lemma_sums_push, lemma_sums_split, lemma_sums_update,
};
use crate::errors::CustomError;
use crate::port::TransferPort;
use crate::status::ProjectStatus;

verus! {

/// The domain-separation tag mixed into every project address, so that a
/// project's custody account is distinct from its owner's own account.
pub const PROJECT_ADDRESS_TAG: u64 = 0x8000_0000_0000_0000;

/// The engine's model of the platform's deterministic address derivation: a
/// project's address is computable from the owner identity alone, so one
/// project address exists per owner. The cryptographic one-way derivation is
/// a collaborator outside the engine; the model keeps the two properties the
/// engine leans on — distinct owners derive distinct addresses, and an
/// owner's address is never the owner's own identity — without restating the
/// derivation's mechanics, and claims no more (in particular not that an
/// address avoids every other identity, which only the platform's
/// collision-resistant derivation provides).
pub open spec fn spec_project_address(owner_id: u64) -> u64 {
    owner_id ^ PROJECT_ADDRESS_TAG
}

/// Computes the address of the project owned by `owner_id`, which is also
/// the custody account its donations are held in.
#[verifier::when_used_as_spec(spec_project_address)]
pub fn project_address(owner_id: u64) -> (addr: u64)
    ensures
        addr == spec_project_address(owner_id),
{
    owner_id ^ PROJECT_ADDRESS_TAG
}

/// Distinct owners derive distinct project addresses.
pub proof fn lemma_project_address_injective(a: u64, b: u64)
    requires
        spec_project_address(a) == spec_project_address(b),
    ensures
        a == b,
{
    assert((a ^ 0x8000_0000_0000_0000u64 == b ^ 0x8000_0000_0000_0000u64) ==> a == b)
        by (bit_vector);
}

/// The persisted record of one campaign. The custody holder for its funds is
/// the project's own address.
#[derive(Debug)]
pub struct ProjectAccount {
    /// The identity that created the project; immutable.
    pub owner: u64,
    /// The campaign's display name; immutable.
    pub name: String,
    /// The funding goal; immutable and positive.
    pub financial_target: u64,
    /// The custody balance: the total of the donations not yet paid back out.
    pub balance: u64,
    /// Where the campaign stands in its lifecycle.
    pub status: ProjectStatus,
    /// The derivation bump byte recorded with the address scheme; opaque to
    /// the engine.
    pub bump: u8,
    /// Every accepted contribution, in insertion order; append-only.
    pub donations: Vec<Donation>,
}

impl ProjectAccount {
    /// The project's address, derived from its owner.
    pub open spec fn project_id(self) -> u64 {
        spec_project_address(self.owner)
    }

    /// Well-formedness of a project record; established at creation and
    /// preserved by every operation.
    pub open spec fn inv(self) -> bool {
        &&& self.financial_target > 0
        &&& self.balance as int == sum_unsettled(self.donations@)
        &&& forall|i: int|
            0 <= i < self.donations@.len() ==> (#[trigger] self.donations@[i]).amount > 0
        &&& forall|i: int|
            0 <= i < self.donations@.len() ==> (#[trigger] self.donations@[i]).project_id
                == self.project_id()
        &&& forall|i: int|
            0 <= i < self.donations@.len() ==> (#[trigger] self.donations@[i]).sequence == i as u64
        &&& self.status is Active ==> self.balance < self.financial_target
        &&& self.status is TargetReached ==> self.balance >= self.financial_target
        &&& self.status.is_terminal() ==> all_settled(self.donations@) && self.balance == 0
    }

    /// A just-created record: empty custody, no donations, `Active`.
    pub open spec fn is_fresh(self, owner_id: u64, name: Seq<char>, financial_target: u64) -> bool {
        &&& self.owner == owner_id
        &&& self.name@ == name
        &&& self.financial_target == financial_target
        &&& self.balance == 0
        &&& self.status is Active
        &&& self.donations@.len() == 0
        &&& self.bump == 0
    }

    /// Creates the record for a new campaign with `balance = 0` and
    /// `status = Active`. The registry rejects a zero target before calling
    /// this.
    pub fn create(owner_id: u64, name: String, financial_target: u64) -> (p: ProjectAccount)
        requires
            financial_target > 0,
        ensures
            p.inv(),
            p.is_fresh(owner_id, name@, financial_target),
    {
        ProjectAccount {
            owner: owner_id,
            name,
            financial_target,
            balance: 0,
            status: ProjectStatus::Active,
            bump: 0,
            donations: Vec::new(),
        }
    }

    /// Whether a donation of `amount` would be accepted right now, and the
    /// error it is refused with otherwise. `capacity` is the configured hard
    /// bound on the donation list (the record's reserved size).
    pub open spec fn donate_check(self, amount: u64, capacity: usize) -> Result<(), CustomError> {
        if !(self.status is Active) {
            Err(CustomError::InvalidProjectStatus)
        } else if amount == 0 {
            Err(CustomError::InvalidTarget)
        } else if self.donations@.len() >= capacity {
            Err(CustomError::CapacityExceeded)
        } else if self.balance + amount > u64::MAX {
            Err(CustomError::ArithmeticOverflow)
        } else {
            Ok(())
        }
    }

    /// Tests [`ProjectAccount::donate_check`]: read-only, so a caller can
    /// decide whether to move funds before committing anything.
    pub fn check_donation(&self, amount: u64, capacity: usize) -> (r: Result<(), CustomError>)
        ensures
            r == self.donate_check(amount, capacity),
    {
        if !matches!(self.status, ProjectStatus::Active) {
            Err(CustomError::InvalidProjectStatus)
        } else if amount == 0 {
            Err(CustomError::InvalidTarget)
        } else if self.donations.len() >= capacity {
            Err(CustomError::CapacityExceeded)
        } else if amount > u64::MAX - self.balance {
            Err(CustomError::ArithmeticOverflow)
        } else {
            Ok(())
        }
    }

    /// The ledger effect of one accepted donation: the new donation is
    /// appended unsettled with the next sequence number, the balance grows by
    /// its amount, and the status moves to `TargetReached` exactly when the
    /// new balance meets the target.
    pub open spec fn donate_commit_post(
        pre: ProjectAccount,
        post: ProjectAccount,
        donor_id: u64,
        amount: u64,
    ) -> bool {
        &&& post.owner == pre.owner
        &&& post.name@ == pre.name@
        &&& post.financial_target == pre.financial_target
        &&& post.bump == pre.bump
        &&& post.balance == pre.balance + amount
        &&& post.donations@ == pre.donations@.push(
            Donation {
                donor_id,
                project_id: pre.project_id(),
                amount,
                sequence: pre.donations@.len() as u64,
                settled: false,
            },
        )
        &&& post.status == (if pre.balance + amount >= pre.financial_target {
            ProjectStatus::TargetReached
        } else {
            ProjectStatus::Active
        })
    }

    /// Records a donation whose transfer into custody has already committed:
    /// appends it, grows the balance, and crosses into `TargetReached` when
    /// the target is met. Returns the new balance and status.
    pub fn commit_donation(&mut self, donor_id: u64, amount: u64) -> (r: (u64, ProjectStatus))
        requires
            old(self).inv(),
            old(self).status is Active,
            amount > 0,
            old(self).balance + amount <= u64::MAX,
        ensures
            final(self).inv(),
            Self::donate_commit_post(*old(self), *final(self), donor_id, amount),
            r == (final(self).balance, final(self).status),
    {
        let sequence = self.donations.len() as u64;
        let d = Donation {
            donor_id,
            project_id: project_address(self.owner),
            amount,
            sequence,
            settled: false,
        };
        proof {
            lemma_sums_push(self.donations@, d);
        }
        self.donations.push(d);
        self.balance = self.balance + amount;
        if self.balance >= self.financial_target {
            match self.status.transition(ProjectStatus::TargetReached) {
                Ok(next) => {
                    self.status = next;
                },
                Err(_) => {
                    assert(false);
                },
            }
        }
        (self.balance, self.status)
    }

    /// Everything [`ProjectAccount::record`] promises, for every outcome of
    /// the custody transfer: a failed check refuses with exactly that error
    /// and changes nothing; past the checks, either the transfer was rejected
    /// (`TransferFailed`, nothing changed) or the donation is recorded as
    /// [`ProjectAccount::donate_commit_post`] states.
    pub open spec fn donate_post(
        pre: ProjectAccount,
        post: ProjectAccount,
        donor_id: u64,
        amount: u64,
        capacity: usize,
        r: Result<(u64, ProjectStatus), CustomError>,
    ) -> bool {
        &&& pre.donate_check(amount, capacity) matches Err(e) ==> r == Err::<
            (u64, ProjectStatus),
            CustomError,
        >(e) && post == pre
        &&& pre.donate_check(amount, capacity) is Ok ==> {
            ||| r == Err::<(u64, ProjectStatus), CustomError>(CustomError::TransferFailed) && post
                == pre
            ||| r == Ok::<(u64, ProjectStatus), CustomError>((post.balance, post.status))
                && Self::donate_commit_post(pre, post, donor_id, amount)
        }
    }

    /// Accepts a contribution: checks that the project is `Active`, the
    /// amount positive, the donation list under `capacity` and the balance
    /// safe from overflow; then moves `amount` from the donor into custody
    /// through `port` and, only if that transfer committed, records the
    /// donation. Returns the new balance and status.
    pub fn record<P: TransferPort>(
        &mut self,
        port: &mut P,
        donor_id: u64,
        amount: u64,
        capacity: usize,
    ) -> (r: Result<(u64, ProjectStatus), CustomError>)
        requires
            old(self).inv(),
        ensures
            final(self).inv(),
            Self::donate_post(*old(self), *final(self), donor_id, amount, capacity, r),
    {
        match self.check_donation(amount, capacity) {
            Err(e) => Err(e),
            Ok(()) => {
                let custody = project_address(self.owner);
                if port.transfer(donor_id, custody, amount) {
                    let (new_balance, new_status) = self.commit_donation(donor_id, amount);
                    Ok((new_balance, new_status))
                } else {
                    Err(CustomError::TransferFailed)
                }
            },
        }
    }

    /// Everything [`ProjectAccount::resolve`] promises, for every outcome of
    /// the transfers it requests. In every case the immutable fields stay,
    /// donations are neither added, removed nor edited (only settled), a
    /// settled donation stays settled, and conservation holds: the amount
    /// newly marked settled is exactly what left the custody balance. The
    /// per-status clauses then pin each path: terminal states refuse;
    /// a payout is owner-only and ends `Success` with everything settled or
    /// fails with `PayoutFailed` changing nothing; a refund ends `Failed`
    /// with everything settled, or stops at a rejected transfer with
    /// `RefundFailed`, keeping the project `Active` and the rejected refund's
    /// donation unsettled for a retry — so a refund with nothing left to
    /// send, a donation-less project included, cannot fail.
    pub open spec fn resolve_post(
        pre: ProjectAccount,
        post: ProjectAccount,
        caller_id: u64,
        r: Result<ProjectStatus, CustomError>,
    ) -> bool {
        &&& post.owner == pre.owner
        &&& post.name@ == pre.name@
        &&& post.financial_target == pre.financial_target
        &&& post.bump == pre.bump
        &&& cores_unchanged(pre.donations@, post.donations@)
        &&& settled_monotone(pre.donations@, post.donations@)
        &&& sum_settled(post.donations@) - sum_settled(pre.donations@) == pre.balance
            - post.balance
        &&& pre.status.is_terminal() ==> r == Err::<ProjectStatus, CustomError>(
            CustomError::InvalidProjectStatus,
        ) && post == pre
        &&& pre.status is TargetReached && caller_id != pre.owner ==> r == Err::<
            ProjectStatus,
            CustomError,
        >(CustomError::InvalidProjectStatus) && post == pre
        &&& pre.status is TargetReached && caller_id == pre.owner ==> {
            ||| r == Ok::<ProjectStatus, CustomError>(ProjectStatus::Success) && post.status
                is Success && post.balance == 0 && all_settled(post.donations@)
            ||| r == Err::<ProjectStatus, CustomError>(CustomError::PayoutFailed) && post == pre
        }
        &&& pre.status is Active ==> {
            ||| r == Ok::<ProjectStatus, CustomError>(ProjectStatus::Failed) && post.status
                is Failed && post.balance == 0 && all_settled(post.donations@)
            ||| r == Err::<ProjectStatus, CustomError>(CustomError::RefundFailed) && post.status
                is Active && post.balance <= pre.balance && !all_settled(post.donations@)
        }
        &&& r matches Ok(s) ==> s == post.status
    }

    /// Marks every donation settled; the caller accounts for the funds.
    fn settle_all(&mut self)
        ensures
            final(self).owner == old(self).owner,
            final(self).name@ == old(self).name@,
            final(self).financial_target == old(self).financial_target,
            final(self).balance == old(self).balance,
            final(self).status == old(self).status,
            final(self).bump == old(self).bump,
            final(self).donations@.len() == old(self).donations@.len(),
            forall|j: int|
                0 <= j < old(self).donations@.len() ==> final(self).donations@[j] == (
                #[trigger] old(self).donations@[j]).with_settled(),
    {
        let ghost pre = *self;
        let mut i: usize = 0;
        while i < self.donations.len()
            invariant
                i <= self.donations@.len(),
                self.donations@.len() == pre.donations@.len(),
                self.owner == pre.owner,
                self.name@ == pre.name@,
                self.financial_target == pre.financial_target,
                self.balance == pre.balance,
                self.status == pre.status,
                self.bump == pre.bump,
                forall|j: int|
                    0 <= j < i ==> self.donations@[j] == (
                    #[trigger] pre.donations@[j]).with_settled(),
                forall|j: int|
                    i <= j < pre.donations@.len() ==> self.donations@[j] == #[trigger] pre
                        .donations@[j],
            decreases self.donations@.len() - i,
        {
            let d = self.donations[i];
            self.donations[i] = Donation { settled: true, ..d };
            i += 1;
        }
    }

    /// Closes the campaign, once.
    ///
    /// On `Active`, any caller may trigger the refund path: every unsettled
    /// donation, in sequence order, is moved from custody back to its donor
    /// through `port` and marked settled; the campaign ends `Failed` with an
    /// empty balance. If one refund transfer is rejected, resolution stops
    /// with `RefundFailed`: the refunds already sent stay settled and the
    /// status stays `Active`, so re-invoking completes only the remainder.
    ///
    /// On `TargetReached`, only the owner may trigger the payout path: the
    /// whole balance moves to the owner in one transfer, every donation is
    /// marked settled, and the campaign ends `Success`. A rejected payout
    /// fails with `PayoutFailed` and changes nothing.
    ///
    /// On `Success` or `Failed` the request is refused with
    /// `InvalidProjectStatus`: resolution is strictly once-only.
    #[verifier::loop_isolation(false)]
    pub fn resolve<P: TransferPort>(&mut self, port: &mut P, caller_id: u64) -> (r: Result<
        ProjectStatus,
        CustomError,
    >)
        requires
            old(self).inv(),
        ensures
            final(self).inv(),
            Self::resolve_post(*old(self), *final(self), caller_id, r),
    {
        match self.status {
            ProjectStatus::Success | ProjectStatus::Failed => Err(
                CustomError::InvalidProjectStatus,
            ),
            ProjectStatus::TargetReached => {
                if caller_id != self.owner {
                    return Err(CustomError::InvalidProjectStatus);
                }
                let custody = project_address(self.owner);
                if port.transfer(custody, self.owner, self.balance) {
                    self.settle_all();
                    proof {
                        assert forall|j: int| 0 <= j < self.donations@.len() implies {
                            &&& (#[trigger] self.donations@[j]).settled
                            &&& self.donations@[j].amount > 0
                            &&& self.donations@[j].project_id == self.project_id()
                            &&& self.donations@[j].sequence == j as u64
                            &&& old(self).donations@[j].same_core(self.donations@[j])
                        } by {
                            assert(self.donations@[j] == old(self).donations@[j].with_settled());
                        }
                        lemma_settle_all_pays_everything(old(self).donations@, self.donations@);
                    }
                    self.balance = 0;
                    match self.status.transition(ProjectStatus::Success) {
                        Ok(next) => {
                            self.status = next;
                        },
                        Err(_) => {
                            assert(false);
                        },
                    }
                    Ok(ProjectStatus::Success)
                } else {
                    Err(CustomError::PayoutFailed)
                }
            },
            ProjectStatus::Active => {
                let custody = project_address(self.owner);
                let mut i: usize = 0;
                while i < self.donations.len()
                    invariant
                        i <= self.donations@.len(),
                        self.donations@.len() == old(self).donations@.len(),
                        self.owner == old(self).owner,
                        self.name@ == old(self).name@,
                        self.financial_target == old(self).financial_target,
                        self.status == old(self).status,
                        self.bump == old(self).bump,
                        self.balance <= old(self).balance,
                        self.balance as int == sum_unsettled(self.donations@),
                        cores_unchanged(old(self).donations@, self.donations@),
                        settled_monotone(old(self).donations@, self.donations@),
                        sum_settled(self.donations@) - sum_settled(old(self).donations@) == old(
                            self,
                        ).balance - self.balance,
                        forall|j: int|
                            0 <= j < self.donations@.len() ==> (
                            #[trigger] self.donations@[j]).amount > 0,
                        forall|j: int|
                            0 <= j < self.donations@.len() ==> (
                            #[trigger] self.donations@[j]).project_id == self.project_id(),
                        forall|j: int|
                            0 <= j < self.donations@.len() ==> (
                            #[trigger] self.donations@[j]).sequence == j as u64,
                        forall|j: int| 0 <= j < i ==> (#[trigger] self.donations@[j]).settled,
                    decreases self.donations@.len() - i,
                {
                    if !self.donations[i].settled {
                        let d = self.donations[i];
                        if port.transfer(custody, d.donor_id, d.amount) {
                            proof {
                                lemma_sum_unsettled_at_least(self.donations@, i as int);
                                lemma_sums_update(self.donations@, i as int, d.with_settled());
                            }
                            self.donations[i] = Donation { settled: true, ..d };
                            self.balance = self.balance - d.amount;
                        } else {
                            proof {
                                assert(!self.donations@[i as int].settled);
                            }
                            return Err(CustomError::RefundFailed);
                        }
                    }
                    i += 1;
                }
                proof {
                    lemma_all_settled_retains_nothing(self.donations@);
                }
                self.balance = 0;
                match self.status.transition(ProjectStatus::Failed) {
                    Ok(next) => {
                        self.status = next;
                    },
                    Err(_) => {
                        assert(false);
                    },
                }
                Ok(ProjectStatus::Failed)
            },
        }
    }
}

/// Settling every donation pays out exactly what was still retained: if
/// `after` is `before` with every donation marked settled, the newly settled
/// amount is the custody total `before` held.
pub proof fn lemma_settle_all_pays_everything(before: Seq<Donation>, after: Seq<Donation>)
    requires
        after.len() == before.len(),
        forall|j: int| 0 <= j < before.len() ==> after[j] == (#[trigger] before[j]).with_settled(),
    ensures
        sum_settled(after) - sum_settled(before) == sum_unsettled(before),
        sum_unsettled(after) == 0,
    decreases before.len(),
{
    if before.len() > 0 {
        assert forall|j: int| 0 <= j < before.drop_last().len() implies after.drop_last()[j] == (
        #[trigger] before.drop_last()[j]).with_settled() by {
            assert(before.drop_last()[j] == before[j]);
            assert(after.drop_last()[j] == after[j]);
        }
        lemma_settle_all_pays_everything(before.drop_last(), after.drop_last());
        assert(after.last() == before.last().with_settled());
    }
}

/// Before resolution has settled anything, the custody balance equals the
/// total of every recorded donation amount: contributions are counted once
/// each, never lost or duplicated.
pub proof fn lemma_balance_is_total_donated(p: ProjectAccount)
    requires
        p.inv(),
        none_settled(p.donations@),
    ensures
        p.balance as int == sum_all(p.donations@),
{
    lemma_sums_split(p.donations@);
    lemma_none_settled_paid_nothing(p.donations@);
}

/// Once a campaign has reached its target, every further donate request is
/// refused with `InvalidProjectStatus` and changes nothing.
pub proof fn lemma_target_reached_rejects_donations(
    pre: ProjectAccount,
    post: ProjectAccount,
    donor_id: u64,
    amount: u64,
    capacity: usize,
    r: Result<(u64, ProjectStatus), CustomError>,
)
    requires
        pre.status is TargetReached,
        ProjectAccount::donate_post(pre, post, donor_id, amount, capacity, r),
    ensures
        r == Err::<(u64, ProjectStatus), CustomError>(CustomError::InvalidProjectStatus),
        post == pre,
{
}

/// Resolution is strictly once-only: on a terminal status it is always
/// refused with `InvalidProjectStatus` and leaves the record unchanged.
pub proof fn lemma_resolve_terminal_rejected(
    pre: ProjectAccount,
    post: ProjectAccount,
    caller_id: u64,
    r: Result<ProjectStatus, CustomError>,
)
    requires
        pre.status.is_terminal(),
        ProjectAccount::resolve_post(pre, post, caller_id, r),
    ensures
        r == Err::<ProjectStatus, CustomError>(CustomError::InvalidProjectStatus),
        post == pre,
{
}

/// A refund fan-out that failed partway is safely re-invoked: the retry
/// settles only what the first attempt left unsettled, the campaign still
/// ends `Failed` with everything settled, and across both attempts the
/// donors received exactly the custody balance held when resolution first
/// began — full conservation.
pub proof fn lemma_refund_retry_conserves(
    start: ProjectAccount,
    stalled: ProjectAccount,
    completed: ProjectAccount,
    first_caller: u64,
    retry_caller: u64,
)
    requires
        start.status is Active,
        ProjectAccount::resolve_post(
            start,
            stalled,
            first_caller,
            Err::<ProjectStatus, CustomError>(CustomError::RefundFailed),
        ),
        ProjectAccount::resolve_post(
            stalled,
            completed,
            retry_caller,
            Ok::<ProjectStatus, CustomError>(ProjectStatus::Failed),
        ),
    ensures
        completed.status is Failed,
        all_settled(completed.donations@),
        settled_monotone(start.donations@, completed.donations@),
        sum_settled(completed.donations@) - sum_settled(start.donations@) == start.balance as int,
{
    assert(settled_monotone(start.donations@, completed.donations@)) by {
        assert forall|i: int|
            0 <= i < start.donations@.len() && (#[trigger] start.donations@[i]).settled implies completed
            .donations@[i].settled by {
            assert(stalled.donations@[i].settled);
        }
    }
}

} // verus!
