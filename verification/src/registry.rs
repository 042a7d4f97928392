//! The project registry: creates and addresses campaign records.
//!
//! The registry owns every project record, keyed by the deterministically
//! derived project address, and enforces the one-running-campaign-per-owner
//! policy at creation. Donations and resolution are addressed to a project
//! through it and delegate to the record's own operations.

use vstd::prelude::*;

use crate::errors::CustomError;
use crate::port::TransferPort;
use crate::project::{project_address, spec_project_address, ProjectAccount};
use crate::status::ProjectStatus;

verus! {

/// The collection of campaign records, with the configured hard bound on
/// each record's donation list (records reserve a fixed size up front, so the
/// list cannot grow without bound).
pub struct Registry {
    /// Every campaign record ever created and not superseded.
    pub projects: Vec<ProjectAccount>,
    /// How many donations one record can hold.
    pub donation_capacity: usize,
}

impl Registry {
    /// Well-formedness: every record is well formed and no two records share
    /// an owner — hence, addresses being derived from owners, no two share an
    /// address.
    pub open spec fn wf(self) -> bool {
        &&& forall|i: int| 0 <= i < self.projects@.len() ==> (#[trigger] self.projects@[i]).inv()
        &&& forall|i: int, j: int|
            #![trigger self.projects@[i], self.projects@[j]]
            0 <= i < j < self.projects@.len() ==> self.projects@[i].owner
                != self.projects@[j].owner
    }

    /// A record exists at this address.
    pub open spec fn spec_has_project(self, project_id: u64) -> bool {
        exists|i: int|
            0 <= i < self.projects@.len() && (#[trigger] self.projects@[i]).project_id()
                == project_id
    }

    /// This owner has a record of any status.
    pub open spec fn spec_owner_has_project(self, owner_id: u64) -> bool {
        exists|i: int|
            0 <= i < self.projects@.len() && (#[trigger] self.projects@[i]).owner == owner_id
    }

    /// This owner has a campaign that is still running (not yet resolved).
    pub open spec fn spec_owner_has_live_project(self, owner_id: u64) -> bool {
        exists|i: int|
            0 <= i < self.projects@.len() && (#[trigger] self.projects@[i]).owner == owner_id
                && !self.projects@[i].status.is_terminal()
    }

    /// An empty registry configured to hold `donation_capacity` donations per
    /// record.
    pub fn new(donation_capacity: usize) -> (r: Registry)
        ensures
            r.wf(),
            r.projects@.len() == 0,
            r.donation_capacity == donation_capacity,
    {
        Registry { projects: Vec::new(), donation_capacity }
    }

    /// The index of the record at `project_id`, if one exists.
    fn find_project(&self, project_id: u64) -> (r: Option<usize>)
        ensures
            match r {
                Some(i) => 0 <= i < self.projects@.len() && self.projects@[i as int].project_id()
                    == project_id,
                None => forall|j: int|
                    0 <= j < self.projects@.len() ==> (#[trigger] self.projects@[j]).project_id()
                        != project_id,
            },
    {
        let mut idx: usize = 0;
        while idx < self.projects.len()
            invariant
                idx <= self.projects@.len(),
                forall|j: int|
                    0 <= j < idx ==> (#[trigger] self.projects@[j]).project_id() != project_id,
            decreases self.projects@.len() - idx,
        {
            if project_address(self.projects[idx].owner) == project_id {
                return Some(idx);
            }
            idx += 1;
        }
        None
    }

    /// The record at `project_id`: read-only, `None` if absent.
    pub fn lookup(&self, project_id: u64) -> (r: Option<&ProjectAccount>)
        ensures
            match r {
                Some(p) => self.spec_has_project(project_id) && p.project_id() == project_id
                    && exists|i: int|
                    0 <= i < self.projects@.len() && #[trigger] self.projects@[i] == *p,
                None => !self.spec_has_project(project_id),
            },
    {
        match self.find_project(project_id) {
            Some(i) => Some(&self.projects[i]),
            None => None,
        }
    }

    /// Creates a campaign for `owner_id` at its derived address.
    ///
    /// Fails with `InvalidTarget` on a zero target, and with
    /// `DuplicateProject` when the owner already has a running campaign: one
    /// running campaign per owner at a time. A resolved (terminal) record of
    /// the same owner is superseded in place by the new campaign, the derived
    /// address being the same. On success the fresh record has `balance = 0`
    /// and `status = Active`, and the new address is returned.
    pub fn create_project(&mut self, owner_id: u64, name: String, financial_target: u64) -> (r:
        Result<u64, CustomError>)
        requires
            old(self).wf(),
        ensures
            final(self).wf(),
            final(self).donation_capacity == old(self).donation_capacity,
            financial_target == 0 ==> r == Err::<u64, CustomError>(CustomError::InvalidTarget)
                && *final(self) == *old(self),
            financial_target > 0 && old(self).spec_owner_has_live_project(owner_id) ==> r == Err::<
                u64,
                CustomError,
            >(CustomError::DuplicateProject) && *final(self) == *old(self),
            financial_target > 0 && !old(self).spec_owner_has_live_project(owner_id) ==> {
                &&& r == Ok::<u64, CustomError>(spec_project_address(owner_id))
                &&& final(self).spec_has_project(spec_project_address(owner_id))
                &&& {
                    ||| (exists|i: int|
                        {
                            &&& 0 <= i < old(self).projects@.len()
                            &&& (#[trigger] old(self).projects@[i]).owner == owner_id
                            &&& final(self).projects@ == old(self).projects@.update(
                                i,
                                final(self).projects@[i],
                            )
                            &&& final(self).projects@[i].is_fresh(
                                owner_id,
                                name@,
                                financial_target,
                            )
                        })
                    ||| (!old(self).spec_owner_has_project(owner_id) && final(self).projects@.len()
                        == old(self).projects@.len() + 1 && final(self).projects@.drop_last()
                        == old(self).projects@ && final(self).projects@.last().is_fresh(
                        owner_id,
                        name@,
                        financial_target,
                    ))
                }
            },
    {
        if financial_target == 0 {
            return Err(CustomError::InvalidTarget);
        }
        match self.find_project(project_address(owner_id)) {
            Some(i) => {
                proof {
                    crate::project::lemma_project_address_injective(
                        self.projects@[i as int].owner,
                        owner_id,
                    );
                }
                if !self.projects[i].status.is_terminal() {
                    proof {
                        assert(old(self).spec_owner_has_live_project(owner_id));
                    }
                    return Err(CustomError::DuplicateProject);
                }
                proof {
                    assert forall|k: int|
                        0 <= k < self.projects@.len() && (#[trigger] self.projects@[k]).owner
                            == owner_id implies k == i by {
                        if k < i as int {
                            assert(self.projects@[k].owner != self.projects@[i as int].owner);
                        } else if (i as int) < k {
                            assert(self.projects@[i as int].owner != self.projects@[k].owner);
                        }
                    }
                }
                let fresh = ProjectAccount::create(owner_id, name, financial_target);
                self.projects[i] = fresh;
                proof {
                    assert(self.projects@[i as int].project_id() == spec_project_address(owner_id));
                }
                Ok(project_address(owner_id))
            },
            None => {
                let fresh = ProjectAccount::create(owner_id, name, financial_target);
                self.projects.push(fresh);
                proof {
                    assert(final(self).projects@.drop_last() =~= old(self).projects@);
                    assert(self.projects@[self.projects@.len() - 1].project_id()
                        == spec_project_address(owner_id));
                }
                Ok(project_address(owner_id))
            },
        }
    }

    /// Accepts a donation to the project at `project_id`: the checks, the
    /// transfer of `amount` from `donor_id` into custody through `port`, and
    /// the ledger commit, as [`ProjectAccount::record`] states them; every
    /// other record is untouched.
    pub fn donate<P: TransferPort>(
        &mut self,
        port: &mut P,
        project_id: u64,
        donor_id: u64,
        amount: u64,
    ) -> (r: Result<(u64, ProjectStatus), CustomError>)
        requires
            old(self).wf(),
            old(self).spec_has_project(project_id),
        ensures
            final(self).wf(),
            final(self).donation_capacity == old(self).donation_capacity,
            exists|i: int|
                {
                    &&& 0 <= i < old(self).projects@.len()
                    &&& (#[trigger] old(self).projects@[i]).project_id() == project_id
                    &&& final(self).projects@ == old(self).projects@.update(
                        i,
                        final(self).projects@[i],
                    )
                    &&& ProjectAccount::donate_post(
                        old(self).projects@[i],
                        final(self).projects@[i],
                        donor_id,
                        amount,
                        old(self).donation_capacity,
                        r,
                    )
                },
    {
        let capacity = self.donation_capacity;
        match self.find_project(project_id) {
            Some(i) => {
                let project = &mut self.projects[i];
                project.record(port, donor_id, amount, capacity)
            },
            None => {
                proof {
                    assert(false);
                }
                Err(CustomError::InvalidProjectStatus)
            },
        }
    }

    /// Resolves the project at `project_id` on behalf of `caller_id`: the
    /// refund fan-out, owner payout or refusal that
    /// [`ProjectAccount::resolve`] states; every other record is untouched.
    pub fn close_project<P: TransferPort>(
        &mut self,
        port: &mut P,
        caller_id: u64,
        project_id: u64,
    ) -> (r: Result<ProjectStatus, CustomError>)
        requires
            old(self).wf(),
            old(self).spec_has_project(project_id),
        ensures
            final(self).wf(),
            final(self).donation_capacity == old(self).donation_capacity,
            exists|i: int|
                {
                    &&& 0 <= i < old(self).projects@.len()
                    &&& (#[trigger] old(self).projects@[i]).project_id() == project_id
                    &&& final(self).projects@ == old(self).projects@.update(
                        i,
                        final(self).projects@[i],
                    )
                    &&& ProjectAccount::resolve_post(
                        old(self).projects@[i],
                        final(self).projects@[i],
                        caller_id,
                        r,
                    )
                },
    {
        match self.find_project(project_id) {
            Some(i) => {
                let project = &mut self.projects[i];
                project.resolve(port, caller_id)
            },
            None => {
                proof {
                    assert(false);
                }
                Err(CustomError::InvalidProjectStatus)
            },
        }
    }
}

} // verus!
