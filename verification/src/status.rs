//! The four-state campaign lifecycle and its transition table.

use vstd::prelude::*;

use crate::errors::CustomError;

verus! {

/// The lifecycle state of a project. A project starts `Active` and only ever
/// moves forward: `Active -> TargetReached -> Success`, or `Active -> Failed`.
/// `Success` and `Failed` are terminal; a campaign that met its target can no
/// longer be refunded, so `TargetReached -> Failed` is not an edge.
#[derive(Clone, Copy, Debug, PartialEq, Eq, Structural)]
pub enum ProjectStatus {
    /// Accepting donations; the target has not been met.
    Active,
    /// The custody balance has met or passed the financial target; donations
    /// are closed and the owner may collect the payout.
    TargetReached,
    /// Resolved: the whole balance was paid out to the owner.
    Success,
    /// Resolved: every donation was refunded to its donor.
    Failed,
}

impl ProjectStatus {
    /// A terminal status can never change again.
    pub open spec fn spec_is_terminal(self) -> bool {
        self is Success || self is Failed
    }

    /// Whether the status is terminal: the campaign is resolved for good.
    #[verifier::when_used_as_spec(spec_is_terminal)]
    pub fn is_terminal(self) -> (terminal: bool)
        ensures
            terminal == self.spec_is_terminal(),
    {
        matches!(self, ProjectStatus::Success | ProjectStatus::Failed)
    }

    /// The complete transition table of the lifecycle.
    pub open spec fn spec_can_transition(self, to: ProjectStatus) -> bool {
        ||| (self is Active && to is TargetReached)
        ||| (self is Active && to is Failed)
        ||| (self is TargetReached && to is Success)
    }

    /// Whether moving from `self` to `to` is one of the legal edges.
    pub fn can_transition(self, to: ProjectStatus) -> (legal: bool)
        ensures
            legal == self.spec_can_transition(to),
    {
        match (self, to) {
            (ProjectStatus::Active, ProjectStatus::TargetReached) => true,
            (ProjectStatus::Active, ProjectStatus::Failed) => true,
            (ProjectStatus::TargetReached, ProjectStatus::Success) => true,
            _ => false,
        }
    }

    /// Requests the move from `self` to `to`: the new status if the edge is in
    /// the table, `InvalidProjectStatus` otherwise. Total over all state
    /// pairs.
    pub fn transition(self, to: ProjectStatus) -> (r: Result<ProjectStatus, CustomError>)
        ensures
            r == if self.spec_can_transition(to) {
                Ok::<ProjectStatus, CustomError>(to)
            } else {
                Err::<ProjectStatus, CustomError>(CustomError::InvalidProjectStatus)
            },
    {
        if self.can_transition(to) {
            Ok(to)
        } else {
            Err(CustomError::InvalidProjectStatus)
        }
    }
}

} // verus!
