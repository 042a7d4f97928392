//! The error kinds every engine operation can report.

use vstd::prelude::*;

verus! {

/// Why an engine operation was refused or failed. Every failing operation
/// leaves the project state it was given unchanged, except that a refund
/// fan-out that fails midway keeps the refunds already sent marked settled so
/// that a retry completes only the remainder.
#[derive(Clone, Copy, Debug, PartialEq, Eq, Structural)]
pub enum CustomError {
    /// A positive amount was required and zero was given: the financial
    /// target at creation, or a donation amount.
    InvalidTarget,
    /// The owner already has a project that is not yet resolved; one running
    /// campaign per owner at a time.
    DuplicateProject,
    /// The operation is not legal for the project's current status: donating
    /// to a project that is no longer `Active`, resolving a project that is
    /// already terminal, or a payout requested by anyone but the owner.
    InvalidProjectStatus,
    /// The custody balance would overflow the integer domain.
    ArithmeticOverflow,
    /// The value-transfer primitive rejected moving the donation into custody.
    TransferFailed,
    /// The value-transfer primitive rejected one of the refunds; the refunds
    /// already sent stay settled and resolution can be retried.
    RefundFailed,
    /// The value-transfer primitive rejected the payout to the owner.
    PayoutFailed,
    /// The project's donation list is at its configured capacity.
    CapacityExceeded,
}

} // verus!
