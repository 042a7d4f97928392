//! A fundraising-campaign lifecycle and fund-custody engine.
//!
//! The engine creates campaigns ("projects") owned by an identity, accepts
//! contributions ("donations") from other identities into a custody balance,
//! and resolves a campaign by routing the custodied funds either to the owner
//! (success) or back to the contributors (failure). A campaign's status only
//! moves forward through a small set of legal transitions, and the custody
//! balance always equals the total of the donations not yet paid back out.
//!
//! Value transfers themselves (move `amount` units from one identity to
//! another) are performed by an external primitive behind the
//! [`port::TransferPort`] trait; the engine decides which transfers to request
//! and keeps its ledger consistent whatever each transfer reports.

pub mod donation;
pub mod errors;
pub mod port;
pub mod project;
pub mod registry;
pub mod status;
