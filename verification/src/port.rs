//! The external value-transfer primitive the engine drives.

use vstd::prelude::*;

verus! {

/// Moves units of value between identities. The engine never holds funds
/// itself: it asks an implementation of this trait to move them and records
/// the outcome in its ledger. Implementations live outside the library — a
/// chain runtime, an in-memory bank in a harness — and are free to refuse any
/// transfer, so the engine promises nothing about which calls succeed; its
/// contracts state what holds of the ledger for every outcome.
pub trait TransferPort {
    /// Atomically move `amount` units from `from` to `to`. Returns `true`
    /// when the transfer committed, `false` when it was rejected; a rejected
    /// transfer moves nothing.
    fn transfer(&mut self, from: u64, to: u64, amount: u64) -> bool;
}

} // verus!
