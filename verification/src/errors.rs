//! The error taxonomy of the protocol. Every error is fatal and surfaced to
//! the caller unchanged; no error is locally recovered or retried.

use vstd::prelude::*;

verus! {

/// Why a request was rejected. A rejected request observes no state change.
#[derive(Clone, Copy, Debug, PartialEq, Eq, Structural)]
pub enum VaultError {
    /// The instruction payload is malformed: unknown tag or wrong length.
    InvalidInstruction,
    /// The acting identity did not sign the request.
    MissingSignature,
    /// The referenced system-level program is not the expected one.
    InvalidProgramReference,
    /// A supplied account address differs from the recomputed derived
    /// address (or no derived address exists for the seed material).
    AddressMismatch,
    /// The metadata record belongs to a different identity.
    OwnershipMismatch,
    /// The metadata record does not exist yet or was never initialized.
    AccountNotInitialized,
    /// The metadata record bytes do not decode to a record.
    Malformed,
    /// The ledger refused the transfer: the source balance is too small.
    InsufficientFunds,
}

} // verus!
