//! A verified vault protocol: deterministic derivation of per-user custody
//! and metadata addresses, a fixed-layout metadata record codec, and the
//! deposit/withdraw state transitions that enforce seed-based authorization.

pub mod authorize;
pub mod codec;
pub mod derive;
pub mod dispatch;
pub mod errors;
pub mod identity;
pub mod instruction;
pub mod laws;
pub mod ledger;
