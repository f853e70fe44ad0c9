//! The authorization engine: the only path through which value may leave a
//! custody address. It rebuilds the signing capability for a derived address
//! from its seed material and the stored discriminant, and issues a transfer
//! intent under that capability.

use vstd::prelude::*;
use crate::derive::{combine, combine_full, views_of};
use crate::errors::VaultError;
use crate::identity::{Identity, bytes_eq};

verus! {

/// A signed transfer intent: proof that the engine recomputed the signing
/// capability for `from` from seed material it owns. Short-lived and never
/// stored or transmitted.
pub struct TransferIntent {
    pub from: Identity,
    pub to: Identity,
    pub amount: u64,
}

/// Builds the signed intent to move `amount` units out of the derived
/// address `from` towards `to`. The signing capability's address is
/// recomputed from `seeds` plus the stored discriminant `bump`; when it does
/// not equal `from` the engine rejects and no intent exists.
pub fn authorize_transfer(
    seeds: &Vec<Vec<u8>>,
    bump: u8,
    program: &Identity,
    from: &Identity,
    to: &Identity,
    amount: u64,
) -> (r: Result<TransferIntent, VaultError>)
    requires
        program.wf(),
    ensures
        match r {
            Ok(intent) => combine_full(views_of(seeds@), bump, program@) == Some(from@)
                && intent.from@ == from@ && intent.to@ == to@ && intent.amount == amount,
            Err(e) => e == VaultError::AddressMismatch && combine_full(
                views_of(seeds@),
                bump,
                program@,
            ) != Some(from@),
        },
{
    match combine(seeds, bump, program) {
        Some(addr) => {
            if bytes_eq(&addr.bytes, &from.bytes) {
                Ok(TransferIntent { from: from.dup(), to: to.dup(), amount })
            } else {
                Err(VaultError::AddressMismatch)
            }
        }
        None => Err(VaultError::AddressMismatch),
    }
}

} // verus!
