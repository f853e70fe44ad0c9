//! Protocol-wide laws, stated over the transition functions and proved once
//! and for all.

use vstd::prelude::*;
use crate::codec::{decode_spec, UserAccountModel, lemma_record_round_trip};
use crate::derive::{derive_spec, metadata_seeds, vault_seeds};
use crate::dispatch::{deposit_spec, withdraw_spec, AppliedModel, RequestModel};
use crate::errors::VaultError;
use crate::identity::IDENTITY_LEN;

verus! {

/// A first deposit that applies hands the metadata record to the program and
/// writes an initialized record that is self-consistent: its owner is the
/// acting identity and its stored discriminants reproduce exactly the
/// supplied (and freshly derived) metadata and custody addresses.
pub proof fn lemma_deposit_creates_record(
    program: Seq<u8>,
    req: RequestModel,
    system_id: Seq<u8>,
    amount: u64,
    rent_minimum: u64,
    m: AppliedModel,
)
    requires
        deposit_spec(program, req, system_id, amount, rent_minimum) == Ok::<
            AppliedModel,
            VaultError,
        >(m),
        req.user_data.owner != program,
        req.user.address.len() == IDENTITY_LEN,
    ensures
        m.user_data.owner == program,
        decode_spec(m.user_data.data) matches Some(rec) && {
            &&& rec.user == req.user.address
            &&& rec.is_initialized
            &&& derive_spec(metadata_seeds(req.user.address), program) == Some(
                (req.user_data.address, rec.user_bump),
            )
            &&& derive_spec(vault_seeds(req.user.address), program) == Some(
                (req.vault.address, rec.vault_bump),
            )
        },
{
    let md = derive_spec(metadata_seeds(req.user.address), program)->Some_0;
    let vt = derive_spec(vault_seeds(req.user.address), program)->Some_0;
    let rec = UserAccountModel {
        user: req.user.address,
        user_bump: md.1,
        vault_bump: vt.1,
        is_initialized: true,
    };
    lemma_record_round_trip(rec);
}

/// Deposit is idempotent in record initialization: once a deposit has
/// applied, the metadata record is owned by the program, and a second
/// deposit that applies for the same user leaves the record account — its
/// owner, its balance and every stored field — exactly as the first left it.
pub proof fn lemma_deposit_initializes_at_most_once(
    program: Seq<u8>,
    req: RequestModel,
    system_id: Seq<u8>,
    first_amount: u64,
    second_amount: u64,
    rent_minimum: u64,
    m1: AppliedModel,
    m2: AppliedModel,
)
    requires
        deposit_spec(program, req, system_id, first_amount, rent_minimum) == Ok::<
            AppliedModel,
            VaultError,
        >(m1),
        deposit_spec(
            program,
            RequestModel {
                user: m1.user,
                user_data: m1.user_data,
                vault: m1.vault,
                system_ref: req.system_ref,
            },
            system_id,
            second_amount,
            rent_minimum,
        ) == Ok::<AppliedModel, VaultError>(m2),
    ensures
        m1.user_data.owner == program,
        m2.user_data == m1.user_data,
{
}

/// A withdraw request by a signer who is not the owner recorded in the
/// metadata record rejects with `OwnershipMismatch`; no transfer intent is
/// built and, the outcome being a rejection, every balance stays unchanged.
pub proof fn lemma_withdraw_non_owner_rejected(
    program: Seq<u8>,
    req: RequestModel,
    system_id: Seq<u8>,
    amount: u64,
    rec: UserAccountModel,
)
    requires
        req.user.is_signer,
        req.system_ref == system_id,
        req.user_data.owner == program,
        decode_spec(req.user_data.data) == Some(rec),
        rec.is_initialized,
        rec.user != req.user.address,
    ensures
        withdraw_spec(program, req, system_id, amount) == Err::<AppliedModel, VaultError>(
            VaultError::OwnershipMismatch,
        ),
{
}

/// A request never mints or burns value: whenever a deposit applies, the
/// sum of the three touched balances is unchanged, and only balances, the
/// record account's owner and the record bytes can differ from the inputs.
pub proof fn lemma_deposit_conserves_value(
    program: Seq<u8>,
    req: RequestModel,
    system_id: Seq<u8>,
    amount: u64,
    rent_minimum: u64,
    m: AppliedModel,
)
    requires
        deposit_spec(program, req, system_id, amount, rent_minimum) == Ok::<
            AppliedModel,
            VaultError,
        >(m),
        req.user.lamports + req.user_data.lamports + req.vault.lamports <= u64::MAX,
    ensures
        m.user.lamports + m.user_data.lamports + m.vault.lamports == req.user.lamports
            + req.user_data.lamports + req.vault.lamports,
        m.user.address == req.user.address,
        m.user_data.address == req.user_data.address,
        m.vault.address == req.vault.address,
        m.vault.data == req.vault.data,
{
}

/// Whenever a withdraw applies, the sum of the three touched balances is
/// unchanged: exactly what leaves the custody account reaches the acting
/// identity.
pub proof fn lemma_withdraw_conserves_value(
    program: Seq<u8>,
    req: RequestModel,
    system_id: Seq<u8>,
    amount: u64,
    m: AppliedModel,
)
    requires
        withdraw_spec(program, req, system_id, amount) == Ok::<AppliedModel, VaultError>(m),
        req.user.lamports + req.user_data.lamports + req.vault.lamports <= u64::MAX,
    ensures
        m.user.lamports + m.user_data.lamports + m.vault.lamports == req.user.lamports
            + req.user_data.lamports + req.vault.lamports,
        m.user.lamports == req.user.lamports + amount,
        m.vault.lamports == req.vault.lamports - amount,
        req.vault.lamports >= amount,
{
}

/// A withdraw request never touches the metadata record: whenever it
/// applies, the record account is returned exactly as it was supplied.
pub proof fn lemma_withdraw_preserves_record(
    program: Seq<u8>,
    req: RequestModel,
    system_id: Seq<u8>,
    amount: u64,
    m: AppliedModel,
)
    requires
        withdraw_spec(program, req, system_id, amount) == Ok::<AppliedModel, VaultError>(m),
    ensures
        m.user_data == req.user_data,
{
}

} // verus!
