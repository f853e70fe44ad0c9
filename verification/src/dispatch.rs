//! The instruction dispatcher: decodes an opaque payload into a typed
//! operation and drives the deposit/withdraw transitions, performing every
//! precondition check before any value moves. Each request either applies in
//! full or rejects with a precise error and no state change.

use vstd::prelude::*;
use crate::authorize::authorize_transfer;
use crate::codec::{decode_spec, encode_spec, UserAccount, UserAccountModel};
use crate::derive::{
    combine_full, derive_spec, find_user_account_address, find_vault_address, make_vault_label,
    metadata_seeds, vault_seeds, verify, views_of,
};
use crate::errors::VaultError;
use crate::identity::{Identity, bytes_eq, copy_bytes};
use crate::instruction::{decode_instruction_spec, ProgramInstruction};
use crate::ledger::{apply_transfer, transfer_spec, AccountModel, AccountView};

verus! {

/// The accounts a request references, in order: the acting identity (which
/// must have signed), the metadata record account, the custody account, and
/// the address of the referenced system-level ledger program.
pub struct RequestAccounts {
    pub user: AccountView,
    pub user_data: AccountView,
    pub vault: AccountView,
    pub system_ref: Identity,
}

/// The mathematical content of the referenced accounts.
#[verifier::ext_equal]
pub struct RequestModel {
    pub user: AccountModel,
    pub user_data: AccountModel,
    pub vault: AccountModel,
    pub system_ref: Seq<u8>,
}

impl View for RequestAccounts {
    type V = RequestModel;

    open spec fn view(&self) -> RequestModel {
        RequestModel {
            user: self.user@,
            user_data: self.user_data@,
            vault: self.vault@,
            system_ref: self.system_ref@,
        }
    }
}

impl RequestAccounts {
    /// The referenced accounts are well formed when every address has the
    /// fixed identity width.
    pub open spec fn wf(&self) -> bool {
        self.user.wf() && self.user_data.wf() && self.vault.wf() && self.system_ref.wf()
    }
}

/// The three touched accounts after a request was applied.
pub struct Applied {
    pub user: AccountView,
    pub user_data: AccountView,
    pub vault: AccountView,
}

/// The mathematical content of the applied accounts.
#[verifier::ext_equal]
pub struct AppliedModel {
    pub user: AccountModel,
    pub user_data: AccountModel,
    pub vault: AccountModel,
}

impl View for Applied {
    type V = AppliedModel;

    open spec fn view(&self) -> AppliedModel {
        AppliedModel { user: self.user@, user_data: self.user_data@, vault: self.vault@ }
    }
}

impl Applied {
    /// The applied accounts are well formed when every address has the fixed
    /// identity width.
    pub open spec fn wf(&self) -> bool {
        self.user.wf() && self.user_data.wf() && self.vault.wf()
    }
}

/// The outcome of a request, with the applied accounts by content.
pub open spec fn applied_result(r: Result<Applied, VaultError>) -> Result<AppliedModel, VaultError> {
    match r {
        Ok(a) => Ok(a@),
        Err(e) => Err(e),
    }
}

/// The sum of the touched balances fits the balance type; the ledger
/// maintains this across all accounts.
pub open spec fn balances_bounded(req: RequestModel) -> bool {
    req.user.lamports + req.user_data.lamports + req.vault.lamports <= u64::MAX
}

/// The lazy, at-most-once creation step of a deposit: when the metadata
/// record account is not yet owned by the program, fund it with the minimum
/// balance from the acting identity, hand its storage to the program and
/// write a freshly initialized record holding today's discriminants; when it
/// is already owned, change nothing.
pub open spec fn deposit_create_spec(
    program: Seq<u8>,
    user: AccountModel,
    user_data: AccountModel,
    user_bump: u8,
    vault_bump: u8,
    rent_minimum: u64,
) -> Result<(AccountModel, AccountModel), VaultError> {
    if user_data.owner == program {
        Ok((user, user_data))
    } else if user.lamports < rent_minimum {
        Err(VaultError::InsufficientFunds)
    } else {
        let rec = UserAccountModel {
            user: user.address,
            user_bump,
            vault_bump,
            is_initialized: true,
        };
        Ok(
            (
                AccountModel { lamports: (user.lamports - rent_minimum) as u64, ..user },
                AccountModel {
                    lamports: (user_data.lamports + rent_minimum) as u64,
                    owner: program,
                    data: encode_spec(rec),
                    ..user_data
                },
            ),
        )
    }
}

/// The deposit transition: after the signer and system-program checks, both
/// supplied addresses must equal the freshly derived ones; the metadata
/// record is then created if needed, and `amount` moves from the acting
/// identity to the custody account.
pub open spec fn deposit_spec(
    program: Seq<u8>,
    req: RequestModel,
    system_id: Seq<u8>,
    amount: u64,
    rent_minimum: u64,
) -> Result<AppliedModel, VaultError> {
    if !req.user.is_signer {
        Err(VaultError::MissingSignature)
    } else if req.system_ref != system_id {
        Err(VaultError::InvalidProgramReference)
    } else {
        match (
            derive_spec(metadata_seeds(req.user.address), program),
            derive_spec(vault_seeds(req.user.address), program),
        ) {
            (Some(md), Some(vt)) => {
                if req.user_data.address != md.0 {
                    Err(VaultError::AddressMismatch)
                } else if req.vault.address != vt.0 {
                    Err(VaultError::AddressMismatch)
                } else {
                    match deposit_create_spec(
                        program,
                        req.user,
                        req.user_data,
                        md.1,
                        vt.1,
                        rent_minimum,
                    ) {
                        Err(e) => Err(e),
                        Ok((user1, user_data1)) => match transfer_spec(user1, req.vault, amount) {
                            Err(e) => Err(e),
                            Ok((user2, vault2)) => Ok(
                                AppliedModel { user: user2, user_data: user_data1, vault: vault2 },
                            ),
                        },
                    }
                }
            }
            _ => Err(VaultError::AddressMismatch),
        }
    }
}

/// The withdraw transition: after the signer and system-program checks, the
/// metadata record must exist under the program, decode cleanly and be
/// initialized; it must belong to the acting identity; both supplied
/// addresses must equal the ones recomputed from the record's stored
/// discriminants (no search); then `amount` moves from the custody account
/// to the acting identity under the program's signing capability.
pub open spec fn withdraw_spec(
    program: Seq<u8>,
    req: RequestModel,
    system_id: Seq<u8>,
    amount: u64,
) -> Result<AppliedModel, VaultError> {
    if !req.user.is_signer {
        Err(VaultError::MissingSignature)
    } else if req.system_ref != system_id {
        Err(VaultError::InvalidProgramReference)
    } else if req.user_data.owner != program {
        Err(VaultError::AccountNotInitialized)
    } else {
        match decode_spec(req.user_data.data) {
            None => Err(VaultError::Malformed),
            Some(rec) => {
                if !rec.is_initialized {
                    Err(VaultError::AccountNotInitialized)
                } else if rec.user != req.user.address {
                    Err(VaultError::OwnershipMismatch)
                } else if combine_full(
                    metadata_seeds(req.user.address),
                    rec.user_bump,
                    program,
                ) != Some(req.user_data.address) {
                    Err(VaultError::AddressMismatch)
                } else if combine_full(
                    vault_seeds(req.user.address),
                    rec.vault_bump,
                    program,
                ) != Some(req.vault.address) {
                    Err(VaultError::AddressMismatch)
                } else {
                    match transfer_spec(req.vault, req.user, amount) {
                        Err(e) => Err(e),
                        Ok((vault2, user2)) => Ok(
                            AppliedModel { user: user2, user_data: req.user_data, vault: vault2 },
                        ),
                    }
                }
            }
        }
    }
}

/// The whole request: decode the payload, then run the decoded operation.
pub open spec fn process_spec(
    program: Seq<u8>,
    req: RequestModel,
    data: Seq<u8>,
    system_id: Seq<u8>,
    rent_minimum: u64,
) -> Result<AppliedModel, VaultError> {
    match decode_instruction_spec(data) {
        None => Err(VaultError::InvalidInstruction),
        Some(ProgramInstruction::Deposit { amount }) => deposit_spec(
            program,
            req,
            system_id,
            amount,
            rent_minimum,
        ),
        Some(ProgramInstruction::Withdraw { amount }) => withdraw_spec(
            program,
            req,
            system_id,
            amount,
        ),
    }
}

/// Runs a deposit request.
pub fn process_deposit(
    program_id: &Identity,
    accounts: &RequestAccounts,
    amount: u64,
    system_id: &Identity,
    rent_minimum: u64,
) -> (r: Result<Applied, VaultError>)
    requires
        program_id.wf(),
        accounts.wf(),
        system_id.wf(),
        balances_bounded(accounts@),
    ensures
        applied_result(r) == deposit_spec(program_id@, accounts@, system_id@, amount, rent_minimum),
        r matches Ok(a) ==> a.wf(),
{
    if !accounts.user.is_signer {
        return Err(VaultError::MissingSignature);
    }
    if !bytes_eq(&accounts.system_ref.bytes, &system_id.bytes) {
        return Err(VaultError::InvalidProgramReference);
    }
    let md = match find_user_account_address(&accounts.user.address, program_id) {
        None => {
            return Err(VaultError::AddressMismatch);
        }
        Some(pair) => pair,
    };
    if !bytes_eq(&md.0.bytes, &accounts.user_data.address.bytes) {
        return Err(VaultError::AddressMismatch);
    }
    let vt = match find_vault_address(&accounts.user.address, program_id) {
        None => {
            return Err(VaultError::AddressMismatch);
        }
        Some(pair) => pair,
    };
    if !bytes_eq(&vt.0.bytes, &accounts.vault.address.bytes) {
        return Err(VaultError::AddressMismatch);
    }
    let ghost spec_create = deposit_create_spec(
        program_id@,
        accounts@.user,
        accounts@.user_data,
        md.1,
        vt.1,
        rent_minimum,
    );
    let (user1, user_data1) = if bytes_eq(&accounts.user_data.owner.bytes, &program_id.bytes) {
        (accounts.user.dup(), accounts.user_data.dup())
    } else {
        if accounts.user.lamports < rent_minimum {
            return Err(VaultError::InsufficientFunds);
        }
        let rec = UserAccount {
            user: accounts.user.address.dup(),
            user_bump: md.1,
            vault_bump: vt.1,
            is_initialized: true,
        };
        let data = rec.encode();
        let user1 = AccountView {
            address: accounts.user.address.dup(),
            lamports: accounts.user.lamports - rent_minimum,
            owner: accounts.user.owner.dup(),
            data: copy_bytes(&accounts.user.data),
            is_signer: accounts.user.is_signer,
        };
        let user_data1 = AccountView {
            address: accounts.user_data.address.dup(),
            lamports: accounts.user_data.lamports + rent_minimum,
            owner: program_id.dup(),
            data,
            is_signer: accounts.user_data.is_signer,
        };
        proof {
            assert(rec@ =~= (UserAccountModel {
                user: accounts@.user.address,
                user_bump: md.1,
                vault_bump: vt.1,
                is_initialized: true,
            }));
            assert(user1@ =~= (AccountModel {
                lamports: (accounts@.user.lamports - rent_minimum) as u64,
                ..accounts@.user
            }));
            assert(user_data1@ =~= (AccountModel {
                lamports: (accounts@.user_data.lamports + rent_minimum) as u64,
                owner: program_id@,
                data: encode_spec(rec@),
                ..accounts@.user_data
            }));
        }
        (user1, user_data1)
    };
    assert(spec_create == Ok::<(AccountModel, AccountModel), VaultError>((user1@, user_data1@)));
    let (user2, vault2) = match apply_transfer(&user1, &accounts.vault, amount) {
        Err(e) => {
            return Err(e);
        }
        Ok(pair) => pair,
    };
    Ok(Applied { user: user2, user_data: user_data1, vault: vault2 })
}

/// Runs a withdraw request.
pub fn process_withdraw(
    program_id: &Identity,
    accounts: &RequestAccounts,
    amount: u64,
    system_id: &Identity,
) -> (r: Result<Applied, VaultError>)
    requires
        program_id.wf(),
        accounts.wf(),
        system_id.wf(),
        balances_bounded(accounts@),
    ensures
        applied_result(r) == withdraw_spec(program_id@, accounts@, system_id@, amount),
        r matches Ok(a) ==> a.wf(),
{
    if !accounts.user.is_signer {
        return Err(VaultError::MissingSignature);
    }
    if !bytes_eq(&accounts.system_ref.bytes, &system_id.bytes) {
        return Err(VaultError::InvalidProgramReference);
    }
    if !bytes_eq(&accounts.user_data.owner.bytes, &program_id.bytes) {
        return Err(VaultError::AccountNotInitialized);
    }
    let rec = match UserAccount::decode(&accounts.user_data.data) {
        Err(_) => {
            return Err(VaultError::Malformed);
        }
        Ok(rec) => rec,
    };
    if !rec.is_initialized {
        return Err(VaultError::AccountNotInitialized);
    }
    if !bytes_eq(&rec.user.bytes, &accounts.user.address.bytes) {
        return Err(VaultError::OwnershipMismatch);
    }
    let mut md_seeds: Vec<Vec<u8>> = Vec::new();
    md_seeds.push(copy_bytes(&accounts.user.address.bytes));
    assert(views_of(md_seeds@) =~= metadata_seeds(accounts@.user.address));
    if !verify(&md_seeds, rec.user_bump, program_id, &accounts.user_data.address) {
        return Err(VaultError::AddressMismatch);
    }
    let mut v_seeds: Vec<Vec<u8>> = Vec::new();
    v_seeds.push(make_vault_label());
    v_seeds.push(copy_bytes(&accounts.user.address.bytes));
    assert(views_of(v_seeds@) =~= vault_seeds(accounts@.user.address));
    if !verify(&v_seeds, rec.vault_bump, program_id, &accounts.vault.address) {
        return Err(VaultError::AddressMismatch);
    }
    let intent = match authorize_transfer(
        &v_seeds,
        rec.vault_bump,
        program_id,
        &accounts.vault.address,
        &accounts.user.address,
        amount,
    ) {
        Err(_) => {
            // The supplied custody address was just verified against the
            // same seed material, so the engine cannot reject it.
            assert(false);
            return Err(VaultError::AddressMismatch);
        }
        Ok(intent) => intent,
    };
    let (vault2, user2) = match apply_transfer(&accounts.vault, &accounts.user, intent.amount) {
        Err(e) => {
            return Err(e);
        }
        Ok(pair) => pair,
    };
    Ok(Applied { user: user2, user_data: accounts.user_data.dup(), vault: vault2 })
}

/// Decodes the payload and runs the decoded operation.
pub fn process_instruction(
    program_id: &Identity,
    accounts: &RequestAccounts,
    instruction_data: &Vec<u8>,
    system_id: &Identity,
    rent_minimum: u64,
) -> (r: Result<Applied, VaultError>)
    requires
        program_id.wf(),
        accounts.wf(),
        system_id.wf(),
        balances_bounded(accounts@),
    ensures
        applied_result(r) == process_spec(
            program_id@,
            accounts@,
            instruction_data@,
            system_id@,
            rent_minimum,
        ),
        r matches Ok(a) ==> a.wf(),
{
    let instruction = match ProgramInstruction::unpack(instruction_data) {
        Err(e) => {
            return Err(e);
        }
        Ok(ins) => ins,
    };
    match instruction {
        ProgramInstruction::Deposit { amount } => process_deposit(
            program_id,
            accounts,
            amount,
            system_id,
            rent_minimum,
        ),
        ProgramInstruction::Withdraw { amount } => process_withdraw(
            program_id,
            accounts,
            amount,
            system_id,
        ),
    }
}

} // verus!
