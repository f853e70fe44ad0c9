//! The model of the ledger accounts a request touches: address, balance,
//! storage owner, raw record bytes and whether the account signed, together
//! with the all-or-nothing value transfer the ledger applies.

use vstd::prelude::*;
use crate::errors::VaultError;
use crate::identity::{Identity, copy_bytes};

verus! {

/// One ledger account as a request sees it.
#[derive(Clone, Debug)]
pub struct AccountView {
    /// The account's own address.
    pub address: Identity,
    /// The balance in native value units.
    pub lamports: u64,
    /// The program that owns the account's storage.
    pub owner: Identity,
    /// The raw record bytes the account stores.
    pub data: Vec<u8>,
    /// Whether this account cryptographically signed the request.
    pub is_signer: bool,
}

/// The mathematical content of a ledger account.
#[verifier::ext_equal]
pub struct AccountModel {
    pub address: Seq<u8>,
    pub lamports: u64,
    pub owner: Seq<u8>,
    pub data: Seq<u8>,
    pub is_signer: bool,
}

impl View for AccountView {
    type V = AccountModel;

    open spec fn view(&self) -> AccountModel {
        AccountModel {
            address: self.address@,
            lamports: self.lamports,
            owner: self.owner@,
            data: self.data@,
            is_signer: self.is_signer,
        }
    }
}

impl AccountView {
    /// An account view is well formed when its addresses have the fixed
    /// identity width.
    pub open spec fn wf(&self) -> bool {
        self.address.wf() && self.owner.wf()
    }

    /// Copies the account view.
    pub fn dup(&self) -> (r: AccountView)
        ensures
            r@ == self@,
            r.wf() == self.wf(),
    {
        let r = AccountView {
            address: self.address.dup(),
            lamports: self.lamports,
            owner: self.owner.dup(),
            data: copy_bytes(&self.data),
            is_signer: self.is_signer,
        };
        assert(r@ =~= self@);
        r
    }
}

/// What the ledger's transfer does: moves exactly `amount` units from `from`
/// to `to`, or fails with `InsufficientFunds` when the source balance is too
/// small, leaving both accounts unchanged. Nothing else about the accounts
/// changes.
pub open spec fn transfer_spec(from: AccountModel, to: AccountModel, amount: u64) -> Result<
    (AccountModel, AccountModel),
    VaultError,
> {
    if from.lamports < amount {
        Err(VaultError::InsufficientFunds)
    } else {
        Ok(
            (
                AccountModel { lamports: (from.lamports - amount) as u64, ..from },
                AccountModel { lamports: (to.lamports + amount) as u64, ..to },
            ),
        )
    }
}

/// Applies a value transfer between two accounts, all or nothing.
pub fn apply_transfer(from: &AccountView, to: &AccountView, amount: u64) -> (r: Result<
    (AccountView, AccountView),
    VaultError,
>)
    requires
        from.wf(),
        to.wf(),
        from@.lamports + to@.lamports <= u64::MAX,
    ensures
        match r {
            Ok(pair) => pair.0.wf() && pair.1.wf() && transfer_spec(from@, to@, amount) == Ok::<
                (AccountModel, AccountModel),
                VaultError,
            >((pair.0@, pair.1@)),
            Err(e) => transfer_spec(from@, to@, amount) == Err::<
                (AccountModel, AccountModel),
                VaultError,
            >(e),
        },
{
    if from.lamports < amount {
        return Err(VaultError::InsufficientFunds);
    }
    let mut new_from = from.dup();
    let mut new_to = to.dup();
    new_from.lamports = from.lamports - amount;
    new_to.lamports = to.lamports + amount;
    assert(new_from@ =~= (AccountModel { lamports: (from@.lamports - amount) as u64, ..from@ }));
    assert(new_to@ =~= (AccountModel { lamports: (to@.lamports + amount) as u64, ..to@ }));
    Ok((new_from, new_to))
}

} // verus!
