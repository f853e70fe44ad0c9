use vault_program::codec::UserAccount;
use vault_program::dispatch::{
    process_deposit, process_instruction, process_withdraw, Applied, RequestAccounts,
};
use vault_program::derive::{find_user_account_address, find_vault_address};
use vault_program::errors::VaultError;
use vault_program::identity::Identity;
use vault_program::instruction::ProgramInstruction;
use vault_program::ledger::AccountView;

const RENT_MINIMUM: u64 = 890_880;

fn id(byte: u8) -> Identity {
    Identity::new(vec![byte; 32])
}

/// The system-level ledger program's fixed address: thirty-two zero bytes.
fn system_id() -> Identity {
    Identity::new(vec![0u8; 32])
}

fn fresh_account(address: &Identity, lamports: u64, is_signer: bool) -> AccountView {
    AccountView {
        address: address.dup(),
        lamports,
        owner: system_id(),
        data: Vec::new(),
        is_signer,
    }
}

/// The four accounts of a brand-new user who has never deposited.
fn fresh_request(user: &Identity, program: &Identity, user_lamports: u64) -> RequestAccounts {
    let (md, _) = find_user_account_address(user, program).expect("a discriminant must exist");
    let (vault, _) = find_vault_address(user, program).expect("a discriminant must exist");
    RequestAccounts {
        user: fresh_account(user, user_lamports, true),
        user_data: fresh_account(&md, 0, false),
        vault: fresh_account(&vault, 0, false),
        system_ref: system_id(),
    }
}

fn next_request(applied: Applied) -> RequestAccounts {
    RequestAccounts {
        user: applied.user,
        user_data: applied.user_data,
        vault: applied.vault,
        system_ref: system_id(),
    }
}

#[test]
fn deposit_creates_and_funds_the_record() {
    let user = id(9);
    let program = id(3);
    let accounts = fresh_request(&user, &program, 10_000_000_000);
    let applied = process_deposit(&program, &accounts, 1_000_000_000, &system_id(), RENT_MINIMUM)
        .expect("a fresh, funded deposit must apply");

    assert_eq!(applied.vault.lamports, 1_000_000_000);
    assert_eq!(applied.user.lamports, 10_000_000_000 - RENT_MINIMUM - 1_000_000_000);
    assert_eq!(applied.user_data.lamports, RENT_MINIMUM);
    assert_eq!(applied.user_data.owner.bytes, program.bytes);

    let rec = UserAccount::decode(&applied.user_data.data).expect("the record must decode");
    assert_eq!(rec.user.bytes, user.bytes);
    assert!(rec.is_initialized);
    let (md, md_bump) = find_user_account_address(&user, &program).unwrap();
    let (vault, vault_bump) = find_vault_address(&user, &program).unwrap();
    assert_eq!(rec.user_bump, md_bump);
    assert_eq!(rec.vault_bump, vault_bump);
    assert_eq!(applied.user_data.address.bytes, md.bytes);
    assert_eq!(applied.vault.address.bytes, vault.bytes);
}

#[test]
fn deposit_initializes_at_most_once() {
    let user = id(9);
    let program = id(3);
    let accounts = fresh_request(&user, &program, 10_000_000_000);
    let first = process_deposit(&program, &accounts, 1_000_000, &system_id(), RENT_MINIMUM)
        .expect("the first deposit must apply");
    let record_after_first = first.user_data.data.clone();
    let owner_after_first = first.user_data.owner.bytes.clone();
    let rent_after_first = first.user_data.lamports;

    let second = process_deposit(
        &program,
        &next_request(first),
        2_000_000,
        &system_id(),
        RENT_MINIMUM,
    )
    .expect("the second deposit must apply");

    assert_eq!(second.user_data.data, record_after_first);
    assert_eq!(second.user_data.owner.bytes, owner_after_first);
    assert_eq!(second.user_data.lamports, rent_after_first);
    assert_eq!(second.vault.lamports, 3_000_000);
}

#[test]
fn deposit_withdraw_scenario() {
    let user = id(9);
    let program = id(3);
    let accounts = fresh_request(&user, &program, 10_000_000_000);

    // Deposit one billion units: custody 0 -> 1_000_000_000.
    assert_eq!(accounts.vault.lamports, 0);
    let applied = process_deposit(&program, &accounts, 1_000_000_000, &system_id(), RENT_MINIMUM)
        .expect("the deposit must apply");
    assert_eq!(applied.vault.lamports, 1_000_000_000);
    let user_before_withdraw = applied.user.lamports;

    // Withdraw half: custody -> 500_000_000, user gains 500_000_000.
    let accounts = next_request(applied);
    let applied = process_withdraw(&program, &accounts, 500_000_000, &system_id())
        .expect("the withdraw must apply");
    assert_eq!(applied.vault.lamports, 500_000_000);
    assert_eq!(applied.user.lamports, user_before_withdraw + 500_000_000);

    // Withdrawing more than the custody balance fails and changes nothing.
    let accounts = next_request(applied);
    let err = process_withdraw(&program, &accounts, 600_000_000, &system_id());
    assert!(matches!(err, Err(VaultError::InsufficientFunds)));
    assert_eq!(accounts.vault.lamports, 500_000_000);
}

#[test]
fn withdraw_by_non_owner_fails_with_ownership_mismatch() {
    let owner = id(9);
    let intruder = id(10);
    let program = id(3);
    let accounts = fresh_request(&owner, &program, 10_000_000_000);
    let applied = process_deposit(&program, &accounts, 1_000_000_000, &system_id(), RENT_MINIMUM)
        .expect("the deposit must apply");

    // The intruder signs a withdraw against the owner's record and custody.
    let vault_before = applied.vault.lamports;
    let accounts = RequestAccounts {
        user: fresh_account(&intruder, 5_000_000_000, true),
        user_data: applied.user_data,
        vault: applied.vault,
        system_ref: system_id(),
    };
    let err = process_withdraw(&program, &accounts, 1, &system_id());
    assert!(matches!(err, Err(VaultError::OwnershipMismatch)));
    assert_eq!(accounts.vault.lamports, vault_before);
}

#[test]
fn wrong_custody_address_fails_before_any_transfer() {
    let user = id(9);
    let other = id(10);
    let program = id(3);

    // A syntactically valid custody address derived for a different user.
    let (foreign_vault, _) = find_vault_address(&other, &program).unwrap();
    let mut accounts = fresh_request(&user, &program, 10_000_000_000);
    accounts.vault = fresh_account(&foreign_vault, 0, false);

    let err = process_deposit(&program, &accounts, 1_000_000_000, &system_id(), RENT_MINIMUM);
    assert!(matches!(err, Err(VaultError::AddressMismatch)));
    assert_eq!(accounts.user.lamports, 10_000_000_000);
    assert_eq!(accounts.vault.lamports, 0);
}

#[test]
fn wrong_metadata_address_fails() {
    let user = id(9);
    let other = id(10);
    let program = id(3);
    let (foreign_md, _) = find_user_account_address(&other, &program).unwrap();
    let mut accounts = fresh_request(&user, &program, 10_000_000_000);
    accounts.user_data = fresh_account(&foreign_md, 0, false);
    let err = process_deposit(&program, &accounts, 1_000_000_000, &system_id(), RENT_MINIMUM);
    assert!(matches!(err, Err(VaultError::AddressMismatch)));
}

#[test]
fn unsigned_request_fails() {
    let user = id(9);
    let program = id(3);
    let mut accounts = fresh_request(&user, &program, 10_000_000_000);
    accounts.user.is_signer = false;
    let err = process_deposit(&program, &accounts, 1, &system_id(), RENT_MINIMUM);
    assert!(matches!(err, Err(VaultError::MissingSignature)));
    let err = process_withdraw(&program, &accounts, 1, &system_id());
    assert!(matches!(err, Err(VaultError::MissingSignature)));
}

#[test]
fn wrong_system_program_reference_fails() {
    let user = id(9);
    let program = id(3);
    let mut accounts = fresh_request(&user, &program, 10_000_000_000);
    accounts.system_ref = id(77);
    let err = process_deposit(&program, &accounts, 1, &system_id(), RENT_MINIMUM);
    assert!(matches!(err, Err(VaultError::InvalidProgramReference)));
}

#[test]
fn withdraw_before_any_deposit_fails_uninitialized() {
    let user = id(9);
    let program = id(3);
    let accounts = fresh_request(&user, &program, 10_000_000_000);
    let err = process_withdraw(&program, &accounts, 1, &system_id());
    assert!(matches!(err, Err(VaultError::AccountNotInitialized)));
}

#[test]
fn corrupt_record_fails_malformed() {
    let user = id(9);
    let program = id(3);
    let accounts = fresh_request(&user, &program, 10_000_000_000);
    let applied = process_deposit(&program, &accounts, 1_000_000, &system_id(), RENT_MINIMUM)
        .expect("the deposit must apply");
    let mut accounts = next_request(applied);
    accounts.user_data.data.pop();
    let err = process_withdraw(&program, &accounts, 1, &system_id());
    assert!(matches!(err, Err(VaultError::Malformed)));
}

#[test]
fn insufficient_deposit_funds_fail() {
    let user = id(9);
    let program = id(3);
    // Not enough to fund the record's minimum balance.
    let accounts = fresh_request(&user, &program, RENT_MINIMUM - 1);
    let err = process_deposit(&program, &accounts, 1, &system_id(), RENT_MINIMUM);
    assert!(matches!(err, Err(VaultError::InsufficientFunds)));
}

#[test]
fn process_instruction_dispatches_and_rejects() {
    let user = id(9);
    let program = id(3);
    let accounts = fresh_request(&user, &program, 10_000_000_000);

    let payload = ProgramInstruction::Deposit { amount: 1_000_000_000 }.serialize();
    let applied = process_instruction(&program, &accounts, &payload, &system_id(), RENT_MINIMUM)
        .expect("the deposit payload must apply");
    assert_eq!(applied.vault.lamports, 1_000_000_000);

    let payload = ProgramInstruction::Withdraw { amount: 250_000_000 }.serialize();
    let accounts = next_request(applied);
    let applied = process_instruction(&program, &accounts, &payload, &system_id(), RENT_MINIMUM)
        .expect("the withdraw payload must apply");
    assert_eq!(applied.vault.lamports, 750_000_000);

    let accounts = next_request(applied);
    let err = process_instruction(&program, &accounts, &vec![9u8], &system_id(), RENT_MINIMUM);
    assert!(matches!(err, Err(VaultError::InvalidInstruction)));
}
