use vault_program::codec::{DecodeError, UserAccount, USER_ACCOUNT_SIZE};
use vault_program::derive::{combine, find_user_account_address, find_vault_address, verify};
use vault_program::errors::VaultError;
use vault_program::identity::Identity;
use vault_program::instruction::ProgramInstruction;

use solana_program::pubkey::Pubkey;

fn id(byte: u8) -> Identity {
    Identity::new(vec![byte; 32])
}

fn vault_seed_vec(user: &Identity) -> Vec<Vec<u8>> {
    vec![b"vault".to_vec(), user.bytes.clone()]
}

#[test]
fn derive_is_deterministic() {
    let user = id(9);
    let program = id(3);
    let first = find_vault_address(&user, &program).expect("a discriminant must exist");
    let second = find_vault_address(&user, &program).expect("a discriminant must exist");
    assert_eq!(first.0.bytes, second.0.bytes);
    assert_eq!(first.1, second.1);

    let first_md = find_user_account_address(&user, &program).expect("a discriminant must exist");
    let second_md = find_user_account_address(&user, &program).expect("a discriminant must exist");
    assert_eq!(first_md.0.bytes, second_md.0.bytes);
    assert_eq!(first_md.1, second_md.1);
}

#[test]
fn derive_matches_the_address_crate() {
    let user = id(9);
    let program = id(3);
    let user_pk = Pubkey::new_from_array([9u8; 32]);
    let program_pk = Pubkey::new_from_array([3u8; 32]);

    let (vault_pk, vault_bump) =
        Pubkey::find_program_address(&[b"vault", user_pk.as_ref()], &program_pk);
    let lib_vault = find_vault_address(&user, &program).expect("a discriminant must exist");
    assert_eq!(lib_vault.0.bytes, vault_pk.to_bytes().to_vec());
    assert_eq!(lib_vault.1, vault_bump);

    let (md_pk, md_bump) = Pubkey::find_program_address(&[user_pk.as_ref()], &program_pk);
    let lib_md = find_user_account_address(&user, &program).expect("a discriminant must exist");
    assert_eq!(lib_md.0.bytes, md_pk.to_bytes().to_vec());
    assert_eq!(lib_md.1, md_bump);
}

#[test]
fn combine_matches_the_address_crate() {
    let user = id(9);
    let program = id(3);
    let program_pk = Pubkey::new_from_array([3u8; 32]);
    let user_pk = Pubkey::new_from_array([9u8; 32]);
    let (_, bump) = Pubkey::find_program_address(&[b"vault", user_pk.as_ref()], &program_pk);
    let expected =
        Pubkey::create_program_address(&[b"vault", user_pk.as_ref(), &[bump]], &program_pk)
            .expect("the found discriminant must combine");
    let got = combine(&vault_seed_vec(&user), bump, &program).expect("must combine");
    assert_eq!(got.bytes, expected.to_bytes().to_vec());
}

#[test]
fn verify_accepts_only_the_derived_address() {
    let user = id(9);
    let program = id(3);
    let (vault, bump) = find_vault_address(&user, &program).expect("a discriminant must exist");
    let seeds = vault_seed_vec(&user);

    assert!(verify(&seeds, bump, &program, &vault));

    // A single-bit mutation of the claimed address fails.
    let mut mutated = vault.bytes.clone();
    mutated[0] ^= 1;
    assert!(!verify(&seeds, bump, &program, &Identity::new(mutated)));

    // A different discriminant fails against the same claimed address.
    assert!(!verify(&seeds, bump.wrapping_sub(1), &program, &vault));

    // A single-bit mutation of a seed byte fails.
    let mut mutated_seeds = seeds.clone();
    mutated_seeds[1][0] ^= 1;
    assert!(!verify(&mutated_seeds, bump, &program, &vault));
}

#[test]
fn derive_skips_discriminants_that_do_not_combine() {
    let user = id(9);
    let program = id(3);
    let (_, bump) = find_vault_address(&user, &program).expect("a discriminant must exist");
    let seeds = vault_seed_vec(&user);
    // Every discriminant above the returned one fails to combine.
    let mut b: u16 = bump as u16 + 1;
    while b <= 255 {
        assert!(combine(&seeds, b as u8, &program).is_none());
        b += 1;
    }
}

#[test]
fn record_round_trip() {
    let rec = UserAccount {
        user: id(7),
        user_bump: 254,
        vault_bump: 255,
        is_initialized: true,
    };
    let bytes = rec.encode();
    assert_eq!(bytes.len(), USER_ACCOUNT_SIZE);
    let back = UserAccount::decode(&bytes).expect("a fresh encoding must decode");
    assert_eq!(back.user.bytes, rec.user.bytes);
    assert_eq!(back.user_bump, 254);
    assert_eq!(back.vault_bump, 255);
    assert!(back.is_initialized);
}

#[test]
fn record_layout_is_fixed() {
    let rec = UserAccount {
        user: id(1),
        user_bump: 2,
        vault_bump: 3,
        is_initialized: false,
    };
    let bytes = rec.encode();
    let mut expected = vec![1u8; 32];
    expected.extend_from_slice(&[2, 3, 0]);
    assert_eq!(bytes, expected);
}

#[test]
fn record_decode_rejects_wrong_length() {
    let short = vec![0u8; USER_ACCOUNT_SIZE - 1];
    assert!(matches!(UserAccount::decode(&short), Err(DecodeError::Malformed)));
    let long = vec![0u8; USER_ACCOUNT_SIZE + 1];
    assert!(matches!(UserAccount::decode(&long), Err(DecodeError::Malformed)));
    assert!(matches!(UserAccount::decode(&Vec::new()), Err(DecodeError::Malformed)));
}

#[test]
fn record_decode_rejects_bad_flag() {
    let mut bytes = vec![0u8; USER_ACCOUNT_SIZE];
    bytes[34] = 2;
    assert!(matches!(UserAccount::decode(&bytes), Err(DecodeError::Malformed)));
    bytes[34] = 1;
    assert!(UserAccount::decode(&bytes).is_ok());
}

#[test]
fn instruction_layout_is_fixed() {
    let deposit = ProgramInstruction::Deposit { amount: 1_000_000_000 };
    assert_eq!(deposit.serialize(), vec![0u8, 0x00, 0xCA, 0x9A, 0x3B, 0, 0, 0, 0]);
    let withdraw = ProgramInstruction::Withdraw { amount: 500_000_000 };
    assert_eq!(withdraw.serialize(), vec![1u8, 0x00, 0x65, 0xCD, 0x1D, 0, 0, 0, 0]);
}

#[test]
fn instruction_round_trip() {
    for ins in [
        ProgramInstruction::Deposit { amount: 0 },
        ProgramInstruction::Deposit { amount: u64::MAX },
        ProgramInstruction::Withdraw { amount: 1 },
        ProgramInstruction::Withdraw { amount: u64::MAX - 1 },
    ] {
        let back = ProgramInstruction::unpack(&ins.serialize()).expect("must decode");
        assert_eq!(back, ins);
    }
}

#[test]
fn instruction_unpack_rejects_malformed_payloads() {
    assert_eq!(
        ProgramInstruction::unpack(&Vec::new()),
        Err(VaultError::InvalidInstruction)
    );
    assert_eq!(
        ProgramInstruction::unpack(&vec![0u8; 8]),
        Err(VaultError::InvalidInstruction)
    );
    assert_eq!(
        ProgramInstruction::unpack(&vec![0u8; 10]),
        Err(VaultError::InvalidInstruction)
    );
    // Unknown tag.
    assert_eq!(
        ProgramInstruction::unpack(&vec![2u8, 0, 0, 0, 0, 0, 0, 0, 0]),
        Err(VaultError::InvalidInstruction)
    );
}
