//! The metadata record and its fixed-layout binary codec: identity bytes,
//! the two discriminants, and the initialization flag, in that order.

use vstd::prelude::*;
use crate::identity::{Identity, IDENTITY_LEN};

verus! {

/// The exact width of an encoded record: identity width plus one byte for
/// each discriminant and one for the initialization flag.
pub const USER_ACCOUNT_SIZE: usize = 32 + 1 + 1 + 1;

/// The per-user metadata record the program stores: the owner identity, the
/// discriminant that reproduces the record's own address, the discriminant
/// that reproduces the custody address, and the one-time initialization
/// flag. Once initialized, the first three fields never change.
#[derive(Clone, Debug)]
pub struct UserAccount {
    pub user: Identity,
    pub user_bump: u8,
    pub vault_bump: u8,
    pub is_initialized: bool,
}

/// The mathematical content of a metadata record.
#[verifier::ext_equal]
pub struct UserAccountModel {
    pub user: Seq<u8>,
    pub user_bump: u8,
    pub vault_bump: u8,
    pub is_initialized: bool,
}

impl View for UserAccount {
    type V = UserAccountModel;

    open spec fn view(&self) -> UserAccountModel {
        UserAccountModel {
            user: self.user@,
            user_bump: self.user_bump,
            vault_bump: self.vault_bump,
            is_initialized: self.is_initialized,
        }
    }
}

impl UserAccount {
    /// A record is well formed when its owner identity has the fixed width.
    pub open spec fn wf(&self) -> bool {
        self.user.wf()
    }
}

/// Why record bytes failed to decode.
#[derive(Clone, Copy, Debug, PartialEq, Eq, Structural)]
pub enum DecodeError {
    /// Wrong length, or an initialization flag that is neither 0 nor 1.
    Malformed,
}

/// The encoding of a record: owner bytes, then the two discriminants, then
/// the flag as a single 0-or-1 byte.
pub open spec fn encode_spec(m: UserAccountModel) -> Seq<u8> {
    m.user + seq![m.user_bump, m.vault_bump, if m.is_initialized { 1u8 } else { 0u8 }]
}

/// Whether a buffer is a well-formed record encoding: exactly the fixed
/// width, with a 0-or-1 flag byte.
pub open spec fn valid_encoding(b: Seq<u8>) -> bool {
    b.len() == USER_ACCOUNT_SIZE && (b[34] == 0 || b[34] == 1)
}

/// The record a well-formed buffer decodes to; `None` for any other buffer.
pub open spec fn decode_spec(b: Seq<u8>) -> Option<UserAccountModel> {
    if valid_encoding(b) {
        Some(
            UserAccountModel {
                user: b.subrange(0, IDENTITY_LEN as int),
                user_bump: b[32],
                vault_bump: b[33],
                is_initialized: b[34] == 1,
            },
        )
    } else {
        None
    }
}

/// Decoding inverts encoding on every well-formed record, and decoding any
/// buffer of the wrong length fails.
pub proof fn lemma_record_round_trip(m: UserAccountModel)
    requires
        m.user.len() == IDENTITY_LEN,
    ensures
        decode_spec(encode_spec(m)) == Some(m),
        forall|b: Seq<u8>| b.len() != USER_ACCOUNT_SIZE ==> decode_spec(b) is None,
{
    let e = encode_spec(m);
    assert(e.len() == USER_ACCOUNT_SIZE);
    assert(e[34] == (if m.is_initialized { 1u8 } else { 0u8 }));
    assert(valid_encoding(e));
    let d = decode_spec(e)->Some_0;
    assert(d.user =~= m.user);
    assert(d =~= m);
}

impl UserAccount {
    /// Serializes the record into its fixed-width byte layout.
    pub fn encode(&self) -> (r: Vec<u8>)
        requires
            self.wf(),
        ensures
            r@ == encode_spec(self@),
    {
        let mut r = crate::identity::copy_bytes(&self.user.bytes);
        r.push(self.user_bump);
        r.push(self.vault_bump);
        r.push(if self.is_initialized { 1 } else { 0 });
        assert(r@ =~= encode_spec(self@));
        r
    }

    /// Parses a record from its fixed-width byte layout; any buffer that is
    /// not exactly a well-formed encoding is rejected.
    pub fn decode(bytes: &Vec<u8>) -> (r: Result<UserAccount, DecodeError>)
        ensures
            match r {
                Ok(rec) => rec.wf() && decode_spec(bytes@) == Some(rec@),
                Err(e) => e == DecodeError::Malformed && decode_spec(bytes@) is None,
            },
    {
        if bytes.len() != USER_ACCOUNT_SIZE {
            return Err(DecodeError::Malformed);
        }
        let flag = bytes[34];
        if flag > 1 {
            return Err(DecodeError::Malformed);
        }
        let mut user_bytes: Vec<u8> = Vec::new();
        let mut i: usize = 0;
        while i < IDENTITY_LEN
            invariant
                bytes@.len() == USER_ACCOUNT_SIZE,
                i <= IDENTITY_LEN,
                user_bytes@ == bytes@.subrange(0, i as int),
            decreases IDENTITY_LEN - i,
        {
            user_bytes.push(bytes[i]);
            assert(user_bytes@ =~= bytes@.subrange(0, i + 1));
            i = i + 1;
        }
        let rec = UserAccount {
            user: Identity::new(user_bytes),
            user_bump: bytes[32],
            vault_bump: bytes[33],
            is_initialized: flag == 1,
        };
        assert(decode_spec(bytes@)->Some_0 =~= rec@);
        Ok(rec)
    }
}

} // verus!
