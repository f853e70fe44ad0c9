//! The instruction payload codec: one tag byte (0 = deposit, 1 = withdraw)
//! followed by the amount as an 8-byte little-endian unsigned integer.

use vstd::prelude::*;
use vstd::bytes::{spec_u64_from_le_bytes, spec_u64_to_le_bytes, u64_from_le_bytes, u64_to_le_bytes, lemma_auto_spec_u64_to_from_le_bytes};
use crate::errors::VaultError;

verus! {

/// The exact width of an encoded instruction: the tag byte plus the amount.
pub const INSTRUCTION_SIZE: usize = 1 + 8;

/// A decoded request: deposit into or withdraw from the custody account.
#[derive(Clone, Copy, Debug, PartialEq, Eq, Structural)]
pub enum ProgramInstruction {
    Deposit { amount: u64 },
    Withdraw { amount: u64 },
}

/// The encoding of an instruction: the variant tag, then the amount in
/// little-endian order.
pub open spec fn encode_instruction_spec(ins: ProgramInstruction) -> Seq<u8> {
    match ins {
        ProgramInstruction::Deposit { amount } => seq![0u8] + spec_u64_to_le_bytes(amount),
        ProgramInstruction::Withdraw { amount } => seq![1u8] + spec_u64_to_le_bytes(amount),
    }
}

/// Whether a buffer is a well-formed instruction encoding: exactly the fixed
/// width, with a known tag byte.
pub open spec fn valid_instruction(b: Seq<u8>) -> bool {
    b.len() == INSTRUCTION_SIZE && (b[0] == 0 || b[0] == 1)
}

/// The instruction a well-formed buffer decodes to; `None` for any other
/// buffer.
pub open spec fn decode_instruction_spec(b: Seq<u8>) -> Option<ProgramInstruction> {
    if valid_instruction(b) {
        let amount = spec_u64_from_le_bytes(b.subrange(1, INSTRUCTION_SIZE as int));
        if b[0] == 0 {
            Some(ProgramInstruction::Deposit { amount })
        } else {
            Some(ProgramInstruction::Withdraw { amount })
        }
    } else {
        None
    }
}

/// Decoding inverts encoding on every instruction, and decoding any buffer
/// of the wrong length fails.
pub proof fn lemma_instruction_round_trip(ins: ProgramInstruction)
    ensures
        decode_instruction_spec(encode_instruction_spec(ins)) == Some(ins),
        forall|b: Seq<u8>| b.len() != INSTRUCTION_SIZE ==> decode_instruction_spec(b) is None,
{
    lemma_auto_spec_u64_to_from_le_bytes();
    let e = encode_instruction_spec(ins);
    match ins {
        ProgramInstruction::Deposit { amount } => {
            assert(e.subrange(1, INSTRUCTION_SIZE as int) =~= spec_u64_to_le_bytes(amount));
        }
        ProgramInstruction::Withdraw { amount } => {
            assert(e.subrange(1, INSTRUCTION_SIZE as int) =~= spec_u64_to_le_bytes(amount));
        }
    }
}

impl ProgramInstruction {
    /// Serializes the instruction into its fixed-width byte layout.
    pub fn serialize(&self) -> (r: Vec<u8>)
        ensures
            r@ == encode_instruction_spec(*self),
    {
        proof {
            lemma_auto_spec_u64_to_from_le_bytes();
        }
        let mut data: Vec<u8> = Vec::new();
        match self {
            ProgramInstruction::Deposit { amount } => {
                data.push(0);
                let mut amount_bytes = u64_to_le_bytes(*amount);
                data.append(&mut amount_bytes);
            }
            ProgramInstruction::Withdraw { amount } => {
                data.push(1);
                let mut amount_bytes = u64_to_le_bytes(*amount);
                data.append(&mut amount_bytes);
            }
        }
        assert(data@ =~= encode_instruction_spec(*self));
        data
    }

    /// Parses an instruction from an opaque payload; any buffer that is not
    /// exactly a well-formed encoding is rejected.
    pub fn unpack(input: &Vec<u8>) -> (r: Result<ProgramInstruction, VaultError>)
        ensures
            match r {
                Ok(ins) => decode_instruction_spec(input@) == Some(ins),
                Err(e) => e == VaultError::InvalidInstruction && decode_instruction_spec(input@)
                    is None,
            },
    {
        if input.len() != INSTRUCTION_SIZE {
            return Err(VaultError::InvalidInstruction);
        }
        let tag = input[0];
        if tag > 1 {
            return Err(VaultError::InvalidInstruction);
        }
        let mut amount_bytes: Vec<u8> = Vec::new();
        let mut i: usize = 1;
        while i < INSTRUCTION_SIZE
            invariant
                input@.len() == INSTRUCTION_SIZE,
                1 <= i <= INSTRUCTION_SIZE,
                amount_bytes@ == input@.subrange(1, i as int),
            decreases INSTRUCTION_SIZE - i,
        {
            amount_bytes.push(input[i]);
            assert(amount_bytes@ =~= input@.subrange(1, i + 1));
            i = i + 1;
        }
        let amount = u64_from_le_bytes(amount_bytes.as_slice());
        if tag == 0 {
            Ok(ProgramInstruction::Deposit { amount })
        } else {
            Ok(ProgramInstruction::Withdraw { amount })
        }
    }
}

} // verus!
