use vstd::prelude::*;
use vstd::bytes::*;
use crate::error::EscrowError;
use crate::pubkey::Pubkey;
use crate::pubkey::pubkey_from_slice;

verus! {

/// A decoded operation: transient, parsed from the caller's raw
/// payload, never persisted.
#[derive(Clone, Copy, PartialEq, Eq, Debug)]
pub enum EscrowInstruction {
    /// Reserved, not-yet-activated operation; recognized by the
    /// decoder for wire compatibility but always rejected by the
    /// processor.
    InitEscrow { amount: u64 },
    /// Create a new swap offer.
    CreateSwapPair { token_a_mint: Pubkey, token_b_mint: Pubkey, amount_a: u64, price_b: u64 },
    /// Execute the swap offer stored in the named account.
    ExecuteSwap { swap_pair_id: Pubkey },
}

/// The mathematical model of an operation: identities as byte
/// sequences.
pub enum EscrowInstructionV {
    InitEscrow { amount: u64 },
    CreateSwapPair { token_a_mint: Seq<u8>, token_b_mint: Seq<u8>, amount_a: u64, price_b: u64 },
    ExecuteSwap { swap_pair_id: Seq<u8> },
}

impl View for EscrowInstruction {
    type V = EscrowInstructionV;

    open spec fn view(&self) -> EscrowInstructionV {
        match *self {
            EscrowInstruction::InitEscrow { amount } => EscrowInstructionV::InitEscrow { amount },
            EscrowInstruction::CreateSwapPair {
                token_a_mint,
                token_b_mint,
                amount_a,
                price_b,
            } => EscrowInstructionV::CreateSwapPair {
                token_a_mint: token_a_mint@,
                token_b_mint: token_b_mint@,
                amount_a,
                price_b,
            },
            EscrowInstruction::ExecuteSwap { swap_pair_id } => EscrowInstructionV::ExecuteSwap {
                swap_pair_id: swap_pair_id@,
            },
        }
    }
}

/// Wire decode of an instruction payload.
///
/// The first byte is the discriminant tag: 0 selects `InitEscrow`,
/// 1 `CreateSwapPair`, 2 `ExecuteSwap`; every other value fails with
/// `InvalidInstruction`, as does an empty payload or one whose
/// remaining bytes fall short of the selected variant's fixed field
/// widths. Fields are consumed left-to-right in declared order:
/// identities are 32 bytes verbatim, amounts 8 bytes little-endian.
/// Trailing bytes beyond what the variant consumes are ignored.
pub open spec fn spec_unpack_instruction(input: Seq<u8>) -> Result<
    EscrowInstructionV,
    EscrowError,
> {
    if input.len() < 1 {
        Err(EscrowError::InvalidInstruction)
    } else if input[0] == 0 {
        if input.len() >= 9 {
            Ok(
                EscrowInstructionV::InitEscrow {
                    amount: spec_u64_from_le_bytes(input.subrange(1, 9)),
                },
            )
        } else {
            Err(EscrowError::InvalidInstruction)
        }
    } else if input[0] == 1 {
        if input.len() >= 81 {
            Ok(
                EscrowInstructionV::CreateSwapPair {
                    token_a_mint: input.subrange(1, 33),
                    token_b_mint: input.subrange(33, 65),
                    amount_a: spec_u64_from_le_bytes(input.subrange(65, 73)),
                    price_b: spec_u64_from_le_bytes(input.subrange(73, 81)),
                },
            )
        } else {
            Err(EscrowError::InvalidInstruction)
        }
    } else if input[0] == 2 {
        if input.len() >= 33 {
            Ok(EscrowInstructionV::ExecuteSwap { swap_pair_id: input.subrange(1, 33) })
        } else {
            Err(EscrowError::InvalidInstruction)
        }
    } else {
        Err(EscrowError::InvalidInstruction)
    }
}

/// Every tag from 3 upward names no operation: decoding fails with
/// `InvalidInstruction`, whatever follows the tag.
pub proof fn lemma_unpack_unknown_tag(input: Seq<u8>)
    requires
        input.len() >= 1,
        input[0] >= 3,
    ensures
        spec_unpack_instruction(input) == Err::<EscrowInstructionV, EscrowError>(
            EscrowError::InvalidInstruction,
        ),
{
}

/// A create payload with fewer than 80 bytes after the tag falls
/// short of its fixed field widths and fails with
/// `InvalidInstruction`.
pub proof fn lemma_unpack_create_short(input: Seq<u8>)
    requires
        input.len() >= 1,
        input[0] == 1,
        input.len() < 81,
    ensures
        spec_unpack_instruction(input) == Err::<EscrowInstructionV, EscrowError>(
            EscrowError::InvalidInstruction,
        ),
{
}

/// A create payload with exactly its 80 field bytes after the tag
/// decodes successfully, and appending arbitrary trailing bytes
/// changes nothing: they are ignored, not an error.
pub proof fn lemma_unpack_create_ignores_trailing(input: Seq<u8>, extra: Seq<u8>)
    requires
        input.len() >= 81,
        input[0] == 1,
    ensures
        (spec_unpack_instruction(input) is Ok),
        spec_unpack_instruction(input + extra) == spec_unpack_instruction(input),
{
    let whole = input + extra;
    assert(whole.subrange(1, 33) =~= input.subrange(1, 33));
    assert(whole.subrange(33, 65) =~= input.subrange(33, 65));
    assert(whole.subrange(65, 73) =~= input.subrange(65, 73));
    assert(whole.subrange(73, 81) =~= input.subrange(73, 81));
}

impl EscrowInstruction {
    /// Decodes the caller's raw payload into a typed operation, or
    /// fails with `InvalidInstruction`, exactly as
    /// `spec_unpack_instruction` lays the wire format down.
    pub fn unpack(input: &[u8]) -> (r: Result<EscrowInstruction, EscrowError>)
        ensures
            match spec_unpack_instruction(input@) {
                Ok(m) => (r matches Ok(ins) && ins@ == m),
                Err(e) => r == Err::<EscrowInstruction, EscrowError>(e),
            },
    {
        if input.len() < 1 {
            return Err(EscrowError::InvalidInstruction);
        }
        let tag = input[0];
        if tag == 0 {
            if input.len() < 9 {
                return Err(EscrowError::InvalidInstruction);
            }
            let amount_slice = &input[1usize..9];
            Ok(EscrowInstruction::InitEscrow { amount: u64_from_le_bytes(amount_slice) })
        } else if tag == 1 {
            if input.len() < 81 {
                return Err(EscrowError::InvalidInstruction);
            }
            let amount_a_slice = &input[65usize..73];
            let price_b_slice = &input[73usize..81];
            Ok(
                EscrowInstruction::CreateSwapPair {
                    token_a_mint: pubkey_from_slice(input, 1),
                    token_b_mint: pubkey_from_slice(input, 33),
                    amount_a: u64_from_le_bytes(amount_a_slice),
                    price_b: u64_from_le_bytes(price_b_slice),
                },
            )
        } else if tag == 2 {
            if input.len() < 33 {
                return Err(EscrowError::InvalidInstruction);
            }
            Ok(EscrowInstruction::ExecuteSwap { swap_pair_id: pubkey_from_slice(input, 1) })
        } else {
            Err(EscrowError::InvalidInstruction)
        }
    }
}

} // verus!
