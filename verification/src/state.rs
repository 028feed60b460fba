use vstd::prelude::*;
use vstd::bytes::*;
use crate::error::EscrowError;
use crate::pubkey::Pubkey;
use crate::pubkey::pubkey_from_slice;

verus! {

/// Byte length of the persisted record: one byte per flag, 32 per
/// identity, 8 per amount, in declared field order.
pub const SWAP_PAIR_LEN: usize = 1 + 32 + 32 + 32 + 32 + 8 + 8 + 1;

/// The persisted escrow record: one fixed-price, single-use swap
/// offer, stored inline in the offer account's byte buffer.
#[derive(Clone, Copy, PartialEq, Eq, Debug)]
pub struct SwapPair {
    /// True once a create operation has written the record; guards
    /// against reading garbage or zeroed memory as a live offer.
    pub is_initialized: bool,
    /// The party who funded side A; immutable after creation, and
    /// never allowed to take its own offer.
    pub creator_pubkey: Pubkey,
    /// Asset type offered by the creator.
    pub token_a_mint: Pubkey,
    /// Asset type the taker must pay with.
    pub token_b_mint: Pubkey,
    /// The account holding the escrowed quantity of asset A (the
    /// offer account itself in this design).
    pub token_a_account: Pubkey,
    /// Quantity of asset A on offer (informational; not re-validated
    /// against the actual holding at execution time).
    pub amount_a: u64,
    /// Exact quantity of asset B the taker pays to execute the swap.
    pub price_b: u64,
    /// True until the swap executes; false is terminal.
    pub is_active: bool,
}

/// The mathematical model of a record: identities as byte sequences.
pub struct SwapPairV {
    pub is_initialized: bool,
    pub creator_pubkey: Seq<u8>,
    pub token_a_mint: Seq<u8>,
    pub token_b_mint: Seq<u8>,
    pub token_a_account: Seq<u8>,
    pub amount_a: u64,
    pub price_b: u64,
    pub is_active: bool,
}

impl View for SwapPair {
    type V = SwapPairV;

    open spec fn view(&self) -> SwapPairV {
        SwapPairV {
            is_initialized: self.is_initialized,
            creator_pubkey: self.creator_pubkey@,
            token_a_mint: self.token_a_mint@,
            token_b_mint: self.token_b_mint@,
            token_a_account: self.token_a_account@,
            amount_a: self.amount_a,
            price_b: self.price_b,
            is_active: self.is_active,
        }
    }
}

impl SwapPairV {
    /// Well-formedness: every identity is exactly 32 bytes. The view
    /// of any executable `SwapPair` satisfies this by construction.
    pub open spec fn wf(self) -> bool {
        &&& self.creator_pubkey.len() == 32
        &&& self.token_a_mint.len() == 32
        &&& self.token_b_mint.len() == 32
        &&& self.token_a_account.len() == 32
    }
}

/// How a flag serializes: one byte, 1 for true, 0 for false.
pub open spec fn spec_bool_byte(b: bool) -> u8 {
    if b {
        1u8
    } else {
        0u8
    }
}

/// The fixed 146-byte layout of a record: flags as single bytes,
/// identities verbatim, amounts little-endian, in declared order.
pub open spec fn spec_pack(p: SwapPairV) -> Seq<u8> {
    seq![spec_bool_byte(p.is_initialized)] + p.creator_pubkey + p.token_a_mint + p.token_b_mint
        + p.token_a_account + spec_u64_to_le_bytes(p.amount_a) + spec_u64_to_le_bytes(p.price_b)
        + seq![spec_bool_byte(p.is_active)]
}

/// The record read back from a buffer: fields at their fixed offsets;
/// any non-zero byte counts as a true flag. Only the first
/// `SWAP_PAIR_LEN` bytes are consulted.
pub open spec fn spec_unpack(s: Seq<u8>) -> SwapPairV
    recommends
        s.len() >= SWAP_PAIR_LEN,
{
    SwapPairV {
        is_initialized: s[0] != 0,
        creator_pubkey: s.subrange(1, 33),
        token_a_mint: s.subrange(33, 65),
        token_b_mint: s.subrange(65, 97),
        token_a_account: s.subrange(97, 129),
        amount_a: spec_u64_from_le_bytes(s.subrange(129, 137)),
        price_b: spec_u64_from_le_bytes(s.subrange(137, 145)),
        is_active: s[145] != 0,
    }
}

/// A packed record is always exactly `SWAP_PAIR_LEN` bytes.
pub proof fn lemma_pack_len(p: SwapPairV)
    requires
        p.wf(),
    ensures
        spec_pack(p).len() == SWAP_PAIR_LEN,
{
    lemma_auto_spec_u64_to_from_le_bytes();
}

/// Round trip: decoding an encoded record gives back exactly the
/// record that was encoded, for every well-formed record.
pub proof fn lemma_pack_unpack(p: SwapPairV)
    requires
        p.wf(),
    ensures
        spec_unpack(spec_pack(p)) == p,
{
    lemma_auto_spec_u64_to_from_le_bytes();
    let s = spec_pack(p);
    assert(s.subrange(1, 33) =~= p.creator_pubkey);
    assert(s.subrange(33, 65) =~= p.token_a_mint);
    assert(s.subrange(65, 97) =~= p.token_b_mint);
    assert(s.subrange(97, 129) =~= p.token_a_account);
    assert(s.subrange(129, 137) =~= spec_u64_to_le_bytes(p.amount_a));
    assert(s.subrange(137, 145) =~= spec_u64_to_le_bytes(p.price_b));
}

impl SwapPair {
    /// Whether the record has been written by a create operation.
    pub fn is_initialized(&self) -> (r: bool)
        ensures
            r == self@.is_initialized,
    {
        self.is_initialized
    }

    /// Encodes the record into a fresh buffer of exactly
    /// `SWAP_PAIR_LEN` bytes.
    pub fn pack_to_vec(&self) -> (r: Vec<u8>)
        ensures
            r@ == spec_pack(self@),
            r@.len() == SWAP_PAIR_LEN,
    {
        let mut out: Vec<u8> = Vec::new();
        out.push(if self.is_initialized {
            1u8
        } else {
            0u8
        });
        out.extend_from_slice(self.creator_pubkey.bytes.as_slice());
        out.extend_from_slice(self.token_a_mint.bytes.as_slice());
        out.extend_from_slice(self.token_b_mint.bytes.as_slice());
        out.extend_from_slice(self.token_a_account.bytes.as_slice());
        let amount_a_bytes = u64_to_le_bytes(self.amount_a);
        out.extend_from_slice(amount_a_bytes.as_slice());
        let price_b_bytes = u64_to_le_bytes(self.price_b);
        out.extend_from_slice(price_b_bytes.as_slice());
        out.push(if self.is_active {
            1u8
        } else {
            0u8
        });
        proof {
            assert(out@ =~= spec_pack(self@));
        }
        out
    }

    /// Encodes the record at the start of `dst`, which must be at
    /// least `SWAP_PAIR_LEN` bytes long; bytes past the record keep
    /// their old values.
    pub fn pack_into_slice(&self, dst: &mut Vec<u8>)
        requires
            old(dst)@.len() >= SWAP_PAIR_LEN,
        ensures
            final(dst)@.len() == old(dst)@.len(),
            final(dst)@ == spec_pack(self@) + old(dst)@.skip(SWAP_PAIR_LEN as int),
    {
        let enc = self.pack_to_vec();
        let mut i: usize = 0;
        while i < SWAP_PAIR_LEN
            invariant
                0 <= i <= SWAP_PAIR_LEN,
                enc@ == spec_pack(self@),
                enc@.len() == SWAP_PAIR_LEN,
                dst@.len() == old(dst)@.len() >= SWAP_PAIR_LEN,
                forall|j: int| 0 <= j < i ==> dst@[j] == enc@[j],
                forall|j: int| i <= j < dst@.len() ==> dst@[j] == old(dst)@[j],
            decreases SWAP_PAIR_LEN - i,
        {
            dst.set(i, enc[i]);
            i += 1;
        }
        proof {
            assert(dst@ =~= spec_pack(self@) + old(dst)@.skip(SWAP_PAIR_LEN as int));
        }
    }

    /// Decodes a record from the start of `src`. Fails with
    /// `InvalidAccountData` exactly when `src` is shorter than the
    /// fixed record length; trailing bytes are ignored. No field
    /// semantics are checked here: length and position are the only
    /// codec concerns.
    pub fn unpack_from_slice(src: &[u8]) -> (r: Result<SwapPair, EscrowError>)
        ensures
            src@.len() >= SWAP_PAIR_LEN ==> (r matches Ok(p) && p@ == spec_unpack(src@)),
            src@.len() < SWAP_PAIR_LEN ==> r == Err::<SwapPair, EscrowError>(
                EscrowError::InvalidAccountData,
            ),
    {
        if src.len() < SWAP_PAIR_LEN {
            return Err(EscrowError::InvalidAccountData);
        }
        let amount_a_slice = &src[129usize..137];
        let price_b_slice = &src[137usize..145];
        Ok(SwapPair {
            is_initialized: src[0] != 0,
            creator_pubkey: pubkey_from_slice(src, 1),
            token_a_mint: pubkey_from_slice(src, 33),
            token_b_mint: pubkey_from_slice(src, 65),
            token_a_account: pubkey_from_slice(src, 97),
            amount_a: u64_from_le_bytes(amount_a_slice),
            price_b: u64_from_le_bytes(price_b_slice),
            is_active: src[145] != 0,
        })
    }
}

} // verus!
