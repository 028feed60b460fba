use vstd::prelude::*;

verus! {

/// An opaque 32-byte identity: a participant, an asset mint, or an
/// account address. The protocol never interprets the bytes; it only
/// stores and compares them.
#[derive(Clone, Copy, PartialEq, Eq, Debug)]
pub struct Pubkey {
    pub bytes: [u8; 32],
}

impl View for Pubkey {
    type V = Seq<u8>;

    open spec fn view(&self) -> Seq<u8> {
        self.bytes@
    }
}

impl Pubkey {
    pub fn new(bytes: [u8; 32]) -> (r: Pubkey)
        ensures
            r@ == bytes@,
    {
        Pubkey { bytes }
    }

    /// Byte-for-byte equality of two identities.
    pub fn key_eq(&self, other: &Pubkey) -> (r: bool)
        ensures
            r == (self@ == other@),
    {
        let mut i: usize = 0;
        while i < 32
            invariant
                0 <= i <= 32,
                forall|j: int| 0 <= j < i ==> self.bytes@[j] == other.bytes@[j],
            decreases 32 - i,
        {
            if self.bytes[i] != other.bytes[i] {
                return false;
            }
            i += 1;
        }
        proof {
            assert(self@ =~= other@);
        }
        true
    }
}

/// Reads the 32-byte identity stored in `src` at `offset`.
pub fn pubkey_from_slice(src: &[u8], offset: usize) -> (r: Pubkey)
    requires
        offset + 32 <= src@.len(),
    ensures
        r@ == src@.subrange(offset as int, offset as int + 32),
{
    let n: usize = src.len();
    let mut bytes: [u8; 32] = [0u8; 32];
    let mut i: usize = 0;
    while i < 32
        invariant
            0 <= i <= 32,
            offset + 32 <= n == src@.len(),
            forall|j: int| 0 <= j < i ==> bytes@[j] == src@[offset + j],
        decreases 32 - i,
    {
        bytes[i] = src[offset + i];
        i += 1;
    }
    proof {
        assert(bytes@ =~= src@.subrange(offset as int, offset as int + 32));
    }
    Pubkey { bytes }
}

} // verus!
