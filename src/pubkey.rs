use vstd::prelude::*;

verus! {

/// Number of bytes in a public key.
pub const PUBKEY_BYTES: usize = 32;

/// A 32-byte public key. Any byte pattern is a structurally valid key.
#[derive(Clone, Copy, Debug, PartialEq, Eq)]
pub struct Pubkey(pub [u8; 32]);

impl View for Pubkey {
    type V = Seq<u8>;

    open spec fn view(&self) -> Seq<u8> {
        self.0@
    }
}

impl Pubkey {
    /// Builds a key from its bytes.
    pub fn new_from_array(bytes: [u8; 32]) -> (r: Pubkey)
        ensures
            r@ == bytes@,
    {
        Pubkey(bytes)
    }

    /// The key's bytes.
    pub fn to_bytes(&self) -> (r: [u8; 32])
        ensures
            r@ == self@,
    {
        self.0
    }

    /// Copies the 32 bytes of `src` that start at `start`.
    pub fn read_from(src: &[u8], start: usize) -> (r: Pubkey)
        requires
            start + 32 <= src@.len(),
        ensures
            r@ == src@.subrange(start as int, start + 32),
    {
        let mut bytes: [u8; 32] = [0u8; 32];
        let n = src.len();
        let mut i: usize = 0;
        while i < PUBKEY_BYTES
            invariant
                i <= 32,
                n == src@.len(),
                start + 32 <= src@.len(),
                bytes@.len() == 32,
                forall|j: int| 0 <= j < i ==> bytes@[j] == src@[start + j],
            decreases 32 - i,
        {
            bytes[i] = src[start + i];
            i = i + 1;
        }
        let r = Pubkey(bytes);
        assert(r@ =~= src@.subrange(start as int, start + 32));
        r
    }

    /// Whether the two keys hold the same bytes.
    pub fn same_as(&self, other: &Pubkey) -> (r: bool)
        ensures
            r == (self@ == other@),
    {
        let mut i: usize = 0;
        while i < PUBKEY_BYTES
            invariant
                i <= 32,
                self@.len() == 32,
                other@.len() == 32,
                forall|j: int| 0 <= j < i ==> self@[j] == other@[j],
            decreases 32 - i,
        {
            if self.0[i] != other.0[i] {
                return false;
            }
            i = i + 1;
        }
        assert(self@ =~= other@);
        true
    }
}

} // verus!
