use vstd::prelude::*;

verus! {

/// Width in bytes of an account address.
pub const KEY_LEN: usize = 32;

/// An account address, held as its 32 raw bytes.
#[derive(Clone, Copy, Debug, PartialEq, Eq)]
pub struct Pubkey {
    pub bytes: [u8; 32],
}

impl View for Pubkey {
    type V = Seq<u8>;

    open spec fn view(&self) -> Seq<u8> {
        self.bytes@
    }
}

impl Pubkey {
    /// The address made of the given bytes.
    pub fn new_from_array(bytes: [u8; 32]) -> (k: Pubkey)
        ensures
            k@ == bytes@,
    {
        Pubkey { bytes }
    }

    /// The all-zero address, which is what a freshly created account field holds.
    pub fn zero() -> (k: Pubkey)
        ensures
            k@ == Seq::new(32, |i: int| 0u8),
    {
        let k = Pubkey { bytes: [0u8; 32] };
        assert(k@ =~= Seq::new(32, |i: int| 0u8));
        k
    }

    /// The raw bytes of the address.
    pub fn to_bytes(&self) -> (b: [u8; 32])
        ensures
            b@ == self@,
    {
        self.bytes
    }

    /// Whether two addresses are the same, byte for byte.
    pub fn same_as(&self, other: &Pubkey) -> (r: bool)
        ensures
            r == (self@ == other@),
    {
        let mut i: usize = 0;
        while i < KEY_LEN
            invariant
                i <= KEY_LEN,
                self@.len() == 32,
                other@.len() == 32,
                forall|j: int| 0 <= j < i ==> self@[j] == other@[j],
            decreases KEY_LEN - i,
        {
            if self.bytes[i] != other.bytes[i] {
                return false;
            }
            i = i + 1;
        }
        assert(self@ =~= other@);
        true
    }
}

} // verus!
