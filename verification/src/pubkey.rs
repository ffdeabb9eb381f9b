use vstd::prelude::*;

verus! {

/// A program or account identity: the address bytes the runtime hands
/// in. The runtime supplies 32 bytes; this program only ever compares
/// identities for equality, so no further structure is imposed here.
#[derive(Debug)]
pub struct Pubkey {
    pub bytes: Vec<u8>,
}

impl Pubkey {
    /// True exactly when the two identities hold the same bytes.
    pub fn eq_bytes(&self, other: &Pubkey) -> (r: bool)
        ensures
            r == (self.bytes@ == other.bytes@),
    {
        if self.bytes.len() != other.bytes.len() {
            return false;
        }
        let n = self.bytes.len();
        let mut i: usize = 0;
        while i < n
            invariant
                n == self.bytes@.len(),
                n == other.bytes@.len(),
                i <= n,
                forall|j: int| 0 <= j < i ==> self.bytes@[j] == other.bytes@[j],
            decreases n - i,
        {
            if self.bytes[i] != other.bytes[i] {
                return false;
            }
            i += 1;
        }
        proof {
            assert(self.bytes@ =~= other.bytes@);
        }
        true
    }
}

impl Default for Pubkey {
    /// The all-zero identity.
    fn default() -> (r: Pubkey)
        ensures
            r.bytes@.len() == 32,
            forall|j: int| 0 <= j < 32 ==> r.bytes@[j] == 0u8,
    {
        let mut bytes: Vec<u8> = Vec::new();
        let mut i: usize = 0;
        while i < 32
            invariant
                i <= 32,
                bytes@.len() == i,
                forall|j: int| 0 <= j < i ==> bytes@[j] == 0u8,
            decreases 32 - i,
        {
            bytes.push(0u8);
            i += 1;
        }
        Pubkey { bytes }
    }
}

} // verus!
