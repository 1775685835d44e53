//! Account identities: 32-byte public keys.

use vstd::prelude::*;
use vstd::std_specs::cmp::PartialEqSpecImpl;

verus! {

/// The identity of an account, a mint or a program: 32 raw bytes.
///
/// Its view is the sequence of those bytes, which is also how a key is laid
/// out inside a packed record.
#[derive(Clone, Copy, Debug, Eq)]
pub struct Pubkey {
    pub bytes: [u8; 32],
}

impl View for Pubkey {
    type V = Seq<u8>;

    open spec fn view(&self) -> Seq<u8> {
        self.bytes@
    }
}

impl DeepView for Pubkey {
    type V = Seq<u8>;

    open spec fn deep_view(&self) -> Seq<u8> {
        self.bytes@
    }
}

impl PartialEq for Pubkey {
    fn eq(&self, other: &Pubkey) -> (equal: bool) {
        let mut i: usize = 0;
        while i < 32
            invariant
                i <= 32,
                forall|j: int| 0 <= j < i ==> self.bytes[j] == other.bytes[j],
            decreases 32 - i,
        {
            if self.bytes[i] != other.bytes[i] {
                return false;
            }
            i += 1;
        }
        assert(self.bytes =~= other.bytes);
        true
    }
}

impl PartialEqSpecImpl for Pubkey {
    open spec fn obeys_eq_spec() -> bool {
        true
    }

    open spec fn eq_spec(&self, other: &Pubkey) -> bool {
        *self == *other
    }
}

impl Pubkey {
    /// The key whose bytes are the first 32 elements of `s`.
    pub open spec fn from_seq(s: Seq<u8>) -> Pubkey {
        Pubkey {
            bytes: [
                s[0], s[1], s[2], s[3], s[4], s[5], s[6], s[7],
                s[8], s[9], s[10], s[11], s[12], s[13], s[14], s[15],
                s[16], s[17], s[18], s[19], s[20], s[21], s[22], s[23],
                s[24], s[25], s[26], s[27], s[28], s[29], s[30], s[31],
            ],
        }
    }

    /// Wraps 32 bytes as a key.
    pub fn new_from_array(pubkey_array: [u8; 32]) -> (key: Pubkey)
        ensures
            key.bytes == pubkey_array,
            key@ == pubkey_array@,
    {
        Pubkey { bytes: pubkey_array }
    }

    /// The 32 bytes of the key.
    pub fn to_bytes(self) -> (bytes: [u8; 32])
        ensures
            bytes == self.bytes,
            bytes@ == self@,
    {
        self.bytes
    }

    /// Reading a key back from its own bytes gives the same key, and the
    /// key read from any 32 bytes has exactly those bytes.
    pub proof fn lemma_from_seq(s: Seq<u8>, key: Pubkey)
        ensures
            key@.len() == 32,
            Pubkey::from_seq(key@) == key,
            s.len() == 32 ==> Pubkey::from_seq(s)@ == s,
    {
        assert(Pubkey::from_seq(key@).bytes =~= key.bytes);
        if s.len() == 32 {
            assert(Pubkey::from_seq(s)@ =~= s);
        }
    }
}

} // verus!
