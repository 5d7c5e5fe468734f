//! Key derivation: a human-supplied passphrase is stretched or truncated into
//! the fixed 32-byte symmetric key that the envelope uses.
//!
//! The derivation is deliberately the legacy, wire-compatible one: no salt, no
//! iteration, no hashing — a passphrase shorter than 32 bytes is right-padded
//! with the ASCII character `'x'`, a longer one is cut after 32 bytes. It is
//! cryptographically weak (predictable padding byte, no key stretching) and is
//! kept only for compatibility with peers that derive their key the same way.

use vstd::prelude::*;
use vstd::string::StringSliceAdditionalSpecFns;

verus! {

/// Byte `i` of the key derived from the passphrase characters `s`: the
/// character's code where the passphrase reaches, the `'x'` fill after it.
pub open spec fn key_byte(s: Seq<char>, i: int) -> u8 {
    if i < s.len() {
        s[i] as u8
    } else {
        0x78u8
    }
}

/// The 32-byte key derived from a passphrase: its bytes, right-padded with
/// `'x'` (0x78) to 32 bytes or truncated to the first 32.
pub open spec fn derived_key(s: Seq<char>) -> Seq<u8> {
    Seq::new(32, |i: int| key_byte(s, i))
}

/// Key derivation is deterministic (it is a function of the passphrase alone)
/// and always yields exactly 32 bytes: the passphrase's own bytes first, then
/// a repeated `'x'` fill where the passphrase falls short of 32 characters.
pub proof fn lemma_derived_key_shape(s: Seq<char>)
    ensures
        derived_key(s).len() == 32,
        forall|i: int| 0 <= i < 32 && i < s.len() ==> derived_key(s)[i] == s[i] as u8,
        forall|i: int| s.len() <= i < 32 ==> derived_key(s)[i] == 0x78u8,
{
}

/// A fixed-length (32-byte) symmetric key, derived once at handle
/// construction and never mutated afterwards.
pub struct Key {
    pub(crate) bytes: Vec<u8>,
}

impl View for Key {
    type V = Seq<u8>;

    closed spec fn view(&self) -> Seq<u8> {
        self.bytes@
    }
}

impl Key {
    /// A well-formed key holds exactly 32 bytes.
    pub open spec fn wf(&self) -> bool {
        self@.len() == 32
    }

    /// The key material as plain bytes.
    pub fn to_bytes(&self) -> (r: Vec<u8>)
        ensures
            r@ == self@,
    {
        vstd::slice::slice_to_vec(self.bytes.as_slice())
    }
}

/// Derives the symmetric key from an ASCII passphrase: the passphrase's
/// bytes, right-padded with `'x'` to 32 bytes or truncated to the first 32.
pub fn convert_key(passphrase: &str) -> (k: Key)
    requires
        passphrase.is_ascii(),
    ensures
        k.wf(),
        k@ == derived_key(passphrase@),
{
    proof {
        vstd::string::is_ascii_spec_bytes(passphrase);
    }
    let bs = passphrase.as_bytes();
    let mut bytes: Vec<u8> = Vec::new();
    let mut i: usize = 0;
    while i < 32
        invariant
            passphrase.is_ascii(),
            bs@ == passphrase.spec_bytes(),
            bs@.len() == passphrase@.len(),
            forall|j: int| 0 <= j < bs@.len() ==> bs@[j] == passphrase@[j] as u8,
            i <= 32,
            bytes@.len() == i,
            forall|j: int| 0 <= j < i ==> bytes@[j] == key_byte(passphrase@, j),
        decreases 32 - i,
    {
        if i < bs.len() {
            bytes.push(bs[i]);
        } else {
            bytes.push(0x78u8);
        }
        i = i + 1;
    }
    let k = Key { bytes };
    proof {
        assert(k@ =~= derived_key(passphrase@));
    }
    k
}

} // verus!
