//! Encryption envelope: wraps a plaintext message into a cipher-protected
//! payload and reverses it, given a derived key.
//!
//! The cipher is AES-256 in cipher-block-chaining mode with PKCS#7 padding,
//! performed by the `aes` and `cbc` crates behind trusted wrappers. Sealing
//! and opening deliberately share this one cipher configuration: an
//! encrypt/decrypt asymmetry would make the envelope non-functional on the
//! wire. Two initialization-vector policies exist on the wire and are chosen
//! per session, never merged:
//!
//! - [`IvPolicy::Fixed`]: a constant 16-byte vector is used for every message
//!   under every key, and travels as the envelope's leading block. Identical
//!   plaintexts produce identical envelopes — a documented confidentiality
//!   weakness preserved for wire compatibility, not a defect of this crate.
//! - [`IvPolicy::RandomPerMessage`]: a fresh random 16-byte block is
//!   prepended to the plaintext before encryption (the cipher register itself
//!   runs from an all-zero vector), and the receiver strips the first 16
//!   bytes of the decrypted output. Identical plaintexts produce different
//!   envelopes with overwhelming probability.

use vstd::prelude::*;

use crate::keys::Key;
use aes::cipher::block_padding::Pkcs7;
use aes::cipher::BlockDecryptMut;
use aes::cipher::BlockEncryptMut;
use aes::cipher::KeyIvInit;

verus! {

/// The ciphertext that AES-256-CBC with PKCS#7 padding produces from a key,
/// an initialization vector and a plaintext. The cipher is a fixed function
/// of these three values alone; its value is not restated here.
pub uninterp spec fn aes256_cbc_encrypt(key: Seq<u8>, iv: Seq<u8>, plaintext: Seq<u8>) -> Seq<u8>;

/// The plaintext that AES-256-CBC with PKCS#7 padding recovers from a key,
/// an initialization vector and a ciphertext, or `None` where the padding of
/// the decrypted bytes is invalid.
pub uninterp spec fn aes256_cbc_decrypt(key: Seq<u8>, iv: Seq<u8>, ciphertext: Seq<u8>) -> Option<
    Seq<u8>,
>;

/// The constant initialization vector of the fixed-vector policy.
pub open spec fn fixed_iv() -> Seq<u8> {
    Seq::new(16, |i: int| 0x24u8)
}

/// The all-zero cipher register that the random-block policy runs from.
pub open spec fn zero_iv() -> Seq<u8> {
    Seq::new(16, |i: int| 0x00u8)
}

/// How a session obtains the initialization vector of each message.
#[derive(Clone, Copy, Debug)]
pub enum IvPolicy {
    /// A fresh random block per message, mixed into the plaintext.
    RandomPerMessage,
    /// One constant vector for every message under every key.
    Fixed,
}

/// Why opening an envelope failed. The connection is left usable; the caller
/// decides whether to abandon it.
#[derive(Clone, Copy, Debug, PartialEq, Eq)]
pub enum CryptoError {
    /// The envelope, or the content it decrypted to, is shorter than one
    /// initialization-vector block.
    TooShort,
    /// The ciphertext region's length is not a positive multiple of the
    /// cipher block size.
    NotBlockAligned,
    /// The decrypted bytes do not end in valid padding: wrong key, corrupted
    /// ciphertext or truncated input.
    BadPadding,
}

/// Relies on `cbc::Encryptor::<aes::Aes256>::new` and
/// `encrypt_padded_b2b_mut::<Pkcs7>`: AES-256-CBC encryption with PKCS#7
/// padding, a fixed function of key, vector and plaintext, whose output is
/// the plaintext padded to the next block multiple and always at least one
/// block. Decrypting its output under the same key and vector recovers the
/// plaintext.
#[verifier::external_body]
fn aes_cbc_encrypt(key: &Key, iv: &Vec<u8>, plaintext: &Vec<u8>) -> (ct: Vec<u8>)
    requires
        key.wf(),
        iv@.len() == 16,
        plaintext@.len() + 16 <= usize::MAX,
    ensures
        ct@ == aes256_cbc_encrypt(key@, iv@, plaintext@),
        ct@.len() == (plaintext@.len() / 16 + 1) * 16,
        aes256_cbc_decrypt(key@, iv@, ct@) == Some(plaintext@),
{
    let k: [u8; 32] = key.bytes.as_slice().try_into().unwrap();
    let v: [u8; 16] = iv.as_slice().try_into().unwrap();
    let mut buf: Vec<u8> = Vec::new();
    buf.resize(plaintext.len() + 16, 0u8);
    let enc = cbc::Encryptor::<aes::Aes256>::new(&k.into(), &v.into());
    let ct = enc.encrypt_padded_b2b_mut::<Pkcs7>(plaintext.as_slice(), buf.as_mut_slice()).unwrap();
    ct.to_vec()
}

/// Relies on `cbc::Decryptor::<aes::Aes256>::new` and
/// `decrypt_padded_b2b_mut::<Pkcs7>`: AES-256-CBC decryption with PKCS#7
/// padding, a fixed function of key, vector and ciphertext, which fails
/// exactly where the decrypted bytes do not end in valid padding.
#[verifier::external_body]
fn aes_cbc_decrypt(key: &Key, iv: &Vec<u8>, ciphertext: &Vec<u8>) -> (r: Option<Vec<u8>>)
    requires
        key.wf(),
        iv@.len() == 16,
        ciphertext@.len() >= 16,
        ciphertext@.len() % 16 == 0,
    ensures
        match r {
            Some(p) => aes256_cbc_decrypt(key@, iv@, ciphertext@) == Some(p@),
            None => aes256_cbc_decrypt(key@, iv@, ciphertext@) is None,
        },
{
    let k: [u8; 32] = key.bytes.as_slice().try_into().unwrap();
    let v: [u8; 16] = iv.as_slice().try_into().unwrap();
    let mut buf: Vec<u8> = Vec::new();
    buf.resize(ciphertext.len(), 0u8);
    let dec = cbc::Decryptor::<aes::Aes256>::new(&k.into(), &v.into());
    match dec.decrypt_padded_b2b_mut::<Pkcs7>(ciphertext.as_slice(), buf.as_mut_slice()) {
        Ok(p) => Some(p.to_vec()),
        Err(_) => None,
    }
}

/// Relies on `rand::random::<u8>` for one fresh random byte; nothing can be
/// promised of the value.
#[verifier::external_body]
fn random_byte() -> u8 {
    rand::random::<u8>()
}

/// A fresh 16-byte random block.
fn fresh_block() -> (r: Vec<u8>)
    ensures
        r@.len() == 16,
{
    let mut r: Vec<u8> = Vec::new();
    let mut i: usize = 0;
    while i < 16
        invariant
            r@.len() == i,
            i <= 16,
        decreases 16 - i,
    {
        r.push(random_byte());
        i = i + 1;
    }
    r
}

/// The constant initialization vector of the fixed-vector policy, as bytes.
fn fixed_iv_vec() -> (r: Vec<u8>)
    ensures
        r@ == fixed_iv(),
{
    let mut r: Vec<u8> = Vec::new();
    let mut i: usize = 0;
    while i < 16
        invariant
            r@.len() == i,
            i <= 16,
            forall|j: int| 0 <= j < i ==> r@[j] == 0x24u8,
        decreases 16 - i,
    {
        r.push(0x24u8);
        i = i + 1;
    }
    proof {
        assert(r@ =~= fixed_iv());
    }
    r
}

/// The all-zero cipher register of the random-block policy, as bytes.
fn zero_iv_vec() -> (r: Vec<u8>)
    ensures
        r@ == zero_iv(),
{
    let mut r: Vec<u8> = Vec::new();
    let mut i: usize = 0;
    while i < 16
        invariant
            r@.len() == i,
            i <= 16,
            forall|j: int| 0 <= j < i ==> r@[j] == 0x00u8,
        decreases 16 - i,
    {
        r.push(0x00u8);
        i = i + 1;
    }
    proof {
        assert(r@ =~= zero_iv());
    }
    r
}

/// The envelope of a plaintext under the fixed-vector policy: the constant
/// vector as the leading block, then the ciphertext.
pub open spec fn seal_fixed_spec(p: Seq<u8>, k: Seq<u8>) -> Seq<u8> {
    fixed_iv() + aes256_cbc_encrypt(k, fixed_iv(), p)
}

/// The envelope of a plaintext under the random-block policy, given the
/// random block `r` that the sealer drew: the ciphertext of `r` followed by
/// the plaintext, under the all-zero register.
pub open spec fn seal_random_spec(p: Seq<u8>, k: Seq<u8>, r: Seq<u8>) -> Seq<u8> {
    aes256_cbc_encrypt(k, zero_iv(), r + p)
}

/// What opening an envelope under the fixed-vector policy returns: the
/// envelope splits into its leading 16-byte vector region and the remaining
/// ciphertext, which must be a positive block multiple and decrypt with
/// valid padding.
pub open spec fn open_fixed_model(e: Seq<u8>, k: Seq<u8>) -> Result<Seq<u8>, CryptoError> {
    if e.len() < 16 {
        Err(CryptoError::TooShort)
    } else if e.len() == 16 || (e.len() - 16) % 16 != 0 {
        Err(CryptoError::NotBlockAligned)
    } else {
        match aes256_cbc_decrypt(k, e.take(16), e.skip(16)) {
            Some(p) => Ok(p),
            None => Err(CryptoError::BadPadding),
        }
    }
}

/// What opening an envelope under the random-block policy returns: the whole
/// envelope is ciphertext; it must be a positive block multiple, decrypt
/// with valid padding, and the decrypted bytes must still hold the 16-byte
/// random block, which is stripped.
pub open spec fn open_random_model(e: Seq<u8>, k: Seq<u8>) -> Result<Seq<u8>, CryptoError> {
    if e.len() < 16 {
        Err(CryptoError::TooShort)
    } else if e.len() % 16 != 0 {
        Err(CryptoError::NotBlockAligned)
    } else {
        match aes256_cbc_decrypt(k, zero_iv(), e) {
            Some(x) => if x.len() < 16 {
                Err(CryptoError::TooShort)
            } else {
                Ok(x.skip(16))
            },
            None => Err(CryptoError::BadPadding),
        }
    }
}

/// What opening an envelope returns under the given policy.
pub open spec fn open_model(policy: IvPolicy, e: Seq<u8>, k: Seq<u8>) -> Result<
    Seq<u8>,
    CryptoError,
> {
    match policy {
        IvPolicy::RandomPerMessage => open_random_model(e, k),
        IvPolicy::Fixed => open_fixed_model(e, k),
    }
}

/// Seals a plaintext under the fixed-vector policy. Deterministic: the
/// envelope is a function of plaintext and key alone, so equal inputs give
/// equal envelopes. Opening the envelope under the same key and policy
/// recovers the plaintext. The envelope holds the leading vector block plus
/// the plaintext padded to the next block boundary, always a full extra
/// block where the plaintext is already a block multiple.
pub fn seal_fixed(plaintext: &Vec<u8>, key: &Key) -> (e: Vec<u8>)
    requires
        key.wf(),
        plaintext@.len() + 32 <= usize::MAX,
    ensures
        e@ == seal_fixed_spec(plaintext@, key@),
        open_fixed_model(e@, key@) == Ok::<Seq<u8>, CryptoError>(plaintext@),
        e@.len() == 16 + (plaintext@.len() / 16 + 1) * 16,
{
    let iv = fixed_iv_vec();
    let mut ct = aes_cbc_encrypt(key, &iv, plaintext);
    let mut e = iv;
    e.append(&mut ct);
    proof {
        assert(e@ =~= seal_fixed_spec(plaintext@, key@));
        assert(e@.take(16) =~= fixed_iv());
        assert(e@.skip(16) =~= aes256_cbc_encrypt(key@, fixed_iv(), plaintext@));
    }
    e
}

/// Seals a plaintext under the random-block policy: a fresh random 16-byte
/// block is drawn and prepended to the plaintext before encryption. Opening
/// the envelope under the same key and policy recovers the plaintext,
/// whatever block was drawn. The envelope holds the random block plus the
/// plaintext, padded to the next block boundary, always a full extra block
/// where the plaintext is already a block multiple.
pub fn seal_random(plaintext: &Vec<u8>, key: &Key) -> (e: Vec<u8>)
    requires
        key.wf(),
        plaintext@.len() + 32 <= usize::MAX,
    ensures
        exists|r: Seq<u8>| r.len() == 16 && e@ == seal_random_spec(plaintext@, key@, r),
        open_random_model(e@, key@) == Ok::<Seq<u8>, CryptoError>(plaintext@),
        e@.len() == (plaintext@.len() / 16) * 16 + 32,
{
    let mut buf = fresh_block();
    let ghost rv = buf@;
    let mut body = vstd::slice::slice_to_vec(plaintext.as_slice());
    buf.append(&mut body);
    let iv = zero_iv_vec();
    let e = aes_cbc_encrypt(key, &iv, &buf);
    proof {
        assert(buf@ == rv + plaintext@);
        assert(buf@.skip(16) =~= plaintext@);
        assert(e@ == seal_random_spec(plaintext@, key@, rv));
        let l = plaintext@.len() as int;
        assert((16 + l) / 16 == l / 16 + 1) by (nonlinear_arith)
            requires
                l >= 0,
        ;
        assert(exists|r: Seq<u8>|
            r.len() == 16 && e@ == #[trigger] seal_random_spec(plaintext@, key@, r)) by {
            assert(rv.len() == 16 && e@ == seal_random_spec(plaintext@, key@, rv));
        }
    }
    e
}

/// Opens an envelope sealed under the fixed-vector policy, returning exactly
/// what [`open_fixed_model`] says for these bytes and this key.
pub fn open_fixed(envelope: &Vec<u8>, key: &Key) -> (r: Result<Vec<u8>, CryptoError>)
    requires
        key.wf(),
    ensures
        match r {
            Ok(p) => open_fixed_model(envelope@, key@) == Ok::<Seq<u8>, CryptoError>(p@),
            Err(er) => open_fixed_model(envelope@, key@) == Err::<Seq<u8>, CryptoError>(er),
        },
{
    if envelope.len() < 16 {
        return Err(CryptoError::TooShort);
    }
    let ct_len = envelope.len() - 16;
    if ct_len == 0 || ct_len % 16 != 0 {
        return Err(CryptoError::NotBlockAligned);
    }
    let iv = vstd::slice::slice_to_vec(vstd::slice::slice_subrange(envelope.as_slice(), 0, 16));
    let ct = vstd::slice::slice_to_vec(
        vstd::slice::slice_subrange(envelope.as_slice(), 16, envelope.len()),
    );
    proof {
        assert(iv@ =~= envelope@.take(16));
        assert(ct@ =~= envelope@.skip(16));
    }
    match aes_cbc_decrypt(key, &iv, &ct) {
        Some(p) => Ok(p),
        None => Err(CryptoError::BadPadding),
    }
}

/// Opens an envelope sealed under the random-block policy, returning exactly
/// what [`open_random_model`] says for these bytes and this key.
pub fn open_random(envelope: &Vec<u8>, key: &Key) -> (r: Result<Vec<u8>, CryptoError>)
    requires
        key.wf(),
    ensures
        match r {
            Ok(p) => open_random_model(envelope@, key@) == Ok::<Seq<u8>, CryptoError>(p@),
            Err(er) => open_random_model(envelope@, key@) == Err::<Seq<u8>, CryptoError>(er),
        },
{
    if envelope.len() < 16 {
        return Err(CryptoError::TooShort);
    }
    if envelope.len() % 16 != 0 {
        return Err(CryptoError::NotBlockAligned);
    }
    let iv = zero_iv_vec();
    match aes_cbc_decrypt(key, &iv, envelope) {
        Some(x) => {
            if x.len() < 16 {
                Err(CryptoError::TooShort)
            } else {
                let p = vstd::slice::slice_to_vec(
                    vstd::slice::slice_subrange(x.as_slice(), 16, x.len()),
                );
                proof {
                    assert(p@ =~= x@.skip(16));
                }
                Ok(p)
            }
        },
        None => Err(CryptoError::BadPadding),
    }
}

/// Seals a plaintext under the given policy. Under either policy, opening
/// the result with the same key and policy recovers the plaintext, and the
/// envelope is exactly one leading block (constant vector or random block)
/// plus the plaintext padded to the next block boundary; under the
/// fixed-vector policy the envelope is a function of plaintext and key
/// alone.
pub fn seal(plaintext: &Vec<u8>, key: &Key, policy: IvPolicy) -> (e: Vec<u8>)
    requires
        key.wf(),
        plaintext@.len() + 32 <= usize::MAX,
    ensures
        open_model(policy, e@, key@) == Ok::<Seq<u8>, CryptoError>(plaintext@),
        e@.len() == (plaintext@.len() / 16) * 16 + 32,
        policy is Fixed ==> e@ == seal_fixed_spec(plaintext@, key@),
        policy is RandomPerMessage ==> exists|r: Seq<u8>|
            r.len() == 16 && e@ == seal_random_spec(plaintext@, key@, r),
{
    match policy {
        IvPolicy::RandomPerMessage => seal_random(plaintext, key),
        IvPolicy::Fixed => seal_fixed(plaintext, key),
    }
}

/// Opens an envelope under the given policy, returning exactly what
/// [`open_model`] says for these bytes, this key and this policy.
pub fn open(envelope: &Vec<u8>, key: &Key, policy: IvPolicy) -> (r: Result<Vec<u8>, CryptoError>)
    requires
        key.wf(),
    ensures
        match r {
            Ok(p) => open_model(policy, envelope@, key@) == Ok::<Seq<u8>, CryptoError>(p@),
            Err(er) => open_model(policy, envelope@, key@) == Err::<Seq<u8>, CryptoError>(er),
        },
{
    match policy {
        IvPolicy::RandomPerMessage => open_random(envelope, key),
        IvPolicy::Fixed => open_fixed(envelope, key),
    }
}

} // verus!
