use securetcp::envelope::open;
use securetcp::envelope::seal;
use securetcp::envelope::CryptoError;
use securetcp::envelope::IvPolicy;
use securetcp::keys::convert_key;

#[test]
fn fixed_policy_round_trip() {
    let key = convert_key("secret");
    let p = b"hello".to_vec();
    let e = seal(&p, &key, IvPolicy::Fixed);
    // one leading vector block plus one padded ciphertext block
    assert_eq!(e.len(), 32);
    assert_eq!(&e[..16], &[0x24u8; 16]);
    assert_eq!(open(&e, &key, IvPolicy::Fixed), Ok(p));
}

#[test]
fn random_policy_round_trip() {
    let key = convert_key("secret");
    let p = b"hello".to_vec();
    let e = seal(&p, &key, IvPolicy::RandomPerMessage);
    // random block plus plaintext, padded: (16 + 5) rounds up to 32
    assert_eq!(e.len(), 32);
    assert_eq!(open(&e, &key, IvPolicy::RandomPerMessage), Ok(p));
}

#[test]
fn round_trip_block_boundary_lengths() {
    let key = convert_key("secret");
    for n in [0usize, 1, 15, 16, 17, 31, 32, 1000] {
        let p = vec![0xa5u8; n];
        let ef = seal(&p, &key, IvPolicy::Fixed);
        // leading block plus the plaintext padded to the next boundary,
        // always a full extra block on an exact multiple
        assert_eq!(ef.len(), 16 + (n / 16 + 1) * 16);
        assert_eq!(open(&ef, &key, IvPolicy::Fixed), Ok(p.clone()));
        let er = seal(&p, &key, IvPolicy::RandomPerMessage);
        assert_eq!(er.len(), (n / 16) * 16 + 32);
        assert_eq!(open(&er, &key, IvPolicy::RandomPerMessage), Ok(p));
    }
}

#[test]
fn fixed_policy_is_deterministic() {
    let key = convert_key("secret");
    let p = b"attack at dawn".to_vec();
    let e1 = seal(&p, &key, IvPolicy::Fixed);
    let e2 = seal(&p, &key, IvPolicy::Fixed);
    // the documented weakness of the fixed-vector policy: equal plaintexts
    // give byte-identical envelopes
    assert_eq!(e1, e2);
}

#[test]
fn random_policy_randomizes_envelopes() {
    let key = convert_key("secret");
    let p = b"attack at dawn".to_vec();
    let e1 = seal(&p, &key, IvPolicy::RandomPerMessage);
    let e2 = seal(&p, &key, IvPolicy::RandomPerMessage);
    assert_ne!(e1, e2);
}

#[test]
fn ciphertext_is_not_the_plaintext() {
    let key = convert_key("secret");
    let p = b"hello".to_vec();
    let e = seal(&p, &key, IvPolicy::Fixed);
    let mut padded = p.clone();
    padded.extend_from_slice(&[11u8; 11]);
    assert_ne!(e[16..].to_vec(), padded);
}

#[test]
fn wrong_key_fails_to_open() {
    let key = convert_key("secret");
    let other = convert_key("not the same secret");
    let p = b"hello".to_vec();
    let e = seal(&p, &key, IvPolicy::Fixed);
    assert_eq!(open(&e, &other, IvPolicy::Fixed), Err(CryptoError::BadPadding));
}

#[test]
fn tampered_padding_is_detected() {
    let key = convert_key("secret");
    // two ciphertext blocks: 20 plaintext bytes pad to 32
    let p = vec![0x41u8; 20];
    let e = seal(&p, &key, IvPolicy::Fixed);
    assert_eq!(e.len(), 48);
    // flipping a byte of the first ciphertext block flips the same byte of
    // the decrypted second block, which there is a padding byte
    for j in 4..16 {
        let mut t = e.clone();
        t[16 + j] ^= 0xff;
        assert_eq!(open(&t, &key, IvPolicy::Fixed), Err(CryptoError::BadPadding));
    }
}

#[test]
fn short_envelope_is_rejected() {
    let key = convert_key("secret");
    assert_eq!(open(&vec![0u8; 10], &key, IvPolicy::Fixed), Err(CryptoError::TooShort));
    assert_eq!(
        open(&vec![0u8; 10], &key, IvPolicy::RandomPerMessage),
        Err(CryptoError::TooShort)
    );
    assert_eq!(open(&Vec::new(), &key, IvPolicy::Fixed), Err(CryptoError::TooShort));
}

#[test]
fn misaligned_envelope_is_rejected() {
    let key = convert_key("secret");
    assert_eq!(open(&vec![0u8; 16], &key, IvPolicy::Fixed), Err(CryptoError::NotBlockAligned));
    assert_eq!(open(&vec![0u8; 33], &key, IvPolicy::Fixed), Err(CryptoError::NotBlockAligned));
    assert_eq!(
        open(&vec![0u8; 17], &key, IvPolicy::RandomPerMessage),
        Err(CryptoError::NotBlockAligned)
    );
}
