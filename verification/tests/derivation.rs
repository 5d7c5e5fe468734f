use securetcp::keys::convert_key;

#[test]
fn short_passphrase_is_padded_with_x() {
    let k = convert_key("abc").to_bytes();
    assert_eq!(k.len(), 32);
    assert_eq!(&k[..3], b"abc");
    assert!(k[3..].iter().all(|&b| b == b'x'));
}

#[test]
fn long_passphrase_is_truncated_to_32_bytes() {
    let long = "abcdefghijklmnopqrstuvwxyz0123456";
    assert_eq!(long.len(), 33);
    let k = convert_key(long).to_bytes();
    assert_eq!(k, long.as_bytes()[..32].to_vec());
}

#[test]
fn exact_length_passphrase_is_used_verbatim() {
    let exact = "abcdefghijklmnopqrstuvwxyz012345";
    assert_eq!(exact.len(), 32);
    let k = convert_key(exact).to_bytes();
    assert_eq!(k, exact.as_bytes().to_vec());
}

#[test]
fn derivation_is_deterministic() {
    assert_eq!(convert_key("abc").to_bytes(), convert_key("abc").to_bytes());
    assert_ne!(convert_key("abc").to_bytes(), convert_key("abd").to_bytes());
}

#[test]
fn empty_passphrase_is_all_fill() {
    let k = convert_key("").to_bytes();
    assert_eq!(k, vec![b'x'; 32]);
}
