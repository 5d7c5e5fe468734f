use securetcp::codec::claimed_len_allowed;
use securetcp::codec::read_frame;
use securetcp::codec::u64_from_be;
use securetcp::codec::u64_to_be;
use securetcp::codec::write_frame;
use securetcp::codec::FrameError;

#[test]
fn frame_round_trip_hello() {
    let m = b"hello".to_vec();
    let f = write_frame(&m);
    assert_eq!(f.len(), 13);
    assert_eq!(&f[..8], &[0, 0, 0, 0, 0, 0, 0, 5]);
    assert_eq!(&f[8..], b"hello");
    assert_eq!(read_frame(&f), Ok(m));
}

#[test]
fn frame_round_trip_empty() {
    let m: Vec<u8> = Vec::new();
    let f = write_frame(&m);
    assert_eq!(f, vec![0u8; 8]);
    assert_eq!(read_frame(&f), Ok(m));
}

#[test]
fn length_field_is_big_endian() {
    let h = u64_to_be(0x0102030405060708);
    assert_eq!(h, vec![1, 2, 3, 4, 5, 6, 7, 8]);
    assert_eq!(u64_from_be(&h), 0x0102030405060708);
    assert_eq!(u64_to_be(256), vec![0, 0, 0, 0, 0, 0, 1, 0]);
}

#[test]
fn truncated_header_is_an_error() {
    for n in 0..8 {
        let f = vec![0u8; n];
        assert_eq!(read_frame(&f), Err(FrameError::TruncatedHeader));
    }
}

#[test]
fn truncated_payload_is_an_error() {
    let m = b"hello world".to_vec();
    let mut f = write_frame(&m);
    f.pop();
    assert_eq!(read_frame(&f), Err(FrameError::LengthMismatch));
}

#[test]
fn oversized_length_field_is_an_error() {
    let mut f = u64_to_be(9);
    f.extend_from_slice(b"hello");
    assert_eq!(read_frame(&f), Err(FrameError::LengthMismatch));
}

#[test]
fn max_frame_guard_is_opt_in() {
    assert!(claimed_len_allowed(1 << 40, None));
    assert!(claimed_len_allowed(4096, Some(4096)));
    assert!(!claimed_len_allowed(4097, Some(4096)));
}
