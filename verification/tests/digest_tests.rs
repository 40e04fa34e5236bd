use rsc_cache::digest::hash_bytes;
use rsc_cache::digest::Digest;

fn hello_digest_bytes() -> Vec<u8> {
    vec![
        0x2c, 0xf2, 0x4d, 0xba, 0x5f, 0xb0, 0xa3, 0x0e, 0x26, 0xe8, 0x3b, 0x2a, 0xc5, 0xb9, 0xe2,
        0x9e, 0x1b, 0x16, 0x1e, 0x5c, 0x1f, 0xa7, 0x42, 0x5e, 0x73, 0x04, 0x33, 0x62, 0x93, 0x8b,
        0x98, 0x24,
    ]
}

fn empty_digest_bytes() -> Vec<u8> {
    vec![
        0xe3, 0xb0, 0xc4, 0x42, 0x98, 0xfc, 0x1c, 0x14, 0x9a, 0xfb, 0xf4, 0xc8, 0x99, 0x6f, 0xb9,
        0x24, 0x27, 0xae, 0x41, 0xe4, 0x64, 0x9b, 0x93, 0x4c, 0xa4, 0x95, 0x99, 0x1b, 0x78, 0x52,
        0xb8, 0x55,
    ]
}

fn abc_digest_bytes() -> Vec<u8> {
    vec![
        0xba, 0x78, 0x16, 0xbf, 0x8f, 0x01, 0xcf, 0xea, 0x41, 0x41, 0x40, 0xde, 0x5d, 0xae, 0x22,
        0x23, 0xb0, 0x03, 0x61, 0xa3, 0x96, 0x17, 0x7a, 0x9c, 0xb4, 0x10, 0xff, 0x61, 0xf2, 0x00,
        0x15, 0xad,
    ]
}

#[test]
fn known_vector_hello() {
    let d = hash_bytes(b"hello");
    assert_eq!(d.to_vec(), hello_digest_bytes());
}

#[test]
fn known_vector_empty_input() {
    let d = hash_bytes(b"");
    assert_eq!(d.len(), 32);
    assert_eq!(d.to_vec(), empty_digest_bytes());
}

#[test]
fn known_vector_abc() {
    let d = hash_bytes(b"abc");
    assert_eq!(d.to_vec(), abc_digest_bytes());
}

#[test]
fn equal_content_equal_digest() {
    let d1 = hash_bytes(b"some artifact bytes");
    let d2 = hash_bytes(b"some artifact bytes");
    assert!(d1.eq_digest(&d2));
}

#[test]
fn distinct_content_distinct_digest() {
    let d1 = hash_bytes(b"artifact one");
    let d2 = hash_bytes(b"artifact two");
    assert!(!d1.eq_digest(&d2));
    let d3 = hash_bytes(b"");
    assert!(!d1.eq_digest(&d3));
}

#[test]
fn from_bytes_round_trip() {
    let raw = hello_digest_bytes();
    let d = Digest::from_bytes(raw.clone());
    assert_eq!(d.to_vec(), raw);
    assert!(d.eq_digest(&hash_bytes(b"hello")));
}
