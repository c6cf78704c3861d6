use roughenough::{RtMessage, Tag};
use rt_timestamp::{
    build_packet, nonce_from_hash, pad_nonce, TimestampError, MIN_REQUEST_LEN, NONCE_LEN,
};

fn sample_hash() -> [u8; 32] {
    let mut hash = [0u8; 32];
    for (i, b) in hash.iter_mut().enumerate() {
        *b = (i as u8).wrapping_mul(7).wrapping_add(3);
    }
    hash
}

#[test]
fn pad_nonce_keeps_hash_and_adds_zeros() {
    let hash = sample_hash();
    let nonce = pad_nonce(hash);
    assert_eq!(nonce.len(), NONCE_LEN);
    assert_eq!(&nonce[..32], &hash[..]);
    assert_eq!(&nonce[32..], &[0u8; 32][..]);
}

#[test]
fn pad_nonce_of_zero_hash_is_all_zero() {
    assert_eq!(pad_nonce([0u8; 32]), vec![0u8; 64]);
}

#[test]
fn request_has_exact_wire_bytes() {
    let nonce = pad_nonce(sample_hash());
    let packet = build_packet(&nonce).unwrap();

    let mut expected: Vec<u8> = Vec::new();
    expected.extend_from_slice(&2u32.to_le_bytes());
    expected.extend_from_slice(&64u32.to_le_bytes());
    expected.extend_from_slice(b"NONC");
    expected.extend_from_slice(b"PAD\xff");
    expected.extend_from_slice(&nonce);
    expected.extend_from_slice(&[0u8; 944]);
    assert_eq!(packet, expected);
}

#[test]
fn request_meets_the_floor_exactly() {
    let packet = build_packet(&pad_nonce(sample_hash())).unwrap();
    assert_eq!(packet.len(), MIN_REQUEST_LEN);
    assert_eq!(packet.len(), 1024);
}

#[test]
fn request_is_deterministic() {
    let nonce = pad_nonce(sample_hash());
    let first = build_packet(&nonce).unwrap();
    let second = build_packet(&nonce).unwrap();
    assert_eq!(first, second);
}

#[test]
fn request_differs_with_the_nonce() {
    let a = build_packet(&pad_nonce([1u8; 32])).unwrap();
    let b = build_packet(&pad_nonce([2u8; 32])).unwrap();
    assert_ne!(a, b);
}

#[test]
fn request_nonce_round_trips_through_the_decoder() {
    let nonce = pad_nonce(sample_hash());
    let packet = build_packet(&nonce).unwrap();
    let decoded = RtMessage::from_bytes(&packet).unwrap();
    assert_eq!(decoded.num_fields(), 2);
    assert_eq!(decoded.get_field(Tag::NONC), Some(&nonce[..]));
    assert_eq!(decoded.get_field(Tag::PAD_CLASSIC), Some(&[0u8; 944][..]));
}

#[test]
fn request_for_empty_nonce_is_all_padding() {
    let packet = build_packet(&[]).unwrap();
    assert_eq!(packet.len(), 1024);
    assert_eq!(&packet[..8], &[2, 0, 0, 0, 0, 0, 0, 0][..]);
    assert!(packet[16..].iter().all(|b| *b == 0));
}

#[test]
fn request_for_nonce_at_the_edge_has_no_padding() {
    let nonce = vec![9u8; 1008];
    let packet = build_packet(&nonce).unwrap();
    assert_eq!(packet.len(), 1024);
    assert_eq!(&packet[16..], &nonce[..]);
}

#[test]
fn request_for_long_nonce_exceeds_the_floor() {
    let nonce = vec![5u8; 2000];
    let packet = build_packet(&nonce).unwrap();
    assert_eq!(packet.len(), 2016);
    assert_eq!(&packet[4..8], &2000u32.to_le_bytes()[..]);
    assert_eq!(&packet[16..], &nonce[..]);
}

#[test]
fn request_never_fails() {
    for len in [0usize, 1, 31, 32, 64, 1007, 1008, 1009, 4096] {
        let r: Result<Vec<u8>, TimestampError> = build_packet(&vec![0xabu8; len]);
        assert!(r.is_ok());
        assert!(r.unwrap().len() >= MIN_REQUEST_LEN);
    }
}

#[test]
fn nonce_needs_a_hash_of_32_bytes() {
    let hash = sample_hash();
    assert_eq!(nonce_from_hash(&hash), Some(pad_nonce(hash)));
    assert_eq!(nonce_from_hash(&hash[..31]), None);
    assert_eq!(nonce_from_hash(&[0u8; 33]), None);
    assert_eq!(nonce_from_hash(&[]), None);
    assert_eq!(nonce_from_hash(&[0u8; 64]), None);
}
