use fphf::hex::{decode_index, encode_index};

#[test]
fn encode_zero_padded() {
    assert_eq!(encode_index(0, 1), b"0".to_vec());
    assert_eq!(encode_index(0, 4), b"0000".to_vec());
    assert_eq!(encode_index(10, 1), b"a".to_vec());
    assert_eq!(encode_index(255, 2), b"ff".to_vec());
    assert_eq!(encode_index(0xdead, 4), b"dead".to_vec());
    assert_eq!(encode_index(0x0123_4567_89ab_cdef, 16), b"0123456789abcdef".to_vec());
}

#[test]
fn encode_fixed_width_lowercase() {
    for i in 0..256u128 {
        let c = encode_index(i, 2);
        assert_eq!(c.len(), 2);
        for &b in &c {
            assert!(b.is_ascii_digit() || (b'a'..=b'f').contains(&b));
        }
    }
}

#[test]
fn encode_drops_high_digits() {
    assert_eq!(encode_index(0x1ab, 2), b"ab".to_vec());
    assert_eq!(encode_index(0x10, 1), b"0".to_vec());
}

#[test]
fn decode_inverts_encode() {
    for i in 0..4096u128 {
        assert_eq!(decode_index(&encode_index(i, 3)), i);
    }
    assert_eq!(decode_index(&encode_index(u128::MAX, 32)), u128::MAX);
}

#[test]
fn encode_inverts_decode() {
    let s = b"00ff".to_vec();
    assert_eq!(encode_index(decode_index(&s), 4), s);
    let s = b"fedcba9876543210fedcba9876543210".to_vec();
    assert_eq!(encode_index(decode_index(&s), 32), s);
}

#[test]
fn full_width_maximum() {
    assert_eq!(encode_index(u128::MAX, 32), vec![b'f'; 32]);
}
