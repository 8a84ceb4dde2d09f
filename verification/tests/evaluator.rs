use fphf::evaluate::{check_match, evaluate_index};
use fphf::params::SearchParameters;
use sha2::Digest;

fn to_hex(bytes: &[u8]) -> String {
    let mut s = String::new();
    for b in bytes {
        s.push_str(&format!("{:02x}", b));
    }
    s
}

#[test]
fn known_digest_of_abc() {
    // Candidate index 12 at one digit is "c", so "ab#" binds to "abc".
    let p = SearchParameters::new(1, b"ab#").unwrap();
    let e = evaluate_index(&p, 12);
    assert_eq!(e.message, b"abc".to_vec());
    let expected = "ba7816bf8f01cfea414140de5dae2223b00361a396177a9cb410ff61f20015ad";
    assert_eq!(to_hex(&e.digest), expected);
    // The digest's hex starts with 'b', not with the candidate 'c'.
    assert!(!e.matched);
}

#[test]
fn digest_agrees_with_sha2() {
    let p = SearchParameters::new(2, b"some sentence with # inside").unwrap();
    for i in [0u128, 1, 77, 255] {
        let e = evaluate_index(&p, i);
        let direct = sha2::Sha256::digest(&e.message);
        assert_eq!(e.digest, direct.as_slice().to_vec());
        assert_eq!(e.digest.len(), 32);
    }
}

#[test]
fn check_match_is_hex_prefix_test() {
    let digest = sha2::Sha256::digest(b"abc").to_vec();
    let hex = to_hex(&digest);
    assert!(check_match(&digest, &b"".to_vec()));
    assert!(check_match(&digest, &b"b".to_vec()));
    assert!(check_match(&digest, &b"ba78".to_vec()));
    assert!(check_match(&digest, &hex.as_bytes().to_vec()));
    assert!(!check_match(&digest, &b"ba79".to_vec()));
    assert!(!check_match(&digest, &b"c".to_vec()));
}

#[test]
fn matched_agrees_with_naive_hex_compare() {
    let p = SearchParameters::new(1, b"X#Y").unwrap();
    for i in 0..16u128 {
        let e = evaluate_index(&p, i);
        let hex = to_hex(&sha2::Sha256::digest(&e.message));
        let candidate = fphf::hex::encode_index(i, 1);
        let naive = hex.as_bytes().starts_with(&candidate);
        assert_eq!(e.matched, naive);
    }
}
