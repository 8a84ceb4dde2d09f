use fphf::params::{ParamError, SearchParameters};

#[test]
fn digits_zero_rejected() {
    assert!(matches!(SearchParameters::new(0, b"a#b"), Err(ParamError::DigitsOutOfRange)));
}

#[test]
fn digits_too_large_rejected() {
    assert!(matches!(SearchParameters::new(33, b"a#b"), Err(ParamError::DigitsOutOfRange)));
    assert!(matches!(SearchParameters::new(255, b"a#b"), Err(ParamError::DigitsOutOfRange)));
}

#[test]
fn digits_bounds_accepted() {
    assert!(SearchParameters::new(1, b"a#b").is_ok());
    assert!(SearchParameters::new(32, b"a#b").is_ok());
}

#[test]
fn missing_placeholder_rejected() {
    assert!(matches!(SearchParameters::new(1, b"no marker here"), Err(ParamError::MissingPlaceholder)));
    assert!(matches!(SearchParameters::new(1, b""), Err(ParamError::MissingPlaceholder)));
}

#[test]
fn split_at_first_placeholder() {
    let p = SearchParameters::new(2, b"a#b#c").unwrap();
    assert_eq!(p.digits, 2);
    assert_eq!(p.prefix, b"a".to_vec());
    assert_eq!(p.suffix, b"b#c".to_vec());
}

#[test]
fn split_placeholder_at_ends() {
    let p = SearchParameters::new(1, b"#tail").unwrap();
    assert_eq!(p.prefix, b"".to_vec());
    assert_eq!(p.suffix, b"tail".to_vec());

    let p = SearchParameters::new(1, b"head#").unwrap();
    assert_eq!(p.prefix, b"head".to_vec());
    assert_eq!(p.suffix, b"".to_vec());

    let p = SearchParameters::new(1, b"#").unwrap();
    assert_eq!(p.prefix, b"".to_vec());
    assert_eq!(p.suffix, b"".to_vec());
}

#[test]
fn bind_substitutes_candidate() {
    let p = SearchParameters::new(2, b"X#Y").unwrap();
    assert_eq!(p.bind(&b"4e".to_vec()), b"X4eY".to_vec());
}

#[test]
fn bind_pure_outside_placeholder() {
    let p = SearchParameters::new(2, b"left#right").unwrap();
    let m1 = p.bind(&b"00".to_vec());
    let m2 = p.bind(&b"ff".to_vec());
    assert_eq!(m1.len(), m2.len());
    let lo = p.prefix.len();
    let hi = lo + 2;
    for k in 0..m1.len() {
        if k < lo || k >= hi {
            assert_eq!(m1[k], m2[k]);
        }
    }
    assert_eq!(&m1[lo..hi], b"00");
    assert_eq!(&m2[lo..hi], b"ff");
}
