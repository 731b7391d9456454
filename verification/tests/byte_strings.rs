use ursa_bls::bytes::{bytes_equal, contains_bytes};

#[test]
fn byte_strings_compare_by_content() {
    assert!(bytes_equal(&[], &[]));
    assert!(bytes_equal(&[1, 2, 3], &[1, 2, 3]));
    assert!(!bytes_equal(&[1, 2, 3], &[1, 2, 4]));
    assert!(!bytes_equal(&[1, 2, 3], &[1, 2]));
    assert!(!bytes_equal(&[], &[0]));
}

#[test]
fn byte_strings_are_found_among_others() {
    let items = vec![vec![1u8, 2], vec![], vec![3u8]];
    assert!(contains_bytes(&items, &[3]));
    assert!(contains_bytes(&items, &[]));
    assert!(contains_bytes(&items, &[1, 2]));
    assert!(!contains_bytes(&items, &[2, 1]));
    assert!(!contains_bytes(&Vec::new(), &[]));
}
