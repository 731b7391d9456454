use ursa_bls::sharing_error::SharingError;

#[test]
fn plain_variants_render_their_message() {
    assert_eq!(
        SharingError::ShareSecretMinSize.to_string(),
        "ShamirShare requires at least 4 bytes"
    );
    assert_eq!(
        SharingError::ShareLimitLessThanThreshold.to_string(),
        "Limit cannot be less than the threshold"
    );
    assert_eq!(SharingError::ShareMinThreshold.to_string(), "Threshold must be at least 2");
    assert_eq!(SharingError::ShareInvalidSecret.to_string(), "Can't split secret");
    assert_eq!(
        SharingError::ShareInvalidIdentifier.to_string(),
        "Share must have a non-zero identifier"
    );
    assert_eq!(
        SharingError::ShareDuplicateIdentifier.to_string(),
        "Duplicate shares cannot be used to reconstruct the secret"
    );
    assert_eq!(SharingError::ShareInvalidValue.to_string(), "Share is not valid");
    assert_eq!(SharingError::PedersenBlindShareInvalid.to_string(), "Blind share is not valid");
    assert_eq!(SharingError::InvalidPoint.to_string(), "Invalid curve point");
}

#[test]
fn verifier_size_renders_both_numbers() {
    assert_eq!(
        SharingError::PedersenVerifierMinSize(8, 3).to_string(),
        "Minimum length not satisfied: expected 8, found 3"
    );
    assert_eq!(
        SharingError::PedersenVerifierMinSize(1024, 0).to_string(),
        "Minimum length not satisfied: expected 1024, found 0"
    );
}

#[test]
fn verifier_size_renders_like_the_standard_formatter() {
    for &(expected, found) in &[(0usize, 9usize), (10, 99), (100, 1_000_000), (usize::MAX, 7)] {
        assert_eq!(
            SharingError::PedersenVerifierMinSize(expected, found).to_string(),
            format!("Minimum length not satisfied: expected {}, found {}", expected, found)
        );
    }
}

#[test]
fn errors_are_copied_and_shown_for_debugging() {
    let e = SharingError::PedersenVerifierMinSize(4, 2);
    let copy = e;
    assert_eq!(format!("{:?}", copy), "PedersenVerifierMinSize(4, 2)");
    assert_eq!(format!("{:?}", e.clone()), "PedersenVerifierMinSize(4, 2)");
}
