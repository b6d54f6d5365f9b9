use authentic_time_service::{
    KeyPair, TimeAuthorityImpl, TimeClient, TimeServiceError, TimestampRequest, TimestampStatus,
    UtcTime, VerifyingKey,
};

#[test]
fn test_client_request_creation() {
    let client = TimeClient::new_authenticated("test-client".to_string());
    let request = client.create_request();

    assert!(request.client_id.is_some());
    assert!(request.client_signature.is_some());
    assert!(!request.nonce.is_empty());
}

#[test]
fn test_anonymous_client_request_creation() {
    let client = TimeClient::new_anonymous();
    let request = client.create_request();

    assert!(request.client_id.is_none());
    assert!(request.client_signature.is_none());
    assert!(!request.nonce.is_empty());
}

#[test]
fn nonces_are_lowercase_hex_and_distinct() {
    let client = TimeClient::new_anonymous();
    let a = client.create_request().nonce;
    let b = client.create_request().nonce;
    assert_ne!(a, b);
    for n in [&a, &b] {
        assert!(n.len() <= 32);
        assert!(n.chars().all(|c| c.is_ascii_digit() || ('a'..='f').contains(&c)));
        assert!(n == "0" || !n.starts_with('0'));
    }
}

#[test]
fn authenticated_request_signs_the_nonce() {
    let client = TimeClient::new_authenticated("me".to_string());
    let r = client.request_with_nonce("nonce-1".to_string());
    assert_eq!(r.nonce, "nonce-1");
    assert_eq!(r.client_id.as_deref(), Some("me"));
    let sig = r.client_signature.unwrap();
    assert_eq!(sig.len(), 64);
    let key = VerifyingKey::from_bytes(&client.get_public_key().unwrap()).unwrap();
    assert!(key.verify("nonce-1", &sig));
    assert!(!key.verify("nonce-2", &sig));
}

#[test]
fn anonymous_client_has_no_public_key() {
    assert!(TimeClient::new_anonymous().get_public_key().is_none());
    let kp = KeyPair::from_secret_bytes([7u8; 32]);
    let c = TimeClient::with_keypair("x".to_string(), kp);
    let expected = KeyPair::from_secret_bytes([7u8; 32]).public_key().to_bytes();
    assert_eq!(c.get_public_key(), Some(expected));
}

#[test]
fn independent_verifier_accepts_issued_timestamp() {
    let mut authority = TimeAuthorityImpl::new("auth".to_string());
    let r = authority.issue_timestamp(TimestampRequest::new("fresh".to_string())).unwrap();
    assert_eq!(r.status, TimestampStatus::Success);

    let mut verifier = TimeClient::new_anonymous();
    verifier.add_authority("auth".to_string(), &authority.get_public_key()).unwrap();
    assert_eq!(verifier.verify_timestamp(&r.timestamp).unwrap(), true);
}

#[test]
fn unknown_authority_is_reported() {
    let mut authority = TimeAuthorityImpl::new("auth".to_string());
    let r = authority.issue_timestamp(TimestampRequest::new("fresh".to_string())).unwrap();
    let verifier = TimeClient::new_anonymous();
    match verifier.verify_timestamp(&r.timestamp) {
        Err(TimeServiceError::AuthorityNotFound(id)) => assert_eq!(id, "auth"),
        other => panic!("unexpected {:?}", other),
    }
}

#[test]
fn tampering_is_detected_by_a_verifier() {
    let mut authority = TimeAuthorityImpl::new("auth".to_string());
    let t = UtcTime::new(1_600_000_000, 5).unwrap();
    let r = authority.issue_timestamp_at(TimestampRequest::new("n".to_string()), t).unwrap();
    let other = TimeAuthorityImpl::new("other".to_string());
    let mut verifier = TimeClient::new_anonymous();
    verifier.add_authority("auth".to_string(), &authority.get_public_key()).unwrap();
    verifier.add_authority("other".to_string(), &other.get_public_key()).unwrap();

    let mut other_id = r.timestamp.clone();
    other_id.authority_id = "other".to_string();
    let mut other_nonce = r.timestamp.clone();
    other_nonce.nonce = "n2".to_string();
    let mut other_time = r.timestamp.clone();
    other_time.timestamp = UtcTime::new(1_600_000_000, 6).unwrap();
    assert_eq!(verifier.verify_timestamp(&r.timestamp).unwrap(), true);
    assert_eq!(verifier.verify_timestamp(&other_nonce).unwrap(), false);
    assert_eq!(verifier.verify_timestamp(&other_time).unwrap(), false);
    assert_eq!(verifier.verify_timestamp(&other_id).unwrap(), false);
    let fresh = TimeClient::new_anonymous();
    assert!(matches!(
        fresh.verify_timestamp(&other_id),
        Err(TimeServiceError::AuthorityNotFound(_))
    ));
}

#[test]
fn malformed_signature_is_an_error() {
    let mut authority = TimeAuthorityImpl::new("auth".to_string());
    let r = authority.issue_timestamp(TimestampRequest::new("n".to_string())).unwrap();
    let mut verifier = TimeClient::new_anonymous();
    verifier.add_authority("auth".to_string(), &authority.get_public_key()).unwrap();

    let mut short = r.timestamp.clone();
    short.signature.truncate(10);
    assert!(matches!(verifier.verify_timestamp(&short), Err(TimeServiceError::InvalidSignature)));

    let mut high_bits = r.timestamp.clone();
    high_bits.signature[63] |= 0x80;
    assert!(matches!(verifier.verify_timestamp(&high_bits), Err(TimeServiceError::InvalidSignature)));

    let mut flipped = r.timestamp.clone();
    flipped.signature[0] ^= 1;
    assert_eq!(verifier.verify_timestamp(&flipped).unwrap(), false);
}

#[test]
fn malformed_authority_key_is_refused() {
    let mut verifier = TimeClient::new_anonymous();
    assert!(matches!(
        verifier.add_authority("a".to_string(), &[1, 2, 3]),
        Err(TimeServiceError::InvalidSignature)
    ));
    // y = 2 is not the coordinate of a curve point
    let mut not_a_point = [0u8; 32];
    not_a_point[0] = 2;
    assert!(matches!(
        verifier.add_authority("a".to_string(), &not_a_point),
        Err(TimeServiceError::InvalidSignature)
    ));
}

#[test]
fn later_registration_replaces_earlier_key() {
    let mut a1 = TimeAuthorityImpl::new("auth".to_string());
    let a2 = TimeAuthorityImpl::new("auth".to_string());
    let r = a1.issue_timestamp(TimestampRequest::new("n".to_string())).unwrap();
    let mut verifier = TimeClient::new_anonymous();
    verifier.add_authority("auth".to_string(), &a1.get_public_key()).unwrap();
    assert_eq!(verifier.verify_timestamp(&r.timestamp).unwrap(), true);
    verifier.add_authority("auth".to_string(), &a2.get_public_key()).unwrap();
    assert_eq!(verifier.verify_timestamp(&r.timestamp).unwrap(), false);
}

#[test]
fn rfc8032_test_vector() {
    let secret: [u8; 32] = [
        0x9d, 0x61, 0xb1, 0x9d, 0xef, 0xfd, 0x5a, 0x60, 0xba, 0x84, 0x4a, 0xf4, 0x92, 0xec, 0x2c,
        0xc4, 0x44, 0x49, 0xc5, 0x69, 0x7b, 0x32, 0x69, 0x19, 0x70, 0x3b, 0xac, 0x03, 0x1c, 0xae,
        0x7f, 0x60,
    ];
    let kp = KeyPair::from_secret_bytes(secret);
    let sig = kp.sign("");
    let expected_prefix = [0xe5u8, 0x56, 0x43, 0x00, 0xc3, 0x60, 0xac, 0x72];
    assert_eq!(&sig[..8], &expected_prefix);
    assert_eq!(sig[63], 0x0b);
    assert!(kp.public_key().verify("", &sig));
    assert_eq!(kp.secret_bytes(), secret);
}
