use authentic_time_service::{
    TimeServiceError, TimestampRequest, TimestampStatus, TspTimeService, UtcTime,
};

#[test]
fn test_local_request_and_verify() {
    let mut service = TspTimeService::new();
    service.as_authority("test.authority".to_string());

    let timestamp = service.request_timestamp("test.authority").unwrap();

    let auth_pubkey = service.get_authority_public_key().unwrap();
    service.add_authority_key("test.authority".to_string(), &auth_pubkey).unwrap();

    let is_valid = service.verify_timestamp(&timestamp).unwrap();
    assert!(is_valid);
}

#[test]
fn request_to_unknown_authority_fails() {
    let mut service = TspTimeService::new();
    match service.request_timestamp("nobody") {
        Err(TimeServiceError::AuthorityNotFound(id)) => assert_eq!(id, "nobody"),
        other => panic!("unexpected {:?}", other),
    }
    service.as_authority("me".to_string());
    match service.request_timestamp("someone.else") {
        Err(TimeServiceError::AuthorityNotFound(id)) => assert_eq!(id, "someone.else"),
        other => panic!("unexpected {:?}", other),
    }
}

#[test]
fn rejected_dispatch_reports_the_status() {
    let mut service = TspTimeService::new();
    service.as_authority("me".to_string());
    let t = UtcTime::new(1_700_000_000, 0).unwrap();
    let first = service.dispatch_request("me", TimestampRequest::new("n".to_string()), t);
    assert!(first.is_ok());
    match service.dispatch_request("me", TimestampRequest::new("n".to_string()), t) {
        Err(TimeServiceError::RequestRejected(reason)) => assert_eq!(reason, "RateLimitExceeded"),
        other => panic!("unexpected {:?}", other),
    }
}

#[test]
fn process_request_needs_an_authority() {
    let mut service = TspTimeService::new();
    match service.process_timestamp_request(TimestampRequest::new("n".to_string())) {
        Err(TimeServiceError::Generic(m)) => assert_eq!(m, "Not configured as an authority"),
        other => panic!("unexpected {:?}", other),
    }
    service.as_authority("me".to_string());
    let r = service.process_timestamp_request(TimestampRequest::new("n".to_string())).unwrap();
    assert_eq!(r.status, TimestampStatus::Success);
    assert_eq!(r.timestamp.authority_id, "me");
}

#[test]
fn service_keys_are_exposed() {
    let mut service = TspTimeService::new();
    assert!(service.get_authority_public_key().is_none());
    assert!(service.get_client_public_key().is_none());
    service.as_authenticated_client("client".to_string());
    assert_eq!(service.get_client_public_key().unwrap().len(), 32);
    assert!(matches!(
        service.add_authority_key("x".to_string(), &[0u8; 3]),
        Err(TimeServiceError::InvalidSignature)
    ));
    service.add_authority_endpoint("x".to_string(), "tsp://x".to_string());
}

#[test]
fn status_names() {
    assert_eq!(TimestampStatus::Success.name(), "Success");
    assert_eq!(TimestampStatus::AuthenticationFailed.name(), "AuthenticationFailed");
    assert_eq!(TimestampStatus::RateLimitExceeded.name(), "RateLimitExceeded");
    assert_eq!(TimestampStatus::ServerError.name(), "ServerError");
}

#[test]
fn errors_from_messages() {
    assert!(matches!(TimeServiceError::generic("boom"), TimeServiceError::Generic(m) if m == "boom"));
    let e: TimeServiceError = String::from("x").into();
    assert!(matches!(e, TimeServiceError::Generic(m) if m == "x"));
}

#[test]
fn time_rendering_and_range() {
    assert!(UtcTime::new(-1, 0).is_none());
    assert!(UtcTime::new(0, 1_000_000_000).is_none());
    assert!(UtcTime::new(8_210_266_876_800, 0).is_none());
    let max = UtcTime::new(8_210_266_876_799, 999_999_999).unwrap();
    assert_eq!(max.to_rfc3339(), "+262142-12-31T23:59:59.999999999+00:00");
    assert_eq!(UtcTime::new(0, 0).unwrap().to_rfc3339(), "1970-01-01T00:00:00+00:00");
    assert_eq!(
        UtcTime::new(1_431_648_000, 5_000_000).unwrap().to_rfc3339(),
        "2015-05-15T00:00:00.005+00:00"
    );
    let t = UtcTime::new(12, 34).unwrap();
    assert_eq!((t.secs(), t.nanos(), t.as_nanos()), (12, 34, 12_000_000_034));
    assert!(UtcTime::now().secs() > 1_600_000_000);
}

#[test]
fn errors_from_str() {
    let e: TimeServiceError = "plain message".into();
    assert!(matches!(e, TimeServiceError::Generic(m) if m == "plain message"));
}

#[test]
fn keys_are_thirty_two_bytes() {
    let mut service = TspTimeService::new();
    service.as_authority("a".to_string());
    service.as_authenticated_client("c".to_string());
    assert_eq!(service.get_authority_public_key().unwrap().len(), 32);
    assert_eq!(service.get_client_public_key().unwrap().len(), 32);
}

#[test]
fn unserved_request_leaves_authority_untouched() {
    let mut service = TspTimeService::new();
    service.as_authority("x".to_string());
    let key = service.get_authority_public_key();
    assert!(matches!(
        service.request_timestamp("y"),
        Err(TimeServiceError::AuthorityNotFound(id)) if id == "y"
    ));
    assert_eq!(service.get_authority_public_key(), key);
    let t = UtcTime::new(1_700_000_000, 0).unwrap();
    assert!(service.dispatch_request("x", TimestampRequest::new("n".to_string()), t).is_ok());
}

#[test]
fn new_client_identity_forgets_trusted_authorities() {
    let mut service = TspTimeService::new();
    service.as_authority("a".to_string());
    let ts = service.request_timestamp("a").unwrap();
    let key = service.get_authority_public_key().unwrap();
    service.add_authority_key("a".to_string(), &key).unwrap();
    assert_eq!(service.verify_timestamp(&ts).unwrap(), true);
    service.as_authenticated_client("c".to_string());
    assert!(matches!(service.verify_timestamp(&ts), Err(TimeServiceError::AuthorityNotFound(_))));
}

#[test]
fn fresh_service_verifies_another_services_timestamp() {
    let mut issuer = TspTimeService::new();
    issuer.as_authority("issuer".to_string());
    let ts = issuer.request_timestamp("issuer").unwrap();
    assert_eq!(ts.authority_id, "issuer");
    let mut verifier = TspTimeService::new();
    verifier
        .add_authority_key("issuer".to_string(), &issuer.get_authority_public_key().unwrap())
        .unwrap();
    assert_eq!(verifier.verify_timestamp(&ts).unwrap(), true);
}

#[test]
fn authority_expiry_defaults_to_five_minutes() {
    let mut service = TspTimeService::new();
    service.as_authority("a".to_string());
    let t1 = UtcTime::new(1_000, 0).unwrap();
    let t2 = UtcTime::new(1_299, 0).unwrap();
    let t3 = UtcTime::new(1_300, 0).unwrap();
    assert!(service.dispatch_request("a", TimestampRequest::new("n".to_string()), t1).is_ok());
    assert!(service.dispatch_request("a", TimestampRequest::new("n".to_string()), t2).is_err());
    assert!(service.dispatch_request("a", TimestampRequest::new("n".to_string()), t3).is_ok());
}
