use rpc_gateway::token::{issue, verify, AuthError};

const SECRET: &str = "my_secret_key";

#[test]
fn round_trip_returns_original_claims() {
    let token = issue("b@b.com", "ACME", 3600, 1_000_000, SECRET).unwrap();
    let claims = verify(&token, 1_000_000, SECRET).unwrap();
    assert_eq!(claims.subject, "b@b.com");
    assert_eq!(claims.organization, "ACME");
    assert_eq!(claims.expiry, 1_003_600);
}

#[test]
fn round_trip_succeeds_until_expiry() {
    let token = issue("alice", "Org", 100, 5_000, SECRET).unwrap();
    // Accepted at issuance, mid-life, and at the expiry instant itself.
    assert!(verify(&token, 5_000, SECRET).is_ok());
    assert!(verify(&token, 5_050, SECRET).is_ok());
    assert!(verify(&token, 5_100, SECRET).is_ok());
    // One second past expiry it is rejected as expired.
    assert_eq!(verify(&token, 5_101, SECRET).unwrap_err(), AuthError::Expired);
}

#[test]
fn expired_token_reports_expiry_even_with_wrong_secret() {
    let token = issue("alice", "Org", 10, 5_000, SECRET).unwrap();
    // The signature check against the wrong secret would fail, but the
    // expiry kind takes precedence for a past-expiry token.
    assert_eq!(
        verify(&token, 6_000, "some_other_secret").unwrap_err(),
        AuthError::Expired
    );
}

#[test]
fn current_token_with_wrong_secret_is_invalid_signature() {
    let token = issue("alice", "Org", 1000, 5_000, SECRET).unwrap();
    assert_eq!(
        verify(&token, 5_001, "some_other_secret").unwrap_err(),
        AuthError::InvalidSignature
    );
}

#[test]
fn garbage_token_is_malformed() {
    assert_eq!(
        verify("not-a-token", 5_000, SECRET).unwrap_err(),
        AuthError::Malformed
    );
    assert_eq!(verify("", 5_000, SECRET).unwrap_err(), AuthError::Malformed);
    assert_eq!(
        verify("a.b.c", 5_000, SECRET).unwrap_err(),
        AuthError::Malformed
    );
}

#[test]
fn tampered_token_is_rejected() {
    let token = issue("alice", "Org", 1000, 5_000, SECRET).unwrap();
    // Flip the last signature character.
    let mut tampered = token.clone();
    let last = tampered.pop().unwrap();
    tampered.push(if last == 'A' { 'B' } else { 'A' });
    assert!(verify(&tampered, 5_001, SECRET).is_err());
}

#[test]
fn zero_ttl_token_is_immediately_expired() {
    let token = issue("alice", "Org", 0, 5_000, SECRET).unwrap();
    // As soon as the clock moves past the issuance instant the token is
    // expired, and the failure kind says so.
    assert_eq!(verify(&token, 5_001, SECRET).unwrap_err(), AuthError::Expired);
}
