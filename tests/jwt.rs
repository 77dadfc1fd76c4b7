use snowflake_api::jwt::{claims_for, generate_jwt_token, pubkey_fingerprint, JwtError, Timestamp};

#[test]
fn fingerprint_is_base64_sha256() {
    assert_eq!(pubkey_fingerprint(b""), "47DEQpj8HBSa+/TImW+5JCeuQeRkm5NMpJWZG3hSuFU=");
}

#[test]
fn claims_use_whole_seconds_and_last_a_day() {
    let now = Timestamp { unix_seconds: 1_700_000_000, nanosecond: 987_654_321 };
    let claims = claims_for("ACME.JANE", b"", now);
    assert_eq!(claims.iss, "ACME.JANE.SHA256:47DEQpj8HBSa+/TImW+5JCeuQeRkm5NMpJWZG3hSuFU=");
    assert_eq!(claims.sub, "ACME.JANE");
    assert_eq!(claims.iat, 1_700_000_000);
    assert_eq!(claims.exp - claims.iat, 86400);
}

#[test]
fn malformed_pem_is_rejected() {
    assert!(matches!(generate_jwt_token("-----BEGIN NOTHING-----", "A.B"), Err(JwtError::Pkcs8(_))));
}
