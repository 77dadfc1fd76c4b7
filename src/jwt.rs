use vstd::prelude::*;
use vstd::string::StringExecFns;

use base64::Engine;
use rsa::pkcs1::EncodeRsaPrivateKey;
use rsa::pkcs8::{DecodePrivateKey, EncodePublicKey};
use sha2::Digest;

verus! {

#[verifier::external_type_specification]
#[verifier::external_body]
pub struct ExPkcs8Error(rsa::pkcs8::Error);

#[verifier::external_type_specification]
#[verifier::external_body]
pub struct ExSpkiError(rsa::pkcs8::spki::Error);

#[verifier::external_type_specification]
#[verifier::external_body]
pub struct ExPkcs1Error(rsa::pkcs1::Error);

#[verifier::external_type_specification]
#[verifier::external_body]
pub struct ExJwtEncodingError(jsonwebtoken::errors::Error);

/// Failures while building a keypair JWT; each holds the underlying message.
#[derive(Debug)]
pub enum JwtError {
    Rsa(String),
    Pkcs8(String),
    Spki(String),
    Pkcs1(String),
    Utf8(String),
    Der(String),
    JwtEncoding(String),
    /// The clock reading is too close to the end of time to add a day.
    TimestampOutOfRange,
}

/// Seconds that a keypair JWT stays valid.
pub const JWT_LIFETIME_SECS: i64 = 86400;

/// The SHA-256 digest of a byte string.
pub uninterp spec fn sha256_of(bytes: Seq<u8>) -> Seq<u8>;

/// The standard, padded base64 text of a byte string.
pub uninterp spec fn base64_of(bytes: Seq<u8>) -> Seq<char>;

/// The RS256-signed JWT with claims `iss`, `sub`, `iat`, `exp`, signed with the
/// PKCS#1 DER private key `key_der`.
pub uninterp spec fn rs256_token_of(
    iss: Seq<char>,
    sub: Seq<char>,
    iat: i64,
    exp: i64,
    key_der: Seq<u8>,
) -> Seq<char>;

/// Relies on `sha2::Sha256`: the digest of `bytes`, 32 bytes long.
#[verifier::external_body]
fn sha256_digest(bytes: &[u8]) -> (r: Vec<u8>)
    ensures
        r@ == sha256_of(bytes@),
        r@.len() == 32,
{
    sha2::Sha256::digest(bytes).to_vec()
}

/// Relies on `base64::engine::general_purpose::STANDARD.encode`: padded, so
/// four characters for each started group of three bytes.
#[verifier::external_body]
fn base64_standard(bytes: &[u8]) -> (r: String)
    ensures
        r@ == base64_of(bytes@),
        r@.len() == 4 * ((bytes@.len() + 2) / 3),
{
    base64::engine::general_purpose::STANDARD.encode(bytes)
}

/// The DER forms of the key in a PKCS#8 PEM private key: its public half (SPKI
/// DER) and the key itself (PKCS#1 DER); `None` when the PEM does not hold an
/// RSA private key or a form cannot be written.
pub uninterp spec fn pem_key_ders_of(pem: Seq<char>) -> Option<(Seq<u8>, Seq<u8>)>;

/// Why the key material of a PEM could not be had.
enum KeyDerError {
    Pkcs8(rsa::pkcs8::Error),
    Spki(rsa::pkcs8::spki::Error),
    Pkcs1(rsa::pkcs1::Error),
}

/// Relies on `rsa::RsaPrivateKey::from_pkcs8_pem`, then on the key's
/// `to_public_key().to_public_key_der()` and `to_pkcs1_der()`: the public and
/// private DER forms of the PEM's key.
#[verifier::external_body]
fn key_ders_from_pem(pem: &str) -> (r: Result<(Vec<u8>, Vec<u8>), KeyDerError>)
    ensures
        match r {
            Ok((p, q)) => pem_key_ders_of(pem@) == Some((p@, q@)),
            Err(_) => pem_key_ders_of(pem@) is None,
        },
{
    let key = rsa::RsaPrivateKey::from_pkcs8_pem(pem).map_err(KeyDerError::Pkcs8)?;
    let public = key.to_public_key().to_public_key_der().map_err(KeyDerError::Spki)?;
    let private = key.to_pkcs1_der().map_err(KeyDerError::Pkcs1)?;
    Ok((public.as_bytes().to_vec(), private.as_bytes().to_vec()))
}

/// Relies on `jsonwebtoken::encode` with an RS256 header over the four claims.
#[verifier::external_body]
fn sign_rs256(claims: &Claims, key_der: &[u8]) -> (r: Result<String, jsonwebtoken::errors::Error>)
    ensures
        r matches Ok(t) ==> t@ == rs256_token_of(
            claims.iss@,
            claims.sub@,
            claims.iat,
            claims.exp,
            key_der@,
        ),
{
    let mut body = serde_json::Map::new();
    body.insert("iss".to_string(), claims.iss.clone().into());
    body.insert("sub".to_string(), claims.sub.clone().into());
    body.insert("iat".to_string(), claims.iat.into());
    body.insert("exp".to_string(), claims.exp.into());
    let header = jsonwebtoken::Header::new(jsonwebtoken::Algorithm::RS256);
    jsonwebtoken::encode(&header, &body, &jsonwebtoken::EncodingKey::from_rsa_der(key_der))
}

/// Relies on `time::OffsetDateTime::now_utc`: the wall clock as Unix seconds and
/// the nanoseconds past them.
#[verifier::external_body]
fn now_utc() -> (r: Timestamp) {
    let now = time::OffsetDateTime::now_utc();
    Timestamp { unix_seconds: now.unix_timestamp(), nanosecond: now.nanosecond() }
}

/// A wall-clock instant: whole Unix seconds and the nanoseconds past them.
#[derive(Debug, Clone, Copy, PartialEq, Eq)]
pub struct Timestamp {
    pub unix_seconds: i64,
    pub nanosecond: u32,
}

/// Claims of a keypair JWT. Timestamps are whole seconds, as JWT numeric dates
/// are, so a token equals its own decoding.
#[derive(Debug)]
pub struct Claims {
    pub iss: String,
    pub sub: String,
    pub iat: i64,
    pub exp: i64,
}

/// The issuer claim: the identifier, then `.SHA256:` and the key fingerprint.
pub open spec fn issuer_of(full_identifier: Seq<char>, fingerprint: Seq<char>) -> Seq<char> {
    full_identifier + ".SHA256:"@ + fingerprint
}

/// The fingerprint of a DER public key: base64 of its SHA-256 digest.
pub open spec fn fingerprint_of(public_der: Seq<u8>) -> Seq<char> {
    base64_of(sha256_of(public_der))
}

impl Claims {
    /// Builds claims, dropping the sub-second part of both timestamps.
    pub fn new(iss: String, sub: String, iat: Timestamp, exp: Timestamp) -> (r: Claims)
        ensures
            r.iss == iss,
            r.sub == sub,
            r.iat == iat.unix_seconds,
            r.exp == exp.unix_seconds,
    {
        Claims { iss, sub, iat: iat.unix_seconds, exp: exp.unix_seconds }
    }
}

/// The base64 SHA-256 fingerprint of a DER-encoded public key.
pub fn pubkey_fingerprint(pubkey: &[u8]) -> (r: String)
    ensures
        r@ == fingerprint_of(pubkey@),
{
    let digest = sha256_digest(pubkey);
    base64_standard(digest.as_slice())
}

/// The claims of a keypair JWT issued at `now` for `full_identifier`
/// (`ACCOUNT.USERNAME`), whose public key has DER form `public_der`.
pub fn claims_for(full_identifier: &str, public_der: &[u8], now: Timestamp) -> (r: Claims)
    requires
        now.unix_seconds <= i64::MAX - JWT_LIFETIME_SECS,
    ensures
        r.iss@ == issuer_of(full_identifier@, fingerprint_of(public_der@)),
        r.sub@ == full_identifier@,
        r.iat == now.unix_seconds,
        r.exp == now.unix_seconds + JWT_LIFETIME_SECS,
{
    let mut iss = String::from_str(full_identifier);
    iss.append(".SHA256:");
    let fingerprint = pubkey_fingerprint(public_der);
    iss.append(fingerprint.as_str());
    let exp = Timestamp { unix_seconds: now.unix_seconds + JWT_LIFETIME_SECS, nanosecond: now.nanosecond };
    Claims::new(iss, String::from_str(full_identifier), now, exp)
}

/// The signed JWT for `full_identifier` from DER key material, issued at `now`.
pub fn jwt_from_key_material(
    full_identifier: &str,
    public_der: &[u8],
    private_der: &[u8],
    now: Timestamp,
) -> (r: Result<String, JwtError>)
    requires
        now.unix_seconds <= i64::MAX - JWT_LIFETIME_SECS,
    ensures
        r matches Ok(t) ==> t@ == rs256_token_of(
            issuer_of(full_identifier@, fingerprint_of(public_der@)),
            full_identifier@,
            now.unix_seconds,
            (now.unix_seconds + JWT_LIFETIME_SECS) as i64,
            private_der@,
        ),
        r matches Err(e) ==> e is JwtEncoding,
{
    let claims = claims_for(full_identifier, public_der, now);
    match sign_rs256(&claims, private_der) {
        Ok(t) => Ok(t),
        Err(e) => Err(JwtError::JwtEncoding(e.to_string())),
    }
}

/// Whether `token` is the RS256 JWT for `full_identifier` under the key pair
/// with DER forms `public_der` and `private_der`, issued at some second and
/// valid for a day from it.
pub open spec fn is_keypair_jwt_for(
    token: Seq<char>,
    full_identifier: Seq<char>,
    public_der: Seq<u8>,
    private_der: Seq<u8>,
) -> bool {
    exists|iat: i64|
        iat <= i64::MAX - JWT_LIFETIME_SECS && #[trigger] rs256_token_of(
            issuer_of(full_identifier, fingerprint_of(public_der)),
            full_identifier,
            iat,
            (iat + JWT_LIFETIME_SECS) as i64,
            private_der,
        ) == token
}

/// Builds the keypair JWT that authenticates `full_identifier` (`ACCOUNT.USERNAME`)
/// with the PKCS#8 PEM private key `private_key_pem`, issued now. A PEM without
/// an RSA private key fails; a token is signed with that PEM's key.
pub fn generate_jwt_token(private_key_pem: &str, full_identifier: &str) -> (r: Result<
    String,
    JwtError,
>)
    ensures
        pem_key_ders_of(private_key_pem@) is None ==> (r matches Err(e) && (e is Pkcs8 || e is Spki
            || e is Pkcs1)),
        r matches Ok(t) ==> (pem_key_ders_of(private_key_pem@) matches Some((p, q))
            && is_keypair_jwt_for(t@, full_identifier@, p, q)),
        pem_key_ders_of(private_key_pem@) is Some ==> (r matches Err(e) ==> (e is JwtEncoding
            || e is TimestampOutOfRange)),
        r matches Err(e) ==> (e is Pkcs8 || e is Spki || e is Pkcs1 || e is JwtEncoding
            || e is TimestampOutOfRange),
{
    let (public_der, private_der) = match key_ders_from_pem(private_key_pem) {
        Ok(d) => d,
        Err(KeyDerError::Pkcs8(e)) => {
            return Err(JwtError::Pkcs8(e.to_string()));
        },
        Err(KeyDerError::Spki(e)) => {
            return Err(JwtError::Spki(e.to_string()));
        },
        Err(KeyDerError::Pkcs1(e)) => {
            return Err(JwtError::Pkcs1(e.to_string()));
        },
    };
    let now = now_utc();
    if now.unix_seconds > i64::MAX - JWT_LIFETIME_SECS {
        return Err(JwtError::TimestampOutOfRange);
    }
    let r = jwt_from_key_material(full_identifier, public_der.as_slice(), private_der.as_slice(), now);
    if let Ok(t) = &r {
        assert(rs256_token_of(
            issuer_of(full_identifier@, fingerprint_of(public_der@)),
            full_identifier@,
            now.unix_seconds,
            (now.unix_seconds + JWT_LIFETIME_SECS) as i64,
            private_der@,
        ) == t@);
    }
    r
}

} // verus!
