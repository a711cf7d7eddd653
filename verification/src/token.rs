//! Bearer-token issuance and verification.
//!
//! A token is a signed, symmetric (HMAC-SHA256) credential carrying a fixed
//! claim set: a subject, an organization, and an expiry in epoch seconds. The
//! signing and parsing primitives come from the `jsonwebtoken` crate behind
//! trusted wrappers; everything decided about a token (expiry checks, the
//! order in which failures are reported, the round-trip law) is verified here.

use vstd::prelude::*;

verus! {

/// The claim set embedded in every token.
#[derive(Debug, Clone)]
pub struct Claims {
    pub subject: String,
    pub organization: String,
    /// Epoch seconds after which the token is no longer valid.
    pub expiry: u64,
}

impl View for Claims {
    type V = (Seq<char>, Seq<char>, u64);

    open spec fn view(&self) -> Self::V {
        (self.subject@, self.organization@, self.expiry)
    }
}

/// Why a token was rejected. All three map to the same HTTP outcome; they are
/// distinguished internally only.
#[derive(Debug, Clone, Copy, PartialEq, Eq, Structural)]
pub enum AuthError {
    /// The token does not parse as a signed token with the expected claims.
    Malformed,
    /// The token parses but its expiry has passed.
    Expired,
    /// The token parses and is current, but the signature does not match.
    InvalidSignature,
}

/// The one fatal failure kind the taxonomy names for issuance: the signing
/// primitive itself failing, a configuration fault rather than a per-request
/// one. For the HMAC configuration this library uses the primitive cannot
/// fail, and `issue`'s contract promises this value is never returned.
#[derive(Debug, Clone, Copy, PartialEq, Eq, Structural)]
pub enum TokenError {
    Signing,
}

/// The signed token that the signing primitive produces for the given claims
/// and secret. It is a fixed function of its arguments: HMAC signing over a
/// fixed header and a canonical claim serialization is deterministic.
pub uninterp spec fn jwt_of(
    subject: Seq<char>,
    organization: Seq<char>,
    expiry: u64,
    secret: Seq<char>,
) -> Seq<char>;

/// The claim set recovered from a token without checking its signature:
/// `Some` exactly when the token has the signed-token shape and its claims
/// carry the three expected fields. A fixed function of the token alone.
pub uninterp spec fn token_payload(token: Seq<char>) -> Option<(Seq<char>, Seq<char>, u64)>;

/// The claim set recovered from a token whose signature checks out under the
/// given secret; `None` when the token is malformed or the signature does not
/// match. A fixed function of the token and the secret.
pub uninterp spec fn token_claims(token: Seq<char>, secret: Seq<char>) -> Option<
    (Seq<char>, Seq<char>, u64),
>;

/// Relies on `jsonwebtoken::encode` with `Header::default()` (HS256) and an
/// HMAC secret, over a claims object carrying the subject under `sub`, the
/// organization under `company`, and the expiry under `exp`: the token
/// returned is a fixed function of the claims and the secret, and
/// `jsonwebtoken::decode` under the same secret — with or without signature
/// validation — recovers exactly the claims that were signed. Encoding
/// cannot fail here: the key and the default header are both HMAC-family,
/// serializing the fixed header and this claims object is infallible, and
/// HMAC signing never errors — so a token is always returned.
#[verifier::external_body]
fn encode_token(subject: &str, organization: &str, expiry: u64, secret: &str) -> (r: Option<
    String,
>)
    ensures
        r is Some,
        r matches Some(t) ==> t@ == jwt_of(subject@, organization@, expiry, secret@),
        r matches Some(t) ==> token_payload(t@) == Some((subject@, organization@, expiry)),
        r matches Some(t) ==> token_claims(t@, secret@) == Some((subject@, organization@, expiry)),
{
    let mut claims = serde_json::Map::new();
    claims.insert("sub".to_string(), serde_json::Value::String(subject.to_string()));
    claims.insert("company".to_string(), serde_json::Value::String(organization.to_string()));
    claims.insert("exp".to_string(), serde_json::Value::from(expiry));
    let key = jsonwebtoken::EncodingKey::from_secret(secret.as_bytes());
    jsonwebtoken::encode(&jsonwebtoken::Header::default(), &serde_json::Value::Object(claims), &key)
        .ok()
}

/// Relies on `jsonwebtoken::decode::<serde_json::Value>` with signature
/// validation on and expiry validation off: the outcome is a fixed function
/// of the token and the secret, `Some` exactly when the token is well formed,
/// correctly signed under HS256, passes the remaining validation defaults
/// (notably, a token carrying an audience claim is rejected since none is
/// expected), and carries the three expected claim fields.
#[verifier::external_body]
fn decode_signed(token: &str, secret: &str) -> (r: Option<(String, String, u64)>)
    ensures
        r matches Some(c) ==> token_claims(token@, secret@) == Some((c.0@, c.1@, c.2)),
        r is None ==> token_claims(token@, secret@) is None,
{
    let mut validation = jsonwebtoken::Validation::new(jsonwebtoken::Algorithm::HS256);
    validation.validate_exp = false;
    validation.required_spec_claims.clear();
    let key = jsonwebtoken::DecodingKey::from_secret(secret.as_bytes());
    let data = jsonwebtoken::decode::<serde_json::Value>(token, &key, &validation).ok()?;
    let subject = data.claims.get("sub")?.as_str()?.to_string();
    let organization = data.claims.get("company")?.as_str()?.to_string();
    let expiry = data.claims.get("exp")?.as_u64()?;
    Some((subject, organization, expiry))
}

/// Relies on `jsonwebtoken::decode::<serde_json::Value>` with both signature
/// and expiry validation disabled: it parses the token's structure and claims
/// without using any key, so the outcome is a fixed function of the token.
/// The remaining validation defaults still apply, so a token carrying an
/// audience claim is rejected here too.
#[verifier::external_body]
fn decode_unsigned(token: &str) -> (r: Option<(String, String, u64)>)
    ensures
        r matches Some(c) ==> token_payload(token@) == Some((c.0@, c.1@, c.2)),
        r is None ==> token_payload(token@) is None,
{
    let mut validation = jsonwebtoken::Validation::new(jsonwebtoken::Algorithm::HS256);
    validation.validate_exp = false;
    validation.required_spec_claims.clear();
    validation.insecure_disable_signature_validation();
    let key = jsonwebtoken::DecodingKey::from_secret(&[]);
    let data = jsonwebtoken::decode::<serde_json::Value>(token, &key, &validation).ok()?;
    let subject = data.claims.get("sub")?.as_str()?.to_string();
    let organization = data.claims.get("company")?.as_str()?.to_string();
    let expiry = data.claims.get("exp")?.as_u64()?;
    Some((subject, organization, expiry))
}

/// What `verify` decides for a token at time `now` under `secret`:
/// unparseable tokens are malformed; parseable but past-expiry tokens are
/// expired, whatever their signature; current tokens stand or fall with the
/// signature check.
pub open spec fn verify_model(token: Seq<char>, now: u64, secret: Seq<char>) -> Result<
    (Seq<char>, Seq<char>, u64),
    AuthError,
> {
    match token_payload(token) {
        Option::None => Result::Err(AuthError::Malformed),
        Option::Some(p) => if now > p.2 {
            Result::Err(AuthError::Expired)
        } else {
            match token_claims(token, secret) {
                Option::None => Result::Err(AuthError::InvalidSignature),
                Option::Some(c) => Result::Ok(c),
            }
        },
    }
}

/// Builds and signs a token whose claims are the given subject and
/// organization and whose expiry is `now + ttl`. Issuance always succeeds:
/// the signing-failure kind exists in the taxonomy but is unreachable under
/// the HMAC configuration in use, and the contract says so.
///
/// Round-trip law: any token this function issues is accepted by `verify`,
/// with the original claims, at any time up to and including its expiry.
pub fn issue(subject: &str, organization: &str, ttl: u64, now: u64, secret: &str) -> (r: Result<
    String,
    TokenError,
>)
    requires
        now + ttl <= u64::MAX,
    ensures
        r is Ok,
        r matches Ok(t) ==> t@ == jwt_of(subject@, organization@, (now + ttl) as u64, secret@),
        r matches Ok(t) ==> token_payload(t@) == Some(
            (subject@, organization@, (now + ttl) as u64),
        ),
        r matches Ok(t) ==> token_claims(t@, secret@) == Some(
            (subject@, organization@, (now + ttl) as u64),
        ),
        r matches Ok(t) ==> forall|later: u64|
            later <= now + ttl ==> #[trigger] verify_model(t@, later, secret@) == Result::<
                _,
                AuthError,
            >::Ok((subject@, organization@, (now + ttl) as u64)),
{
    let expiry = now + ttl;
    match encode_token(subject, organization, expiry, secret) {
        Some(t) => Ok(t),
        None => Err(TokenError::Signing),
    }
}

/// Checks a token's shape, expiry, and signature, in that order, at time
/// `now` under `secret`, and returns its claims or the first failure.
///
/// Expiry law: a parseable token whose expiry lies before `now` is rejected
/// as expired whether or not its signature is valid.
pub fn verify(token: &str, now: u64, secret: &str) -> (r: Result<Claims, AuthError>)
    ensures
        r matches Ok(c) ==> verify_model(token@, now, secret@) == Result::<_, AuthError>::Ok(c@),
        r matches Err(e) ==> verify_model(token@, now, secret@) == Result::<
            (Seq<char>, Seq<char>, u64),
            _,
        >::Err(e),
        token_payload(token@) matches Some(p) && now > p.2 ==> r == Result::<
            Claims,
            _,
        >::Err(AuthError::Expired),
{
    match decode_unsigned(token) {
        None => Err(AuthError::Malformed),
        Some(p) => {
            if now > p.2 {
                Err(AuthError::Expired)
            } else {
                match decode_signed(token, secret) {
                    None => Err(AuthError::InvalidSignature),
                    Some(c) => Ok(
                        Claims { subject: c.0, organization: c.1, expiry: c.2 },
                    ),
                }
            }
        },
    }
}

} // verus!
