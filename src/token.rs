use vstd::prelude::*;
use chrono::{DateTime, Months, Utc};
use jsonwebtoken::{Algorithm, DecodingKey, EncodingKey, Header, Validation};

verus! {

#[verifier::external_type_specification]
#[verifier::external_body]
pub struct ExJwtError(jsonwebtoken::errors::Error);

/// The claims that a session token carries.
#[derive(Debug)]
pub struct TokenClaims {
    pub id: String,
    pub email: String,
    pub session: String,
    /// Unix time, in seconds, after which the token is refused.
    pub exp: i64,
}

/// The identity claims read back from a token whose signature and expiry checked out;
/// `None` where a claim is missing or is no string.
#[derive(Debug)]
pub struct TokenIdentity {
    pub id: Option<String>,
    pub email: Option<String>,
    pub session: Option<String>,
}

/// The claim is present and reads `v`.
pub open spec fn claim_is(claim: Option<String>, v: Seq<char>) -> bool {
    match claim {
        Some(c) => c@ == v,
        None => false,
    }
}

/// Every set of claims that signs into `token` with `secret` has the given id and email:
/// the token speaks for that account and no other.
pub open spec fn token_names(token: Seq<char>, secret: Seq<u8>, id: Seq<char>, email: Seq<char>) -> bool {
    forall|i: Seq<char>, e: Seq<char>, s: Seq<char>, x: int|
        token == #[trigger] hs256_token(i, e, s, x, secret) ==> i == id && e == email
}

/// The compact HS256 token (default header) that signs the claims with `secret`.
pub uninterp spec fn hs256_token(
    id: Seq<char>,
    email: Seq<char>,
    session: Seq<char>,
    exp: int,
    secret: Seq<u8>,
) -> Seq<char>;

/// The Unix time `months` calendar months after `ts` (UTC), or `None` out of range.
pub uninterp spec fn months_later(ts: int, months: nat) -> Option<int>;

/// Relies on `jsonwebtoken::encode` with the default header (HS256) and an HMAC key
/// made from `secret`, over a JSON object of the four claims. It fails only where the key
/// kind does not suit the algorithm or the claims do not serialize, neither of which can
/// happen here.
#[verifier::external_body]
fn hs256_encode(claims: &TokenClaims, secret: &[u8]) -> (r: Result<String, jsonwebtoken::errors::Error>)
    ensures
        r is Ok,
        r matches Ok(t) ==> t@ == hs256_token(
            claims.id@,
            claims.email@,
            claims.session@,
            claims.exp as int,
            secret@,
        ),
{
    let mut object = serde_json::Map::new();
    object.insert("id".to_string(), serde_json::Value::from(claims.id.as_str()));
    object.insert("email".to_string(), serde_json::Value::from(claims.email.as_str()));
    object.insert("session".to_string(), serde_json::Value::from(claims.session.as_str()));
    object.insert("exp".to_string(), serde_json::Value::from(claims.exp));
    jsonwebtoken::encode(&Header::default(), &object, &EncodingKey::from_secret(secret))
}

/// Relies on `jsonwebtoken::decode` with an HMAC key made from `secret` and
/// `Validation::new(Algorithm::HS256)` with the given expiry leeway. Signature and expiry
/// are checked against the clock, so success is not promised; but a token that `encode`
/// wrote with this secret decodes to the claims it was written from.
#[verifier::external_body]
fn hs256_decode(token: &str, secret: &[u8], leeway: u64) -> (r: Result<TokenIdentity, jsonwebtoken::errors::Error>)
    ensures
        forall|i: Seq<char>, e: Seq<char>, s: Seq<char>, x: int|
            token@ == #[trigger] hs256_token(i, e, s, x, secret@) ==> (r matches Ok(c) ==> claim_is(
                c.id,
                i,
            ) && claim_is(c.email, e) && claim_is(c.session, s)),
{
    let mut validation = Validation::new(Algorithm::HS256);
    validation.leeway = leeway;
    let data = jsonwebtoken::decode::<serde_json::Value>(token, &DecodingKey::from_secret(secret), &validation)?;
    let id = data.claims.get("id").and_then(serde_json::Value::as_str).map(String::from);
    let email = data.claims.get("email").and_then(serde_json::Value::as_str).map(String::from);
    let session = data.claims.get("session").and_then(serde_json::Value::as_str).map(String::from);
    Ok(TokenIdentity { id, email, session })
}

/// Relies on `chrono::Utc::now`: the current Unix time in seconds.
#[verifier::external_body]
pub(crate) fn now_timestamp() -> (r: i64) {
    Utc::now().timestamp()
}

/// Relies on `DateTime::<Utc>::from_timestamp` and `DateTime::checked_add_months`.
#[verifier::external_body]
fn add_months(ts: i64, months: u32) -> (r: Option<i64>)
    ensures
        r is Some == months_later(ts as int, months as nat) is Some,
        r matches Some(t) ==> months_later(ts as int, months as nat) == Some(t as int),
{
    DateTime::<Utc>::from_timestamp(ts, 0)
        .and_then(|d| d.checked_add_months(Months::new(months)))
        .map(|d| d.timestamp())
}

/// How long a session token stays valid, in calendar months.
pub const TOKEN_LIFETIME_MONTHS: u32 = 12;

/// The expiry of a token issued at `issued_at`: twelve calendar months later.
pub fn token_expiry(issued_at: i64) -> (r: Option<i64>)
    ensures
        r is Some == months_later(issued_at as int, TOKEN_LIFETIME_MONTHS as nat) is Some,
        r matches Some(t) ==> months_later(issued_at as int, TOKEN_LIFETIME_MONTHS as nat) == Some(
            t as int,
        ),
{
    add_months(issued_at, TOKEN_LIFETIME_MONTHS)
}

/// Signs the claims into a compact token.
pub fn sign_claims(claims: &TokenClaims, secret: &[u8]) -> (r: String)
    ensures
        r@ == hs256_token(claims.id@, claims.email@, claims.session@, claims.exp as int, secret@),
{
    hs256_encode(claims, secret).unwrap()
}

/// Seconds of grace past a token's expiry: none, a token expires at its `exp`.
pub const TOKEN_EXPIRY_LEEWAY: u64 = 0;

/// The identity claims of `token`, or `None` where its signature, its expiry or its
/// structure does not check out. A token signed with `secret` over some claims reads back
/// exactly those claims.
pub fn decode_identity(token: &str, secret: &[u8]) -> (r: Option<TokenIdentity>)
    ensures
        forall|i: Seq<char>, e: Seq<char>, s: Seq<char>, x: int|
            token@ == #[trigger] hs256_token(i, e, s, x, secret@) ==> (r matches Some(c) ==> claim_is(
                c.id,
                i,
            ) && claim_is(c.email, e) && claim_is(c.session, s)),
{
    match hs256_decode(token, secret, TOKEN_EXPIRY_LEEWAY) {
        Ok(identity) => Some(identity),
        Err(_) => None,
    }
}

} // verus!
