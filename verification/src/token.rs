//! Bearer-token verification and issuance.
//!
//! A credential is a stateless signed envelope carrying a subject id and an
//! expiry timestamp. Signing and signature checking are done by the
//! `jsonwebtoken` crate behind trusted wrappers; everything the library
//! states about a token's text goes through the two names below, since the
//! token format itself is not this library's logic.

use vstd::prelude::*;

verus! {

/// The data carried by a verified credential: the subject (user) id and the
/// expiry as a Unix timestamp in seconds.
#[derive(Clone, Debug)]
pub struct Claims {
    pub sub: String,
    pub exp: i64,
}

/// How long an issued credential lives, in seconds (30 days).
pub const TOKEN_LIFETIME_SECONDS: i64 = 2592000;

/// The claim set that HS256 verification under `secret` extracts from a
/// token, if any: a pure function of the token text and the secret alone.
pub uninterp spec fn jwt_claims(token: Seq<char>, secret: Seq<u8>) -> Option<(Seq<char>, int)>;

/// The HS256 token text signing the claim pair `(sub, exp)` under `secret`:
/// a pure function of the claim fields and the secret alone.
pub uninterp spec fn jwt_token(sub: Seq<char>, exp: int, secret: Seq<u8>) -> Seq<char>;

/// Relies on `jsonwebtoken::decode` under the default HS256 validation.
/// Decoding is deterministic in the token text and secret, so a returned
/// claim set equals `jwt_claims` of them; the expiry check against the
/// clock can only turn a result into `None`. An empty token is malformed
/// and always fails.
#[verifier::external_body]
pub fn verify_jwt(token: &str, secret: &[u8]) -> (r: Option<Claims>)
    ensures
        r matches Some(c) ==> jwt_claims(token@, secret@) == Some((c.sub@, c.exp as int)),
        token@.len() == 0 ==> r is None,
{
    let key = jsonwebtoken::DecodingKey::from_secret(secret);
    let outcome = jsonwebtoken::decode::<serde_json::Value>(
        token,
        &key,
        &jsonwebtoken::Validation::default(),
    );
    let data = outcome.ok()?;
    let sub = data.claims.get("sub")?.as_str()?.to_string();
    let exp = data.claims.get("exp")?.as_i64()?;
    Some(Claims { sub, exp })
}

/// Relies on `jsonwebtoken::encode` with the default HS256 header: the
/// token text is a pure function of the claim fields and the secret.
/// Signing a plain `sub`/`exp` claim object with an HS256 secret cannot
/// fail.
#[verifier::external_body]
fn encode_claims(sub: &str, exp: i64, secret: &[u8]) -> (r: String)
    ensures
        r@ == jwt_token(sub@, exp as int, secret@),
{
    let mut claims = serde_json::Map::new();
    claims.insert("sub".to_string(), serde_json::Value::String(sub.to_string()));
    claims.insert("exp".to_string(), serde_json::Value::Number(serde_json::Number::from(exp)));
    let key = jsonwebtoken::EncodingKey::from_secret(secret);
    jsonwebtoken::encode(&jsonwebtoken::Header::default(), &serde_json::Value::Object(claims), &key)
        .expect("HS256 signing of a plain claim object does not fail")
}

/// Issues a credential for `user_id` that expires `TOKEN_LIFETIME_SECONDS`
/// after `now` (a Unix timestamp in seconds).
pub fn generate_jwt(user_id: &str, secret: &[u8], now: i64) -> (r: String)
    requires
        now <= i64::MAX - TOKEN_LIFETIME_SECONDS,
    ensures
        r@ == jwt_token(user_id@, now + TOKEN_LIFETIME_SECONDS, secret@),
{
    let exp = now + TOKEN_LIFETIME_SECONDS;
    encode_claims(user_id, exp, secret)
}

} // verus!
