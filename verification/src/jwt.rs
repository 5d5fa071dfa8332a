//! Signed session tokens. Signing and signature checking are jsonwebtoken's
//! work; the core only fixes which claims go in and relies on the fact that
//! decoding with the same secret gives them back.

use vstd::prelude::*;

verus! {

/// What jsonwebtoken's `decode` recovers from a token string under a given
/// secret: the subject, absolute expiry and kind flag baked into the signed
/// payload, or `None` when the signature or the shape is invalid. Expiry
/// validation is turned off in the wrapper below, so the result is a function
/// of the secret and the token alone.
pub uninterp spec fn decode_of(secret: Seq<char>, token: Seq<char>) -> Option<(u128, u64, bool)>;

/// Relies on jsonwebtoken's `encode` with an HS256 secret: HMAC signing
/// cannot refuse (`crypto::sign` answers every HS256 request) and the claims
/// object always serializes, so a token always comes back — nonempty, since
/// it joins the encoded header, claims and signature with dots — and carries
/// exactly the claims handed in, so decoding it with the same secret yields
/// them back.
#[verifier::external_body]
pub(crate) fn jwt_encode(secret: &str, sub: u128, exp: u64, refresh: bool) -> (r: Option<String>)
    ensures
        r is Some,
        r matches Some(t) ==> t@.len() > 0 && decode_of(secret@, t@) == Some((sub, exp, refresh)),
{
    let key = jsonwebtoken::EncodingKey::from_secret(secret.as_bytes());
    let mut claims = serde_json::Map::new();
    claims.insert("sub".to_owned(), serde_json::Value::String(sub.to_string()));
    claims.insert("exp".to_owned(), serde_json::Value::from(exp));
    claims.insert("rfr".to_owned(), serde_json::Value::Bool(refresh));
    let header = jsonwebtoken::Header::default();
    jsonwebtoken::encode(&header, &serde_json::Value::Object(claims), &key).ok()
}

/// Relies on jsonwebtoken's `decode` with an HS256 secret, expiry validation
/// off and no required claims: a pure check of signature and shape.
#[verifier::external_body]
pub(crate) fn jwt_decode(secret: &str, token: &str) -> (r: Option<(u128, u64, bool)>)
    ensures
        r == decode_of(secret@, token@),
{
    let key = jsonwebtoken::DecodingKey::from_secret(secret.as_bytes());
    let mut validation = jsonwebtoken::Validation::new(jsonwebtoken::Algorithm::HS256);
    validation.validate_exp = false;
    validation.required_spec_claims = std::collections::HashSet::new();
    let data = jsonwebtoken::decode::<serde_json::Value>(token, &key, &validation).ok()?;
    let sub = data.claims.get("sub")?.as_str()?.parse::<u128>().ok()?;
    let exp = data.claims.get("exp")?.as_u64()?;
    let refresh = data.claims.get("rfr")?.as_bool()?;
    Some((sub, exp, refresh))
}

} // verus!
