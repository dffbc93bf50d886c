use vstd::prelude::*;

use crate::models::Claims;

verus! {

/// What `jsonwebtoken::encode` returns for a claims object holding the
/// subject `sub` and the expiry `exp`, signed HS256 with `secret`: the
/// signature is a keyed digest, computed from the arguments alone, so the
/// result may be given a name.
pub uninterp spec fn jwt_of(sub: Seq<char>, exp: u64, secret: Seq<u8>) -> Seq<char>;

/// Holds of a decoding result when it undoes `jwt_of`: a token signed
/// over some `sub` and `exp` with `secret` yields back exactly those
/// claims.
pub open spec fn decodes_jwt(r: Option<Claims>, token: Seq<char>, secret: Seq<u8>) -> bool {
    forall|sub: Seq<char>, exp: u64|
        token == jwt_of(sub, exp, secret) ==> (r matches Some(c) && c.sub@ == sub && c.exp == exp)
}

/// Relies on `jsonwebtoken::encode` with the default (HS256) header: the
/// token it signs over the `sub` and `exp` claims is a function of the
/// claims and the secret alone. Its HS256 signing path never errs, and a
/// JSON object of a string and a number always serializes, so the call
/// cannot fail.
#[verifier::external_body]
pub(crate) fn jwt_encode(claims: &Claims, secret: &[u8]) -> (r: String)
    ensures
        r@ == jwt_of(claims.sub@, claims.exp, secret@),
{
    let mut payload = serde_json::Map::new();
    payload.insert("sub".to_string(), serde_json::Value::String(claims.sub.clone()));
    payload.insert("exp".to_string(), serde_json::Value::Number(claims.exp.into()));
    jsonwebtoken::encode(
        &jsonwebtoken::Header::default(),
        &serde_json::Value::Object(payload),
        &jsonwebtoken::EncodingKey::from_secret(secret),
    )
    .expect("signing over the HS256 path cannot fail")
}

/// Relies on `jsonwebtoken::decode` with HS256, the expiry check switched
/// off and no claim required, so that the result depends on the token and
/// the secret alone: a token that `encode` signed over `sub` and `exp`
/// with the same secret decodes back to exactly those claims.
#[verifier::external_body]
pub(crate) fn jwt_decode(token: &str, secret: &[u8]) -> (r: Option<Claims>)
    ensures
        decodes_jwt(r, token@, secret@),
{
    let mut validation = jsonwebtoken::Validation::new(jsonwebtoken::Algorithm::HS256);
    validation.validate_exp = false;
    validation.required_spec_claims = std::collections::HashSet::new();
    let data = jsonwebtoken::decode::<serde_json::Value>(
        token,
        &jsonwebtoken::DecodingKey::from_secret(secret),
        &validation,
    )
    .ok()?;
    let sub = data.claims.get("sub")?.as_str()?.to_string();
    let exp = data.claims.get("exp")?.as_u64()?;
    Some(Claims { sub, exp })
}

/// A token issued over `sub` and `exp` with `secret` decodes back to
/// exactly that subject and expiry: in particular, the token a
/// successful login returns decodes, under the same secret, to the
/// user's email as its subject.
pub proof fn lemma_issued_token_decodes(r: Option<Claims>, sub: Seq<char>, exp: u64, secret: Seq<
    u8,
>)
    requires
        decodes_jwt(r, jwt_of(sub, exp, secret), secret),
    ensures
        r matches Some(c) && c.sub@ == sub && c.exp == exp,
{
}

/// Reads the claims back out of a token. A token that was issued over
/// some subject and expiry with this secret yields exactly those
/// claims; any other token may yield `None` or unrelated claims.
pub fn decode_token_claims(token: &str, secret: &[u8]) -> (r: Option<Claims>)
    ensures
        decodes_jwt(r, token@, secret@),
{
    jwt_decode(token, secret)
}

} // verus!
