//! The token codec: a claims payload signed into a compact token string,
//! and the inverse.
//!
//! Signing and signature checking go through the jsonwebtoken crate with
//! the HS256 algorithm and a shared secret. The token text a given payload
//! signs to is a deterministic function of the payload and the secret; the
//! uninterpreted `token_of` names it, and every contract in the credential
//! lifecycle is stated in that name.
//!
//! `decode` accepts exactly the canonical encodings: after the signature
//! check it re-encodes the recovered payload and compares, in verified
//! code, the result with the presented token. Acceptance of a string that
//! is not the encoding of the returned claims is therefore ruled out by
//! proof, not by trust; what remains trusted is that genuine tokens pass,
//! and that the underlying MAC is collision-free, as any use of a MAC
//! takes for granted.
use crate::models::auth::Claims;
use crate::text::str_eq;
use jsonwebtoken::decode as raw_decode;
use jsonwebtoken::{Algorithm, DecodingKey, EncodingKey, Header, Validation};
use serde_json::Value;
use vstd::prelude::*;

verus! {

/// The token string that signing a `(sub, iat, exp, role)` payload under a
/// secret produces: base64 of a fixed header, base64 of the payload, and an
/// HS256 tag over both — a deterministic function of its arguments.
pub uninterp spec fn token_of(
    sub: Seq<char>,
    iat: int,
    exp: int,
    role: Seq<char>,
    secret: Seq<char>,
) -> Seq<char>;

/// `t` is the encoding of exactly this payload under this secret: no other
/// payload signs to the same string. The payload sits verbatim (base64) in
/// the token, so distinct payloads give distinct tokens.
pub open spec fn spec_sole_encoding(
    t: Seq<char>,
    sub: Seq<char>,
    iat: int,
    exp: int,
    role: Seq<char>,
    secret: Seq<char>,
) -> bool {
    &&& t == token_of(sub, iat, exp, role, secret)
    &&& forall|sub2: Seq<char>, iat2: int, exp2: int, role2: Seq<char>|
        (i64::MIN <= iat2 <= i64::MAX && i64::MIN <= exp2 <= i64::MAX && t == #[trigger] token_of(
            sub2,
            iat2,
            exp2,
            role2,
            secret,
        )) ==> sub2 == sub && iat2 == iat && exp2 == exp && role2 == role
}

/// Some payload with `i64` timestamps encodes to `t` under this secret.
pub open spec fn spec_genuine(t: Seq<char>, secret: Seq<char>) -> bool {
    exists|sub: Seq<char>, iat: int, exp: int, role: Seq<char>|
        i64::MIN <= iat <= i64::MAX && i64::MIN <= exp <= i64::MAX && t == #[trigger] token_of(
            sub,
            iat,
            exp,
            role,
            secret,
        )
}

/// Structural corruption or a signature mismatch; the one way `decode`
/// fails.
#[derive(Clone, Copy, Debug, PartialEq, Eq, Structural)]
pub struct DecodeError;

/// Relies on jsonwebtoken's `encode` with the default header (HS256). The
/// payload is serialized in a fixed four-field shape and embedded verbatim
/// in the token, so the result is the one encoding of these fields under
/// this secret. For HS256 and a JSON-object payload, signing cannot fail.
#[verifier::external_body]
fn jwt_encode(sub: &str, iat: i64, exp: i64, role: &str, secret: &str) -> (r: String)
    ensures
        spec_sole_encoding(r@, sub@, iat as int, exp as int, role@, secret@),
{
    let mut payload = serde_json::Map::new();
    payload.insert("sub".to_string(), Value::from(sub));
    payload.insert("iat".to_string(), Value::from(iat));
    payload.insert("exp".to_string(), Value::from(exp));
    payload.insert("role".to_string(), Value::from(role));
    let key = EncodingKey::from_secret(secret.as_bytes());
    jsonwebtoken::encode(&Header::default(), &Value::Object(payload), &key)
        .expect("HS256 signing of a JSON object payload")
}

/// Relies on jsonwebtoken's `decode` with HS256, the signature check on,
/// and its expiry and required-claim checks off (they would read `exp` as
/// unsigned): a token that is the encoding of a payload under
/// the same secret passes the signature check, and the fields of that
/// payload come back. Of any other input nothing is promised here; `decode`
/// below rejects it in verified code.
#[verifier::external_body]
fn jwt_decode(token: &str, secret: &str) -> (r: Result<(String, i64, i64, String), ()>)
    ensures
        r is Err ==> !spec_genuine(token@, secret@),
        r matches Ok(c) ==> forall|sub: Seq<char>, iat: int, exp: int, role: Seq<char>|
            (i64::MIN <= iat <= i64::MAX && i64::MIN <= exp <= i64::MAX && token@
                == #[trigger] token_of(sub, iat, exp, role, secret@)) ==> (c.0@ == sub && c.1 as int
                == iat && c.2 as int == exp && c.3@ == role),
{
    let mut validation = Validation::new(Algorithm::HS256);
    validation.validate_exp = false;
    validation.required_spec_claims.clear();
    let key = DecodingKey::from_secret(secret.as_bytes());
    let c = raw_decode::<Value>(token, &key, &validation).map_err(|_| ())?.claims;
    let sub = c.get("sub").and_then(Value::as_str).ok_or(())?.to_string();
    let iat = c.get("iat").and_then(Value::as_i64).ok_or(())?;
    let exp = c.get("exp").and_then(Value::as_i64).ok_or(())?;
    let role = c.get("role").and_then(Value::as_str).ok_or(())?.to_string();
    Ok((sub, iat, exp, role))
}

/// Deterministic signed serialization of a claims payload; never fails.
pub fn encode(claims: &Claims, secret: &str) -> (t: String)
    ensures
        spec_sole_encoding(
            t@,
            claims.sub@,
            claims.iat as int,
            claims.exp as int,
            claims.role@,
            secret@,
        ),
{
    jwt_encode(claims.sub.as_str(), claims.iat, claims.exp, claims.role.as_str(), secret)
}

/// The inverse of `encode`: succeeds exactly on the canonical encodings
/// under this secret, and then returns the one payload that encodes to the
/// token. Any string that is not such an encoding — malformed, signed under
/// another secret, or altered after signing — is rejected.
pub fn decode(token: &str, secret: &str) -> (r: Result<Claims, DecodeError>)
    ensures
        r matches Ok(c) ==> token@ == token_of(
            c.sub@,
            c.iat as int,
            c.exp as int,
            c.role@,
            secret@,
        ),
        forall|sub: Seq<char>, iat: int, exp: int, role: Seq<char>|
            (i64::MIN <= iat <= i64::MAX && i64::MIN <= exp <= i64::MAX && token@
                == #[trigger] token_of(sub, iat, exp, role, secret@)) ==> (r matches Ok(c) && c.sub@
                == sub && c.iat as int == iat && c.exp as int == exp && c.role@ == role),
        !spec_genuine(token@, secret@) ==> r is Err,
{
    let raw: (String, i64, i64, String) = match jwt_decode(token, secret) {
        Ok(t) => t,
        Err(_) => {
            return Err(DecodeError);
        },
    };
    let claims = Claims { sub: raw.0, exp: raw.2, iat: raw.1, role: raw.3 };
    let canonical: String = jwt_encode(
        claims.sub.as_str(),
        claims.iat,
        claims.exp,
        claims.role.as_str(),
        secret,
    );
    if str_eq(canonical.as_str(), token) {
        Ok(claims)
    } else {
        Err(DecodeError)
    }
}

/// Law: decoding a token freshly encoded from a claims value, under the
/// same secret, always succeeds and gives the claims value back.
pub fn encode_decode_round_trip(claims: &Claims, secret: &str) -> (r: Result<Claims, DecodeError>)
    ensures
        r matches Ok(c) && c.sub@ == claims.sub@ && c.iat == claims.iat && c.exp == claims.exp
            && c.role@ == claims.role@,
{
    let t: String = encode(claims, secret);
    decode(t.as_str(), secret)
}

} // verus!
