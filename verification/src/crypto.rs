//! The cryptographic primitives the service relies on: SHA-256, the
//! operating system's random source and HS256-signed JSON web tokens.
use rand_core::RngCore;
use sha2::Digest;
use crate::auth::Claims;
use vstd::prelude::*;

verus! {

/// The SHA-256 digest of `data`.
pub uninterp spec fn sha256_spec(data: Seq<u8>) -> Seq<u8>;

/// The compact HS256 JSON web token whose claims object is `{"sub", "role",
/// "exp"}` in that order, signed with `secret`, as `jsonwebtoken::encode`
/// writes it.
pub uninterp spec fn jwt_hs256_token(sub: Seq<char>, role: Seq<char>, exp: nat, secret: Seq<char>) -> Seq<char>;

/// Calls `sha2::Sha256::digest`. Trusted to return the SHA-256 digest of
/// `data`, which is 32 bytes long; the digest is a function of `data` alone.
#[verifier::external_body]
pub(crate) fn sha256_digest(data: &[u8]) -> (r: Vec<u8>)
    ensures
        r@ == sha256_spec(data@),
        r@.len() == 32,
{
    sha2::Sha256::digest(data).to_vec()
}

/// Calls `rand_core::OsRng::try_fill_bytes` on a 32-byte buffer. Trusted only
/// to return 32 bytes when it succeeds; which bytes, and whether the
/// operating system's source fails (reported as its error text), is left open.
#[verifier::external_body]
pub(crate) fn os_random_32() -> (r: Result<Vec<u8>, String>)
    ensures
        r matches Ok(bytes) ==> bytes@.len() == 32,
{
    let mut bytes = [0_u8; 32];
    match rand_core::OsRng.try_fill_bytes(&mut bytes) {
        Ok(()) => Ok(bytes.to_vec()),
        Err(error) => Err(error.to_string()),
    }
}

/// Calls `jsonwebtoken::encode` with the default header (HS256), the claims
/// object `{"sub": sub, "role": role, "exp": exp}` (keys in that order) and
/// the HMAC key `secret`. Trusted to succeed (with an HMAC key and an HS256
/// header the source fails only on a key of another algorithm family or a
/// claims value JSON cannot hold, neither of which occurs here) and to return
/// the token that `jwt_hs256_token` names for these arguments.
#[verifier::external_body]
pub(crate) fn jwt_encode_hs256(sub: &str, role: &str, exp: u64, secret: &str) -> (r: Result<
    String,
    String,
>)
    ensures
        r is Ok,
        r matches Ok(token) ==> token@ == jwt_hs256_token(sub@, role@, exp as nat, secret@),
{
    let mut claims = serde_json::Map::new();
    claims.insert("sub".to_owned(), serde_json::Value::from(sub));
    claims.insert("role".to_owned(), serde_json::Value::from(role));
    claims.insert("exp".to_owned(), serde_json::Value::from(exp));
    jsonwebtoken::encode(
        &jsonwebtoken::Header::default(),
        &serde_json::Value::Object(claims),
        &jsonwebtoken::EncodingKey::from_secret(secret.as_bytes()),
    ).map_err(|error| error.to_string())
}

/// How many `.` characters `s` holds.
pub open spec fn dot_count(s: Seq<char>) -> nat
    decreases s.len(),
{
    if s.len() == 0 {
        0
    } else {
        (if s.last() == '.' {
            1nat
        } else {
            0nat
        }) + dot_count(s.drop_last())
    }
}

/// Calls `jsonwebtoken::decode` with the HMAC key `secret` and the default
/// validation (HS256, a required `exp` that has not passed, with the crate's
/// leeway), and reads the string claims `sub` and `role` and the unsigned
/// claim `exp` of the payload. Trusted for two facts the source shows: a
/// token with fewer than two dots is refused (the signature and then the
/// payload are split off at the last dot, and each split must find one),
/// and a token that `jwt_hs256_token` names for `secret`, when it passes,
/// yields exactly the claims it was made of. Whether a token passes is left
/// open: it depends on the clock as well as on the token and the key.
#[verifier::external_body]
pub(crate) fn jwt_decode_hs256(token: &str, secret: &str) -> (r: Option<Claims>)
    ensures
        dot_count(token@) < 2 ==> r is None,
        forall|sub: Seq<char>, role: Seq<char>, exp: nat|
            #![trigger jwt_hs256_token(sub, role, exp, secret@)]
            exp <= u64::MAX && token@ == jwt_hs256_token(sub, role, exp, secret@) ==> (r matches Some(
                c,
            ) ==> c.sub@ == sub && c.role@ == role && c.exp == exp),
{
    let decoded = jsonwebtoken::decode::<serde_json::Value>(
        token,
        &jsonwebtoken::DecodingKey::from_secret(secret.as_bytes()),
        &jsonwebtoken::Validation::default(),
    ).ok()?;
    let claims = decoded.claims;
    Some(Claims {
        sub: claims.get("sub")?.as_str()?.to_owned(),
        role: claims.get("role")?.as_str()?.to_owned(),
        exp: claims.get("exp")?.as_u64()?,
    })
}

/// Calls `std::time::SystemTime::now` and measures it from the Unix epoch.
/// Nothing is claimed of the result: it is the clock's reading, or the text
/// of the error when the clock stands before the epoch.
#[verifier::external_body]
pub(crate) fn unix_now_seconds() -> (r: Result<u64, String>) {
    match std::time::SystemTime::now().duration_since(std::time::UNIX_EPOCH) {
        Ok(elapsed) => Ok(elapsed.as_secs()),
        Err(error) => Err(error.to_string()),
    }
}

} // verus!
