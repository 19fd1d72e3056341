//! Access tokens: issuing them, reading the bearer token of a request, and
//! the authenticated user a valid token stands for.
use crate::config::JwtConfig;
use crate::crypto::{
    dot_count, jwt_decode_hs256, jwt_encode_hs256, jwt_hs256_token, sha256_digest, sha256_spec,
    unix_now_seconds,
};
use crate::digits::{hex_encode, hex_seq};
use crate::error::{error_is, ApiError, ApiErrorKind};
use crate::text::{concat2, str_eq};
use vstd::prelude::*;

verus! {

/// The claims an access token carries: the user id, the role code and the
/// expiry instant in seconds since the Unix epoch.
#[derive(Clone, Debug)]
pub struct Claims {
    pub sub: String,
    pub role: String,
    pub exp: u64,
}

/// The user a request is made by, as its access token names it.
#[derive(Clone, Debug, PartialEq, Eq)]
pub struct AuthUser {
    pub user_id: String,
    pub role: String,
}

/// The authorization scheme prefix of a bearer token.
pub open spec fn bearer_prefix() -> Seq<char> {
    seq!['B', 'e', 'a', 'r', 'e', 'r', ' ']
}

/// The token an `Authorization` header value carries: the text after
/// `Bearer `, when the value starts with it.
pub open spec fn spec_bearer(header: Seq<char>) -> Option<Seq<char>> {
    if header.len() >= 7 && header.subrange(0, 7) == bearer_prefix() {
        Some(header.subrange(7, header.len() as int))
    } else {
        None
    }
}

/// The expiry instant of a token issued at `now_seconds` under `config`.
pub open spec fn spec_expiry(now_seconds: u64, config: JwtConfig) -> int {
    now_seconds + config.expiration_seconds
}

/// Issues the access token for `user_id` with role `role` at instant
/// `now_seconds`: HS256-signed with the configured secret, expiring
/// `expiration_seconds` later.
pub fn encode_token_at(user_id: &str, role: &str, now_seconds: u64, config: &JwtConfig) -> (r:
    String)
    requires
        now_seconds + config.expiration_seconds <= u64::MAX,
    ensures
        r@ == jwt_hs256_token(
            user_id@,
            role@,
            spec_expiry(now_seconds, *config) as nat,
            config.secret@,
        ),
        r@ == jwt_hs256_token(
            user_id@,
            role@,
            (now_seconds + config.expiration_seconds) as nat,
            config.secret@,
        ),
{
    let exp = now_seconds + config.expiration_seconds;
    match jwt_encode_hs256(user_id, role, exp, config.secret.as_str()) {
        Ok(token) => token,
        Err(_) => {
            assert(false);
            String::new()
        },
    }
}

/// `r` is the outcome of issuing a token for `user_id` and `role` at
/// `now_seconds`: the token expiring at `spec_expiry`, or the refusal when
/// that instant does not fit in 64 bits.
pub open spec fn is_checked_issue(
    user_id: Seq<char>,
    role: Seq<char>,
    now_seconds: u64,
    config: JwtConfig,
    r: Result<String, ApiError>,
) -> bool {
    match r {
        Ok(token) => spec_expiry(now_seconds, config) <= u64::MAX && token@ == jwt_hs256_token(
            user_id,
            role,
            spec_expiry(now_seconds, config) as nat,
            config.secret@,
        ),
        Err(e) => spec_expiry(now_seconds, config) > u64::MAX && error_is(
            e,
            ApiErrorKind::Internal,
            "token expiry is out of range"@,
        ),
    }
}

/// Issues the access token for `user_id` with role `role` at instant
/// `now_seconds`, or refuses when its expiry instant does not fit in 64 bits.
pub fn encode_token_checked(user_id: &str, role: &str, now_seconds: u64, config: &JwtConfig) -> (r:
    Result<String, ApiError>)
    ensures
        is_checked_issue(user_id@, role@, now_seconds, *config, r),
        r is Err <==> now_seconds + config.expiration_seconds > u64::MAX,
        r matches Ok(token) ==> token@ == jwt_hs256_token(
            user_id@,
            role@,
            (now_seconds + config.expiration_seconds) as nat,
            config.secret@,
        ),
{
    if now_seconds > u64::MAX - config.expiration_seconds {
        return Err(ApiError::internal("token expiry is out of range"));
    }
    Ok(encode_token_at(user_id, role, now_seconds, config))
}

/// `e` reports that the system clock could not be read.
pub open spec fn is_clock_error(e: ApiError) -> bool {
    e.kind == ApiErrorKind::Internal && e.message@.len() >= 19 && e.message@.subrange(0, 19)
        == "system time error: "@
}

/// Issues the access token for `user_id` with role `role`, valid from now
/// for the configured number of seconds. Whatever the clock reads, a token
/// that comes back is the one `encode_token_checked` gives for some instant,
/// and an error is either the clock failing or `encode_token_checked`
/// refusing some instant.
pub fn encode_token(user_id: &str, role: &str, config: &JwtConfig) -> (r: Result<String, ApiError>)
    ensures
        match r {
            Ok(token) => exists|now: u64|
                spec_expiry(now, *config) <= u64::MAX && token@ == jwt_hs256_token(
                    user_id@,
                    role@,
                    spec_expiry(now, *config) as nat,
                    config.secret@,
                ),
            Err(e) => is_clock_error(e) || (exists|now: u64|
                spec_expiry(now, *config) > u64::MAX) && error_is(
                e,
                ApiErrorKind::Internal,
                "token expiry is out of range"@,
            ),
        },
{
    let now = match unix_now_seconds() {
        Ok(now) => now,
        Err(reason) => {
            let message = concat2("system time error: ", reason.as_str());
            proof {
                reveal_strlit("system time error: ");
                assert(message@.subrange(0, 19) =~= "system time error: "@);
            }
            return Err(ApiError::internal(message.as_str()));
        },
    };
    encode_token_checked(user_id, role, now, config)
}

/// What decoding `token` with `secret` may give: a refusal as an invalid
/// bearer token; always a refusal for a token with fewer than two dots; and,
/// for a token that `jwt_hs256_token` names for `secret`, only the user and
/// role it was made for.
pub open spec fn decoded_with(token: Seq<char>, secret: Seq<char>, r: Result<AuthUser, ApiError>) -> bool {
    &&& (r matches Err(e) ==> error_is(e, ApiErrorKind::Unauthorized, "invalid bearer token"@))
    &&& (dot_count(token) < 2 ==> r is Err)
    &&& forall|sub: Seq<char>, role: Seq<char>, exp: nat|
        #![trigger jwt_hs256_token(sub, role, exp, secret)]
        exp <= u64::MAX && token == jwt_hs256_token(sub, role, exp, secret) ==> (r matches Ok(u)
            ==> u.user_id@ == sub && u.role@ == role)
}

/// The user an access token stands for, when its signature checks out
/// against the configured secret and it has not expired; any other token is
/// refused as an invalid bearer token. Which tokens pass depends on the
/// clock; what holds of every outcome is `decoded_with` for the token and
/// the configured secret.
pub fn decode_token(token: &str, config: &JwtConfig) -> (r: Result<AuthUser, ApiError>)
    ensures
        decoded_with(token@, config.secret@, r),
{
    let decoded = jwt_decode_hs256(token, config.secret.as_str());
    let r = auth_user_from_claims(decoded);
    proof {
        assert forall|sub: Seq<char>, role: Seq<char>, exp: nat|
            exp <= u64::MAX && token@ == jwt_hs256_token(sub, role, exp, config.secret@) implies (
            r matches Ok(u) ==> u.user_id@ == sub && u.role@ == role) by {
            if r is Ok {
                assert(decoded is Some);
                assert(jwt_hs256_token(sub, role, exp, config.secret@) == token@);
            }
        }
    }
    r
}

/// An access token issued for a user and role decodes, with the same secret
/// and while it has not expired, to exactly that user and role: whatever
/// `decode_token` answers for the token `encode_token_at` (or, at the instant
/// it read, `encode_token`) issued is either a refusal or that user.
pub proof fn lemma_issued_token_decodes_to_its_user(
    user_id: Seq<char>,
    role: Seq<char>,
    now_seconds: u64,
    config: JwtConfig,
    r: Result<AuthUser, ApiError>,
)
    requires
        spec_expiry(now_seconds, config) <= u64::MAX,
        decoded_with(
            jwt_hs256_token(user_id, role, spec_expiry(now_seconds, config) as nat, config.secret@),
            config.secret@,
            r,
        ),
    ensures
        r matches Ok(u) ==> u.user_id@ == user_id && u.role@ == role,
{
    let exp = spec_expiry(now_seconds, config) as nat;
    assert(jwt_hs256_token(user_id, role, exp, config.secret@) == jwt_hs256_token(
        user_id,
        role,
        exp,
        config.secret@,
    ));
}

/// An issued token expires exactly the configured number of seconds after
/// the instant it is issued at, for every configuration: its `exp` claim is
/// `now_seconds + expiration_seconds`, and issuing is refused only when that
/// sum does not fit in 64 bits.
pub proof fn lemma_token_lifetime_is_configured(
    user_id: Seq<char>,
    role: Seq<char>,
    now_seconds: u64,
    config: JwtConfig,
    r: Result<String, ApiError>,
)
    requires
        is_checked_issue(user_id, role, now_seconds, config, r),
    ensures
        r is Err <==> now_seconds + config.expiration_seconds > u64::MAX,
        r matches Ok(token) ==> token@ == jwt_hs256_token(
            user_id,
            role,
            (now_seconds + config.expiration_seconds) as nat,
            config.secret@,
        ),
{
}

/// The hash stored for a password: SHA-256 of its UTF-8 bytes in lower-case hex.
pub open spec fn password_hash_spec(password: Seq<char>) -> Seq<char> {
    hex_seq(sha256_spec(vstd::utf8::encode_utf8(password)))
}

/// The hash stored in place of `password`.
pub fn hash_password(password: &str) -> (r: String)
    ensures
        r@ == password_hash_spec(password@),
{
    let digest = sha256_digest(password.as_bytes());
    hex_encode(digest.as_slice())
}

/// Whether `password` is the password that `password_hash` was stored for.
pub fn verify_password(password: &str, password_hash: &str) -> (r: bool)
    ensures
        r == (password_hash_spec(password@) == password_hash@),
{
    let hash = hash_password(password);
    str_eq(hash.as_str(), password_hash)
}

/// The authenticated user that decoded claims stand for; when the token did
/// not decode (bad signature, malformed, expired), the request is refused.
pub fn auth_user_from_claims(decoded: Option<Claims>) -> (r: Result<AuthUser, ApiError>)
    ensures
        match decoded {
            Some(c) => r matches Ok(u) && u.user_id@ == c.sub@ && u.role@ == c.role@,
            None => r matches Err(e) && error_is(e, ApiErrorKind::Unauthorized, "invalid bearer token"@),
        },
{
    match decoded {
        Some(claims) => Ok(AuthUser { user_id: claims.sub, role: claims.role }),
        None => Err(ApiError::unauthorized("invalid bearer token")),
    }
}

/// The bearer token of a request, given the text of its `Authorization`
/// header (None when the header is missing or not visible ASCII).
pub fn bearer_token(header: Option<&str>) -> (r: Result<&str, ApiError>)
    ensures
        match header {
            None => r matches Err(e) && error_is(e, ApiErrorKind::Unauthorized, "missing authorization header"@),
            Some(h) => match spec_bearer(h@) {
                Some(t) => r matches Ok(token) && token@ == t,
                None => r matches Err(e) && error_is(e, ApiErrorKind::Unauthorized, "invalid authorization scheme"@),
            },
        },
{
    match header {
        None => Err(ApiError::unauthorized("missing authorization header")),
        Some(h) => {
            let prefix = "Bearer ";
            proof {
                reveal_strlit("Bearer ");
            }
            let n = h.unicode_len();
            if n < 7 {
                return Err(ApiError::unauthorized("invalid authorization scheme"));
            }
            let mut i: usize = 0;
            while i < 7
                invariant
                    header == Some(h),
                    n == h@.len(),
                    n >= 7,
                    i <= 7,
                    prefix@ == bearer_prefix(),
                    forall|j: int| 0 <= j < i ==> h@[j] == bearer_prefix()[j],
                decreases 7 - i,
            {
                if h.get_char(i) != prefix.get_char(i) {
                    assert(h@.subrange(0, 7)[i as int] != bearer_prefix()[i as int]);
                    return Err(ApiError::unauthorized("invalid authorization scheme"));
                }
                i = i + 1;
            }
            assert(h@.subrange(0, 7) =~= bearer_prefix());
            Ok(h.substring_char(7, n))
        },
    }
}

/// A header `Bearer <t>` yields exactly the token `t`.
pub proof fn lemma_bearer_roundtrip(t: Seq<char>)
    ensures
        spec_bearer(bearer_prefix() + t) == Some(t),
{
    let h = bearer_prefix() + t;
    assert(h.subrange(0, 7) =~= bearer_prefix());
    assert(h.subrange(7, h.len() as int) =~= t);
}

} // verus!
