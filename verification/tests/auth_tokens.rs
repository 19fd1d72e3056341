use dormtk::auth::{
    auth_user_from_claims, bearer_token, decode_token, encode_token, encode_token_at,
    encode_token_checked,
    hash_password, verify_password, AuthUser, Claims,
};
use dormtk::config::JwtConfig;
use dormtk::error::ApiErrorKind;

fn test_config() -> JwtConfig {
    JwtConfig { secret: "test-secret".to_owned(), expiration_seconds: 60 }
}

#[test]
fn token_roundtrip_returns_auth_user() {
    let config = test_config();
    let token = encode_token("user-1", "admin", &config).expect("token should encode");
    let user = decode_token(&token, &config).expect("token should decode");

    assert_eq!(
        user,
        AuthUser {
            user_id: "user-1".to_owned(),
            role: "admin".to_owned()
        }
    );
}

#[test]
fn invalid_token_is_rejected() {
    let config = test_config();

    assert!(decode_token("not-a-token", &config).is_err());
}

#[test]
fn token_at_an_instant_carries_the_expiry() {
    let config = test_config();
    let token = encode_token_at("u", "r", 4_000_000_000, &config);
    let data = jsonwebtoken::decode::<serde_json::Value>(
        &token,
        &jsonwebtoken::DecodingKey::from_secret(b"test-secret"),
        &jsonwebtoken::Validation::default(),
    )
    .expect("token decodes");
    assert_eq!(data.claims["exp"].as_u64(), Some(4_000_000_060));
    assert_eq!(data.claims["sub"].as_str(), Some("u"));
    assert_eq!(data.claims["role"].as_str(), Some("r"));
    let again = encode_token_at("u", "r", 4_000_000_000, &config);
    assert_eq!(token, again);
}

#[test]
fn token_signed_with_other_secret_is_rejected() {
    let token = encode_token("user-1", "admin", &test_config()).unwrap();
    let other = JwtConfig { secret: "other".to_owned(), expiration_seconds: 60 };
    let e = decode_token(&token, &other).unwrap_err();
    assert_eq!(e.kind, ApiErrorKind::Unauthorized);
    assert_eq!(e.message, "invalid bearer token");
}

#[test]
fn bearer_token_reads_authorization_header() {
    assert_eq!(bearer_token(Some("Bearer abc.def")).unwrap(), "abc.def");
    assert_eq!(bearer_token(Some("Bearer ")).unwrap(), "");
    let e = bearer_token(None).unwrap_err();
    assert_eq!(e.message, "missing authorization header");
    assert_eq!(e.status(), 401);
    let e = bearer_token(Some("Basic abc")).unwrap_err();
    assert_eq!(e.message, "invalid authorization scheme");
    let e = bearer_token(Some("Bearer")).unwrap_err();
    assert_eq!(e.message, "invalid authorization scheme");
    assert_eq!(e.code(), "unauthorized");
}

#[test]
fn token_claims_keep_their_order() {
    let token = encode_token_at("u", "r", 4_000_000_000, &test_config());
    let payload = token.split('.').nth(1).expect("a payload part");
    assert_eq!(payload, "eyJzdWIiOiJ1Iiwicm9sZSI6InIiLCJleHAiOjQwMDAwMDAwNjB9");
}

#[test]
fn expired_token_is_rejected() {
    let token = encode_token_at("u", "r", 1_000, &test_config());
    let e = decode_token(&token, &test_config()).unwrap_err();
    assert_eq!(e.kind, ApiErrorKind::Unauthorized);
    assert_eq!(e.message, "invalid bearer token");
}

#[test]
fn claims_make_the_user() {
    let user = auth_user_from_claims(Some(Claims {
        sub: "s".to_owned(),
        role: "admin".to_owned(),
        exp: 5,
    }))
    .unwrap();
    assert_eq!(user, AuthUser { user_id: "s".to_owned(), role: "admin".to_owned() });
    assert_eq!(auth_user_from_claims(None).unwrap_err().message, "invalid bearer token");
}

#[test]
fn passwords_are_stored_as_hex_sha256() {
    assert_eq!(
        hash_password("abc"),
        "ba7816bf8f01cfea414140de5dae2223b00361a396177a9cb410ff61f20015ad"
    );
    assert!(verify_password("abc", &hash_password("abc")));
    assert!(!verify_password("abd", &hash_password("abc")));
}

#[test]
fn issuing_refuses_an_expiry_past_64_bits() {
    let config = JwtConfig { secret: "s".to_owned(), expiration_seconds: 10 };
    let e = encode_token_checked("u", "r", u64::MAX - 5, &config).unwrap_err();
    assert_eq!((e.kind, e.message.as_str()), (ApiErrorKind::Internal, "token expiry is out of range"));
    let token = encode_token_checked("u", "r", u64::MAX - 10, &config).unwrap();
    assert_eq!(token, encode_token_at("u", "r", u64::MAX - 10, &config));
}

#[test]
fn tokens_with_fewer_than_two_dots_are_refused() {
    for token in ["", "abc", "abc.def"] {
        let e = decode_token(token, &test_config()).unwrap_err();
        assert_eq!(e.message, "invalid bearer token");
    }
}
