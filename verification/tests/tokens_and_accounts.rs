use membership_registry::error::ServiceError;
use membership_registry::identity::{ResolveUserEvent, ResolveUserFlow, ResolveUserStep};
use membership_registry::idp_requests::Reply;
use membership_registry::identity::TokenFailure;
use membership_registry::jwt::{
    claim_reading, claims_from_fields, decode_with_keys, find_key_index, token_checks, token_key_id, token_result,
    ClaimField, VerificationKey,
};
use membership_registry::provisioning::{created_account, CreateAccountFlow, CreateAccountStep, IdpKind};

const SECRET: &[u8] = b"secret-key-123";
const SECRET_B64: &str = "c2VjcmV0LWtleS0xMjM";
const ISSUER: &str = "http://kc/realms/membership-registry";

fn is_v4(id: u128) -> bool {
    (id >> 76) & 0xf == 4 && (id >> 62) & 0x3 == 2
}

fn oct_key(kid: &str) -> VerificationKey {
    let text = format!("{{\"kty\":\"oct\",\"kid\":\"{}\",\"k\":\"{}\"}}", kid, SECRET_B64);
    let jwk: jsonwebtoken::jwk::Jwk = serde_json::from_str(&text).unwrap();
    VerificationKey { key_id: jwk.common.key_id.clone(), jwk }
}

fn now_secs() -> u64 {
    std::time::SystemTime::now().duration_since(std::time::UNIX_EPOCH).unwrap().as_secs()
}

fn token(kid: Option<&str>, exp: u64, iss: &str, sub: Option<serde_json::Value>) -> String {
    let mut claims = serde_json::Map::new();
    if let Some(s) = sub {
        claims.insert("sub".to_string(), s);
    }
    claims.insert("exp".to_string(), serde_json::Value::from(exp));
    claims.insert("iss".to_string(), serde_json::Value::String(iss.to_string()));
    claims.insert("email".to_string(), serde_json::Value::String("t@example.com".to_string()));
    claims.insert("given_name".to_string(), serde_json::Value::Null);
    let mut header = jsonwebtoken::Header::new(jsonwebtoken::Algorithm::HS256);
    header.kid = kid.map(|k| k.to_string());
    jsonwebtoken::encode(
        &header,
        &serde_json::Value::Object(claims),
        &jsonwebtoken::EncodingKey::from_secret(SECRET),
    )
    .unwrap()
}

fn text(s: &str) -> Option<serde_json::Value> {
    Some(serde_json::Value::String(s.to_string()))
}

#[test]
fn header_key_id_is_read() {
    let (kid, _) = token_key_id("eyJhbGciOiJSUzI1NiIsImtpZCI6ImsxIn0.e30.sig").unwrap();
    assert_eq!(kid, "k1");
    let t = token(Some("other"), now_secs() + 3600, ISSUER, text("s"));
    assert_eq!(token_key_id(&t).unwrap().0, "other");
}

#[test]
fn header_without_key_id_is_refused() {
    assert_eq!(token_key_id("eyJhbGciOiJSUzI1NiJ9.e30.sig").unwrap_err(), ServiceError::IdpError);
    assert_eq!(token_key_id("not a token").unwrap_err(), ServiceError::IdpError);
}

#[test]
fn first_key_with_the_id_is_chosen() {
    let keys = vec![oct_key("a"), oct_key("b"), oct_key("b")];
    assert_eq!(find_key_index(&keys, "b"), Some(1));
    assert_eq!(find_key_index(&keys, "a"), Some(0));
    assert_eq!(find_key_index(&keys, "c"), None);
}

#[test]
fn valid_token_gives_its_claims() {
    let t = token(Some("k1"), now_secs() + 3600, ISSUER, text("kc-user-1"));
    let (kid, alg) = token_key_id(&t).unwrap();
    let keys = vec![oct_key("k0"), oct_key("k1")];
    let claims = decode_with_keys(&t, &kid, alg, &keys, ISSUER).unwrap();
    assert_eq!(claims.sub, "kc-user-1");
    assert_eq!(claims.email, Some("t@example.com".to_string()));
    assert_eq!(claims.given_name, None);
    assert_eq!(claims.family_name, None);
}

#[test]
fn expired_token_is_token_expired() {
    let t = token(Some("k1"), now_secs() - 7200, ISSUER, text("kc-user-1"));
    let (kid, alg) = token_key_id(&t).unwrap();
    let keys = vec![oct_key("k1")];
    assert_eq!(decode_with_keys(&t, &kid, alg, &keys, ISSUER).unwrap_err(), ServiceError::TokenExpired);
}

#[test]
fn wrong_issuer_unknown_key_or_bad_subject_is_idp_error() {
    let keys = vec![oct_key("k1")];
    let t = token(Some("k1"), now_secs() + 3600, "http://elsewhere", text("s"));
    let (kid, alg) = token_key_id(&t).unwrap();
    assert_eq!(decode_with_keys(&t, &kid, alg, &keys, ISSUER).unwrap_err(), ServiceError::IdpError);
    let t = token(Some("k9"), now_secs() + 3600, ISSUER, text("s"));
    let (kid, alg) = token_key_id(&t).unwrap();
    assert_eq!(decode_with_keys(&t, &kid, alg, &keys, ISSUER).unwrap_err(), ServiceError::IdpError);
    let t = token(Some("k1"), now_secs() + 3600, ISSUER, None);
    let (kid, alg) = token_key_id(&t).unwrap();
    assert_eq!(decode_with_keys(&t, &kid, alg, &keys, ISSUER).unwrap_err(), ServiceError::IdpError);
    let t = token(Some("k1"), now_secs() + 3600, ISSUER, Some(serde_json::Value::from(5)));
    let (kid, alg) = token_key_id(&t).unwrap();
    assert_eq!(decode_with_keys(&t, &kid, alg, &keys, ISSUER).unwrap_err(), ServiceError::IdpError);
}

#[test]
fn claims_are_read_like_optional_strings() {
    let c = claims_from_fields(
        ClaimField::Text("s".to_string()),
        ClaimField::Missing,
        ClaimField::Null,
        ClaimField::Text("M".to_string()),
    )
    .unwrap();
    assert_eq!(c.sub, "s");
    assert_eq!(c.email, None);
    assert_eq!(c.given_name, None);
    assert_eq!(c.family_name, Some("M".to_string()));
    let bad = claims_from_fields(ClaimField::Text("s".to_string()), ClaimField::Other, ClaimField::Missing, ClaimField::Missing);
    assert_eq!(bad.unwrap_err(), ServiceError::IdpError);
    let bad = claims_from_fields(ClaimField::Null, ClaimField::Missing, ClaimField::Missing, ClaimField::Missing);
    assert_eq!(bad.unwrap_err(), ServiceError::IdpError);
}

#[test]
fn resolving_draws_a_random_id() {
    let f = ResolveUserFlow::begin("keycloak".to_string(), "sub".to_string());
    assert!(is_v4(f.fresh_user_id));
    let fresh = f.fresh_user_id;
    let f = f.advance(ResolveUserEvent::MappingFound(Ok(None)));
    let f = f.advance(ResolveUserEvent::MappingCreated(true));
    match f.step {
        ResolveUserStep::Done(Ok(id)) => assert_eq!(id, fresh),
        other => panic!("unexpected {:?}", other),
    }
}

#[test]
fn created_account_reads_the_answer() {
    let kc = Reply::Answered { status: 201, body: Some("http://kc/admin/realms/r/users/abc-123".to_string()) };
    assert_eq!(created_account(IdpKind::Keycloak, kc), Ok(("keycloak".to_string(), "abc-123".to_string())));
    let kc: Reply<String> = Reply::Answered { status: 201, body: None };
    assert_eq!(created_account(IdpKind::Keycloak, kc), Err(ServiceError::IdpError));
    let kc: Reply<String> = Reply::Answered { status: 409, body: None };
    assert_eq!(created_account(IdpKind::Keycloak, kc), Err(ServiceError::IdpError));
    let a0 = Reply::Answered { status: 201, body: Some("auth0|xyz".to_string()) };
    assert_eq!(created_account(IdpKind::Auth0, a0), Ok(("auth0".to_string(), "auth0|xyz".to_string())));
    let a0 = Reply::Answered { status: 201, body: Some("nobar".to_string()) };
    assert_eq!(created_account(IdpKind::Auth0, a0), Err(ServiceError::InvalidAuth0UserId));
    let a0: Reply<String> = Reply::NotSent;
    assert_eq!(created_account(IdpKind::Auth0, a0), Err(ServiceError::Auth0Error));
}

#[test]
fn account_is_mapped_to_a_fresh_id() {
    let f = CreateAccountFlow::start(IdpKind::Auth0);
    let f = f.answered(Reply::Answered { status: 201, body: Some("auth0|xyz".to_string()) });
    let drawn = match &f.step {
        CreateAccountStep::MapAccount { provider_name, provider_user_id, user_id } => {
            assert_eq!(provider_name, "auth0");
            assert_eq!(provider_user_id, "auth0|xyz");
            assert!(is_v4(*user_id));
            *user_id
        }
        other => panic!("unexpected {:?}", other),
    };
    let done = f.mapped(true);
    match done.step {
        CreateAccountStep::Done(Ok((id, provider_user_id))) => {
            assert_eq!(id, drawn);
            assert_eq!(provider_user_id, "auth0|xyz");
        }
        other => panic!("unexpected {:?}", other),
    }
}

#[test]
fn account_creation_failures() {
    let f = CreateAccountFlow::start(IdpKind::Keycloak).answered(Reply::NotSent);
    assert!(matches!(f.step, CreateAccountStep::Done(Err(ServiceError::IdpError))));
    let f = CreateAccountFlow::start(IdpKind::Keycloak)
        .answered(Reply::Answered { status: 201, body: Some("http://kc/users/u1".to_string()) });
    let f = f.mapped(false);
    assert!(matches!(f.step, CreateAccountStep::Done(Err(ServiceError::DatabaseError))));
}

#[test]
fn expired_token_with_unreadable_claims_is_idp_error() {
    let keys = vec![oct_key("k1")];
    let t = token(Some("k1"), now_secs() - 7200, ISSUER, None);
    let (kid, alg) = token_key_id(&t).unwrap();
    assert_eq!(decode_with_keys(&t, &kid, alg, &keys, ISSUER).unwrap_err(), ServiceError::IdpError);
    let t = token(Some("k1"), now_secs() - 7200, "http://elsewhere", text("s"));
    let (kid, alg) = token_key_id(&t).unwrap();
    assert_eq!(decode_with_keys(&t, &kid, alg, &keys, ISSUER).unwrap_err(), ServiceError::TokenExpired);
}

#[test]
fn names_are_not_swapped() {
    let mut claims = serde_json::Map::new();
    claims.insert("sub".to_string(), serde_json::Value::String("s".to_string()));
    claims.insert("exp".to_string(), serde_json::Value::from(now_secs() + 3600));
    claims.insert("iss".to_string(), serde_json::Value::String(ISSUER.to_string()));
    claims.insert("given_name".to_string(), serde_json::Value::String("Given".to_string()));
    claims.insert("family_name".to_string(), serde_json::Value::String("Family".to_string()));
    let mut header = jsonwebtoken::Header::new(jsonwebtoken::Algorithm::HS256);
    header.kid = Some("k1".to_string());
    let t = jsonwebtoken::encode(&header, &serde_json::Value::Object(claims), &jsonwebtoken::EncodingKey::from_secret(SECRET)).unwrap();
    let (kid, alg) = token_key_id(&t).unwrap();
    let c = decode_with_keys(&t, &kid, alg, &vec![oct_key("k1")], ISSUER).unwrap();
    assert_eq!(c.given_name, Some("Given".to_string()));
    assert_eq!(c.family_name, Some("Family".to_string()));
    assert_eq!(c.email, None);
}

fn readable() -> Vec<ClaimField> {
    vec![
        ClaimField::Text("s".to_string()),
        ClaimField::Text("e@x.fi".to_string()),
        ClaimField::Null,
        ClaimField::Missing,
    ]
}

fn unreadable() -> Vec<ClaimField> {
    vec![ClaimField::Null, ClaimField::Missing, ClaimField::Missing, ClaimField::Missing]
}

#[test]
fn decode_settings() {
    let c = token_checks(ISSUER);
    assert_eq!(c.issuer, Some(ISSUER.to_string()));
    assert!(c.check_expiry);
    assert!(!c.check_audience);
    let r = claim_reading();
    assert_eq!(r.issuer, None);
    assert!(!r.check_expiry);
    assert!(!r.check_audience);
}

#[test]
fn token_result_judges_both_outcomes() {
    let c = token_result(Ok(readable()), None).unwrap();
    assert_eq!(c.sub, "s");
    assert_eq!(c.email, Some("e@x.fi".to_string()));
    assert_eq!(c.given_name, None);
    assert_eq!(token_result(Ok(unreadable()), None).unwrap_err(), ServiceError::IdpError);
    assert_eq!(token_result(Ok(Vec::new()), None).unwrap_err(), ServiceError::IdpError);
    assert_eq!(token_result(Err(TokenFailure::Invalid), None).unwrap_err(), ServiceError::IdpError);
    assert_eq!(
        token_result(Err(TokenFailure::Expired), Some(Ok(readable()))).unwrap_err(),
        ServiceError::TokenExpired
    );
    assert_eq!(
        token_result(Err(TokenFailure::Expired), Some(Ok(unreadable()))).unwrap_err(),
        ServiceError::IdpError
    );
    assert_eq!(
        token_result(Err(TokenFailure::Expired), Some(Err(TokenFailure::Invalid))).unwrap_err(),
        ServiceError::IdpError
    );
    assert_eq!(token_result(Err(TokenFailure::Expired), None).unwrap_err(), ServiceError::IdpError);
}
