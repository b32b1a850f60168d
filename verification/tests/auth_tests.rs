use optistor::auth::{
    bearer_token, cache_is_fresh, jwks_url, key_id_of, select_key, user_from_claims, AuthError,
    AuthUser, Claims, Jwk, KeyChoice, KeySet, Role, JWKS_CACHE_TTL_SECS,
};

const POINT: &str = "AAECAwQFBgcICQoLDA0ODxAREhMUFRYXGBkaGxwdHh8";

fn jwk(kid: &str, alg: &str, x: &str) -> Jwk {
    Jwk { kid: kid.to_string(), alg: alg.to_string(), x: x.to_string(), y: POINT.to_string() }
}

#[test]
fn error_messages_and_statuses() {
    assert_eq!(AuthError::MissingToken.message(), "missing or malformed Authorization header");
    assert_eq!(
        AuthError::InvalidToken("bad".into()).message(),
        "token verification failed: bad"
    );
    assert_eq!(
        AuthError::IncompleteProfile.message(),
        "user is missing required app_metadata (role/org_id)"
    );
    assert_eq!(
        AuthError::JwksFetch("down".into()).message(),
        "failed to fetch signing keys: down"
    );
    assert_eq!(AuthError::JwksFetch("x".into()).status_code(), 503);
    assert_eq!(AuthError::MissingToken.status_code(), 401);
    assert_eq!(AuthError::InvalidToken("x".into()).status_code(), 401);
    assert_eq!(AuthError::IncompleteProfile.status_code(), 401);
}

#[test]
fn bearer_token_needs_the_prefix() {
    assert_eq!(bearer_token(Some("Bearer abc.def")).unwrap(), "abc.def");
    assert_eq!(bearer_token(Some("Bearer ")).unwrap(), "");
    assert!(matches!(bearer_token(Some("bearer abc")), Err(AuthError::MissingToken)));
    assert!(matches!(bearer_token(Some("Basic abc")), Err(AuthError::MissingToken)));
    assert!(matches!(bearer_token(None), Err(AuthError::MissingToken)));
}

#[test]
fn jwks_url_strips_trailing_slashes() {
    assert_eq!(
        jwks_url("https://x.supabase.co/"),
        "https://x.supabase.co/auth/v1/.well-known/jwks.json"
    );
    assert_eq!(
        jwks_url("https://x.supabase.co//"),
        "https://x.supabase.co/auth/v1/.well-known/jwks.json"
    );
    assert_eq!(
        jwks_url("https://x.supabase.co"),
        "https://x.supabase.co/auth/v1/.well-known/jwks.json"
    );
}

#[test]
fn cache_lives_ten_minutes() {
    assert_eq!(JWKS_CACHE_TTL_SECS, 600);
    assert!(cache_is_fresh(0));
    assert!(cache_is_fresh(599_999_999_999));
    assert!(!cache_is_fresh(600_000_000_000));
}

#[test]
fn key_id_comes_from_the_header() {
    let token = "eyJhbGciOiJFUzI1NiIsImtpZCI6ImsxIiwidHlwIjoiSldUIn0.e30.c2ln";
    assert_eq!(key_id_of(token).unwrap(), "k1");
    let no_kid = "eyJhbGciOiJFUzI1NiIsInR5cCI6IkpXVCJ9.e30.c2ln";
    match key_id_of(no_kid) {
        Err(AuthError::InvalidToken(m)) => assert_eq!(m, "token has no key id"),
        other => panic!("unexpected {other:?}"),
    }
    assert!(matches!(key_id_of("not-a-token"), Err(AuthError::InvalidToken(_))));
}

#[test]
fn key_set_keeps_es256_keys_only() {
    let keys = KeySet::from_jwks(&vec![
        jwk("a", "ES256", POINT),
        jwk("b", "RS256", "!!not base64!!"),
        jwk("c", "ES256", POINT),
    ])
    .unwrap();
    assert!(keys.find("a").is_some());
    assert!(keys.find("b").is_none());
    assert!(keys.find("c").is_some());
}

#[test]
fn key_set_rejects_bad_es256_coordinates() {
    let r = KeySet::from_jwks(&vec![jwk("a", "ES256", POINT), jwk("b", "ES256", "!!")]);
    assert!(matches!(r, Err(AuthError::JwksFetch(_))));
}

#[test]
fn later_key_with_same_id_wins() {
    let keys = KeySet::from_jwks(&vec![jwk("a", "ES256", POINT), jwk("a", "ES256", POINT)]).unwrap();
    assert_eq!(keys.find("a"), Some(1));
}

#[test]
fn unknown_key_is_refreshed_once_then_refused() {
    let keys = KeySet::from_jwks(&vec![jwk("a", "ES256", POINT)]).unwrap();
    assert!(matches!(select_key(&keys, "a", false), KeyChoice::Use(0)));
    assert!(matches!(select_key(&keys, "z", false), KeyChoice::Refresh));
    match select_key(&keys, "z", true) {
        KeyChoice::Reject(AuthError::InvalidToken(m)) => assert_eq!(m, "unknown key id 'z'"),
        other => panic!("unexpected {other:?}"),
    }
}

#[test]
fn claims_map_to_roles() {
    let internal = Claims { sub: 7, role: Some("internal".into()), org_id: None };
    assert_eq!(
        user_from_claims(&internal).unwrap(),
        AuthUser { user_id: 7, role: Role::Internal, org_id: None }
    );
    let partner = Claims { sub: 8, role: Some("partner".into()), org_id: Some(3) };
    assert_eq!(
        user_from_claims(&partner).unwrap(),
        AuthUser { user_id: 8, role: Role::Partner, org_id: Some(3) }
    );
    let orphan = Claims { sub: 9, role: Some("partner".into()), org_id: None };
    assert!(matches!(user_from_claims(&orphan), Err(AuthError::IncompleteProfile)));
    let unknown = Claims { sub: 9, role: Some("admin".into()), org_id: Some(1) };
    assert!(matches!(user_from_claims(&unknown), Err(AuthError::IncompleteProfile)));
    let none = Claims { sub: 9, role: None, org_id: Some(1) };
    assert!(matches!(user_from_claims(&none), Err(AuthError::IncompleteProfile)));
}
