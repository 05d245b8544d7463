use authcore::auth::{authenticate_login, login, AuthClaims, REJECTED_CREDENTIAL_MESSAGE};
use authcore::error::AppError;
use authcore::password::{
    hash_password, verify_password, ARGON2_DEFAULT_HASH_LEN, ARGON2_DEFAULT_PREFIX, STAND_IN_PHC,
};
use authcore::token::{verify_token, JwtConfig};

#[test]
fn test_hash_and_verify_password() {
    let password = "secure_password";
    let hash = hash_password(password);

    assert!(verify_password(password, &hash));
    assert!(!verify_password("wrong_password", &hash));
}

#[test]
fn test_invalid_hash() {
    let password = "secure_password";
    let invalid_hash = "invalid_hash_string";
    assert!(!verify_password(password, invalid_hash));
}

#[test]
fn hashing_twice_salts_differently_and_both_verify() {
    let a = hash_password("repeat-me");
    let b = hash_password("repeat-me");
    assert_ne!(a, b);
    assert!(verify_password("repeat-me", &a));
    assert!(verify_password("repeat-me", &b));
}

#[test]
fn hash_is_self_describing_phc() {
    let h = hash_password("pw");
    assert!(h.starts_with("$argon2id$v=19$m=19456,t=2,p=1$"));
    assert!(h.starts_with(ARGON2_DEFAULT_PREFIX));
    assert_eq!(h.len(), 97);
    assert_eq!(h.len(), ARGON2_DEFAULT_HASH_LEN);
    assert_ne!(h, "pw");
}

#[test]
fn garbage_stored_hash_is_rejected() {
    assert!(!verify_password("p", "garbage-string"));
    assert!(!verify_password("p", ""));
    assert!(!verify_password("p", "$"));
    assert!(!verify_password("p", "$argon2id$v=19$m=19456,t=2,p=1$bad"));
}

#[test]
fn empty_password_round_trips() {
    let h = hash_password("");
    assert!(verify_password("", &h));
    assert!(!verify_password(" ", &h));
}

#[test]
fn login_scenario_right_and_wrong_password() {
    let stored = hash_password("secure_password");
    assert_eq!(authenticate_login("secure_password", Some((7, &stored))).unwrap(), 7);
    match authenticate_login("wrong_password", Some((7, &stored))) {
        Err(AppError::Unauthorized(m)) => assert_eq!(m, REJECTED_CREDENTIAL_MESSAGE),
        other => panic!("unexpected {:?}", other),
    }
    let cfg = JwtConfig::new("login-secret".to_string());
    match AuthClaims::from_authorization_at(Some("Bearer not-a-token"), &cfg, 0) {
        Err(AppError::Unauthorized(m)) => assert_eq!(m, REJECTED_CREDENTIAL_MESSAGE),
        other => panic!("unexpected {:?}", other.map(|a| a.0)),
    }
}

#[test]
fn unknown_account_is_rejected_like_wrong_password() {
    match authenticate_login("secure_password", None) {
        Err(AppError::Unauthorized(m)) => assert_eq!(m, REJECTED_CREDENTIAL_MESSAGE),
        other => panic!("unexpected {:?}", other),
    }
    match authenticate_login("secure_password", Some((1, "not-a-phc"))) {
        Err(AppError::Unauthorized(m)) => assert_eq!(m, REJECTED_CREDENTIAL_MESSAGE),
        other => panic!("unexpected {:?}", other),
    }
}

#[test]
fn login_issues_token_for_account_subject() {
    let cfg = JwtConfig::new("login-secret".to_string());
    let stored = hash_password("secure_password");
    let resp = login("secure_password", Some((31, &stored)), &cfg).unwrap();
    let claims = verify_token(&cfg, &resp.token).unwrap();
    assert_eq!(claims.sub, 31);
    assert_eq!(claims.iss, "my_app");
    assert_eq!(claims.exp, claims.iat + 3600);
    match login("nope", Some((31, &stored)), &cfg) {
        Err(AppError::Unauthorized(m)) => assert_eq!(m, REJECTED_CREDENTIAL_MESSAGE),
        other => panic!("unexpected {:?}", other),
    }
}

#[test]
fn login_with_invalid_lifetime_is_internal() {
    let mut cfg = JwtConfig::new("login-secret".to_string());
    cfg.access_token_ttl_minutes = 0;
    let stored = hash_password("pw");
    assert!(matches!(login("pw", Some((1, &stored)), &cfg), Err(AppError::Internal(_))));
}

#[test]
fn stand_in_hash_is_well_formed_and_rejects() {
    assert!(password_hash::PasswordHash::new(STAND_IN_PHC).is_ok());
    assert!(!verify_password("", STAND_IN_PHC));
    assert!(!verify_password("secure_password", STAND_IN_PHC));
}
