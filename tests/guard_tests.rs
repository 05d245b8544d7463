use authcore::auth::{
    AuthClaims, INVALID_SCHEME_MESSAGE, MISSING_HEADER_MESSAGE, REJECTED_CREDENTIAL_MESSAGE,
};
use authcore::error::{AppError, ErrorDetails, FieldViolation};
use authcore::token::{issue_token_at, JwtConfig};

fn cfg() -> JwtConfig {
    JwtConfig {
        secret: "guard-secret".to_string(),
        issuer: "guard".to_string(),
        access_token_ttl_minutes: 5,
    }
}

fn unauthorized_message(r: Result<AuthClaims, AppError>) -> String {
    match r {
        Err(AppError::Unauthorized(m)) => m,
        Err(e) => panic!("unexpected error {:?}", e),
        Ok(a) => panic!("unexpected success {:?}", a.0),
    }
}

#[test]
fn guard_accepts_bearer_token() {
    let c = cfg();
    let token = issue_token_at(&c, 8, 1_000).unwrap();
    let header = format!("Bearer {}", token);
    let a = AuthClaims::from_authorization_at(Some(&header), &c, 1_000).unwrap();
    assert_eq!(a.0.sub, 8);
    assert_eq!(a.0.iss, "guard");
}

#[test]
fn guard_rejects_missing_header() {
    let m = unauthorized_message(AuthClaims::from_authorization_at(None, &cfg(), 1_000));
    assert_eq!(m, MISSING_HEADER_MESSAGE);
    assert_eq!(m, "Missing Authorization header");
}

#[test]
fn guard_rejects_other_scheme() {
    let c = cfg();
    let token = issue_token_at(&c, 8, 1_000).unwrap();
    for h in [format!("Basic {}", token), format!("bearer {}", token), token.clone(), "Bearer".to_string()] {
        let m = unauthorized_message(AuthClaims::from_authorization_at(Some(&h), &c, 1_000));
        assert_eq!(m, INVALID_SCHEME_MESSAGE);
    }
    assert_eq!(INVALID_SCHEME_MESSAGE, "Invalid Authorization scheme");
}

#[test]
fn guard_collapses_every_token_failure() {
    let c = cfg();
    let token = issue_token_at(&c, 8, 1_000).unwrap();
    let mut other = cfg();
    other.issuer = "elsewhere".to_string();
    let foreign = issue_token_at(&other, 8, 1_000).unwrap();
    let cases = [
        (format!("Bearer {}", token), 1_000 + 301),
        (format!("Bearer {}", foreign), 1_000),
        ("Bearer ".to_string(), 1_000),
        (format!("Bearer  {}", token), 1_000),
        (format!("Bearer {}x", token), 1_000),
    ];
    for (h, now) in cases {
        let m = unauthorized_message(AuthClaims::from_authorization_at(Some(&h), &c, now));
        assert_eq!(m, REJECTED_CREDENTIAL_MESSAGE);
        assert_eq!(m, "Invalid or expired token");
    }
}

#[test]
fn guard_with_clock_accepts_fresh_token() {
    let c = cfg();
    let token = authcore::token::create_token(&c, 12).unwrap();
    let header = format!("Bearer {}", token);
    let a = AuthClaims::from_authorization(Some(&header), &c).unwrap();
    assert_eq!(a.0.sub, 12);
}

fn violation(field: &str, code: &str) -> FieldViolation {
    FieldViolation { field: field.to_string(), code: code.to_string(), message: None }
}

#[test]
fn every_error_kind_has_its_status() {
    assert_eq!(AppError::validation(vec![]).status(), 422);
    assert_eq!(AppError::NotFound("x".to_string()).status(), 404);
    assert_eq!(AppError::Conflict("x".to_string()).status(), 409);
    assert_eq!(AppError::Unauthorized("x".to_string()).status(), 401);
    assert_eq!(AppError::Forbidden("x".to_string()).status(), 403);
    assert_eq!(AppError::internal("x".to_string()).status(), 500);
}

#[test]
fn plain_kinds_echo_message_without_details() {
    for (e, status) in [
        (AppError::NotFound("User not found".to_string()), 404),
        (AppError::Conflict("Email taken".to_string()), 409),
        (AppError::Unauthorized("Nope".to_string()), 401),
        (AppError::Forbidden("Not yours".to_string()), 403),
    ] {
        let expected = match &e {
            AppError::NotFound(m) | AppError::Conflict(m) | AppError::Unauthorized(m) | AppError::Forbidden(m) => m.clone(),
            _ => unreachable!(),
        };
        let (s, body) = e.to_response();
        assert_eq!(s, status);
        assert_eq!(body.message, expected);
        assert!(body.details.is_none());
    }
}

#[test]
fn validation_response_lists_violations() {
    let e = AppError::validation(vec![violation("email", "email"), violation("password", "length")]);
    let (s, body) = e.to_response();
    assert_eq!(s, 422);
    assert_eq!(body.message, "Payload validation failed");
    match body.details {
        Some(ErrorDetails::Fields(f)) => {
            assert_eq!(f.len(), 2);
            assert_eq!(f[0].field, "email");
            assert_eq!(f[0].code, "email");
            assert_eq!(f[1].field, "password");
            assert_eq!(f[1].code, "length");
        }
        other => panic!("unexpected {:?}", other),
    }
}

#[test]
fn internal_response_hides_cause() {
    let (s, body) = AppError::internal("db down: password=hunter2".to_string()).into_response();
    assert_eq!(s, 500);
    assert_eq!(body.message, "Internal server error");
    match body.details {
        Some(ErrorDetails::Fault(d)) => {
            assert_eq!(d, "unexpected internal fault");
            assert!(!d.contains("hunter2"));
        }
        other => panic!("unexpected {:?}", other),
    }
}
