use authcore::dto::{CreateUserPayload, LoginUserPayload};
use authcore::error::AppError;

fn fields(r: Result<(), AppError>) -> Vec<(String, String)> {
    match r {
        Ok(()) => vec![],
        Err(AppError::Validation(v)) => v.into_iter().map(|f| (f.field, f.code)).collect(),
        Err(e) => panic!("unexpected {:?}", e),
    }
}

fn signup(email: &str, name: Option<&str>, password: &str) -> CreateUserPayload {
    CreateUserPayload {
        email: email.to_string(),
        name: name.map(|n| n.to_string()),
        password: password.to_string(),
    }
}

#[test]
fn valid_signup_passes() {
    assert!(signup("ann@example.com", Some("Ann"), "secret1").validate().is_ok());
    assert!(signup("ann@example.com", None, "secret1").validate().is_ok());
}

#[test]
fn signup_violations_are_listed_in_field_order() {
    let got = fields(signup("not-an-email", Some("Al"), "short").validate());
    assert_eq!(
        got,
        vec![
            ("email".to_string(), "email".to_string()),
            ("name".to_string(), "length".to_string()),
            ("password".to_string(), "length".to_string()),
        ]
    );
}

#[test]
fn signup_length_bounds_count_characters() {
    let fifty = "é".repeat(50);
    assert!(signup("a@b.co", Some(&fifty), "secret").validate().is_ok());
    let fifty_one = "é".repeat(51);
    assert_eq!(fields(signup("a@b.co", Some(&fifty_one), "secret").validate()).len(), 1);
    assert!(signup("a@b.co", None, &"x".repeat(100)).validate().is_ok());
    assert_eq!(
        fields(signup("a@b.co", None, &"x".repeat(101)).validate()),
        vec![("password".to_string(), "length".to_string())]
    );
}

#[test]
fn login_payload_rules() {
    let ok = LoginUserPayload { email: "a@b.co".to_string(), password: "x".to_string() };
    assert!(ok.validate().is_ok());
    let bad = LoginUserPayload { email: "".to_string(), password: "".to_string() };
    assert_eq!(
        fields(bad.validate()),
        vec![
            ("email".to_string(), "email".to_string()),
            ("password".to_string(), "length".to_string()),
        ]
    );
}
