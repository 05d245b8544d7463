use vstd::prelude::*;
use vstd::string::*;

use crate::error::{AppError, FieldViolation, FieldViolationView};
use crate::token::opt_str_view;

verus! {

/// Whether `s` is an e-mail address as `validator` judges one.
pub uninterp spec fn email_valid(s: Seq<char>) -> bool;

/// Relies on `validator::ValidateEmail::validate_email` on a string slice.
#[verifier::external_body]
fn check_email(s: &str) -> (r: bool)
    ensures
        r == email_valid(s@),
{
    validator::ValidateEmail::validate_email(&s)
}

/// Whether the character count of `s` lies in `[min, max]`.
pub open spec fn length_within(s: Seq<char>, min: int, max: int) -> bool {
    min <= s.len() <= max
}

pub open spec fn violation(field: Seq<char>, code: Seq<char>) -> FieldViolationView {
    FieldViolationView { field, code, message: None }
}

fn new_violation(field: &str, code: &str) -> (r: FieldViolation)
    ensures
        r@ == violation(field@, code@),
{
    FieldViolation { field: field.to_owned(), code: code.to_owned(), message: None }
}

/// A user as listed to callers.
#[derive(Debug)]
pub struct GetUsersResponse {
    pub id: i32,
    pub email: String,
    pub name: Option<String>,
}

/// Sign-up input: an e-mail address, an optional display name of 3 to 50
/// characters, and a password of 6 to 100 characters.
#[derive(Debug)]
pub struct CreateUserPayload {
    pub email: String,
    pub name: Option<String>,
    pub password: String,
}

/// A user as returned after sign-up or lookup.
#[derive(Debug)]
pub struct CreateUserResponse {
    pub id: i32,
    pub email: String,
    pub name: Option<String>,
}

/// Login input: an e-mail address and a non-empty password.
#[derive(Debug)]
pub struct LoginUserPayload {
    pub email: String,
    pub password: String,
}

/// The access token handed out on a successful login.
#[derive(Debug)]
pub struct LoginUserResponse {
    pub token: String,
}

pub const EMAIL_CODE: &'static str = "email";

pub const LENGTH_CODE: &'static str = "length";

/// The violations of a sign-up payload, in field order.
pub open spec fn create_user_violations(email: Seq<char>, name: Option<Seq<char>>, password: Seq<char>) -> Seq<FieldViolationView> {
    let e = if email_valid(email) { Seq::empty() } else { seq![violation("email"@, EMAIL_CODE@)] };
    let n = match name {
        Some(n) => if length_within(n, 3, 50) { Seq::empty() } else { seq![violation("name"@, LENGTH_CODE@)] },
        None => Seq::empty(),
    };
    let p = if length_within(password, 6, 100) { Seq::empty() } else { seq![violation("password"@, LENGTH_CODE@)] };
    e + n + p
}

/// The violations of a login payload, in field order.
pub open spec fn login_violations(email: Seq<char>, password: Seq<char>) -> Seq<FieldViolationView> {
    let e = if email_valid(email) { Seq::empty() } else { seq![violation("email"@, EMAIL_CODE@)] };
    let p = if password.len() >= 1 { Seq::empty() } else { seq![violation("password"@, LENGTH_CODE@)] };
    e + p
}

/// `r` is `Ok` when `expected` is empty, else a validation error listing exactly `expected`.
pub open spec fn validated(r: Result<(), AppError>, expected: Seq<FieldViolationView>) -> bool {
    if expected.len() == 0 {
        r is Ok
    } else {
        r matches Err(AppError::Validation(v)) && crate::error::violations_view(v@) == expected
    }
}

impl CreateUserPayload {
    /// Checks the field rules of a sign-up payload.
    pub fn validate(&self) -> (r: Result<(), AppError>)
        ensures
            validated(r, create_user_violations(self.email@, opt_str_view(self.name), self.password@)),
    {
        let mut errs: Vec<FieldViolation> = Vec::new();
        if !check_email(self.email.as_str()) {
            errs.push(new_violation("email", EMAIL_CODE));
        }
        match &self.name {
            Some(n) => {
                let len = n.as_str().unicode_len();
                if len < 3 || len > 50 {
                    errs.push(new_violation("name", LENGTH_CODE));
                }
            },
            None => {},
        }
        let len = self.password.as_str().unicode_len();
        if len < 6 || len > 100 {
            errs.push(new_violation("password", LENGTH_CODE));
        }
        proof {
            assert(crate::error::violations_view(errs@) =~= create_user_violations(
                self.email@, opt_str_view(self.name), self.password@));
        }
        if errs.len() == 0 {
            Ok(())
        } else {
            Err(AppError::Validation(errs))
        }
    }
}

impl LoginUserPayload {
    /// Checks the field rules of a login payload.
    pub fn validate(&self) -> (r: Result<(), AppError>)
        ensures
            validated(r, login_violations(self.email@, self.password@)),
    {
        let mut errs: Vec<FieldViolation> = Vec::new();
        if !check_email(self.email.as_str()) {
            errs.push(new_violation("email", EMAIL_CODE));
        }
        if self.password.as_str().is_empty() {
            errs.push(new_violation("password", LENGTH_CODE));
        }
        proof {
            assert(crate::error::violations_view(errs@) =~= login_violations(self.email@, self.password@));
        }
        if errs.len() == 0 {
            Ok(())
        } else {
            Err(AppError::Validation(errs))
        }
    }
}

} // verus!
