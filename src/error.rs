use vstd::prelude::*;

verus! {

/// Message of every validation failure.
pub const VALIDATION_FAILED_MESSAGE: &'static str = "Payload validation failed";

/// The only message an internal fault shows to the caller.
pub const INTERNAL_ERROR_MESSAGE: &'static str = "Internal server error";

/// The only detail an internal fault shows to the caller; the cause itself
/// stays on the server side.
pub const INTERNAL_ERROR_DETAIL: &'static str = "unexpected internal fault";

/// One violated rule of one input field.
#[derive(Debug)]
pub struct FieldViolation {
    pub field: String,
    pub code: String,
    pub message: Option<String>,
}

pub struct FieldViolationView {
    pub field: Seq<char>,
    pub code: Seq<char>,
    pub message: Option<Seq<char>>,
}

impl View for FieldViolation {
    type V = FieldViolationView;

    open spec fn view(&self) -> FieldViolationView {
        FieldViolationView {
            field: self.field@,
            code: self.code@,
            message: crate::token::opt_str_view(self.message),
        }
    }
}

pub open spec fn violations_view(v: Seq<FieldViolation>) -> Seq<FieldViolationView> {
    v.map_values(|f: FieldViolation| f@)
}

impl FieldViolation {
    /// An independent copy of this violation.
    pub fn duplicate(&self) -> (r: FieldViolation)
        ensures
            r@ == self@,
    {
        let message = match &self.message {
            Some(m) => Some(m.clone()),
            None => None,
        };
        FieldViolation { field: self.field.clone(), code: self.code.clone(), message }
    }
}

/// Copies a list of violations, keeping their order.
pub fn duplicate_violations(v: &Vec<FieldViolation>) -> (r: Vec<FieldViolation>)
    ensures
        violations_view(r@) == violations_view(v@),
{
    let mut out: Vec<FieldViolation> = Vec::new();
    let mut i: usize = 0;
    while i < v.len()
        invariant
            i <= v.len(),
            out@.len() == i,
            forall|j: int| 0 <= j < i ==> #[trigger] out@[j]@ == v@[j]@,
        decreases v.len() - i,
    {
        out.push(v[i].duplicate());
        i = i + 1;
    }
    assert(violations_view(out@) =~= violations_view(v@));
    out
}

/// A classified failure of any operation of the library.
#[derive(Debug)]
pub enum AppError {
    /// Input shape or range violations, one entry per violated field rule.
    Validation(Vec<FieldViolation>),
    /// A referenced entity is absent.
    NotFound(String),
    /// A uniqueness or state conflict.
    Conflict(String),
    /// Missing, malformed, tampered, expired or foreign token; wrong credentials.
    Unauthorized(String),
    /// Authenticated but not permitted.
    Forbidden(String),
    /// An unexpected fault; the cause is for server-side diagnostics only and
    /// never reaches a response.
    Internal(String),
}

/// Structured detail of an error response.
#[derive(Debug)]
pub enum ErrorDetails {
    Fields(Vec<FieldViolation>),
    Fault(String),
}

/// The external shape of an error: a message and optional detail.
#[derive(Debug)]
pub struct ErrorResponse {
    pub message: String,
    pub details: Option<ErrorDetails>,
}

/// The external status of each kind of error.
pub open spec fn status_of(e: AppError) -> u16 {
    match e {
        AppError::Validation(_) => 422,
        AppError::NotFound(_) => 404,
        AppError::Conflict(_) => 409,
        AppError::Unauthorized(_) => 401,
        AppError::Forbidden(_) => 403,
        AppError::Internal(_) => 500,
    }
}

/// The message shown to the caller for each kind of error.
pub open spec fn message_of(e: AppError) -> Seq<char> {
    match e {
        AppError::Validation(_) => VALIDATION_FAILED_MESSAGE@,
        AppError::NotFound(m) => m@,
        AppError::Conflict(m) => m@,
        AppError::Unauthorized(m) => m@,
        AppError::Forbidden(m) => m@,
        AppError::Internal(_) => INTERNAL_ERROR_MESSAGE@,
    }
}

/// The response for `e`: its status, its message, and detail only for
/// validation failures (the violations) and internal faults (a fixed,
/// non-sensitive detail that never includes the cause).
pub open spec fn response_matches(e: AppError, r: (u16, ErrorResponse)) -> bool {
    &&& r.0 == status_of(e)
    &&& r.1.message@ == message_of(e)
    &&& match e {
        AppError::Validation(v) => r.1.details matches Some(ErrorDetails::Fields(f))
            && violations_view(f@) == violations_view(v@),
        AppError::Internal(_) => r.1.details matches Some(ErrorDetails::Fault(d)) && d@ == INTERNAL_ERROR_DETAIL@,
        _ => r.1.details is None,
    }
}

impl AppError {
    pub fn validation(errs: Vec<FieldViolation>) -> (r: AppError)
        ensures
            r == AppError::Validation(errs),
    {
        AppError::Validation(errs)
    }

    pub fn internal(cause: String) -> (r: AppError)
        ensures
            r == AppError::Internal(cause),
    {
        AppError::Internal(cause)
    }

    /// The external status of this error.
    pub fn status(&self) -> (r: u16)
        ensures
            r == status_of(*self),
    {
        match self {
            AppError::Validation(_) => 422,
            AppError::NotFound(_) => 404,
            AppError::Conflict(_) => 409,
            AppError::Unauthorized(_) => 401,
            AppError::Forbidden(_) => 403,
            AppError::Internal(_) => 500,
        }
    }

    /// Maps this error to its status and response body.
    pub fn to_response(&self) -> (r: (u16, ErrorResponse))
        ensures
            response_matches(*self, r),
    {
        let status = self.status();
        let body = match self {
            AppError::Validation(errs) => ErrorResponse {
                message: VALIDATION_FAILED_MESSAGE.to_owned(),
                details: Some(ErrorDetails::Fields(duplicate_violations(errs))),
            },
            AppError::NotFound(m) => ErrorResponse { message: m.clone(), details: None },
            AppError::Conflict(m) => ErrorResponse { message: m.clone(), details: None },
            AppError::Unauthorized(m) => ErrorResponse { message: m.clone(), details: None },
            AppError::Forbidden(m) => ErrorResponse { message: m.clone(), details: None },
            AppError::Internal(_) => ErrorResponse {
                message: INTERNAL_ERROR_MESSAGE.to_owned(),
                details: Some(ErrorDetails::Fault(INTERNAL_ERROR_DETAIL.to_owned())),
            },
        };
        (status, body)
    }

    /// Consumes this error into its status and response body.
    pub fn into_response(self) -> (r: (u16, ErrorResponse))
        ensures
            response_matches(self, r),
    {
        self.to_response()
    }
}

} // verus!
