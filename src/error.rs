use vstd::prelude::*;

verus! {

/// The error taxonomy shared by every flow; the HTTP boundary maps each
/// kind to one status code.
#[derive(Debug, Clone, PartialEq, Eq)]
pub enum AuthError {
    /// Malformed or missing input.
    Validation(String),
    /// Duplicate username or email.
    Conflict,
    /// Bad credentials, an invalid, expired or revoked token, or an
    /// invalid or expired one-time code.
    Unauthorized,
    /// An identifier that names no account.
    NotFound,
    /// A storage, hashing or signing failure.
    Internal,
}

/// The HTTP status that stands for each error kind.
pub open spec fn status_of(e: AuthError) -> u16 {
    match e {
        AuthError::Validation(_) => 400,
        AuthError::Conflict => 409,
        AuthError::Unauthorized => 401,
        AuthError::NotFound => 404,
        AuthError::Internal => 500,
    }
}

impl AuthError {
    /// The HTTP status code of this error.
    pub fn status_code(&self) -> (r: u16)
        ensures
            r == status_of(*self),
    {
        match self {
            AuthError::Validation(_) => 400,
            AuthError::Conflict => 409,
            AuthError::Unauthorized => 401,
            AuthError::NotFound => 404,
            AuthError::Internal => 500,
        }
    }
}

/// The message a client sees for an error. It depends on the kind alone,
/// never on which check failed, and carries no internal detail.
pub open spec fn message_of(e: AuthError) -> Seq<char> {
    match e {
        AuthError::Validation(m) => m@,
        AuthError::Conflict => "username or email already taken"@,
        AuthError::Unauthorized => "invalid credentials"@,
        AuthError::NotFound => "not found"@,
        AuthError::Internal => "internal error"@,
    }
}

impl AuthError {
    /// The message a client sees for this error.
    pub fn client_message(&self) -> (r: String)
        ensures
            r@ == message_of(*self),
    {
        match self {
            AuthError::Validation(m) => m.clone(),
            AuthError::Conflict => "username or email already taken".to_owned(),
            AuthError::Unauthorized => "invalid credentials".to_owned(),
            AuthError::NotFound => "not found".to_owned(),
            AuthError::Internal => "internal error".to_owned(),
        }
    }

    /// The uniform error response for this error.
    pub fn error_response(&self) -> (r: ApiResponse)
        ensures
            r.status_code == status_of(*self),
            r.body.status@ == "error"@,
            r.body.message@ == message_of(*self),
            r.body.data is None,
    {
        let message = self.client_message();
        error_response(message.as_str(), self.status_code())
    }
}

/// The body every response carries.
#[derive(Debug, Clone, PartialEq, Eq)]
pub struct Envelope {
    /// `success` or `error`.
    pub status: String,
    pub message: String,
    /// The payload as JSON text, if any.
    pub data: Option<String>,
}

/// A status code with its envelope.
#[derive(Debug, Clone, PartialEq, Eq)]
pub struct ApiResponse {
    pub status_code: u16,
    pub body: Envelope,
}

/// A success envelope around `data`.
pub fn success_response(data: Option<String>, message: &str, status_code: u16) -> (r: ApiResponse)
    ensures
        r.status_code == status_code,
        r.body.status@ == "success"@,
        r.body.message@ == message@,
        r.body.data == data,
{
    ApiResponse {
        status_code,
        body: Envelope { status: "success".to_owned(), message: message.to_owned(), data },
    }
}

/// An error envelope, with no payload.
pub fn error_response(message: &str, status_code: u16) -> (r: ApiResponse)
    ensures
        r.status_code == status_code,
        r.body.status@ == "error"@,
        r.body.message@ == message@,
        r.body.data is None,
{
    ApiResponse {
        status_code,
        body: Envelope { status: "error".to_owned(), message: message.to_owned(), data: None },
    }
}

} // verus!
