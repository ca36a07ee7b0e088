//! The error taxonomy. `ApiError` is the outward-facing error of the whole
//! service; `AuthError` is the finer-grained taxonomy of the credential
//! lifecycle and the request gate. Both render to the structured error body
//! that every failed request carries.
use vstd::prelude::*;

verus! {

/// Outward-facing service error, rendered as an HTTP status plus a body.
#[derive(Debug)]
pub enum ApiError {
    BadRequest(String),
    NotFound(String),
    InternalServerError(String),
    ValidationError(String),
}

/// The structured error body: `success` is always false, `error` carries the
/// human-readable reason and `code` repeats the HTTP status.
#[derive(Debug, Clone)]
pub struct ErrorResponse {
    pub success: bool,
    pub error: String,
    pub code: u16,
}

impl ApiError {
    pub open spec fn spec_status_code(&self) -> u16 {
        match self {
            ApiError::BadRequest(_) => 400,
            ApiError::NotFound(_) => 404,
            ApiError::InternalServerError(_) => 500,
            ApiError::ValidationError(_) => 400,
        }
    }

    pub open spec fn spec_inner_message(&self) -> Seq<char> {
        match self {
            ApiError::BadRequest(m) => m@,
            ApiError::NotFound(m) => m@,
            ApiError::InternalServerError(m) => m@,
            ApiError::ValidationError(m) => m@,
        }
    }

    /// The category prefix followed by the carried message, as the error
    /// prints itself.
    pub open spec fn spec_message(&self) -> Seq<char> {
        match self {
            ApiError::BadRequest(m) => "Bad Request: "@ + m@,
            ApiError::NotFound(m) => "Not Found: "@ + m@,
            ApiError::InternalServerError(m) => "Internal Server Error: "@ + m@,
            ApiError::ValidationError(m) => "Validation Error: "@ + m@,
        }
    }

    pub fn status_code(&self) -> (r: u16)
        ensures
            r == self.spec_status_code(),
    {
        match self {
            ApiError::BadRequest(_) => 400,
            ApiError::NotFound(_) => 404,
            ApiError::InternalServerError(_) => 500,
            ApiError::ValidationError(_) => 400,
        }
    }

    pub fn message(&self) -> (r: String)
        ensures
            r@ == self.spec_message(),
    {
        match self {
            ApiError::BadRequest(m) => String::from_str("Bad Request: ").concat(m.as_str()),
            ApiError::NotFound(m) => String::from_str("Not Found: ").concat(m.as_str()),
            ApiError::InternalServerError(m) => String::from_str("Internal Server Error: ").concat(
                m.as_str(),
            ),
            ApiError::ValidationError(m) => String::from_str("Validation Error: ").concat(
                m.as_str(),
            ),
        }
    }

    /// The structured body this error answers a request with.
    pub fn to_response(&self) -> (r: ErrorResponse)
        ensures
            r.success == false,
            r.error@ == self.spec_inner_message(),
            r.code == self.spec_status_code(),
    {
        let error: String = match self {
            ApiError::BadRequest(m) => m.clone(),
            ApiError::NotFound(m) => m.clone(),
            ApiError::InternalServerError(m) => m.clone(),
            ApiError::ValidationError(m) => m.clone(),
        };
        ErrorResponse { success: false, error, code: self.status_code() }
    }
}

/// Everything that can go wrong between a presented credential and a
/// forwarded request.
#[derive(Clone, Copy, Debug, PartialEq, Eq, Structural)]
pub enum AuthError {
    /// Unknown username or wrong password; the two are indistinguishable.
    InvalidCredentials,
    /// A token that is malformed or whose signature does not match.
    InvalidToken,
    /// A genuine token whose expiry has passed.
    TokenExpired,
    /// A protected request without an authorization header.
    MissingAuthHeader,
    /// An authorization header that is unreadable or lacks the bearer prefix.
    MalformedAuthHeader,
    /// A genuine refresh token for a principal that no longer exists.
    PrincipalNotFound,
    /// A failure in signing or encoding; a server fault.
    InternalError,
}

pub open spec fn spec_auth_status(e: AuthError) -> u16 {
    match e {
        AuthError::InvalidCredentials => 400,
        AuthError::InvalidToken => 401,
        AuthError::TokenExpired => 401,
        AuthError::MissingAuthHeader => 400,
        AuthError::MalformedAuthHeader => 400,
        AuthError::PrincipalNotFound => 401,
        AuthError::InternalError => 500,
    }
}

pub open spec fn spec_auth_message(e: AuthError) -> Seq<char> {
    match e {
        AuthError::InvalidCredentials => "Invalid credentials"@,
        AuthError::InvalidToken => "Invalid token"@,
        AuthError::TokenExpired => "Token expired"@,
        AuthError::MissingAuthHeader => "Missing authorization header"@,
        AuthError::MalformedAuthHeader => "Invalid authorization header format"@,
        AuthError::PrincipalNotFound => "User not found"@,
        AuthError::InternalError => "Internal server error"@,
    }
}

impl AuthError {
    pub fn status_code(&self) -> (r: u16)
        ensures
            r == spec_auth_status(*self),
    {
        match self {
            AuthError::InvalidCredentials => 400,
            AuthError::InvalidToken => 401,
            AuthError::TokenExpired => 401,
            AuthError::MissingAuthHeader => 400,
            AuthError::MalformedAuthHeader => 400,
            AuthError::PrincipalNotFound => 401,
            AuthError::InternalError => 500,
        }
    }

    pub fn message(&self) -> (r: String)
        ensures
            r@ == spec_auth_message(*self),
            r@.len() > 0,
    {
        proof {
            reveal_strlit("Invalid credentials");
            reveal_strlit("Invalid token");
            reveal_strlit("Token expired");
            reveal_strlit("Missing authorization header");
            reveal_strlit("Invalid authorization header format");
            reveal_strlit("User not found");
            reveal_strlit("Internal server error");
        }
        match self {
            AuthError::InvalidCredentials => String::from_str("Invalid credentials"),
            AuthError::InvalidToken => String::from_str("Invalid token"),
            AuthError::TokenExpired => String::from_str("Token expired"),
            AuthError::MissingAuthHeader => String::from_str("Missing authorization header"),
            AuthError::MalformedAuthHeader => String::from_str(
                "Invalid authorization header format",
            ),
            AuthError::PrincipalNotFound => String::from_str("User not found"),
            AuthError::InternalError => String::from_str("Internal server error"),
        }
    }

    /// The structured body a short-circuited request answers with: never a
    /// success, never an empty reason, and a status in the 400/401/500 range
    /// fixed by the taxonomy.
    pub fn to_response(&self) -> (r: ErrorResponse)
        ensures
            r.success == false,
            r.error@ == spec_auth_message(*self),
            r.error@.len() > 0,
            r.code == spec_auth_status(*self),
    {
        ErrorResponse { success: false, error: self.message(), code: self.status_code() }
    }
}

} // verus!
