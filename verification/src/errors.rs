//! The typed failures every core operation returns, and their mapping to a
//! wire-level status code and message. The transport layer turns an
//! `ErrorResponse` into whatever its protocol needs.

use vstd::prelude::*;

verus! {

/// Every way a core operation can fail. Identifiers are carried as plain
/// 128-bit values; free-form context travels in a `String` payload.
#[derive(Debug)]
pub enum AppError {
    Unauthorized(String),
    InvalidToken,
    TokenExpired,
    UserNotFound(u128),
    UserAlreadyExists(String),
    InvalidCredentials,
    DeviceNotFound(u128),
    DeviceUnauthorized(u128),
    TooManyDevices,
    ClipboardNotFound(u128),
    InvalidClipboardData(String),
    DatabaseError(String),
    ValidationError(String),
    InternalError(String),
    WebSocketConnectionError(String),
    WebSocketMessageError(String),
    BroadcastError(String),
    LockError(String),
}

/// Result type used by every core operation.
pub type AppResult<T> = Result<T, AppError>;

/// Shape of an error as the transport layer reports it.
#[derive(Debug)]
pub struct ErrorResponse {
    pub code: u16,
    pub message: String,
    pub details: Option<String>,
}

/// The HTTP-style status code of each failure kind.
pub open spec fn status_code_spec(e: AppError) -> u16 {
    match e {
        AppError::Unauthorized(_) => 401,
        AppError::InvalidToken => 401,
        AppError::TokenExpired => 401,
        AppError::UserNotFound(_) => 404,
        AppError::UserAlreadyExists(_) => 409,
        AppError::InvalidCredentials => 401,
        AppError::DeviceNotFound(_) => 404,
        AppError::DeviceUnauthorized(_) => 403,
        AppError::TooManyDevices => 429,
        AppError::ClipboardNotFound(_) => 404,
        AppError::InvalidClipboardData(_) => 400,
        AppError::DatabaseError(_) => 500,
        AppError::ValidationError(_) => 400,
        AppError::InternalError(_) => 500,
        AppError::WebSocketConnectionError(_) => 502,
        AppError::WebSocketMessageError(_) => 500,
        AppError::BroadcastError(_) => 500,
        AppError::LockError(_) => 500,
    }
}

/// The short description of each failure kind.
pub open spec fn message_spec(e: AppError) -> Seq<char> {
    match e {
        AppError::Unauthorized(_) => "Unauthorized"@,
        AppError::InvalidToken => "Invalid token"@,
        AppError::TokenExpired => "Token expired"@,
        AppError::UserNotFound(_) => "User not found"@,
        AppError::UserAlreadyExists(_) => "User already exists"@,
        AppError::InvalidCredentials => "Invalid credentials"@,
        AppError::DeviceNotFound(_) => "Device not found"@,
        AppError::DeviceUnauthorized(_) => "Device unauthorized"@,
        AppError::TooManyDevices => "Too many devices"@,
        AppError::ClipboardNotFound(_) => "Clipboard not found"@,
        AppError::InvalidClipboardData(_) => "Invalid clipboard data"@,
        AppError::DatabaseError(_) => "Database error"@,
        AppError::ValidationError(_) => "Validation error"@,
        AppError::InternalError(_) => "Internal error"@,
        AppError::WebSocketConnectionError(_) => "WebSocket connection error"@,
        AppError::WebSocketMessageError(_) => "WebSocket message error"@,
        AppError::BroadcastError(_) => "Broadcast error"@,
        AppError::LockError(_) => "Lock error"@,
    }
}

impl AppError {
    /// The status code the transport layer should answer with.
    pub fn status_code(&self) -> (c: u16)
        ensures
            c == status_code_spec(*self),
    {
        match self {
            AppError::Unauthorized(_) => 401,
            AppError::InvalidToken => 401,
            AppError::TokenExpired => 401,
            AppError::UserNotFound(_) => 404,
            AppError::UserAlreadyExists(_) => 409,
            AppError::InvalidCredentials => 401,
            AppError::DeviceNotFound(_) => 404,
            AppError::DeviceUnauthorized(_) => 403,
            AppError::TooManyDevices => 429,
            AppError::ClipboardNotFound(_) => 404,
            AppError::InvalidClipboardData(_) => 400,
            AppError::DatabaseError(_) => 500,
            AppError::ValidationError(_) => 400,
            AppError::InternalError(_) => 500,
            AppError::WebSocketConnectionError(_) => 502,
            AppError::WebSocketMessageError(_) => 500,
            AppError::BroadcastError(_) => 500,
            AppError::LockError(_) => 500,
        }
    }

    /// A short, stable description of the failure kind. Internal detail
    /// (the payload) is deliberately not echoed here.
    pub fn message(&self) -> (m: String)
        ensures
            m@ == message_spec(*self),
    {
        match self {
            AppError::Unauthorized(_) => "Unauthorized".to_owned(),
            AppError::InvalidToken => "Invalid token".to_owned(),
            AppError::TokenExpired => "Token expired".to_owned(),
            AppError::UserNotFound(_) => "User not found".to_owned(),
            AppError::UserAlreadyExists(_) => "User already exists".to_owned(),
            AppError::InvalidCredentials => "Invalid credentials".to_owned(),
            AppError::DeviceNotFound(_) => "Device not found".to_owned(),
            AppError::DeviceUnauthorized(_) => "Device unauthorized".to_owned(),
            AppError::TooManyDevices => "Too many devices".to_owned(),
            AppError::ClipboardNotFound(_) => "Clipboard not found".to_owned(),
            AppError::InvalidClipboardData(_) => "Invalid clipboard data".to_owned(),
            AppError::DatabaseError(_) => "Database error".to_owned(),
            AppError::ValidationError(_) => "Validation error".to_owned(),
            AppError::InternalError(_) => "Internal error".to_owned(),
            AppError::WebSocketConnectionError(_) => "WebSocket connection error".to_owned(),
            AppError::WebSocketMessageError(_) => "WebSocket message error".to_owned(),
            AppError::BroadcastError(_) => "Broadcast error".to_owned(),
            AppError::LockError(_) => "Lock error".to_owned(),
        }
    }

    /// The wire shape of this failure.
    pub fn error_response(&self) -> (r: ErrorResponse)
        ensures
            r.code == status_code_spec(*self),
            r.message@ == message_spec(*self),
            r.details is None,
    {
        ErrorResponse { code: self.status_code(), message: self.message(), details: None }
    }
}

} // verus!
