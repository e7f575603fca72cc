//! Error taxonomy shared by every component: a message plus the HTTP status
//! it maps to. Raw internal failure text must never reach a client, so the
//! one constructor for internal failures fixes a generic message.
use vstd::prelude::*;

verus! {

/// HTTP status for malformed input.
pub const STATUS_BAD_REQUEST: u16 = 400;

/// HTTP status for a missing, malformed, invalid or expired token.
pub const STATUS_UNAUTHORIZED: u16 = 401;

/// HTTP status for a valid identity with insufficient permission.
pub const STATUS_FORBIDDEN: u16 = 403;

/// HTTP status for an absent identity or resource.
pub const STATUS_NOT_FOUND: u16 = 404;

/// HTTP status for a uniqueness violation.
pub const STATUS_CONFLICT: u16 = 409;

/// HTTP status for a persistence or crypto failure.
pub const STATUS_INTERNAL: u16 = 500;

/// An error as surfaced to the transport layer: one human-readable message
/// and the status code it maps to.
pub struct AppError {
    pub message: String,
    pub status_code: u16,
}

impl AppError {
    /// An internal failure. The message is fixed and generic: details of
    /// persistence or crypto failures go to the operational log stream only,
    /// never to the client.
    pub fn internal() -> (r: AppError)
        ensures
            r.status_code == STATUS_INTERNAL,
            r.message@ == "Internal server error"@,
    {
        AppError { message: String::from_str("Internal server error"), status_code: STATUS_INTERNAL }
    }
}

/// A plain success message payload.
pub struct MessageResponse {
    pub message: String,
}

/// The client-visible error payload: a single message field.
pub struct ErrorResponse {
    pub message: String,
}

impl ErrorResponse {
    /// Builds the client-visible payload for an error; only the message
    /// crosses over, nothing else an error may carry internally.
    pub fn of(err: &AppError) -> (r: ErrorResponse)
        ensures
            r.message@ == err.message@,
    {
        ErrorResponse { message: err.message.clone() }
    }
}

} // verus!
