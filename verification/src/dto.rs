//! The plain request and response shapes the transport layer exchanges with
//! the core. The transport's own copies carry the wire derives; these carry
//! the values.

use vstd::prelude::*;

verus! {

/// Credentials presented at login.
pub struct LoginRequest {
    pub username: String,
    pub password: String,
}

/// The token pair handed back at login, and presented again at logout.
pub struct TokenResponse {
    pub access_token: String,
    pub refresh_token: String,
}

/// A refresh token presented to obtain a fresh access token.
pub struct RefreshRequest {
    pub refresh_token: String,
}

/// A device registration: its display name and owning user.
pub struct RegisterDeviceRequest {
    pub name: String,
    pub user_id: u128,
}

/// A device update: a new display name, if any.
pub struct UpdateDeviceRequest {
    pub name: Option<String>,
}

/// A user registration.
pub struct CreateUserRequest {
    pub username: String,
    pub password: String,
}

/// A user update: a new username, if any.
pub struct UpdateUserRequest {
    pub username: Option<String>,
}

/// A password change: the old password to check and the new one to set.
pub struct UpdatePasswordRequest {
    pub old_password: String,
    pub new_password: String,
}

/// Where a page stands in the whole listing.
pub struct PaginationMeta {
    pub total: usize,
    pub page: u32,
    pub limit: u32,
}

/// One page of a listing, with its position.
pub struct PaginatedResponse<T> {
    pub data: Vec<T>,
    pub meta: PaginationMeta,
}

} // verus!
