//! Models of authentication.

use vstd::prelude::*;

verus! {

/// What is sent to log in.
#[derive(Debug)]
pub struct LoginRequest {
    pub user_name: String,
    pub password: String,
}

/// The answer to a login.
#[derive(Debug)]
pub struct LoginResponse {
    pub token: String,
    pub expiration: Option<String>,
}

/// The answer that reports an error.
#[derive(Debug)]
pub struct ErrorResponse {
    pub error_code: Option<String>,
    pub error_message: Option<String>,
    pub error_description: Option<String>,
}

/// The credentials of a user.
#[derive(Debug, Clone)]
pub struct Credentials {
    pub username: String,
    pub password: String,
    pub certificate_path: Option<String>,
    pub certificate_password: Option<String>,
    pub subscriptions_file: Option<String>,
}

} // verus!
