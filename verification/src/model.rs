//! The bodies of the password requests and of their answers.

use vstd::prelude::*;

verus! {

/// What the backend answers to a password login.
#[derive(Debug, Clone, PartialEq, Eq)]
pub struct LoginResponse {
    pub kind: String,
    pub local_id: String,
    pub email: String,
    pub display_name: String,
    pub id_token: String,
    pub refresh_token: String,
    pub expires_in: String,
    pub registered: bool,
}

/// What the backend answers to a registration.
#[derive(Debug, Clone, PartialEq, Eq)]
pub struct RegisterResponse {
    pub kind: String,
    pub local_id: String,
    pub email: String,
    pub id_token: String,
    pub refresh_token: String,
    pub expires_in: String,
}

/// The body of a password login and of a registration.
#[derive(Debug, Clone, PartialEq, Eq)]
pub struct LoginBody {
    pub email: String,
    pub password: String,
    pub return_secure_token: bool,
}

impl LoginBody {
    /// A body for `email` and `password`. It always asks for a secure token.
    pub fn new(email: String, password: String) -> (body: LoginBody)
        ensures
            body == (LoginBody { email, password, return_secure_token: true }),
    {
        LoginBody { email, password, return_secure_token: true }
    }
}

/// The body of an account-management request.
#[derive(Debug, Clone, PartialEq, Eq)]
pub struct FirebaseRequest {
    pub request_type: String,
    pub id_token: String,
}

} // verus!
