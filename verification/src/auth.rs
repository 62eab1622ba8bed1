use vstd::prelude::*;

verus! {

/// A request to create an account: credentials as the transport hands them
/// in. Credential storage and verification live outside the core.
pub struct RegisterRequest {
    pub username: String,
    pub password: String,
}

/// A request to sign in with existing credentials.
pub struct LoginRequest {
    pub username: String,
    pub password: String,
}

} // verus!
