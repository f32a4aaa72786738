//! Shapes of the authentication endpoints.

use crate::models::UserPublic;
use vstd::prelude::*;

verus! {

/// A refresh token, submitted to be exchanged or to log out.
#[derive(Clone, Debug)]
pub struct RefreshTokenPayload {
    pub refresh_token: String,
}

/// Body of the response to a login.
#[derive(Clone, Debug)]
pub struct LoginResponsePayload {
    pub access_token: String,
    pub refresh_token: String,
    pub user: UserPublic,
}

/// The token of a verification link.
#[derive(Clone, Debug)]
pub struct VerifyEmailPayload {
    pub token: String,
}

/// The address for which a password reset is asked.
#[derive(Clone, Debug)]
pub struct ForgotPasswordPayload {
    pub email: String,
}

/// The token of a reset link with the new password, given twice.
#[derive(Clone, Debug)]
pub struct ResetPasswordPayload {
    pub token: String,
    pub new_password: String,
    pub confirm_password: String,
}

} // verus!
