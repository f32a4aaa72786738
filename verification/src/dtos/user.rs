//! Shapes of the profile and user-administration endpoints.

use vstd::prelude::*;

verus! {

/// What a user submits to change name or address.
#[derive(Clone, Debug)]
pub struct UpdateProfilePayload {
    pub username: Option<String>,
    pub email: Option<String>,
}

/// The current password with the new one, given twice.
#[derive(Clone, Debug)]
pub struct ChangePasswordPayload {
    pub current_password: String,
    pub new_password: String,
    pub confirm_password: String,
}

/// What an administrator submits to make a user.
#[derive(Clone, Debug)]
pub struct CreateUserPayload {
    pub username: String,
    pub email: String,
    pub password: String,
    pub confirm_password: String,
}

/// What an administrator submits to change a user.
#[derive(Clone, Debug)]
pub struct UpdateUserPayload {
    pub username: Option<String>,
    pub email: Option<String>,
    pub password: Option<String>,
    pub confirm_password: Option<String>,
}

/// A user's new password, given twice by an administrator.
#[derive(Clone, Debug)]
pub struct ResetUserPasswordPayload {
    pub new_password: String,
    pub confirm_password: String,
}

/// The counts a user sees of the own posts and of the blog.
#[derive(Clone, Copy, Debug)]
pub struct UserStatsResponse {
    pub total_posts: i64,
    pub published_posts: i64,
    pub draft_posts: i64,
    pub total_categories: i64,
    pub total_tags: i64,
}

} // verus!
