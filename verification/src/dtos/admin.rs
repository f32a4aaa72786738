//! Shapes of the administration endpoints.

use crate::models::Permission;
use vstd::prelude::*;

verus! {

/// What a new user submits to register.
#[derive(Clone, Debug)]
pub struct UserRegistrationPayload {
    pub username: String,
    pub email: String,
    /// The password in clear, as submitted; only its hash is ever stored.
    pub password: String,
}

/// What a user submits to log in.
#[derive(Clone, Debug)]
pub struct UserLoginPayload {
    pub username: String,
    pub password: String,
}

/// What an administrator submits to make a role.
#[derive(Clone, Debug)]
pub struct CreateRolePayload {
    pub name: String,
    pub description: Option<String>,
}

/// What an administrator submits to change a role.
#[derive(Clone, Debug)]
pub struct UpdateRolePayload {
    pub name: Option<String>,
    pub description: Option<String>,
}

/// What an administrator submits to make a permission.
#[derive(Clone, Debug)]
pub struct CreatePermissionPayload {
    pub name: String,
    pub description: Option<String>,
}

/// What an administrator submits to change a permission.
#[derive(Clone, Debug)]
pub struct UpdatePermissionPayload {
    pub name: Option<String>,
    pub description: Option<String>,
}

/// The roles a user is to hold; an empty list clears them.
#[derive(Clone, Debug)]
pub struct SetUserRolesPayload {
    pub role_ids: Vec<u128>,
}

/// The permissions a role is to grant.
#[derive(Clone, Debug)]
pub struct SetRolePermissionsPayload {
    pub permission_ids: Vec<u128>,
}

/// A role with the permissions it grants.
#[derive(Clone, Debug)]
pub struct RoleWithPermissions {
    pub id: u128,
    pub name: String,
    pub description: Option<String>,
    pub created_at: i64,
    pub updated_at: i64,
    pub permissions: Vec<Permission>,
}

/// The counts on the dashboard of an administrator.
#[derive(Clone, Copy, Debug)]
pub struct DashboardStats {
    pub total_posts: i64,
    pub published_posts: i64,
    pub draft_posts: i64,
    pub total_categories: i64,
    pub total_tags: i64,
    pub total_users: i64,
    pub verified_users: i64,
    pub unverified_users: i64,
}

/// How many users there are, verified and not, and how many hold each role.
#[derive(Clone, Debug)]
pub struct UserStats {
    pub total: i64,
    pub verified: i64,
    pub unverified: i64,
    pub by_role: Vec<RoleUserCount>,
}

/// How many users hold a role.
#[derive(Clone, Debug)]
pub struct RoleUserCount {
    pub role_name: String,
    pub user_count: i64,
}

} // verus!
