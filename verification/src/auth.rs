//! Who is calling: a guest or an authenticated user, and what each may do.

use crate::api_error::{ApiError, ErrorKind};
use crate::ids::{uuid_parse, uuid_parse_str};
use crate::repositories::login_attempt::LoginAttemptRepository;
use crate::repositories::one_time_token::OneTimeTokenRepository;
use crate::repositories::role::RoleRepository;
use crate::repositories::user::UserRepository;
use crate::services::auth::AuthService;
use crate::services::jwt::{is_expired, token_claims, ClaimsView};
use crate::services::jwt::Claims;
use crate::text::list_contains;
use vstd::prelude::*;

verus! {

/// An authenticated caller: the claims of a valid access token.
#[derive(Clone, Debug)]
pub struct AuthUser(pub Claims);

/// The caller of a request.
#[derive(Clone, Debug)]
pub enum UserContext {
    /// Nobody logged in.
    Guest,
    Authenticated(AuthUser),
}

/// The caller of an endpoint that guests may use too.
#[derive(Clone, Debug)]
pub struct OptionalAuth(pub UserContext);

/// The one permission a guest has: reading published posts.
pub open spec fn guest_permission() -> Seq<char> {
    "post:read_published"@
}

/// The claims that a bearer token stands for at `now`: those of a token
/// that passes the signature, issuer and audience checks and is not
/// expired.
pub open spec fn bearer_claims(
    secret: Seq<char>,
    issuer: Seq<char>,
    audience: Seq<char>,
    bearer: Option<&str>,
    now: i64,
) -> Option<ClaimsView> {
    match bearer {
        Some(token) => match token_claims(token@, secret, issuer, audience) {
            Some(c) => if is_expired(c.exp, now) {
                None
            } else {
                Some(c)
            },
            None => None,
        },
        None => None,
    }
}

impl AuthUser {
    /// The caller of a request to an endpoint that needs a login, from
    /// the bearer token of the request, if it has one. A request without a
    /// token, or with one that is not accepted, is turned away.
    pub fn from_request_parts<
        S: UserRepository + RoleRepository + LoginAttemptRepository + OneTimeTokenRepository,
    >(bearer: Option<&str>, state: &AuthService<S>, now: i64) -> (r: Result<AuthUser, ApiError>)
        ensures
            match bearer_claims(
                state.config.jwt_secret@,
                state.config.jwt_issuer@,
                state.config.jwt_audience@,
                bearer,
                now,
            ) {
                Some(c) => r matches Ok(user) && user.0@ == c,
                None => r matches Err(e) && e.kind == ErrorKind::InvalidOrExpiredToken,
            },
    {
        match bearer {
            None => Err(ApiError::new(ErrorKind::InvalidOrExpiredToken, "需要提供Bearer token")),
            Some(token) => match state.validate_token_at(token, now) {
                Ok(claims) => Ok(AuthUser(claims)),
                Err(e) => Err(e),
            },
        }
    }

    /// The user's identifier: what the subject claim parses to, and the
    /// nil identifier where it does not parse.
    pub fn user_id(&self) -> (id: u128)
        ensures
            id == (match uuid_parse(self.0.sub@) {
                Some(v) => v,
                None => 0u128,
            }),
    {
        match uuid_parse_str(self.0.sub.as_str()) {
            Some(v) => v,
            None => 0,
        }
    }

    /// The name of the user.
    pub fn username(&self) -> (name: String)
        ensures
            name@ == self.0.username@,
    {
        self.0.username.clone()
    }

    /// Passes exactly when the permission is among the token's permissions.
    pub fn require_permission(&self, permission: &str) -> (r: Result<(), ApiError>)
        ensures
            match r {
                Ok(_) => self.0@.permissions.contains(permission@),
                Err(e) => !self.0@.permissions.contains(permission@) && e.kind
                    == ErrorKind::Forbidden && e.message@ == "权限不足"@,
            },
    {
        if list_contains(&self.0.permissions, permission) {
            Ok(())
        } else {
            Err(ApiError::new(ErrorKind::Forbidden, "权限不足"))
        }
    }
}

impl UserContext {
    /// Whether the caller has a permission: a guest only the one to read
    /// published posts, an authenticated user those of the token.
    pub open spec fn grants(&self, permission: Seq<char>) -> bool {
        match self {
            UserContext::Guest => permission == guest_permission(),
            UserContext::Authenticated(user) => user.0@.permissions.contains(permission),
        }
    }

    /// Whether the caller has a permission.
    pub fn has_permission(&self, permission: &str) -> (r: bool)
        ensures
            r == self.grants(permission@),
    {
        match self {
            UserContext::Guest => crate::text::text_eq(permission, "post:read_published"),
            UserContext::Authenticated(user) => list_contains(&user.0.permissions, permission),
        }
    }

    /// Passes exactly when the caller has the permission. A guest who has
    /// not is unauthenticated; a user who has not is forbidden.
    pub fn require_permission(&self, permission: &str) -> (r: Result<(), ApiError>)
        ensures
            match r {
                Ok(_) => self.grants(permission@),
                Err(e) => !self.grants(permission@) && e.kind == (match self {
                    UserContext::Guest => ErrorKind::Unauthenticated,
                    UserContext::Authenticated(_) => ErrorKind::Forbidden,
                }) && e.message@ == (match self {
                    UserContext::Guest => "需要登录才能访问此功能"@,
                    UserContext::Authenticated(_) => "权限不足"@,
                }),
            },
    {
        if self.has_permission(permission) {
            Ok(())
        } else {
            match self {
                UserContext::Guest => Err(
                    ApiError::new(ErrorKind::Unauthenticated, "需要登录才能访问此功能"),
                ),
                UserContext::Authenticated(_) => Err(
                    ApiError::new(ErrorKind::Forbidden, "权限不足"),
                ),
            }
        }
    }

    /// The user's identifier; none for a guest.
    pub fn user_id(&self) -> (r: Option<u128>)
        ensures
            r == (match self {
                UserContext::Guest => None,
                UserContext::Authenticated(user) => Some(
                    match uuid_parse(user.0.sub@) {
                        Some(v) => v,
                        None => 0u128,
                    },
                ),
            }),
    {
        match self {
            UserContext::Guest => None,
            UserContext::Authenticated(user) => Some(user.user_id()),
        }
    }

    /// The user's name; none for a guest.
    pub fn username(&self) -> (r: Option<String>)
        ensures
            match self {
                UserContext::Guest => r is None,
                UserContext::Authenticated(user) => r matches Some(name) && name@
                    == user.0.username@,
            },
    {
        match self {
            UserContext::Guest => None,
            UserContext::Authenticated(user) => Some(user.username()),
        }
    }

    /// Whether nobody is logged in.
    pub fn is_guest(&self) -> (r: bool)
        ensures
            r == (self is Guest),
    {
        match self {
            UserContext::Guest => true,
            UserContext::Authenticated(_) => false,
        }
    }

    /// Whether a user is logged in.
    pub fn is_authenticated(&self) -> (r: bool)
        ensures
            r == (self is Authenticated),
    {
        match self {
            UserContext::Guest => false,
            UserContext::Authenticated(_) => true,
        }
    }
}

impl OptionalAuth {
    /// The caller of a request to an endpoint that guests may use: the
    /// user of an accepted bearer token, and a guest in every other case.
    pub fn from_request_parts<
        S: UserRepository + RoleRepository + LoginAttemptRepository + OneTimeTokenRepository,
    >(bearer: Option<&str>, state: &AuthService<S>, now: i64) -> (r: OptionalAuth)
        ensures
            match bearer_claims(
                state.config.jwt_secret@,
                state.config.jwt_issuer@,
                state.config.jwt_audience@,
                bearer,
                now,
            ) {
                Some(c) => r.0 matches UserContext::Authenticated(user) && user.0@ == c,
                None => r.0 is Guest,
            },
    {
        match AuthUser::from_request_parts(bearer, state, now) {
            Ok(user) => OptionalAuth(UserContext::Authenticated(user)),
            Err(_) => OptionalAuth(UserContext::Guest),
        }
    }

    /// The caller.
    pub fn context(&self) -> (c: &UserContext)
        ensures
            *c == self.0,
    {
        &self.0
    }

    /// Whether the caller has a permission.
    pub fn has_permission(&self, permission: &str) -> (r: bool)
        ensures
            r == self.0.grants(permission@),
    {
        self.0.has_permission(permission)
    }

    /// As `UserContext::require_permission`.
    pub fn require_permission(&self, permission: &str) -> (r: Result<(), ApiError>)
        ensures
            match r {
                Ok(_) => self.0.grants(permission@),
                Err(e) => !self.0.grants(permission@) && e.kind == (match self.0 {
                    UserContext::Guest => ErrorKind::Unauthenticated,
                    UserContext::Authenticated(_) => ErrorKind::Forbidden,
                }) && e.message@ == (match self.0 {
                    UserContext::Guest => "需要登录才能访问此功能"@,
                    UserContext::Authenticated(_) => "权限不足"@,
                }),
            },
    {
        self.0.require_permission(permission)
    }
}

} // verus!
