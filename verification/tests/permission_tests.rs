use blog_backend::api_error::ErrorKind;
use blog_backend::auth::{AuthUser, OptionalAuth, UserContext};
use blog_backend::config::{AppConfig, AuthConfig, DatabaseConfig, EmailConfig, ServerConfig};
use blog_backend::repositories::MemoryStore;
use blog_backend::services::jwt::{encode_claims, Claims};
use blog_backend::services::AuthService;

fn claims_with(sub: &str, permissions: &[&str]) -> Claims {
    Claims {
        sub: sub.to_string(),
        username: "alice".to_string(),
        exp: 2_000_000_000,
        jti: "jti".to_string(),
        roles: vec!["author".to_string()],
        permissions: permissions.iter().map(|p| p.to_string()).collect(),
    }
}

fn auth_service() -> AuthService<MemoryStore> {
    let config = AppConfig {
        database: DatabaseConfig { url: String::new() },
        server: ServerConfig { host: "127.0.0.1".to_string(), port: 8080 },
        auth: AuthConfig {
            jwt_secret: "test_secret".to_string(),
            jwt_issuer: "test_issuer".to_string(),
            jwt_audience: "test_audience".to_string(),
            access_token_expiry_minutes: 15,
            refresh_token_expiry_days: 7,
            max_login_failures: 5,
            lockout_duration_seconds: 900,
        },
        email: EmailConfig {
            smtp_host: "localhost".to_string(),
            smtp_port: 1025,
            smtp_user: "".to_string(),
            smtp_pass: "".to_string(),
            from_address: "test@example.com".to_string(),
        },
    };
    AuthService::new(MemoryStore::new(), &config)
}

#[test]
fn guest_may_only_read_published_posts() {
    let guest = UserContext::Guest;
    assert!(guest.has_permission("post:read_published"));
    assert!(!guest.has_permission("post:create"));
    assert!(!guest.has_permission(""));
    assert!(!guest.has_permission("post:read_published "));
    assert!(guest.require_permission("post:read_published").is_ok());
    assert!(guest.is_guest());
    assert!(!guest.is_authenticated());
    assert_eq!(guest.user_id(), None);
    assert_eq!(guest.username(), None);
}

#[test]
fn guest_without_permission_is_unauthenticated() {
    let err = UserContext::Guest.require_permission("post:create").unwrap_err();
    assert_eq!(err.kind, ErrorKind::Unauthenticated);
    assert_eq!(err.status_code(), 401);
    assert_eq!(err.message, "需要登录才能访问此功能");
}

#[test]
fn user_without_permission_is_forbidden() {
    let user = AuthUser(claims_with("550e8400-e29b-41d4-a716-446655440000", &["post:create"]));
    assert!(user.require_permission("post:create").is_ok());
    let err = user.require_permission("post:delete_any").unwrap_err();
    assert_eq!(err.kind, ErrorKind::Forbidden);
    assert_eq!(err.status_code(), 403);
    assert_eq!(err.message, "权限不足");

    let context = UserContext::Authenticated(user);
    assert!(context.has_permission("post:create"));
    assert!(!context.has_permission("post:read_published"));
    let err = context.require_permission("post:read_published").unwrap_err();
    assert_eq!(err.kind, ErrorKind::Forbidden);
    assert!(context.is_authenticated());
    assert!(!context.is_guest());
    assert_eq!(context.username(), Some("alice".to_string()));
}

#[test]
fn user_id_is_read_from_the_subject() {
    let user = AuthUser(claims_with("550e8400-e29b-41d4-a716-446655440000", &[]));
    assert_eq!(user.user_id(), 0x550e8400e29b41d4a716446655440000);
    assert_eq!(user.username(), "alice");
    let odd = AuthUser(claims_with("not-a-uuid", &[]));
    assert_eq!(odd.user_id(), 0);
    let context = UserContext::Authenticated(odd);
    assert_eq!(context.user_id(), Some(0));
}

#[test]
fn optional_auth_forwards_to_its_context() {
    let guest = OptionalAuth(UserContext::Guest);
    assert!(guest.context().is_guest());
    assert!(guest.has_permission("post:read_published"));
    assert_eq!(guest.require_permission("post:create").unwrap_err().kind, ErrorKind::Unauthenticated);
    let user = OptionalAuth(UserContext::Authenticated(AuthUser(claims_with("x", &["a", "b"]))));
    assert!(user.has_permission("b"));
    assert_eq!(user.require_permission("c").unwrap_err().kind, ErrorKind::Forbidden);
    assert!(user.require_permission("a").is_ok());
}

#[test]
fn callers_are_read_from_bearer_tokens() {
    let auth = auth_service();
    let now: i64 = 1_900_000_000;
    let token = encode_claims(
        &claims_with("550e8400-e29b-41d4-a716-446655440000", &["post:create"]),
        "test_secret",
        "test_issuer",
        "test_audience",
    ).unwrap();

    let user = AuthUser::from_request_parts(Some(&token), &auth, now).unwrap();
    assert_eq!(user.0.username, "alice");
    assert!(user.require_permission("post:create").is_ok());

    let err = AuthUser::from_request_parts(None, &auth, now).unwrap_err();
    assert_eq!(err.kind, ErrorKind::InvalidOrExpiredToken);
    assert_eq!(err.message, "需要提供Bearer token");
    let err = AuthUser::from_request_parts(Some("garbage"), &auth, now).unwrap_err();
    assert_eq!(err.kind, ErrorKind::InvalidOrExpiredToken);
    let err = AuthUser::from_request_parts(Some(&token), &auth, 2_000_000_061).unwrap_err();
    assert_eq!(err.kind, ErrorKind::InvalidOrExpiredToken);

    assert!(OptionalAuth::from_request_parts(Some(&token), &auth, now).context().is_authenticated());
    assert!(OptionalAuth::from_request_parts(None, &auth, now).context().is_guest());
    assert!(OptionalAuth::from_request_parts(Some("garbage"), &auth, now).context().is_guest());
    assert!(OptionalAuth::from_request_parts(Some(&token), &auth, 2_000_000_061).context().is_guest());
}
