use blog_backend::api_error::ErrorKind;
use blog_backend::config::{AppConfig, AuthConfig, DatabaseConfig, EmailConfig, ServerConfig};
use blog_backend::dtos::admin::{UserLoginPayload, UserRegistrationPayload};
use blog_backend::dtos::auth::ResetPasswordPayload;
use blog_backend::repositories::{
    LoginAttemptRepository, MemoryStore, OneTimeTokenRepository, PermissionRepository,
    RoleRepository, TokenType, UserRepository,
};
use blog_backend::services::token::hash_token;
use blog_backend::services::AuthService;
use blog_backend::utils::password::hash_password;

const NOW: i64 = 1_750_000_000;

fn test_config() -> AppConfig {
    AppConfig {
        database: DatabaseConfig { url: String::new() },
        server: ServerConfig { host: "127.0.0.1".to_string(), port: 8080 },
        auth: AuthConfig {
            jwt_secret: "test_secret".to_string(),
            jwt_issuer: "test_issuer".to_string(),
            jwt_audience: "test_audience".to_string(),
            access_token_expiry_minutes: 15,
            refresh_token_expiry_days: 7,
            max_login_failures: 5,
            lockout_duration_seconds: 900,
        },
        email: EmailConfig {
            smtp_host: "localhost".to_string(),
            smtp_port: 1025,
            smtp_user: "".to_string(),
            smtp_pass: "".to_string(),
            from_address: "test@example.com".to_string(),
        },
    }
}

fn store_with_roles() -> MemoryStore {
    let mut store = MemoryStore::new();
    RoleRepository::create(&mut store, 1, "author", Some("writes posts".to_string()), NOW).unwrap();
    RoleRepository::create(&mut store, 2, "editor", None, NOW).unwrap();
    PermissionRepository::create(&mut store, 10, "post:create", None, NOW).unwrap();
    PermissionRepository::create(&mut store, 11, "post:edit_own", None, NOW).unwrap();
    PermissionRepository::create(&mut store, 12, "post:edit_any", None, NOW).unwrap();
    store.assign_permissions_to_role(1, &vec![10, 11]).unwrap();
    store.assign_permissions_to_role(2, &vec![11, 12]).unwrap();
    store
}

fn service() -> AuthService<MemoryStore> {
    AuthService::new(store_with_roles(), &test_config())
}

fn registration(username: &str, email: &str, password: &str) -> UserRegistrationPayload {
    UserRegistrationPayload {
        username: username.to_string(),
        email: email.to_string(),
        password: password.to_string(),
    }
}

fn login(username: &str, password: &str) -> UserLoginPayload {
    UserLoginPayload { username: username.to_string(), password: password.to_string() }
}

#[test]
fn test_register_login_flow() {
    let mut auth = service();
    let username = "testuser_reg_login";
    let email = "reg_login@example.com";
    let password = "StrongPassword123!";

    let (public, mail) = auth.register_user(&registration(username, email, password)).unwrap();
    assert_eq!(public.username, username);
    assert_eq!(mail.to, email);

    let (tokens, user) = auth.login_user(&login(username, password)).unwrap();
    assert!(!tokens.access_token.is_empty());
    assert!(!tokens.refresh_token.is_empty());
    assert_eq!(user.username, username);
    assert_eq!(user.id, public.id);

    let clock = std::time::SystemTime::now()
        .duration_since(std::time::UNIX_EPOCH)
        .unwrap()
        .as_secs() as i64;
    let claims = auth.validate_token(&tokens.access_token).unwrap();
    assert_eq!(claims.username, username);
    assert!((claims.exp as i64 - (clock + 15 * 60)).abs() <= 5);
    assert_eq!(claims.jti.len(), 36);
    assert!(auth.validate_token(&tokens.refresh_token).is_err());

    let (other, _) = auth
        .register_user(&registration("second_user", "second@example.com", password))
        .unwrap();
    assert_ne!(other.id, public.id);
    assert!((other.created_at - clock).abs() <= 5);
}

#[test]
fn test_password_policy_failures() {
    let mut auth = service();
    let err = auth
        .register_user(&registration("testuser_policy", "policy@example.com", "Short1!"))
        .unwrap_err();
    assert_eq!(err.status_code(), 400);

    let err = auth
        .register_user(&registration("testuser_policy", "policy@example.com", "longpassword1!"))
        .unwrap_err();
    assert_eq!(err.status_code(), 400);
    assert!(auth.store.find_by_username("testuser_policy").unwrap().is_none());
}

#[test]
fn test_refresh_token_flow() {
    let mut auth = service();
    auth.register_user(&registration("testuser", "refresh@example.com", "StrongPassword123!"))
        .unwrap();
    let (initial_tokens, _) = auth.login_user(&login("testuser", "StrongPassword123!")).unwrap();
    let old_refresh_token = initial_tokens.refresh_token;

    let new_tokens = auth.refresh_access_token(&old_refresh_token).unwrap();
    assert_ne!(new_tokens.access_token, initial_tokens.access_token);
    assert_ne!(new_tokens.refresh_token, old_refresh_token);

    let err = auth.refresh_access_token(&old_refresh_token).unwrap_err();
    assert_eq!(err.status_code(), 401);
    assert_eq!(err.kind, ErrorKind::InvalidOrExpiredToken);

    assert!(auth.refresh_access_token(&new_tokens.refresh_token).is_ok());
}

#[test]
fn test_logout_flow() {
    let mut auth = service();
    auth.register_user(&registration(
        "testuser_logout",
        "logout@example.com",
        "StrongPassword123!",
    ))
    .unwrap();
    let (tokens, _) = auth.login_user(&login("testuser_logout", "StrongPassword123!")).unwrap();
    let refresh_token_to_logout = tokens.refresh_token;

    assert!(auth.logout(&refresh_token_to_logout).is_ok());

    let err = auth.refresh_access_token(&refresh_token_to_logout).unwrap_err();
    assert_eq!(err.status_code(), 401);
    assert!(auth.logout(&refresh_token_to_logout).is_ok());
}

#[test]
fn registering_alice_twice_is_a_conflict() {
    let mut auth = service();
    let hash = hash_password("Abcd1234!").unwrap();
    let (public, mail) = auth
        .register_user_with(&registration("alice", "alice@x.com", "Abcd1234!"), &hash, 77, "tok-a", NOW)
        .unwrap();
    assert_eq!(public.id, 77);
    assert_eq!(public.username, "alice");
    assert_eq!(public.email, "alice@x.com");
    assert_eq!(public.created_at, NOW);
    assert_eq!(public.roles, vec!["author".to_string()]);
    assert_eq!(mail.to, "alice@x.com");
    assert_eq!(mail.subject, "欢迎来到我的博客 - 请验证您的邮箱地址");
    assert!(mail.html_body.contains("http://localhost:3000/verify-email?token=tok-a\""));
    assert!(mail.html_body.starts_with("<p>您好, alice,</p>"));

    let stored = auth.store.find_by_username("alice").unwrap().unwrap();
    assert_eq!(stored.email_verified_at, None);
    assert_eq!(stored.hashed_password, hash);
    assert!(auth.store.has_one_time_token(&hash_token("tok-a")));
    assert!(!auth.store.has_one_time_token("tok-a"));

    let err = auth
        .register_user_with(&registration("alice", "other@x.com", "Abcd1234!"), &hash, 78, "tok-b", NOW)
        .unwrap_err();
    assert_eq!(err.kind, ErrorKind::Conflict);
    assert_eq!(err.status_code(), 409);
    assert!(!auth.store.has_one_time_token(&hash_token("tok-b")));

    let err = auth
        .register_user_with(&registration("bob", "alice@x.com", "Abcd1234!"), &hash, 79, "tok-c", NOW)
        .unwrap_err();
    assert_eq!(err.kind, ErrorKind::Conflict);
    assert!(auth.store.find_by_username("bob").unwrap().is_none());

    let err = auth
        .register_user_with(&registration("carol", "carol@x.com", "Abcd1234!"), &hash, 77, "tok-d", NOW)
        .unwrap_err();
    assert_eq!(err.kind, ErrorKind::Conflict);
}

#[test]
fn registering_without_the_default_role_is_an_internal_error() {
    let mut auth = AuthService::new(MemoryStore::new(), &test_config());
    let err = auth
        .register_user_with(&registration("alice", "alice@x.com", "Abcd1234!"), "h", 1, "t", NOW)
        .unwrap_err();
    assert_eq!(err.kind, ErrorKind::InternalError);
    assert!(auth.store.find_by_username("alice").unwrap().is_none());
}

#[test]
fn sixth_attempt_after_five_failures_is_locked_out() {
    let mut auth = service();
    let hash = hash_password("Abcd1234!").unwrap();
    auth.register_user_with(&registration("alice", "alice@x.com", "Abcd1234!"), &hash, 1, "t", NOW)
        .unwrap();

    for attempt in 0..5 {
        let err = auth
            .login_user_with(&login("alice", "Wrong1234!"), NOW + attempt, "r", "j")
            .unwrap_err();
        assert_eq!(err.kind, ErrorKind::InvalidCredentials);
        assert_eq!(err.status_code(), 401);
        assert_eq!(err.message, "用户名或密码不正确");
    }
    let record = auth.store.get_by_username("alice").unwrap().unwrap();
    assert_eq!(record.failure_count, 5);
    assert_eq!(record.lockout_expires_at, Some(NOW + 4 + 900));

    let err = auth.login_user_with(&login("alice", "Abcd1234!"), NOW + 5, "r", "j").unwrap_err();
    assert_eq!(err.kind, ErrorKind::AccountLocked { retry_after: 899 });
    assert_eq!(err.message, "账户已被锁定，请在 14 分 59 秒后重试");
    assert_eq!(auth.store.get_by_username("alice").unwrap().unwrap().failure_count, 5);

    let err = auth
        .login_user_with(&login("alice", "Abcd1234!"), NOW + 4 + 899, "r", "j")
        .unwrap_err();
    assert_eq!(err.kind, ErrorKind::AccountLocked { retry_after: 1 });

    let (tokens, _) = auth
        .login_user_with(&login("alice", "Abcd1234!"), NOW + 4 + 900, "refresh-1", "jti-1")
        .unwrap();
    assert_eq!(tokens.refresh_token, "refresh-1");
    assert!(auth.store.get_by_username("alice").unwrap().is_none());
}

#[test]
fn success_before_the_threshold_clears_the_counter() {
    let mut auth = service();
    let hash = hash_password("Abcd1234!").unwrap();
    auth.register_user_with(&registration("alice", "alice@x.com", "Abcd1234!"), &hash, 1, "t", NOW)
        .unwrap();
    for _ in 0..2 {
        auth.login_user_with(&login("alice", "Wrong1234!"), NOW, "r", "j").unwrap_err();
    }
    assert_eq!(auth.store.get_by_username("alice").unwrap().unwrap().failure_count, 2);
    auth.login_user_with(&login("alice", "Abcd1234!"), NOW, "r1", "j1").unwrap();
    assert!(auth.store.get_by_username("alice").unwrap().is_none());
    auth.login_user_with(&login("alice", "Wrong1234!"), NOW, "r", "j").unwrap_err();
    assert_eq!(auth.store.get_by_username("alice").unwrap().unwrap().failure_count, 1);
}

#[test]
fn unknown_user_and_wrong_password_look_the_same() {
    let mut auth = service();
    let hash = hash_password("Abcd1234!").unwrap();
    auth.register_user_with(&registration("alice", "alice@x.com", "Abcd1234!"), &hash, 1, "t", NOW)
        .unwrap();
    let unknown = auth.login_user_with(&login("nobody", "Abcd1234!"), NOW, "r", "j").unwrap_err();
    let wrong = auth.login_user_with(&login("alice", "Wrong1234!"), NOW, "r", "j").unwrap_err();
    assert_eq!(unknown.kind, wrong.kind);
    assert_eq!(unknown.message, wrong.message);
    assert_eq!(auth.store.get_by_username("nobody").unwrap().unwrap().failure_count, 1);
}

#[test]
fn lockout_helpers_count_and_saturate() {
    let mut auth = service();
    assert!(auth.check_lockout_status("alice", NOW).is_ok());
    auth.handle_login_failure("alice", NOW).unwrap();
    assert!(auth.check_lockout_status("alice", NOW).is_ok());
    auth.store.set_lockout("alice", NOW + 125).unwrap();
    let err = auth.check_lockout_status("alice", NOW).unwrap_err();
    assert_eq!(err.kind, ErrorKind::AccountLocked { retry_after: 125 });
    assert_eq!(err.status_code(), 423);
    assert_eq!(err.message, "账户已被锁定，请在 2 分 5 秒后重试");
    assert!(auth.check_lockout_status("alice", NOW + 125).is_ok());
    auth.handle_login_success("alice").unwrap();
    assert!(auth.store.get_by_username("alice").unwrap().is_none());
    auth.store.set_lockout("alice", NOW + 125).unwrap();
    assert!(auth.store.get_by_username("alice").unwrap().is_none());
}

#[test]
fn access_token_carries_roles_and_permissions() {
    let mut auth = service();
    let hash = hash_password("Abcd1234!").unwrap();
    auth.register_user_with(&registration("alice", "alice@x.com", "Abcd1234!"), &hash, 0x550e8400e29b41d4a716446655440000, "t", NOW)
        .unwrap();
    auth.store.assign_roles_to_user(0x550e8400e29b41d4a716446655440000, &vec![2]).unwrap();
    let (tokens, public) =
        auth.login_user_with(&login("alice", "Abcd1234!"), NOW, "refresh-1", "jti-1").unwrap();
    assert_eq!(public.roles, vec!["author".to_string(), "editor".to_string()]);

    let claims = auth.validate_token_at(&tokens.access_token, NOW).unwrap();
    assert_eq!(claims.sub, "550e8400-e29b-41d4-a716-446655440000");
    assert_eq!(claims.username, "alice");
    assert_eq!(claims.jti, "jti-1");
    assert_eq!(claims.exp as i64, NOW + 15 * 60);
    assert_eq!(claims.roles, vec!["author".to_string(), "editor".to_string()]);
    let mut permissions = claims.permissions.clone();
    permissions.sort();
    assert_eq!(
        permissions,
        vec!["post:create".to_string(), "post:edit_any".to_string(), "post:edit_own".to_string()]
    );

    assert!(auth.validate_token_at(&tokens.access_token, NOW + 15 * 60 + 60).is_ok());
    let err = auth.validate_token_at(&tokens.access_token, NOW + 15 * 60 + 61).unwrap_err();
    assert_eq!(err.kind, ErrorKind::InvalidOrExpiredToken);
    assert_eq!(err.status_code(), 401);

    let err = auth.validate_token_at("refresh-1", NOW).unwrap_err();
    assert_eq!(err.kind, ErrorKind::InvalidOrExpiredToken);

    let mut other_config = test_config();
    other_config.auth.jwt_secret = "another_secret".to_string();
    let other = AuthService::new(MemoryStore::new(), &other_config);
    assert!(other.validate_token_at(&tokens.access_token, NOW).is_err());
}

#[test]
fn refresh_rotates_and_expires() {
    let mut auth = service();
    let hash = hash_password("Abcd1234!").unwrap();
    auth.register_user_with(&registration("alice", "alice@x.com", "Abcd1234!"), &hash, 1, "t", NOW)
        .unwrap();
    auth.login_user_with(&login("alice", "Abcd1234!"), NOW, "refresh-1", "jti-1").unwrap();
    assert!(auth.store.has_refresh_token(&hash_token("refresh-1")));
    assert!(!auth.store.has_refresh_token("refresh-1"));

    let tokens = auth.refresh_access_token_with("refresh-1", NOW + 10, "refresh-2", "jti-2").unwrap();
    assert_eq!(tokens.refresh_token, "refresh-2");
    assert!(!auth.store.has_refresh_token(&hash_token("refresh-1")));
    assert!(auth.store.has_refresh_token(&hash_token("refresh-2")));

    let err = auth
        .refresh_access_token_with("refresh-1", NOW + 11, "refresh-3", "jti-3")
        .unwrap_err();
    assert_eq!(err.kind, ErrorKind::InvalidOrExpiredToken);
    assert!(!auth.store.has_refresh_token(&hash_token("refresh-3")));

    let week = 7 * 86400;
    let err = auth
        .refresh_access_token_with("refresh-2", NOW + 10 + week, "refresh-4", "jti-4")
        .unwrap_err();
    assert_eq!(err.kind, ErrorKind::InvalidOrExpiredToken);
    assert!(auth
        .refresh_access_token_with("refresh-2", NOW + 10 + week - 1, "refresh-4", "jti-4")
        .is_ok());

    let err = auth.refresh_access_token_with("never-issued", NOW, "x", "y").unwrap_err();
    assert_eq!(err.kind, ErrorKind::InvalidOrExpiredToken);
    assert_eq!(err.message, "无效的 Refresh Token");
}

#[test]
fn a_refresh_token_that_is_stored_already_is_not_issued_twice() {
    let mut auth = service();
    let hash = hash_password("Abcd1234!").unwrap();
    auth.register_user_with(&registration("alice", "alice@x.com", "Abcd1234!"), &hash, 1, "t", NOW)
        .unwrap();
    auth.login_user_with(&login("alice", "Abcd1234!"), NOW, "refresh-1", "jti-1").unwrap();
    let err = auth.login_user_with(&login("alice", "Abcd1234!"), NOW, "refresh-1", "jti-2").unwrap_err();
    assert_eq!(err.kind, ErrorKind::InternalError);
}

#[test]
fn verification_token_works_once() {
    let mut auth = service();
    let hash = hash_password("Abcd1234!").unwrap();
    auth.register_user_with(&registration("alice", "alice@x.com", "Abcd1234!"), &hash, 1, "tok-a", NOW)
        .unwrap();

    let err = auth.verify_email_at("tok-b", NOW + 1).unwrap_err();
    assert_eq!(err.kind, ErrorKind::InvalidOrExpiredToken);
    assert_eq!(auth.store.find_by_id(1).unwrap().unwrap().email_verified_at, None);

    auth.verify_email_at("tok-a", NOW + 60).unwrap();
    assert_eq!(auth.store.find_by_id(1).unwrap().unwrap().email_verified_at, Some(NOW + 60));
    assert!(!auth.store.has_one_time_token(&hash_token("tok-a")));

    let err = auth.verify_email_at("tok-a", NOW + 61).unwrap_err();
    assert_eq!(err.kind, ErrorKind::InvalidOrExpiredToken);
    assert_eq!(err.status_code(), 401);
    assert_eq!(auth.store.find_by_id(1).unwrap().unwrap().email_verified_at, Some(NOW + 60));
}

#[test]
fn verification_token_expires_after_a_day() {
    let mut auth = service();
    let hash = hash_password("Abcd1234!").unwrap();
    auth.register_user_with(&registration("alice", "alice@x.com", "Abcd1234!"), &hash, 1, "tok-a", NOW)
        .unwrap();
    let err = auth.verify_email_at("tok-a", NOW + 86400).unwrap_err();
    assert_eq!(err.kind, ErrorKind::InvalidOrExpiredToken);
    assert!(auth.store.has_one_time_token(&hash_token("tok-a")));
    auth.verify_email_at("tok-a", NOW + 86399).unwrap();
}

#[test]
fn a_token_of_one_type_is_not_taken_for_the_other() {
    let mut auth = service();
    let hash = hash_password("Abcd1234!").unwrap();
    auth.register_user_with(&registration("alice", "alice@x.com", "Abcd1234!"), &hash, 1, "tok-a", NOW)
        .unwrap();
    let payload = ResetPasswordPayload {
        token: "tok-a".to_string(),
        new_password: "Newpass123!".to_string(),
        confirm_password: "Newpass123!".to_string(),
    };
    let err = auth.reset_password_with(&payload, "h", NOW).unwrap_err();
    assert_eq!(err.kind, ErrorKind::InvalidOrExpiredToken);
    assert!(auth.store.has_one_time_token(&hash_token("tok-a")));
    assert_eq!(TokenType::EmailVerification.as_str(), "email_verification");
    assert_eq!(TokenType::PasswordReset.as_str(), "password_reset");
}

#[test]
fn reset_request_for_unknown_email_does_nothing() {
    let mut auth = service();
    let outcome = auth.request_password_reset_with("nobody@x.com", "reset-1", NOW).unwrap();
    assert!(outcome.is_none());
    assert!(!auth.store.has_one_time_token(&hash_token("reset-1")));
    let before = auth.token_counter;
    assert!(auth.request_password_reset("nobody@x.com").unwrap().is_none());
    assert_eq!(auth.token_counter, before);
}

#[test]
fn reset_request_for_a_known_address_draws_a_token() {
    let mut auth = service();
    let hash = hash_password("Abcd1234!").unwrap();
    auth.register_user_with(&registration("alice", "alice@x.com", "Abcd1234!"), &hash, 1, "t", NOW)
        .unwrap();
    let before = auth.token_counter;
    let mail = auth.request_password_reset("alice@x.com").unwrap().unwrap();
    assert_eq!(auth.token_counter, before + 1);
    assert_eq!(mail.to, "alice@x.com");
    let marker = "reset-password?token=";
    let start = mail.html_body.find(marker).unwrap() + marker.len();
    let end = start + mail.html_body[start..].find('"').unwrap();
    let token = mail.html_body[start..end].to_string();
    assert!(auth.store.has_one_time_token(&hash_token(&token)));
    assert_eq!(
        auth.consume_one_time_token_at(&token, TokenType::PasswordReset, NOW).unwrap(),
        Some(1)
    );
}

#[test]
fn password_reset_replaces_the_password_and_ends_sessions() {
    let mut auth = service();
    let hash = hash_password("Abcd1234!").unwrap();
    auth.register_user_with(&registration("alice", "alice@x.com", "Abcd1234!"), &hash, 1, "tok-a", NOW)
        .unwrap();
    auth.register_user_with(&registration("bob", "bob@x.com", "Abcd1234!"), &hash, 2, "tok-b", NOW)
        .unwrap();
    auth.login_user_with(&login("alice", "Abcd1234!"), NOW, "alice-1", "j1").unwrap();
    auth.login_user_with(&login("alice", "Abcd1234!"), NOW, "alice-2", "j2").unwrap();
    auth.login_user_with(&login("bob", "Abcd1234!"), NOW, "bob-1", "j3").unwrap();

    let mail = auth.request_password_reset_with("alice@x.com", "reset-1", NOW).unwrap().unwrap();
    assert_eq!(mail.to, "alice@x.com");
    assert_eq!(mail.subject, "密码重置请求权");
    assert!(mail.html_body.contains("http://localhost:3000/reset-password?token=reset-1\""));
    assert!(auth.store.has_one_time_token(&hash_token("reset-1")));

    let mismatch = ResetPasswordPayload {
        token: "reset-1".to_string(),
        new_password: "Newpass123!".to_string(),
        confirm_password: "Newpass124!".to_string(),
    };
    let err = auth.reset_password(&mismatch).unwrap_err();
    assert_eq!(err.kind, ErrorKind::ValidationError);
    assert_eq!(err.message, "新密码与确认密码不匹配");

    let weak = ResetPasswordPayload {
        token: "reset-1".to_string(),
        new_password: "weak".to_string(),
        confirm_password: "weak".to_string(),
    };
    let err = auth.reset_password(&weak).unwrap_err();
    assert_eq!(err.kind, ErrorKind::ValidationError);
    assert!(auth.store.has_one_time_token(&hash_token("reset-1")));

    let payload = ResetPasswordPayload {
        token: "reset-1".to_string(),
        new_password: "Newpass123!".to_string(),
        confirm_password: "Newpass123!".to_string(),
    };
    let expired = auth.reset_password_with(&payload, "h", NOW + 900).unwrap_err();
    assert_eq!(expired.kind, ErrorKind::InvalidOrExpiredToken);

    let new_hash = hash_password("Newpass123!").unwrap();
    auth.reset_password_with(&payload, &new_hash, NOW + 899).unwrap();
    let stored = auth.store.find_by_id(1).unwrap().unwrap();
    assert_eq!(stored.hashed_password, new_hash);
    assert_eq!(stored.updated_at, NOW + 899);
    assert!(!auth.store.has_refresh_token(&hash_token("alice-1")));
    assert!(!auth.store.has_refresh_token(&hash_token("alice-2")));
    assert!(auth.store.has_refresh_token(&hash_token("bob-1")));
    assert_eq!(auth.store.find_by_id(2).unwrap().unwrap().hashed_password, hash);

    let again = auth.reset_password_with(&payload, &new_hash, NOW + 899).unwrap_err();
    assert_eq!(again.kind, ErrorKind::InvalidOrExpiredToken);

    assert!(auth.login_user_with(&login("alice", "Abcd1234!"), NOW + 1000, "r", "j").is_err());
    assert!(auth.login_user_with(&login("alice", "Newpass123!"), NOW + 1000, "r9", "j9").is_ok());
}

#[test]
fn reset_through_the_clock_and_the_hasher() {
    let mut auth = service();
    auth.register_user(&registration("alice", "alice@x.com", "Abcd1234!")).unwrap();
    let mail = auth.request_password_reset("alice@x.com").unwrap().unwrap();
    let marker = "reset-password?token=";
    let start = mail.html_body.find(marker).unwrap() + marker.len();
    let end = start + mail.html_body[start..].find('"').unwrap();
    let token = mail.html_body[start..end].to_string();
    assert_eq!(token.split('-').count(), 3);
    let payload = ResetPasswordPayload {
        token,
        new_password: "Newpass123!".to_string(),
        confirm_password: "Newpass123!".to_string(),
    };
    auth.reset_password(&payload).unwrap();
    assert!(auth.login_user(&login("alice", "Newpass123!")).is_ok());
    assert_eq!(auth.reset_password(&payload).unwrap_err().kind, ErrorKind::InvalidOrExpiredToken);
}

#[test]
fn one_time_tokens_are_consumed_once_in_the_store() {
    let mut store = MemoryStore::new();
    store.store_token(5, "hash-1", TokenType::PasswordReset, NOW + 10).unwrap();
    assert!(store.store_token(6, "hash-1", TokenType::PasswordReset, NOW + 10).is_err());
    assert_eq!(store.find_and_consume_token("hash-1", TokenType::EmailVerification, NOW).unwrap(), None);
    assert_eq!(store.find_and_consume_token("hash-1", TokenType::PasswordReset, NOW + 10).unwrap(), None);
    assert_eq!(store.find_and_consume_token("hash-2", TokenType::PasswordReset, NOW).unwrap(), None);
    assert_eq!(store.find_and_consume_token("hash-1", TokenType::PasswordReset, NOW).unwrap(), Some(5));
    assert_eq!(store.find_and_consume_token("hash-1", TokenType::PasswordReset, NOW).unwrap(), None);
}

#[test]
fn failure_counter_counts_and_keeps_the_lockout() {
    let mut store = MemoryStore::new();
    assert!(store.get_by_username("alice").unwrap().is_none());
    assert_eq!(store.record_failure("alice").unwrap(), 1);
    assert_eq!(store.record_failure("alice").unwrap(), 2);
    assert_eq!(store.record_failure("bob").unwrap(), 1);
    store.set_lockout("alice", NOW).unwrap();
    assert_eq!(store.record_failure("alice").unwrap(), 3);
    let record = store.get_by_username("alice").unwrap().unwrap();
    assert_eq!(record.failure_count, 3);
    assert_eq!(record.lockout_expires_at, Some(NOW));
    store.clear_for_username("alice").unwrap();
    assert!(store.get_by_username("alice").unwrap().is_none());
    assert_eq!(store.get_by_username("bob").unwrap().unwrap().failure_count, 1);
}

#[test]
fn one_time_tokens_are_issued_and_consumed_through_the_service() {
    let mut auth = service();
    auth.issue_one_time_token_with(7, TokenType::PasswordReset, 600, "handmade", NOW).unwrap();
    assert!(auth.store.has_one_time_token(&hash_token("handmade")));
    let again = auth
        .issue_one_time_token_with(8, TokenType::PasswordReset, 600, "handmade", NOW)
        .unwrap_err();
    assert_eq!(again.kind, ErrorKind::InternalError);
    let overflow = auth
        .issue_one_time_token_with(7, TokenType::PasswordReset, i64::MAX, "late", NOW)
        .unwrap_err();
    assert_eq!(overflow.kind, ErrorKind::InternalError);

    assert_eq!(
        auth.consume_one_time_token_at("handmade", TokenType::EmailVerification, NOW).unwrap(),
        None
    );
    assert_eq!(
        auth.consume_one_time_token_at("handmade", TokenType::PasswordReset, NOW + 600).unwrap(),
        None
    );
    assert_eq!(
        auth.consume_one_time_token_at("handmade", TokenType::PasswordReset, NOW + 599).unwrap(),
        Some(7)
    );
    assert_eq!(
        auth.consume_one_time_token_at("handmade", TokenType::PasswordReset, NOW).unwrap(),
        None
    );

    let before = auth.token_counter;
    let token = auth.issue_one_time_token(9, TokenType::EmailVerification, 60).unwrap();
    assert_eq!(auth.token_counter, before + 1);
    assert!(auth.store.has_one_time_token(&hash_token(&token)));
    let other = auth.issue_one_time_token(9, TokenType::EmailVerification, 60).unwrap();
    assert_ne!(token, other);
}

#[test]
fn revoking_all_ends_every_session_of_one_user() {
    let mut auth = service();
    auth.store.store_refresh_token(1, "a", NOW + 10).unwrap();
    auth.store.store_refresh_token(1, "b", NOW + 10).unwrap();
    auth.store.store_refresh_token(2, "c", NOW + 10).unwrap();
    auth.revoke_all(1).unwrap();
    assert!(!auth.store.has_refresh_token("a"));
    assert!(!auth.store.has_refresh_token("b"));
    assert!(auth.store.has_refresh_token("c"));
    auth.revoke_all(1).unwrap();
    assert!(auth.store.has_refresh_token("c"));
}

#[test]
fn registration_is_checked_before_anything_is_written() {
    let mut auth = service();
    let hash = hash_password("Abcd1234!").unwrap();
    assert!(auth.check_registration(&registration("alice", "alice@x.com", "Abcd1234!")).is_ok());
    auth.register_user_with(&registration("alice", "alice@x.com", "Abcd1234!"), &hash, 1, "t", NOW)
        .unwrap();

    let taken = auth.check_registration(&registration("alice", "new@x.com", "Abcd1234!")).unwrap_err();
    assert_eq!(taken.kind, ErrorKind::Conflict);
    assert_eq!(taken.message, "用户名已被占用");
    let taken = auth.check_registration(&registration("bob", "alice@x.com", "Abcd1234!")).unwrap_err();
    assert_eq!(taken.kind, ErrorKind::Conflict);
    assert_eq!(taken.message, "邮箱已被注册");
    let weak = auth.check_registration(&registration("alice", "alice@x.com", "abcd1234!")).unwrap_err();
    assert_eq!(weak.kind, ErrorKind::ValidationError);
    assert_eq!(weak.message, "密码无效：必须包含至少一个大写字母");

    let before = auth.token_counter;
    let err = auth.register_user(&registration("alice", "new@x.com", "Abcd1234!")).unwrap_err();
    assert_eq!(err.kind, ErrorKind::Conflict);
    assert_eq!(err.message, "用户名已被占用");
    assert_eq!(auth.token_counter, before);
    let err = auth.register_user(&registration("bob", "bob@x.com", "short")).unwrap_err();
    assert_eq!(err.kind, ErrorKind::ValidationError);
    assert_eq!(auth.token_counter, before);
    assert!(auth.store.find_by_username("bob").unwrap().is_none());
}

#[test]
fn a_registration_is_written_in_one_step() {
    let mut auth = service();
    let (public, mail) = auth
        .complete_registration(&registration("erin", "erin@x.com", "Abcd1234!"), "hash-e", 5, "tok-e", NOW)
        .unwrap();
    assert_eq!(public.id, 5);
    assert_eq!(public.roles, vec!["author".to_string()]);
    assert_eq!(mail.to, "erin@x.com");
    assert!(mail.html_body.contains("token=tok-e"));
    assert_eq!(auth.store.get_user_roles(5).unwrap(), vec!["author".to_string()]);
    assert!(auth.store.has_one_time_token(&hash_token("tok-e")));
    assert_eq!(
        auth.consume_one_time_token_at("tok-e", TokenType::EmailVerification, NOW + 86_399).unwrap(),
        Some(5)
    );

    let again = auth
        .complete_registration(&registration("erin", "other@x.com", "Abcd1234!"), "hash-e", 6, "tok-f", NOW)
        .unwrap_err();
    assert_eq!(again.kind, ErrorKind::Conflict);
    assert!(!auth.store.has_one_time_token(&hash_token("tok-f")));
}

#[test]
fn a_registered_user_gets_a_hash_of_the_password() {
    let mut auth = service();
    let (public, _) = auth.register_user(&registration("frank", "frank@x.com", "Abcd1234!")).unwrap();
    assert_eq!(public.roles, vec!["author".to_string()]);
    let stored = auth.store.find_by_username("frank").unwrap().unwrap();
    assert_ne!(stored.hashed_password, "Abcd1234!");
    assert!(blog_backend::utils::password::verify_password(&stored.hashed_password, "Abcd1234!").unwrap());
    assert!(!blog_backend::utils::password::verify_password(&stored.hashed_password, "Abcd1234?").unwrap());
}

#[test]
fn bad_credentials_are_named_in_one_way() {
    let mut auth = service();
    let hash = hash_password("Abcd1234!").unwrap();
    auth.register_user_with(&registration("alice", "alice@x.com", "Abcd1234!"), &hash, 1, "t", NOW)
        .unwrap();
    let unknown = auth.login_user(&login("nobody", "Abcd1234!")).unwrap_err();
    assert_eq!(unknown.kind, ErrorKind::InvalidCredentials);
    assert_eq!(unknown.message, "用户名或密码不正确");
    let wrong = auth.login_user(&login("alice", "Wrong1234!")).unwrap_err();
    assert_eq!(wrong.kind, ErrorKind::InvalidCredentials);
    assert_eq!(wrong.message, "用户名或密码不正确");
}

#[test]
fn refresh_tokens_handed_out_have_their_form() {
    let mut auth = service();
    let hash = hash_password("Abcd1234!").unwrap();
    auth.register_user_with(&registration("alice", "alice@x.com", "Abcd1234!"), &hash, 1, "t", NOW)
        .unwrap();
    let (tokens, _) = auth.login_user(&login("alice", "Abcd1234!")).unwrap();
    assert_eq!(tokens.refresh_token.len(), 64);
    assert!(tokens.refresh_token.chars().all(|c| c.is_ascii_alphanumeric()));
    assert!(!tokens.refresh_token.contains('.'));
    let next = auth.refresh_access_token(&tokens.refresh_token).unwrap();
    assert_eq!(next.refresh_token.len(), 64);
    assert!(next.refresh_token.chars().all(|c| c.is_ascii_alphanumeric()));
    assert_ne!(next.refresh_token, tokens.refresh_token);

    let (given, _) = auth.login_user_with(&login("alice", "Abcd1234!"), NOW, "handed-in", "j").unwrap();
    assert_eq!(given.refresh_token, "handed-in");
    let rotated = auth.refresh_access_token_with("handed-in", NOW, "handed-on", "k").unwrap();
    assert_eq!(rotated.refresh_token, "handed-on");
}

#[test]
fn a_token_that_is_not_issued_leaves_the_store_alone() {
    let mut auth = service();
    auth.issue_one_time_token_with(7, TokenType::PasswordReset, 600, "first", NOW).unwrap();
    assert!(auth
        .issue_one_time_token_with(8, TokenType::EmailVerification, 600, "first", NOW)
        .is_err());
    assert_eq!(
        auth.consume_one_time_token_at("first", TokenType::PasswordReset, NOW).unwrap(),
        Some(7)
    );
    assert!(auth.issue_one_time_token(7, TokenType::PasswordReset, i64::MAX).is_err());
    assert!(auth.issue_one_time_token_with(7, TokenType::PasswordReset, i64::MAX, "late", NOW).is_err());
    assert!(!auth.store.has_one_time_token(&hash_token("late")));
}

#[test]
fn a_reset_that_is_turned_away_for_its_passwords_keeps_the_token() {
    let mut auth = service();
    let hash = hash_password("Abcd1234!").unwrap();
    auth.register_user_with(&registration("alice", "alice@x.com", "Abcd1234!"), &hash, 1, "t", NOW)
        .unwrap();
    auth.issue_one_time_token_with(1, TokenType::PasswordReset, 3600, "reset-me", NOW).unwrap();

    let mismatch = ResetPasswordPayload {
        token: "reset-me".to_string(),
        new_password: "Newpass123!".to_string(),
        confirm_password: "Newpass123?".to_string(),
    };
    let err = auth.reset_password(&mismatch).unwrap_err();
    assert_eq!(err.kind, ErrorKind::ValidationError);
    assert_eq!(err.message, "新密码与确认密码不匹配");
    let weak = ResetPasswordPayload {
        token: "reset-me".to_string(),
        new_password: "newpass123!".to_string(),
        confirm_password: "newpass123!".to_string(),
    };
    let err = auth.reset_password_with(&weak, "h", NOW).unwrap_err();
    assert_eq!(err.kind, ErrorKind::ValidationError);
    assert_eq!(err.message, "密码无效：必须包含至少一个大写字母");
    assert!(auth.store.has_one_time_token(&hash_token("reset-me")));

    let unknown = ResetPasswordPayload {
        token: "no-such-token".to_string(),
        new_password: "Newpass123!".to_string(),
        confirm_password: "Newpass123!".to_string(),
    };
    let err = auth.reset_password_with(&unknown, "h", NOW).unwrap_err();
    assert_eq!(err.kind, ErrorKind::InvalidOrExpiredToken);
    assert_eq!(auth.store.find_by_id(1).unwrap().unwrap().hashed_password, hash);

    let good = ResetPasswordPayload {
        token: "reset-me".to_string(),
        new_password: "Newpass123!".to_string(),
        confirm_password: "Newpass123!".to_string(),
    };
    auth.reset_password_with(&good, "new-hash", NOW + 1).unwrap();
    assert_eq!(auth.store.find_by_id(1).unwrap().unwrap().hashed_password, "new-hash");
    assert!(!auth.store.has_one_time_token(&hash_token("reset-me")));
    assert_eq!(auth.reset_password_with(&good, "x", NOW + 2).unwrap_err().kind, ErrorKind::InvalidOrExpiredToken);
}
