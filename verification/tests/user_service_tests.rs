use blog_backend::api_error::ErrorKind;
use blog_backend::dtos::user::{ChangePasswordPayload, ResetUserPasswordPayload};
use blog_backend::models::User;
use blog_backend::repositories::{MemoryStore, RoleRepository, UserRepository};
use blog_backend::services::email::{reset_email, verification_email};
use blog_backend::dtos::admin::{CreatePermissionPayload, CreateRolePayload};
use blog_backend::services::{AdminService, EmailService, UserService};
use blog_backend::config::EmailConfig;
use blog_backend::utils::password::{hash_password, verify_password};

const NOW: i64 = 1_750_000_000;

fn store_with_alice(hash: &str) -> MemoryStore {
    let mut store = MemoryStore::new();
    RoleRepository::create(&mut store, 1, "author", None, NOW).unwrap();
    let alice = User {
        id: 7,
        username: "alice".to_string(),
        email: "alice@x.com".to_string(),
        hashed_password: hash.to_string(),
        created_at: NOW,
        updated_at: NOW,
        email_verified_at: None,
    };
    store.create_registered(&alice, 1, "verification-hash", NOW + 10).unwrap();
    store.store_refresh_token(7, "session-1", NOW + 100).unwrap();
    store.store_refresh_token(7, "session-2", NOW + 100).unwrap();
    store.store_refresh_token(8, "other", NOW + 100).unwrap();
    store
}

#[test]
fn profile_of_a_user() {
    let store = store_with_alice("h");
    let profile = UserService::get_my_profile(&store, 7).unwrap();
    assert_eq!(profile.id, 7);
    assert_eq!(profile.username, "alice");
    assert_eq!(profile.email, "alice@x.com");
    assert_eq!(profile.created_at, NOW);
    assert_eq!(profile.roles, vec!["author".to_string()]);
    let err = UserService::get_my_profile(&store, 8).unwrap_err();
    assert_eq!(err.kind, ErrorKind::NotFound);
    assert_eq!(err.status_code(), 404);
    assert_eq!(UserService::admin_get_user(&store, 7).unwrap().username, "alice");
}

#[test]
fn changing_a_password_ends_every_session() {
    let hash = hash_password("Abcd1234!").unwrap();
    let mut store = store_with_alice(&hash);
    let payload = ChangePasswordPayload {
        current_password: "Abcd1234!".to_string(),
        new_password: "Newpass123!".to_string(),
        confirm_password: "Newpass123!".to_string(),
    };
    UserService::change_my_password(&mut store, 7, &payload).unwrap();
    let stored = store.find_by_id(7).unwrap().unwrap();
    assert!(verify_password(&stored.hashed_password, "Newpass123!").unwrap());
    assert!(!verify_password(&stored.hashed_password, "Abcd1234!").unwrap());
    assert!(!store.has_refresh_token("session-1"));
    assert!(!store.has_refresh_token("session-2"));
    assert!(store.has_refresh_token("other"));
}

#[test]
fn changing_a_password_is_checked() {
    let hash = hash_password("Abcd1234!").unwrap();
    let mut store = store_with_alice(&hash);
    let mismatch = ChangePasswordPayload {
        current_password: "Abcd1234!".to_string(),
        new_password: "Newpass123!".to_string(),
        confirm_password: "Newpass123?".to_string(),
    };
    let err = UserService::change_my_password_with(&mut store, 7, &mismatch, "h2", NOW).unwrap_err();
    assert_eq!(err.kind, ErrorKind::ValidationError);
    assert_eq!(err.message, "新密码与确认密码不匹配");

    let weak = ChangePasswordPayload {
        current_password: "Abcd1234!".to_string(),
        new_password: "weakpass".to_string(),
        confirm_password: "weakpass".to_string(),
    };
    let err = UserService::change_my_password_with(&mut store, 7, &weak, "h2", NOW).unwrap_err();
    assert_eq!(err.kind, ErrorKind::ValidationError);

    let fine = ChangePasswordPayload {
        current_password: "Wrong1234!".to_string(),
        new_password: "Newpass123!".to_string(),
        confirm_password: "Newpass123!".to_string(),
    };
    let err = UserService::change_my_password_with(&mut store, 7, &fine, "h2", NOW).unwrap_err();
    assert_eq!(err.kind, ErrorKind::InvalidCredentials);
    assert_eq!(err.message, "当前密码不正确");
    let err = UserService::change_my_password_with(&mut store, 99, &fine, "h2", NOW).unwrap_err();
    assert_eq!(err.kind, ErrorKind::NotFound);

    assert_eq!(store.find_by_id(7).unwrap().unwrap().hashed_password, hash);
    assert!(store.has_refresh_token("session-1"));

    let right = ChangePasswordPayload {
        current_password: "Abcd1234!".to_string(),
        new_password: "Newpass123!".to_string(),
        confirm_password: "Newpass123!".to_string(),
    };
    UserService::change_my_password_with(&mut store, 7, &right, "h2", NOW + 5).unwrap();
    let stored = store.find_by_id(7).unwrap().unwrap();
    assert_eq!(stored.hashed_password, "h2");
    assert_eq!(stored.updated_at, NOW + 5);
    assert_eq!(stored.created_at, NOW);
    assert!(!store.has_refresh_token("session-1"));
}

#[test]
fn administrator_resets_a_password() {
    let mut store = store_with_alice("h");
    let payload = ResetUserPasswordPayload {
        new_password: "Newpass123!".to_string(),
        confirm_password: "Newpass123!".to_string(),
    };
    let err = UserService::admin_reset_user_password_with(&mut store, 99, &payload, "h2", NOW).unwrap_err();
    assert_eq!(err.kind, ErrorKind::NotFound);
    assert_eq!(err.message, "用户不存在");
    UserService::admin_reset_user_password_with(&mut store, 7, &payload, "h2", NOW + 1).unwrap();
    assert_eq!(store.find_by_id(7).unwrap().unwrap().hashed_password, "h2");
    assert!(!store.has_refresh_token("session-2"));
    assert!(store.has_refresh_token("other"));
    UserService::admin_reset_user_password(&mut store, 7, &payload).unwrap();
    let stored = store.find_by_id(7).unwrap().unwrap();
    assert!(verify_password(&stored.hashed_password, "Newpass123!").unwrap());
    let mismatch = ResetUserPasswordPayload {
        new_password: "Newpass123!".to_string(),
        confirm_password: "x".to_string(),
    };
    assert_eq!(
        UserService::admin_reset_user_password(&mut store, 7, &mismatch).unwrap_err().kind,
        ErrorKind::ValidationError
    );
}

#[test]
fn store_keeps_users_apart() {
    let mut store = store_with_alice("h");
    assert!(store.find_by_username("alice").unwrap().is_some());
    assert!(store.find_by_username("Alice").unwrap().is_none());
    assert!(store.find_by_email("alice@x.com").unwrap().is_some());
    assert!(store.find_by_email("bob@x.com").unwrap().is_none());
    assert!(store.find_by_id(8).unwrap().is_none());
    let twin = User {
        id: 8,
        username: "alice".to_string(),
        email: "twin@x.com".to_string(),
        hashed_password: "h".to_string(),
        created_at: NOW,
        updated_at: NOW,
        email_verified_at: None,
    };
    assert!(store.create_registered(&twin, 1, "another-hash", NOW).is_err());
    assert!(store.find_by_id(8).unwrap().is_none());
    assert!(!store.has_one_time_token("another-hash"));
    assert!(RoleRepository::create(&mut store, 2, "author", None, NOW).is_err());
    assert!(RoleRepository::create(&mut store, 1, "editor", None, NOW).is_err());
    assert!(store.find_by_name("editor").unwrap().is_none());
    let role = store.find_by_name("author").unwrap().unwrap();
    assert_eq!(role.id, 1);
    assert_eq!(store.get_user_roles(7).unwrap(), vec!["author".to_string()]);
    assert!(store.get_user_roles(8).unwrap().is_empty());
    assert!(store.get_user_permissions(7).unwrap().is_empty());
    store.mark_email_as_verified(7, NOW + 3).unwrap();
    assert_eq!(store.find_by_id(7).unwrap().unwrap().email_verified_at, Some(NOW + 3));
    assert_eq!(store.find_user_by_refresh_token("session-1", NOW).unwrap().unwrap().id, 7);
    assert!(store.find_user_by_refresh_token("session-1", NOW + 100).unwrap().is_none());
    assert!(store.find_user_by_refresh_token("other", NOW).unwrap().is_none());
    store.delete_refresh_token("session-1").unwrap();
    assert!(store.find_user_by_refresh_token("session-1", NOW).unwrap().is_none());
}

#[test]
fn messages_carry_their_tokens() {
    let mail = verification_email("a@x.com", "alice", "T0KEN");
    assert_eq!(mail.to, "a@x.com");
    assert_eq!(
        mail.html_body,
        "<p>您好, alice,</p><p>感谢您的注册！请点击下面的链接来验证您的邮箱地址：</p><p><a href=\"http://localhost:3000/verify-email?token=T0KEN\">验证邮箱</a></p><p>此链接将在24小时后失效。</p>"
    );
    let mail = reset_email("a@x.com", "alice", "T0KEN");
    assert_eq!(mail.subject, "密码重置请求权");
    assert!(mail.html_body.contains("<a href=\"http://localhost:3000/reset-password?token=T0KEN\">重置密码</a>"));
    assert!(mail.html_body.contains("15分钟"));
}

#[test]
fn credentials_are_used_only_where_a_user_is_configured() {
    let config = EmailConfig {
        smtp_host: "localhost".to_string(),
        smtp_port: 1025,
        smtp_user: "".to_string(),
        smtp_pass: "".to_string(),
        from_address: "test@example.com".to_string(),
    };
    let service = EmailService::new(config.clone());
    assert!(!service.uses_credentials());
    assert_eq!(service.config.smtp_port, 1025);
    let mut with_user = config;
    with_user.smtp_user = "mailer".to_string();
    assert!(EmailService::new(with_user).uses_credentials());
}

#[test]
fn profile_is_changed_where_nothing_is_taken() {
    let mut store = store_with_alice("h");
    let bob = User {
        id: 8,
        username: "bob".to_string(),
        email: "bob@x.com".to_string(),
        hashed_password: "h".to_string(),
        created_at: NOW,
        updated_at: NOW,
        email_verified_at: Some(NOW),
    };
    store.create_user(&bob).unwrap();

    let rename = blog_backend::dtos::user::UpdateProfilePayload {
        username: Some("alicia".to_string()),
        email: None,
    };
    let profile = UserService::update_my_profile(&mut store, 7, &rename, NOW + 9).unwrap();
    assert_eq!(profile.username, "alicia");
    assert_eq!(profile.email, "alice@x.com");
    assert_eq!(profile.roles, vec!["author".to_string()]);
    let stored = store.find_by_id(7).unwrap().unwrap();
    assert_eq!(stored.updated_at, NOW + 9);
    assert_eq!(stored.created_at, NOW);
    assert!(store.find_by_username("alice").unwrap().is_none());

    let taken = blog_backend::dtos::user::UpdateProfilePayload {
        username: Some("bob".to_string()),
        email: Some("new@x.com".to_string()),
    };
    let err = UserService::update_my_profile(&mut store, 7, &taken, NOW + 10).unwrap_err();
    assert_eq!(err.kind, ErrorKind::Conflict);
    assert_eq!(err.message, "用户名 'bob' 已被占用");
    assert_eq!(store.find_by_id(7).unwrap().unwrap().email, "alice@x.com");

    let taken = blog_backend::dtos::user::UpdateProfilePayload {
        username: None,
        email: Some("bob@x.com".to_string()),
    };
    let err = UserService::update_my_profile(&mut store, 7, &taken, NOW + 10).unwrap_err();
    assert_eq!(err.message, "邮箱 'bob@x.com' 已被占用");

    let own = blog_backend::dtos::user::UpdateProfilePayload {
        username: Some("alicia".to_string()),
        email: Some("alice@x.com".to_string()),
    };
    assert!(UserService::update_my_profile(&mut store, 7, &own, NOW + 11).is_ok());
    let err = UserService::update_my_profile(&mut store, 99, &own, NOW).unwrap_err();
    assert_eq!(err.kind, ErrorKind::Conflict);
    let free = blog_backend::dtos::user::UpdateProfilePayload {
        username: Some("nobody".to_string()),
        email: None,
    };
    let err = UserService::update_my_profile(&mut store, 99, &free, NOW).unwrap_err();
    assert_eq!(err.kind, ErrorKind::NotFound);
}

#[test]
fn deleting_a_user_takes_roles_and_tokens_along() {
    let mut store = store_with_alice("h");
    assert!(store.has_one_time_token("verification-hash"));
    UserService::delete_my_account(&mut store, 7).unwrap();
    assert!(store.find_by_id(7).unwrap().is_none());
    assert!(!store.has_refresh_token("session-1"));
    assert!(!store.has_refresh_token("session-2"));
    assert!(store.has_refresh_token("other"));
    assert!(!store.has_one_time_token("verification-hash"));
    assert!(store.get_user_roles(7).unwrap().is_empty());
    let err = UserService::admin_delete_user(&mut store, 7).unwrap_err();
    assert_eq!(err.kind, ErrorKind::NotFound);
}

#[test]
fn administrator_makes_and_changes_users() {
    let mut store = store_with_alice("h");
    let payload = blog_backend::dtos::user::CreateUserPayload {
        username: "carol".to_string(),
        email: "carol@x.com".to_string(),
        password: "Abcd1234!".to_string(),
        confirm_password: "Abcd1234!".to_string(),
    };
    let made = UserService::admin_create_user_with(&mut store, &payload, "hash-c", 20, NOW + 1).unwrap();
    assert_eq!(made.id, 20);
    assert!(made.roles.is_empty());
    let stored = store.find_by_id(20).unwrap().unwrap();
    assert_eq!(stored.email_verified_at, Some(NOW + 1));
    assert_eq!(stored.hashed_password, "hash-c");

    let again = UserService::admin_create_user_with(&mut store, &payload, "hash-c", 21, NOW).unwrap_err();
    assert_eq!(again.kind, ErrorKind::Conflict);
    assert_eq!(again.message, "用户名 'carol' 已被占用");
    let mut other = payload.clone();
    other.username = "dave".to_string();
    let again = UserService::admin_create_user_with(&mut store, &other, "hash-c", 21, NOW).unwrap_err();
    assert_eq!(again.message, "邮箱 'carol@x.com' 已被占用");
    other.email = "dave@x.com".to_string();
    let again = UserService::admin_create_user_with(&mut store, &other, "hash-c", 20, NOW).unwrap_err();
    assert_eq!(again.kind, ErrorKind::Conflict);
    other.confirm_password = "x".to_string();
    let again = UserService::admin_create_user(&mut store, &other).unwrap_err();
    assert_eq!(again.message, "密码与确认密码不匹配");
    other.password = "weak".to_string();
    other.confirm_password = "weak".to_string();
    assert_eq!(UserService::admin_create_user(&mut store, &other).unwrap_err().kind, ErrorKind::ValidationError);
    other.password = "Abcd1234!".to_string();
    other.confirm_password = "Abcd1234!".to_string();
    let dave = UserService::admin_create_user(&mut store, &other).unwrap();
    assert_eq!(dave.username, "dave");

    let change = blog_backend::dtos::user::UpdateUserPayload {
        username: Some("carolyn".to_string()),
        email: None,
        password: Some("Newpass123!".to_string()),
        confirm_password: Some("Newpass123!".to_string()),
    };
    store.store_refresh_token(20, "carol-session", NOW + 50).unwrap();
    let changed = UserService::admin_update_user_with(&mut store, 20, &change, "hash-n", NOW + 2).unwrap();
    assert_eq!(changed.username, "carolyn");
    assert_eq!(store.find_by_id(20).unwrap().unwrap().hashed_password, "hash-n");
    assert!(!store.has_refresh_token("carol-session"));

    let keep = blog_backend::dtos::user::UpdateUserPayload {
        username: None,
        email: Some("carolyn@x.com".to_string()),
        password: None,
        confirm_password: None,
    };
    store.store_refresh_token(20, "carol-session", NOW + 50).unwrap();
    let changed = UserService::admin_update_user(&mut store, 20, &keep).unwrap();
    assert_eq!(changed.email, "carolyn@x.com");
    assert_eq!(store.find_by_id(20).unwrap().unwrap().hashed_password, "hash-n");
    assert!(store.has_refresh_token("carol-session"));

    let bad = blog_backend::dtos::user::UpdateUserPayload {
        username: None,
        email: None,
        password: Some("Newpass123!".to_string()),
        confirm_password: Some("Newpass124!".to_string()),
    };
    assert_eq!(
        UserService::admin_update_user(&mut store, 20, &bad).unwrap_err().message,
        "密码与确认密码不匹配"
    );
    assert_eq!(
        UserService::admin_update_user(&mut store, 99, &bad).unwrap_err().message,
        "用户不存在"
    );
    let taken = blog_backend::dtos::user::UpdateUserPayload {
        username: Some("alice".to_string()),
        email: None,
        password: None,
        confirm_password: None,
    };
    assert_eq!(UserService::admin_update_user(&mut store, 20, &taken).unwrap_err().kind, ErrorKind::Conflict);
}

#[test]
fn roles_and_permissions_are_administered() {
    let mut store = store_with_alice("h");
    let editor = AdminService::create_role_with(
        &mut store,
        &CreateRolePayload { name: "editor".to_string(), description: Some("edits".to_string()) },
        2,
        NOW,
    )
    .unwrap();
    assert_eq!(editor.id, 2);
    assert_eq!(editor.description, Some("edits".to_string()));
    assert_eq!(editor.created_at, NOW);
    let err = AdminService::create_role_with(
        &mut store,
        &CreateRolePayload { name: "editor".to_string(), description: None },
        3,
        NOW,
    )
    .unwrap_err();
    assert_eq!(err.kind, ErrorKind::Conflict);
    let made = AdminService::create_role(
        &mut store,
        &CreateRolePayload { name: "admin".to_string(), description: None },
    )
    .unwrap();
    assert_eq!(made.name, "admin");

    let edit_any = AdminService::create_permission_with(
        &mut store,
        &CreatePermissionPayload { name: "post:edit_any".to_string(), description: None },
        10,
        NOW,
    )
    .unwrap();
    let create_post = AdminService::create_permission(
        &mut store,
        &CreatePermissionPayload { name: "post:create".to_string(), description: None },
    )
    .unwrap();
    assert!(AdminService::create_permission_with(
        &mut store,
        &CreatePermissionPayload { name: "other".to_string(), description: None },
        10,
        NOW,
    )
    .is_err());

    AdminService::set_role_permissions(&mut store, 2, &vec![edit_any.id]).unwrap();
    AdminService::set_role_permissions(&mut store, 1, &vec![create_post.id, create_post.id]).unwrap();
    assert_eq!(
        AdminService::list_user_roles_permissions(&store, 7).unwrap(),
        vec!["post:create".to_string()]
    );
    AdminService::set_user_roles(&mut store, 7, &vec![2]).unwrap();
    assert_eq!(store.get_user_roles(7).unwrap(), vec!["editor".to_string()]);
    assert_eq!(
        AdminService::list_user_roles_permissions(&store, 7).unwrap(),
        vec!["post:edit_any".to_string()]
    );
    AdminService::set_user_roles(&mut store, 7, &vec![1, 2, 2]).unwrap();
    let mut names = AdminService::list_user_roles_permissions(&store, 7).unwrap();
    names.sort();
    assert_eq!(names, vec!["post:create".to_string(), "post:edit_any".to_string()]);
    store.remove_role_from_user(7, 2).unwrap();
    assert_eq!(store.get_user_roles(7).unwrap(), vec!["author".to_string()]);
    store.remove_role_from_user(7, 9).unwrap();
    assert_eq!(store.get_user_roles(7).unwrap(), vec!["author".to_string()]);
    AdminService::set_user_roles(&mut store, 7, &Vec::new()).unwrap();
    assert!(store.get_user_roles(7).unwrap().is_empty());
    assert!(AdminService::list_user_roles_permissions(&store, 7).unwrap().is_empty());
}

#[test]
fn roles_are_given_to_users_that_exist_only() {
    let mut store = store_with_alice("h");
    let err = AdminService::set_user_roles(&mut store, 99, &vec![1]).unwrap_err();
    assert_eq!(err.kind, ErrorKind::InternalError);
    assert!(store.get_user_roles(99).unwrap().is_empty());
    assert!(store.assign_roles_to_user(99, &vec![1]).is_err());
    assert!(store.get_user_roles(99).unwrap().is_empty());
    AdminService::set_user_roles(&mut store, 99, &Vec::new()).unwrap();
    store.assign_roles_to_user(99, &Vec::new()).unwrap();
    assert_eq!(store.get_user_roles(7).unwrap(), vec!["author".to_string()]);

    RoleRepository::create(&mut store, 2, "editor", None, NOW).unwrap();
    store.assign_roles_to_user(7, &vec![2]).unwrap();
    let mut names = store.get_user_roles(7).unwrap();
    names.sort();
    assert_eq!(names, vec!["author".to_string(), "editor".to_string()]);
    store.delete(7).unwrap();
    assert!(store.get_user_roles(7).unwrap().is_empty());
}

#[test]
fn a_change_of_password_is_checked_before_it_is_hashed() {
    let hash = hash_password("Abcd1234!").unwrap();
    let store = store_with_alice(&hash);
    let good = ChangePasswordPayload {
        current_password: "Abcd1234!".to_string(),
        new_password: "Newpass123!".to_string(),
        confirm_password: "Newpass123!".to_string(),
    };
    assert!(UserService::check_password_change(&store, 7, &good).is_ok());
    let err = UserService::check_password_change(&store, 8, &good).unwrap_err();
    assert_eq!(err.kind, ErrorKind::NotFound);
    assert_eq!(err.message, "无法找到当前用户");
    let mut wrong = good.clone();
    wrong.current_password = "Abcd1234?".to_string();
    let err = UserService::check_password_change(&store, 7, &wrong).unwrap_err();
    assert_eq!(err.kind, ErrorKind::InvalidCredentials);
    assert_eq!(err.message, "当前密码不正确");
    let mut mismatch = wrong.clone();
    mismatch.confirm_password = "Newpass123?".to_string();
    let err = UserService::check_password_change(&store, 8, &mismatch).unwrap_err();
    assert_eq!(err.kind, ErrorKind::ValidationError);
    assert_eq!(err.message, "新密码与确认密码不匹配");

    let reset = ResetUserPasswordPayload {
        new_password: "Newpass123!".to_string(),
        confirm_password: "Newpass123!".to_string(),
    };
    assert!(UserService::check_admin_reset(&store, 7, &reset).is_ok());
    let err = UserService::check_admin_reset(&store, 8, &reset).unwrap_err();
    assert_eq!(err.kind, ErrorKind::NotFound);
    assert_eq!(err.message, "用户不存在");
    let weak = ResetUserPasswordPayload {
        new_password: "Newpass!!!".to_string(),
        confirm_password: "Newpass!!!".to_string(),
    };
    let err = UserService::check_admin_reset(&store, 8, &weak).unwrap_err();
    assert_eq!(err.kind, ErrorKind::ValidationError);
    assert_eq!(err.message, "密码无效：必须包含至少一个数字");
}

#[test]
fn an_administrators_user_is_checked_before_the_password_is_hashed() {
    let mut store = store_with_alice("h");
    let payload = blog_backend::dtos::user::CreateUserPayload {
        username: "alice".to_string(),
        email: "fresh@x.com".to_string(),
        password: "Abcd1234!".to_string(),
        confirm_password: "Abcd1234!".to_string(),
    };
    let err = UserService::check_admin_create(&store, &payload).unwrap_err();
    assert_eq!(err.kind, ErrorKind::Conflict);
    assert_eq!(err.message, "用户名 'alice' 已被占用");
    let err = UserService::admin_create_user(&mut store, &payload).unwrap_err();
    assert_eq!(err.kind, ErrorKind::Conflict);
    let mut fresh = payload.clone();
    fresh.username = "gina".to_string();
    assert!(UserService::check_admin_create(&store, &fresh).is_ok());
    let made = UserService::add_made_user(&mut store, &fresh, "hash-g", 30, NOW + 3).unwrap();
    assert_eq!(made.id, 30);
    assert_eq!(made.created_at, NOW + 3);
    assert!(made.roles.is_empty());
    assert_eq!(
        UserService::add_made_user(&mut store, &fresh, "hash-g", 31, NOW + 3).unwrap_err().kind,
        ErrorKind::Conflict
    );
    fresh.username = "hank".to_string();
    fresh.email = "hank@x.com".to_string();
    let hank = UserService::admin_create_user(&mut store, &fresh).unwrap();
    let stored = store.find_by_id(hank.id).unwrap().unwrap();
    assert!(verify_password(&stored.hashed_password, "Abcd1234!").unwrap());
}

#[test]
fn an_administrators_change_is_checked_and_then_written() {
    let mut store = store_with_alice("h");
    let rename = blog_backend::dtos::user::UpdateUserPayload {
        username: Some("alicia".to_string()),
        email: Some("alicia@x.com".to_string()),
        password: None,
        confirm_password: None,
    };
    assert!(UserService::check_admin_update(&store, 7, &rename).is_ok());
    assert_eq!(
        UserService::check_admin_update(&store, 8, &rename).unwrap_err().message,
        "用户不存在"
    );
    let changed = UserService::admin_update_user(&mut store, 7, &rename).unwrap();
    assert_eq!(changed.username, "alicia");
    assert_eq!(changed.email, "alicia@x.com");
    assert_eq!(changed.roles, vec!["author".to_string()]);
    assert_eq!(store.find_by_id(7).unwrap().unwrap().hashed_password, "h");
    assert!(store.has_refresh_token("session-1"));

    let weak = blog_backend::dtos::user::UpdateUserPayload {
        username: Some("alice".to_string()),
        email: None,
        password: Some("weakpass1!".to_string()),
        confirm_password: Some("weakpass1!".to_string()),
    };
    let err = UserService::admin_update_user(&mut store, 7, &weak).unwrap_err();
    assert_eq!(err.kind, ErrorKind::ValidationError);
    assert_eq!(err.message, "密码无效：必须包含至少一个大写字母");
    assert_eq!(store.find_by_id(7).unwrap().unwrap().username, "alicia");

    let secret = blog_backend::dtos::user::UpdateUserPayload {
        username: None,
        email: None,
        password: Some("Newpass123!".to_string()),
        confirm_password: Some("Newpass123!".to_string()),
    };
    UserService::admin_update_user(&mut store, 7, &secret).unwrap();
    let stored = store.find_by_id(7).unwrap().unwrap();
    assert!(verify_password(&stored.hashed_password, "Newpass123!").unwrap());
    assert!(!store.has_refresh_token("session-1"));
    assert!(store.has_refresh_token("other"));
}
