//! The authentication service: lockout, access and refresh tokens,
//! registration, e-mail verification and password reset, over any store
//! that offers the four repositories.

use crate::api_error::{ApiError, ErrorKind};
use crate::clock::unix_now;
use crate::config::{AppConfig, AuthConfig};
use crate::dtos::admin::{UserLoginPayload, UserRegistrationPayload};
use crate::dtos::auth::ResetPasswordPayload;
use crate::ids::{uuid_new_v4, uuid_text, uuid_to_string};
use crate::models::{NamedRow, User, UserPublic, UserRow};
use crate::repositories::login_attempt::LoginAttemptRepository;
use crate::repositories::one_time_token::OneTimeTokenRepository;
use crate::repositories::role::RoleRepository;
use crate::repositories::state::{
    next_failure_count,
    IdentityState,
    IdentityStore,
    OneTimeTokenRow,
    RefreshTokenRow,
    Registration,
    StoreError,
    TokenType,
};
use crate::services::email::{
    reset_body,
    reset_email,
    reset_subject,
    verification_body,
    verification_email,
    verification_subject,
    OutgoingEmail,
};
use crate::repositories::user::UserRepository;
use crate::services::jwt::{
    claims_members,
    decode_claims,
    encode_claims,
    expired_at,
    is_expired,
    jwt_signed,
    token_claims,
    Claims,
    ClaimsView,
};
use crate::services::token::{
    blake3_hex_digest,
    decimal,
    generate_one_time_token,
    generate_refresh_token,
    hash_token,
    is_refresh_token,
    push_decimal,
};
use crate::text::texts;
use crate::utils::password::{
    argon2_check,
    check_passwords,
    hash_password,
    new_password_mismatch,
    password_violation,
    passwords_refusal,
    validate_password_strength,
    verify_password,
    violation_text,
    PasswordCheck,
};
use vstd::prelude::*;

verus! {

/// The pair of tokens a login or a refresh hands out.
#[derive(Clone, Debug)]
pub struct LoginTokens {
    pub access_token: String,
    pub refresh_token: String,
}

/// The authentication service. It owns its store, its settings and the
/// counter that one-time tokens are numbered with.
pub struct AuthService<S> {
    pub store: S,
    pub config: AuthConfig,
    pub token_counter: usize,
}

/// Whether a result is an internal error.
pub open spec fn is_internal<T>(r: Result<T, ApiError>) -> bool {
    r matches Err(e) && e.kind == ErrorKind::InternalError
}

/// Whether a result is the error of the given kind.
pub open spec fn fails_with<T>(r: Result<T, ApiError>, kind: ErrorKind) -> bool {
    r matches Err(e) && e.kind == kind
}

/// Whether a result is the error of the given kind and message.
pub open spec fn fails_saying<T>(r: Result<T, ApiError>, kind: ErrorKind, message: Seq<char>) -> bool {
    r matches Err(e) && e.kind == kind && e.message@ == message
}

/// Whether a failure count calls for a lockout: it has reached the
/// threshold. A negative count, which no store of this library produces,
/// calls for one too.
pub open spec fn lockout_reached(count: i32, max_failures: u32) -> bool {
    count < 0 || count >= max_failures
}

/// The instant a lockout that starts at `now` ends: `now + duration`,
/// held at the ends of the clock's range.
pub open spec fn lockout_until(now: i64, duration: i64) -> i64 {
    if now + duration > i64::MAX {
        i64::MAX
    } else if now + duration < i64::MIN {
        i64::MIN
    } else {
        (now + duration) as i64
    }
}

/// The store after a failed login: one more failure counted, and a
/// lockout set where the count has reached the threshold.
pub open spec fn after_failed_login(
    pre: IdentityState,
    username: Seq<char>,
    now: i64,
    max_failures: u32,
    duration: i64,
) -> IdentityState {
    let counted = pre.with_failure(username);
    if lockout_reached(next_failure_count(pre.attempt(username)), max_failures) {
        counted.with_lockout(username, lockout_until(now, duration))
    } else {
        counted
    }
}

/// The seconds a lockout still lasts at `now`; 0 where there is none.
pub open spec fn remaining_lockout(st: IdentityState, username: Seq<char>, now: i64) -> i64 {
    match st.attempt(username) {
        Some(a) => match a.lockout_expires_at {
            Some(until) => if until - now > i64::MAX {
                i64::MAX
            } else if until - now < 0 {
                0
            } else {
                (until - now) as i64
            },
            None => 0,
        },
        None => 0,
    }
}

/// The message of a lockout that lasts `seconds` more.
pub open spec fn locked_message(seconds: i64) -> Seq<char> {
    "账户已被锁定，请在 "@ + decimal((seconds / 60) as nat) + " 分 "@ + decimal((seconds % 60) as nat)
        + " 秒后重试"@
}

/// The expiry of an access token issued at `now`, where it can be told.
pub open spec fn access_expiry(now: i64, minutes: i64) -> Option<usize> {
    let v = now + minutes * 60;
    if 0 <= v <= i64::MAX && v <= usize::MAX && i64::MIN <= minutes * 60 <= i64::MAX {
        Some(v as usize)
    } else {
        None
    }
}

/// The expiry of a refresh token issued at `now`, where it can be told.
pub open spec fn refresh_expiry(now: i64, days: i64) -> Option<i64> {
    let v = now + days * 86400;
    if i64::MIN <= v <= i64::MAX && i64::MIN <= days * 86400 <= i64::MAX {
        Some(v as i64)
    } else {
        None
    }
}

/// Whether `c` are claims for a user at `now`: subject, name, expiry and
/// token identifier as given, and the roles and permissions those that the
/// store holds for the user, each once, in any order.
pub open spec fn claims_for(
    st: IdentityState,
    cfg: AuthConfig,
    user: UserRow,
    now: i64,
    jti: Seq<char>,
    c: ClaimsView,
) -> bool {
    &&& c.sub == uuid_text(user.id)
    &&& c.username == user.username
    &&& access_expiry(now, cfg.access_token_expiry_minutes) == Some(c.exp)
    &&& c.jti == jti
    &&& c.roles.no_duplicates()
    &&& c.roles.to_set() == st.user_role_names(user.id)
    &&& c.permissions.no_duplicates()
    &&& c.permissions.to_set() == st.user_permission_names(user.id)
}

/// What issuing a pair of tokens for a user does and returns. On success
/// the refresh token is stored under its hash with its expiry, and the
/// access token is the signed form of claims for the user. It fails, with
/// the store unchanged, exactly where an expiry cannot be told, the hash is
/// stored already, or signing fails.
pub open spec fn issued(
    pre: IdentityState,
    post: IdentityState,
    cfg: AuthConfig,
    user: UserRow,
    now: i64,
    refresh_token: Seq<char>,
    jti: Seq<char>,
    r: Result<LoginTokens, ApiError>,
) -> bool {
    let hash = blake3_hex_digest(refresh_token);
    match r {
        Ok(tokens) => {
            &&& tokens.refresh_token@ == refresh_token
            &&& refresh_expiry(now, cfg.refresh_token_expiry_days) is Some
            &&& !pre.refresh_tokens.contains_key(hash)
            &&& post == pre.with_refresh_token(
                hash,
                RefreshTokenRow {
                    user_id: user.id,
                    expires_at: refresh_expiry(now, cfg.refresh_token_expiry_days).unwrap(),
                },
            )
            &&& exists|c: ClaimsView| #[trigger]
                claims_for(pre, cfg, user, now, jti, c) && jwt_signed(
                    claims_members(c, cfg.jwt_issuer@, cfg.jwt_audience@),
                    cfg.jwt_secret@,
                ) == Some(tokens.access_token@)
        },
        Err(e) => {
            &&& e.kind == ErrorKind::InternalError
            &&& post == pre
            &&& (access_expiry(now, cfg.access_token_expiry_minutes) is None || refresh_expiry(
                now,
                cfg.refresh_token_expiry_days,
            ) is None || pre.refresh_tokens.contains_key(hash) || exists|c: ClaimsView| #[trigger]
                claims_for(pre, cfg, user, now, jti, c) && jwt_signed(
                    claims_members(c, cfg.jwt_issuer@, cfg.jwt_audience@),
                    cfg.jwt_secret@,
                ) is None)
        },
    }
}

/// What validating an access token at `now` returns: the claims of a
/// token that passes the signature, issuer and audience checks and is
/// not expired; the same error for every other text.
pub open spec fn validated(cfg: AuthConfig, token: Seq<char>, now: i64, r: Result<Claims, ApiError>)
    -> bool {
    match token_claims(token, cfg.jwt_secret@, cfg.jwt_issuer@, cfg.jwt_audience@) {
        Some(c) => if is_expired(c.exp, now) {
            fails_with(r, ErrorKind::InvalidOrExpiredToken)
        } else {
            r matches Ok(claims) && claims@ == c
        },
        None => fails_with(r, ErrorKind::InvalidOrExpiredToken),
    }
}

/// Whether `p` is the public profile of a user as the store holds it:
/// identifier, name, address and creation time of the user, and the roles
/// the user holds, each once.
pub open spec fn public_profile(p: UserPublic, user: UserRow, st: IdentityState) -> bool {
    &&& p.id == user.id
    &&& p.username@ == user.username
    &&& p.email@ == user.email
    &&& p.created_at == user.created_at
    &&& texts(p.roles@).no_duplicates()
    &&& texts(p.roles@).to_set() == st.user_role_names(user.id)
}

/// The one message for a login that is turned away for its credentials,
/// whether the name is unknown or the password wrong.
pub open spec fn bad_credentials_text() -> Seq<char> {
    "用户名或密码不正确"@
}

/// The tokens of a login result.
pub open spec fn tokens_of(r: Result<(LoginTokens, UserPublic), ApiError>) -> Result<
    LoginTokens,
    ApiError,
> {
    match r {
        Ok(x) => Ok(x.0),
        Err(e) => Err(e),
    }
}

/// What a login does and returns.
///
/// A username that is locked out at `now` is turned away with
/// `AccountLocked` and the message that tells the time left, whatever the
/// password, and nothing changes. An unknown
/// username, or a password that does not match, counts as a failure and
/// gives `InvalidCredentials`, the same in both cases. A stored hash that
/// cannot be read is an internal error. A matching password clears the
/// failures and issues a pair of tokens.
pub open spec fn login_outcome(
    pre: IdentityState,
    post: IdentityState,
    cfg: AuthConfig,
    username: Seq<char>,
    password: Seq<char>,
    now: i64,
    refresh_token: Seq<char>,
    jti: Seq<char>,
    r: Result<(LoginTokens, UserPublic), ApiError>,
) -> bool {
    if pre.locked_at(username, now) {
        &&& post == pre
        &&& fails_saying(
            r,
            (ErrorKind::AccountLocked { retry_after: remaining_lockout(pre, username, now) }),
            locked_message(remaining_lockout(pre, username, now)),
        )
    } else if !pre.has_username(username) {
        &&& post == after_failed_login(
            pre,
            username,
            now,
            cfg.max_login_failures,
            cfg.lockout_duration_seconds,
        )
        &&& fails_saying(r, ErrorKind::InvalidCredentials, bad_credentials_text())
    } else {
        forall|user: UserRow| #[trigger]
            pre.users.contains(user) && user.username == username ==> (match argon2_check(
                user.hashed_password,
                password,
            ) {
                PasswordCheck::Malformed => post == pre && is_internal(r),
                PasswordCheck::Mismatch => post == after_failed_login(
                    pre,
                    username,
                    now,
                    cfg.max_login_failures,
                    cfg.lockout_duration_seconds,
                ) && fails_saying(r, ErrorKind::InvalidCredentials, bad_credentials_text()),
                PasswordCheck::Match => issued(
                    pre.without_attempt(username),
                    post,
                    cfg,
                    user,
                    now,
                    refresh_token,
                    jti,
                    tokens_of(r),
                ) && (r matches Ok(x) ==> public_profile(x.1, user, post)),
            })
    }
}

/// What exchanging a refresh token does and returns.
///
/// A token that is not stored, is expired at `now`, or whose owner is
/// gone is turned away with `InvalidOrExpiredToken` and nothing changes.
/// Otherwise the token is deleted and a new pair is issued to its owner.
pub open spec fn refresh_outcome(
    pre: IdentityState,
    post: IdentityState,
    cfg: AuthConfig,
    old_token: Seq<char>,
    now: i64,
    new_token: Seq<char>,
    jti: Seq<char>,
    r: Result<LoginTokens, ApiError>,
) -> bool {
    let hash = blake3_hex_digest(old_token);
    match pre.refresh_owner(hash, now) {
        Some(owner) => if pre.has_user_id(owner) {
            forall|user: UserRow| #[trigger]
                pre.users.contains(user) && user.id == owner ==> issued(
                    pre.without_refresh_token(hash),
                    post,
                    cfg,
                    user,
                    now,
                    new_token,
                    jti,
                    r,
                )
        } else {
            post == pre && fails_with(r, ErrorKind::InvalidOrExpiredToken)
        },
        None => post == pre && fails_with(r, ErrorKind::InvalidOrExpiredToken),
    }
}

/// In a store that keeps the uniqueness rules, two users of one name are
/// one user, and so are two users of one identifier.
pub proof fn lemma_user_unique(st: IdentityState, a: UserRow, b: UserRow)
    requires
        st.valid(),
        st.users.contains(a),
        st.users.contains(b),
        a.username == b.username || a.id == b.id || a.email == b.email,
    ensures
        a == b,
{
    let i = choose|i: int| 0 <= i < st.users.len() && st.users[i] == a;
    let j = choose|j: int| 0 <= j < st.users.len() && st.users[j] == b;
    if i < j {
        assert(st.users[i].id != st.users[j].id);
    } else if j < i {
        assert(st.users[j].id != st.users[i].id);
    }
}

/// The counter after one more one-time token: one more, and 0 after the
/// largest value.
pub open spec fn next_counter(counter: usize) -> usize {
    if counter == usize::MAX {
        0
    } else {
        (counter + 1) as usize
    }
}

/// Seconds an e-mail verification token is good for.
pub const VERIFICATION_TTL_SECONDS: i64 = 86400;

/// Seconds a password reset token is good for.
pub const RESET_TTL_SECONDS: i64 = 900;

/// `now + ttl`, where the clock can show it.
pub open spec fn expiry_after(now: i64, ttl: i64) -> Option<i64> {
    if i64::MIN <= now + ttl <= i64::MAX {
        Some((now + ttl) as i64)
    } else {
        None
    }
}

/// The row of a user registered at `now`: the address is not verified yet.
pub open spec fn new_user_row(
    id: u128,
    username: Seq<char>,
    email: Seq<char>,
    hashed_password: Seq<char>,
    now: i64,
) -> UserRow {
    UserRow {
        id,
        username,
        email,
        hashed_password,
        created_at: now,
        updated_at: now,
        email_verified_at: None,
    }
}

/// The name of the role every new user holds.
pub open spec fn default_role() -> Seq<char> {
    "author"@
}

/// What the checks of a registration give, before anything is hashed or
/// written: a password that breaks the policy is a validation error, and
/// a username or an address that is taken is a conflict.
pub open spec fn registration_checked(
    st: IdentityState,
    username: Seq<char>,
    email: Seq<char>,
    password: Seq<char>,
    r: Result<(), ApiError>,
) -> bool {
    match password_violation(password) {
        Some(v) => fails_saying(r, ErrorKind::ValidationError, violation_text(v)),
        None => if st.has_username(username) || st.has_email(email) {
            fails_with(r, ErrorKind::Conflict)
        } else {
            r is Ok
        },
    }
}

/// What writing a registration does and returns. A store without the
/// default role is an internal error, and nothing changes. Otherwise the
/// user, the default role held and the verification token are written in
/// one step, and the result is the user's public profile and the message
/// that carries the token. A name, an address, an identifier or a token
/// hash that is stored already is a conflict, and nothing changes.
pub open spec fn registration_written(
    pre: IdentityState,
    post: IdentityState,
    username: Seq<char>,
    email: Seq<char>,
    hashed_password: Seq<char>,
    new_id: u128,
    token: Seq<char>,
    now: i64,
    r: Result<(UserPublic, OutgoingEmail), ApiError>,
) -> bool {
    if !pre.has_role_named(default_role()) || expiry_after(now, VERIFICATION_TTL_SECONDS) is None {
        post == pre && is_internal(r)
    } else {
        forall|role: NamedRow| #[trigger]
            pre.is_role_named(role, default_role()) ==> {
                let reg = Registration {
                    user: new_user_row(new_id, username, email, hashed_password, now),
                    role_id: role.id,
                    token_hash: blake3_hex_digest(token),
                    token_expires_at: expiry_after(now, VERIFICATION_TTL_SECONDS).unwrap(),
                };
                if pre.can_register(reg) {
                    &&& post == pre.with_registration(reg)
                    &&& r matches Ok(x) && public_profile(x.0, reg.user, post) && x.1.to@ == email
                        && x.1.subject@ == verification_subject() && x.1.html_body@
                        == verification_body(username, token)
                } else {
                    post == pre && fails_with(r, ErrorKind::Conflict)
                }
            }
    }
}

/// What a registration does and returns.
///
/// A password that breaks the policy is a validation error; a username or
/// an address that is taken is a conflict; in each case nothing changes.
/// Otherwise the registration is written.
pub open spec fn register_outcome(
    pre: IdentityState,
    post: IdentityState,
    username: Seq<char>,
    email: Seq<char>,
    password: Seq<char>,
    hashed_password: Seq<char>,
    new_id: u128,
    token: Seq<char>,
    now: i64,
    r: Result<(UserPublic, OutgoingEmail), ApiError>,
) -> bool {
    match password_violation(password) {
        Some(v) => post == pre && fails_saying(r, ErrorKind::ValidationError, violation_text(v)),
        None => if pre.has_username(username) || pre.has_email(email) {
            post == pre && fails_with(r, ErrorKind::Conflict)
        } else {
            registration_written(
                pre,
                post,
                username,
                email,
                hashed_password,
                new_id,
                token,
                now,
                r,
            )
        },
    }
}

/// What issuing a one-time token does and returns: the token is stored
/// under its hash with its owner, its type and its expiry. It fails, with
/// nothing changed, exactly where the expiry cannot be told or the hash is
/// stored already.
pub open spec fn issue_outcome(
    pre: IdentityState,
    post: IdentityState,
    user_id: u128,
    token_type: TokenType,
    ttl: i64,
    token: Seq<char>,
    now: i64,
    r: Result<(), ApiError>,
) -> bool {
    let hash = blake3_hex_digest(token);
    match expiry_after(now, ttl) {
        Some(expires_at) => if pre.one_time_tokens.contains_key(hash) {
            post == pre && is_internal(r)
        } else {
            post == pre.with_one_time_token(hash, OneTimeTokenRow { user_id, token_type, expires_at })
                && r is Ok
        },
        None => post == pre && is_internal(r),
    }
}

/// Whether a one-time token was stored for a user at `now`: the hash was
/// free, and the store now holds the token with its owner, its type and
/// the expiry `ttl` seconds after `now`.
pub open spec fn one_time_token_stored(
    pre: IdentityState,
    post: IdentityState,
    user_id: u128,
    token_type: TokenType,
    ttl: i64,
    token: Seq<char>,
    now: i64,
) -> bool {
    let hash = blake3_hex_digest(token);
    &&& expiry_after(now, ttl) is Some
    &&& !pre.one_time_tokens.contains_key(hash)
    &&& post == pre.with_one_time_token(
        hash,
        OneTimeTokenRow { user_id, token_type, expires_at: expiry_after(now, ttl).unwrap() },
    )
}

/// What consuming a one-time token does and returns: the owner of a
/// token that is stored, of the given type and not expired at `now`, and
/// the token is deleted; nothing, and no change, for any other token.
pub open spec fn consume_outcome(
    pre: IdentityState,
    post: IdentityState,
    token: Seq<char>,
    token_type: TokenType,
    now: i64,
    r: Result<Option<u128>, ApiError>,
) -> bool {
    let hash = blake3_hex_digest(token);
    match pre.consumable(hash, token_type, now) {
        Some(user_id) => post == pre.without_one_time_token(hash) && r == Ok::<
            Option<u128>,
            ApiError,
        >(Some(user_id)),
        None => post == pre && r == Ok::<Option<u128>, ApiError>(None),
    }
}

/// What verifying an e-mail address does and returns: a token that can be
/// consumed at `now` is deleted and its owner's address marked as
/// verified; any other token is turned away and nothing changes.
pub open spec fn verify_email_outcome(
    pre: IdentityState,
    post: IdentityState,
    token: Seq<char>,
    now: i64,
    r: Result<(), ApiError>,
) -> bool {
    let hash = blake3_hex_digest(token);
    match pre.consumable(hash, TokenType::EmailVerification, now) {
        Some(user_id) => post == pre.without_one_time_token(hash).with_verified(user_id, now)
            && r is Ok,
        None => post == pre && fails_with(r, ErrorKind::InvalidOrExpiredToken),
    }
}

/// What asking for a password reset does and returns. For an address
/// that no user has, nothing is stored and no message is made, and the
/// call still succeeds. For a known address the token is stored and the
/// message that carries it is returned.
pub open spec fn reset_request_outcome(
    pre: IdentityState,
    post: IdentityState,
    email: Seq<char>,
    token: Seq<char>,
    now: i64,
    r: Result<Option<OutgoingEmail>, ApiError>,
) -> bool {
    let hash = blake3_hex_digest(token);
    if !pre.has_email(email) {
        post == pre && r matches Ok(None)
    } else if expiry_after(now, RESET_TTL_SECONDS) is None || pre.one_time_tokens.contains_key(hash) {
        post == pre && is_internal(r)
    } else {
        forall|user: UserRow| #[trigger]
            pre.users.contains(user) && user.email == email ==> {
                &&& post == pre.with_one_time_token(
                    hash,
                    OneTimeTokenRow {
                        user_id: user.id,
                        token_type: TokenType::PasswordReset,
                        expires_at: expiry_after(now, RESET_TTL_SECONDS).unwrap(),
                    },
                )
                &&& r matches Ok(Some(mail)) && mail.to@ == user.email && mail.subject@
                    == reset_subject() && mail.html_body@ == reset_body(user.username, token)
            }
    }
}

/// What resetting a password does and returns. A confirmation that
/// differs, or a password that breaks the policy, is a validation error,
/// and a token that cannot be consumed at `now` is turned away; in each
/// case nothing changes. Otherwise the token is deleted, the owner's
/// password hash replaced, and every refresh token of the owner deleted.
pub open spec fn reset_outcome(
    pre: IdentityState,
    post: IdentityState,
    token: Seq<char>,
    new_password: Seq<char>,
    confirm_password: Seq<char>,
    new_hash: Seq<char>,
    now: i64,
    r: Result<(), ApiError>,
) -> bool {
    let hash = blake3_hex_digest(token);
    if new_password != confirm_password {
        post == pre && fails_saying(r, ErrorKind::ValidationError, "新密码与确认密码不匹配"@)
    } else {
        match password_violation(new_password) {
            Some(v) => post == pre && fails_saying(
                r,
                ErrorKind::ValidationError,
                violation_text(v),
            ),
            None => match pre.consumable(hash, TokenType::PasswordReset, now) {
                Some(user_id) => post == pre.without_one_time_token(hash).with_password(
                    user_id,
                    new_hash,
                    now,
                ).without_refresh_tokens_of(user_id) && r is Ok,
                None => post == pre && fails_with(r, ErrorKind::InvalidOrExpiredToken),
            },
        }
    }
}

/// In a store that keeps the uniqueness rules, two roles of one name are
/// one role.
pub proof fn lemma_role_unique(st: IdentityState, a: NamedRow, b: NamedRow)
    requires
        st.valid(),
        st.roles.contains(a),
        st.roles.contains(b),
        a.name == b.name,
    ensures
        a == b,
{
    let i = choose|i: int| 0 <= i < st.roles.len() && st.roles[i] == a;
    let j = choose|j: int| 0 <= j < st.roles.len() && st.roles[j] == b;
    if i < j {
        assert(st.roles[i].name != st.roles[j].name);
    } else if j < i {
        assert(st.roles[j].name != st.roles[i].name);
    }
}

/// `now + ttl`, where the clock can show it.
pub fn expiry_from(now: i64, ttl: i64) -> (r: Option<i64>)
    ensures
        r == expiry_after(now, ttl),
{
    now.checked_add(ttl)
}

/// The error for a store that failed.
pub fn store_fault() -> (e: ApiError)
    ensures
        e.kind == ErrorKind::InternalError,
{
    ApiError::new(ErrorKind::InternalError, "数据库操作失败")
}

/// The error for a token of any sort that is not accepted.
pub fn token_rejected(message: &str) -> (e: ApiError)
    ensures
        e.kind == ErrorKind::InvalidOrExpiredToken,
        e.message@ == message@,
{
    ApiError::new(ErrorKind::InvalidOrExpiredToken, message)
}

/// `now + duration`, held at the ends of the range.
pub fn lockout_end(now: i64, duration: i64) -> (r: i64)
    ensures
        r == lockout_until(now, duration),
{
    match now.checked_add(duration) {
        Some(v) => v,
        None => if duration > 0 {
            i64::MAX
        } else {
            i64::MIN
        },
    }
}

/// Whether a failure count calls for a lockout.
pub fn reached_threshold(count: i32, max_failures: u32) -> (r: bool)
    ensures
        r == lockout_reached(count, max_failures),
{
    if count < 0 {
        true
    } else {
        (count as u32) >= max_failures
    }
}

/// The expiry of an access token issued at `now`.
pub fn access_token_expiry(now: i64, minutes: i64) -> (r: Option<usize>)
    ensures
        r == access_expiry(now, minutes),
{
    match minutes.checked_mul(60) {
        Some(span) => match now.checked_add(span) {
            Some(v) => if v >= 0 && (v as u64) <= (usize::MAX as u64) {
                Some(v as usize)
            } else {
                None
            },
            None => None,
        },
        None => None,
    }
}

/// The expiry of a refresh token issued at `now`.
pub fn refresh_token_expiry(now: i64, days: i64) -> (r: Option<i64>)
    ensures
        r == refresh_expiry(now, days),
{
    match days.checked_mul(86400) {
        Some(span) => now.checked_add(span),
        None => None,
    }
}

/// The error that reports a lockout with the time it still lasts.
fn locked_error(seconds: i64) -> (e: ApiError)
    requires
        seconds >= 0,
    ensures
        e.kind == (ErrorKind::AccountLocked { retry_after: seconds }),
        e.message@ == locked_message(seconds),
{
    let mut message = "账户已被锁定，请在 ".to_owned();
    push_decimal(&mut message, (seconds / 60) as u64);
    message.append(" 分 ");
    push_decimal(&mut message, (seconds % 60) as u64);
    message.append(" 秒后重试");
    ApiError { kind: ErrorKind::AccountLocked { retry_after: seconds }, message }
}

impl<S: UserRepository + RoleRepository + LoginAttemptRepository + OneTimeTokenRepository> AuthService<
    S,
> {
    /// A service over a store, with the authentication settings of the
    /// configuration.
    pub fn new(store: S, config: &AppConfig) -> (s: Self)
        ensures
            s.store == store,
            s.token_counter == 0,
            s.config.jwt_secret@ == config.auth.jwt_secret@,
            s.config.jwt_issuer@ == config.auth.jwt_issuer@,
            s.config.jwt_audience@ == config.auth.jwt_audience@,
            s.config.access_token_expiry_minutes == config.auth.access_token_expiry_minutes,
            s.config.refresh_token_expiry_days == config.auth.refresh_token_expiry_days,
            s.config.max_login_failures == config.auth.max_login_failures,
            s.config.lockout_duration_seconds == config.auth.lockout_duration_seconds,
    {
        AuthService {
            store,
            config: AuthConfig {
                jwt_secret: config.auth.jwt_secret.clone(),
                jwt_issuer: config.auth.jwt_issuer.clone(),
                jwt_audience: config.auth.jwt_audience.clone(),
                access_token_expiry_minutes: config.auth.access_token_expiry_minutes,
                refresh_token_expiry_days: config.auth.refresh_token_expiry_days,
                max_login_failures: config.auth.max_login_failures,
                lockout_duration_seconds: config.auth.lockout_duration_seconds,
            },
            token_counter: 0,
        }
    }

    /// Validates an access token against the clock given: signature,
    /// issuer, audience and expiry. Every failure gives the same error. A
    /// text without a full stop, as every refresh token is, is turned away.
    pub fn validate_token_at(&self, token: &str, now: i64) -> (r: Result<Claims, ApiError>)
        ensures
            validated(self.config, token@, now, r),
            !token@.contains('.') ==> fails_with(r, ErrorKind::InvalidOrExpiredToken),
    {
        match decode_claims(
            token,
            self.config.jwt_secret.as_str(),
            self.config.jwt_issuer.as_str(),
            self.config.jwt_audience.as_str(),
        ) {
            Some(claims) => {
                if expired_at(claims.exp, now) {
                    Err(token_rejected("无效或过期的 Token"))
                } else {
                    Ok(claims)
                }
            },
            None => Err(token_rejected("无效或过期的 Token")),
        }
    }

    /// Validates an access token against the wall clock.
    pub fn validate_token(&self, token: &str) -> (r: Result<Claims, ApiError>)
        ensures
            exists|now: i64| validated(self.config, token@, now, r),
            !token@.contains('.') ==> fails_with(r, ErrorKind::InvalidOrExpiredToken),
    {
        let now = unix_now();
        let r = self.validate_token_at(token, now);
        assert(validated(self.config, token@, now, r));
        r
    }

    /// Fails with `AccountLocked` where a lockout on the username is
    /// active at `now`; passes otherwise.
    pub fn check_lockout_status(&self, username: &str, now: i64) -> (r: Result<(), ApiError>)
        requires
            self.store.well_formed(),
        ensures
            self.store.reliable() ==> !is_internal(r),
            match r {
                Ok(_) => !self.store.state().locked_at(username@, now),
                Err(e) => e.kind == ErrorKind::InternalError || (self.store.state().locked_at(
                    username@,
                    now,
                ) && e.kind == (ErrorKind::AccountLocked {
                    retry_after: remaining_lockout(self.store.state(), username@, now),
                }) && e.message@ == locked_message(
                    remaining_lockout(self.store.state(), username@, now),
                )),
            },
    {
        match self.store.get_by_username(username) {
            Err(_) => Err(store_fault()),
            Ok(None) => Ok(()),
            Ok(Some(attempt)) => match attempt.lockout_expires_at {
                None => Ok(()),
                Some(until) => {
                    if now < until {
                        let seconds: i64 = match until.checked_sub(now) {
                            Some(v) => v,
                            None => i64::MAX,
                        };
                        Err(locked_error(seconds))
                    } else {
                        Ok(())
                    }
                },
            },
        }
    }

    /// Counts a failed login and locks the username out where the count
    /// has reached the threshold.
    pub fn handle_login_failure(&mut self, username: &str, now: i64) -> (r: Result<(), ApiError>)
        requires
            old(self).store.well_formed(),
        ensures
            final(self).store.well_formed(),
            final(self).store.reliable() == old(self).store.reliable(),
            final(self).config == old(self).config,
            final(self).token_counter == old(self).token_counter,
            old(self).store.reliable() ==> r is Ok,
            r matches Err(e) ==> e.kind == ErrorKind::InternalError,
            r is Ok ==> final(self).store.state() == after_failed_login(
                old(self).store.state(),
                username@,
                now,
                old(self).config.max_login_failures,
                old(self).config.lockout_duration_seconds,
            ),
    {
        let count = match self.store.record_failure(username) {
            Ok(n) => n,
            Err(_) => {
                return Err(store_fault());
            },
        };
        if reached_threshold(count, self.config.max_login_failures) {
            let until = lockout_end(now, self.config.lockout_duration_seconds);
            match self.store.set_lockout(username, until) {
                Ok(_) => {},
                Err(_) => {
                    return Err(store_fault());
                },
            }
        }
        Ok(())
    }

    /// Clears counter and lockout of a username after a successful login.
    pub fn handle_login_success(&mut self, username: &str) -> (r: Result<(), ApiError>)
        requires
            old(self).store.well_formed(),
        ensures
            final(self).store.well_formed(),
            final(self).store.reliable() == old(self).store.reliable(),
            final(self).config == old(self).config,
            final(self).token_counter == old(self).token_counter,
            old(self).store.reliable() ==> r is Ok,
            r matches Err(e) ==> e.kind == ErrorKind::InternalError,
            r is Ok ==> final(self).store.state() == old(self).store.state().without_attempt(
                username@,
            ),
    {
        match self.store.clear_for_username(username) {
            Ok(_) => Ok(()),
            Err(_) => Err(store_fault()),
        }
    }

    /// Issues an access token and stores the given refresh token for a user.
    pub fn generate_and_store_tokens(
        &mut self,
        user: &User,
        now: i64,
        refresh_token: &str,
        jti: &str,
    ) -> (r: Result<LoginTokens, ApiError>)
        requires
            old(self).store.well_formed(),
        ensures
            final(self).store.well_formed(),
            final(self).store.reliable() == old(self).store.reliable(),
            final(self).config == old(self).config,
            final(self).token_counter == old(self).token_counter,
            r matches Err(e) ==> e.kind == ErrorKind::InternalError && final(self).store.state()
                == old(self).store.state(),
            old(self).store.reliable() || r is Ok ==> issued(
                old(self).store.state(),
                final(self).store.state(),
                old(self).config,
                user@,
                now,
                refresh_token@,
                jti@,
                r,
            ),
    {
        let exp = match access_token_expiry(now, self.config.access_token_expiry_minutes) {
            Some(v) => v,
            None => {
                return Err(ApiError::new(ErrorKind::InternalError, "生成 Access Token 失败"));
            },
        };
        let refresh_exp = match refresh_token_expiry(now, self.config.refresh_token_expiry_days) {
            Some(v) => v,
            None => {
                return Err(ApiError::new(ErrorKind::InternalError, "生成 Refresh Token 失败"));
            },
        };
        let roles = match self.store.get_user_roles(user.id) {
            Ok(v) => v,
            Err(_) => {
                return Err(store_fault());
            },
        };
        let permissions = match self.store.get_user_permissions(user.id) {
            Ok(v) => v,
            Err(_) => {
                return Err(store_fault());
            },
        };
        let claims = Claims {
            sub: uuid_to_string(user.id),
            username: user.username.clone(),
            exp,
            jti: jti.to_owned(),
            roles,
            permissions,
        };
        assert(claims_for(old(self).store.state(), old(self).config, user@, now, jti@, claims@));
        let access_token = match encode_claims(
            &claims,
            self.config.jwt_secret.as_str(),
            self.config.jwt_issuer.as_str(),
            self.config.jwt_audience.as_str(),
        ) {
            Ok(t) => t,
            Err(e) => {
                return Err(e);
            },
        };
        let refresh_hash = hash_token(refresh_token);
        match self.store.store_refresh_token(user.id, refresh_hash.as_str(), refresh_exp) {
            Ok(_) => {},
            Err(_) => {
                return Err(store_fault());
            },
        }
        Ok(LoginTokens { access_token, refresh_token: refresh_token.to_owned() })
    }

    /// Deletes a refresh token: the session it stood for is over.
    pub fn logout(&mut self, refresh_token: &str) -> (r: Result<(), ApiError>)
        requires
            old(self).store.well_formed(),
        ensures
            final(self).store.well_formed(),
            final(self).store.reliable() == old(self).store.reliable(),
            final(self).config == old(self).config,
            final(self).token_counter == old(self).token_counter,
            old(self).store.reliable() ==> r is Ok,
            match r {
                Ok(_) => final(self).store.state() == old(self).store.state().without_refresh_token(
                    blake3_hex_digest(refresh_token@),
                ),
                Err(e) => e.kind == ErrorKind::InternalError
                    && final(self).store.state() == old(self).store.state(),
            },
    {
        let token_hash = hash_token(refresh_token);
        match self.store.delete_refresh_token(token_hash.as_str()) {
            Ok(_) => Ok(()),
            Err(_) => Err(store_fault()),
        }
    }

    /// The public profile of a user.
    pub fn user_public(&self, user: &User) -> (r: Result<UserPublic, ApiError>)
        requires
            self.store.well_formed(),
        ensures
            self.store.reliable() ==> r is Ok,
            r matches Err(e) ==> e.kind == ErrorKind::InternalError,
            r matches Ok(p) ==> public_profile(p, user@, self.store.state()),
    {
        match self.store.get_user_roles(user.id) {
            Ok(roles) => Ok(
                UserPublic {
                    id: user.id,
                    username: user.username.clone(),
                    email: user.email.clone(),
                    created_at: user.created_at,
                    roles,
                },
            ),
            Err(_) => Err(store_fault()),
        }
    }

    /// Logs a user in at `now`, with the refresh token and the token
    /// identifier to use. Of a store that can be relied on, and whenever
    /// the result is no internal error, the outcome is as `login_outcome`
    /// says.
    pub fn login_user_with(
        &mut self,
        payload: &UserLoginPayload,
        now: i64,
        refresh_token: &str,
        jti: &str,
    ) -> (r: Result<(LoginTokens, UserPublic), ApiError>)
        requires
            old(self).store.well_formed(),
        ensures
            final(self).store.well_formed(),
            final(self).store.reliable() == old(self).store.reliable(),
            final(self).config == old(self).config,
            final(self).token_counter == old(self).token_counter,
            r matches Ok(x) ==> x.0.refresh_token@ == refresh_token@,
            old(self).store.reliable() || !is_internal(r) ==> login_outcome(
                old(self).store.state(),
                final(self).store.state(),
                old(self).config,
                payload.username@,
                payload.password@,
                now,
                refresh_token@,
                jti@,
                r,
            ),
    {
        let ghost pre = self.store.state();
        let username = payload.username.as_str();
        match self.check_lockout_status(username, now) {
            Ok(_) => {},
            Err(e) => {
                return Err(e);
            },
        }
        let found = match self.store.find_by_username(username) {
            Ok(f) => f,
            Err(_) => {
                return Err(store_fault());
            },
        };
        let user = match found {
            Some(u) => u,
            None => {
                match self.handle_login_failure(username, now) {
                    Ok(_) => {},
                    Err(e) => {
                        return Err(e);
                    },
                }
                return Err(ApiError::new(ErrorKind::InvalidCredentials, "用户名或密码不正确"));
            },
        };
        assert(pre.has_username(username@)) by {
            let i = choose|i: int| 0 <= i < pre.users.len() && pre.users[i] == user@;
            assert(pre.users[i].username == username@);
        }
        assert forall|other: UserRow| #[trigger]
            pre.users.contains(other) && other.username == username@ implies other == user@ by {
            lemma_user_unique(pre, other, user@);
        }
        let matches = match verify_password(user.hashed_password.as_str(), payload.password.as_str()) {
            Ok(m) => m,
            Err(e) => {
                return Err(e);
            },
        };
        if !matches {
            match self.handle_login_failure(username, now) {
                Ok(_) => {},
                Err(e) => {
                    return Err(e);
                },
            }
            return Err(ApiError::new(ErrorKind::InvalidCredentials, "用户名或密码不正确"));
        }
        match self.handle_login_success(username) {
            Ok(_) => {},
            Err(e) => {
                return Err(e);
            },
        }
        let tokens = match self.generate_and_store_tokens(&user, now, refresh_token, jti) {
            Ok(t) => t,
            Err(e) => {
                return Err(e);
            },
        };
        let public = match self.user_public(&user) {
            Ok(p) => p,
            Err(e) => {
                return Err(e);
            },
        };
        Ok((tokens, public))
    }

    /// Logs a user in: the clock is read, and a fresh refresh token and
    /// token identifier are drawn.
    pub fn login_user(&mut self, payload: &UserLoginPayload) -> (r: Result<
        (LoginTokens, UserPublic),
        ApiError,
    >)
        requires
            old(self).store.well_formed(),
        ensures
            final(self).store.well_formed(),
            final(self).store.reliable() == old(self).store.reliable(),
            final(self).config == old(self).config,
            final(self).token_counter == old(self).token_counter,
            r matches Ok(x) ==> is_refresh_token(x.0.refresh_token@),
            old(self).store.reliable() || !is_internal(r) ==> exists|
                now: i64,
                refresh_token: Seq<char>,
                jti: Seq<char>,
            |
                is_refresh_token(refresh_token) && #[trigger] login_outcome(
                    old(self).store.state(),
                    final(self).store.state(),
                    old(self).config,
                    payload.username@,
                    payload.password@,
                    now,
                    refresh_token,
                    jti,
                    r,
                ),
    {
        let now = unix_now();
        let refresh_token = generate_refresh_token();
        let jti = uuid_to_string(uuid_new_v4());
        let r = self.login_user_with(payload, now, refresh_token.as_str(), jti.as_str());
        proof {
            if old(self).store.reliable() || !is_internal(r) {
                assert(login_outcome(
                    old(self).store.state(),
                    self.store.state(),
                    old(self).config,
                    payload.username@,
                    payload.password@,
                    now,
                    refresh_token@,
                    jti@,
                    r,
                ));
            }
        }
        r
    }

    /// Exchanges a refresh token for a new pair at `now`, with the new
    /// refresh token and token identifier to use. The old token is deleted
    /// before the new pair is issued.
    pub fn refresh_access_token_with(
        &mut self,
        refresh_token: &str,
        now: i64,
        new_refresh_token: &str,
        jti: &str,
    ) -> (r: Result<LoginTokens, ApiError>)
        requires
            old(self).store.well_formed(),
        ensures
            final(self).store.well_formed(),
            final(self).store.reliable() == old(self).store.reliable(),
            final(self).config == old(self).config,
            final(self).token_counter == old(self).token_counter,
            r matches Ok(tokens) ==> tokens.refresh_token@ == new_refresh_token@,
            old(self).store.reliable() || !is_internal(r) ==> refresh_outcome(
                old(self).store.state(),
                final(self).store.state(),
                old(self).config,
                refresh_token@,
                now,
                new_refresh_token@,
                jti@,
                r,
            ),
    {
        let ghost pre = self.store.state();
        let token_hash = hash_token(refresh_token);
        let found = match self.store.find_user_by_refresh_token(token_hash.as_str(), now) {
            Ok(f) => f,
            Err(_) => {
                return Err(store_fault());
            },
        };
        let user = match found {
            Some(u) => u,
            None => {
                return Err(token_rejected("无效的 Refresh Token"));
            },
        };
        assert(pre.has_user_id(user.id)) by {
            let i = choose|i: int| 0 <= i < pre.users.len() && pre.users[i] == user@;
            assert(pre.users[i].id == user.id);
        }
        assert forall|other: UserRow| #[trigger]
            pre.users.contains(other) && other.id == user.id implies other == user@ by {
            lemma_user_unique(pre, other, user@);
        }
        match self.store.delete_refresh_token(token_hash.as_str()) {
            Ok(_) => {},
            Err(_) => {
                return Err(store_fault());
            },
        }
        self.generate_and_store_tokens(&user, now, new_refresh_token, jti)
    }

    /// Exchanges a refresh token for a new pair: the clock is read, and a
    /// fresh refresh token and token identifier are drawn.
    pub fn refresh_access_token(&mut self, refresh_token: &str) -> (r: Result<LoginTokens, ApiError>)
        requires
            old(self).store.well_formed(),
        ensures
            final(self).store.well_formed(),
            final(self).store.reliable() == old(self).store.reliable(),
            final(self).config == old(self).config,
            final(self).token_counter == old(self).token_counter,
            r matches Ok(tokens) ==> is_refresh_token(tokens.refresh_token@),
            old(self).store.reliable() || !is_internal(r) ==> exists|
                now: i64,
                new_token: Seq<char>,
                jti: Seq<char>,
            |
                is_refresh_token(new_token) && #[trigger] refresh_outcome(
                    old(self).store.state(),
                    final(self).store.state(),
                    old(self).config,
                    refresh_token@,
                    now,
                    new_token,
                    jti,
                    r,
                ),
    {
        let now = unix_now();
        let new_refresh_token = generate_refresh_token();
        let jti = uuid_to_string(uuid_new_v4());
        let r = self.refresh_access_token_with(
            refresh_token,
            now,
            new_refresh_token.as_str(),
            jti.as_str(),
        );
        proof {
            if old(self).store.reliable() || !is_internal(r) {
                assert(refresh_outcome(
                    old(self).store.state(),
                    self.store.state(),
                    old(self).config,
                    refresh_token@,
                    now,
                    new_refresh_token@,
                    jti@,
                    r,
                ));
            }
        }
        r
    }

    /// What is checked of a registration before the password is hashed:
    /// the password, then the username, then the address.
    pub fn check_registration(&self, payload: &UserRegistrationPayload) -> (r: Result<(), ApiError>)
        requires
            self.store.well_formed(),
        ensures
            password_violation(payload.password@) matches Some(v) ==> fails_saying(
                r,
                ErrorKind::ValidationError,
                violation_text(v),
            ),
            self.store.reliable() ==> !is_internal(r),
            !is_internal(r) ==> registration_checked(
                self.store.state(),
                payload.username@,
                payload.email@,
                payload.password@,
                r,
            ),
    {
        let ghost pre = self.store.state();
        match validate_password_strength(payload.password.as_str()) {
            Ok(_) => {},
            Err(e) => {
                return Err(e);
            },
        }
        match self.store.find_by_username(payload.username.as_str()) {
            Ok(None) => {},
            Ok(Some(u)) => {
                proof {
                    let i = choose|i: int| 0 <= i < pre.users.len() && pre.users[i] == u@;
                    assert(pre.users[i].username == payload.username@);
                }
                return Err(ApiError::new(ErrorKind::Conflict, "用户名已被占用"));
            },
            Err(_) => {
                return Err(store_fault());
            },
        }
        match self.store.find_by_email(payload.email.as_str()) {
            Ok(None) => Ok(()),
            Ok(Some(u)) => {
                proof {
                    let i = choose|i: int| 0 <= i < pre.users.len() && pre.users[i] == u@;
                    assert(pre.users[i].email == payload.email@);
                }
                Err(ApiError::new(ErrorKind::Conflict, "邮箱已被注册"))
            },
            Err(_) => Err(store_fault()),
        }
    }

    /// Writes a registration at `now`: the user with the default role and
    /// the verification token, in one step, and makes the message that
    /// carries the token.
    pub fn complete_registration(
        &mut self,
        payload: &UserRegistrationPayload,
        hashed_password: &str,
        new_id: u128,
        verification_token: &str,
        now: i64,
    ) -> (r: Result<(UserPublic, OutgoingEmail), ApiError>)
        requires
            old(self).store.well_formed(),
        ensures
            final(self).store.well_formed(),
            final(self).store.reliable() == old(self).store.reliable(),
            final(self).config == old(self).config,
            final(self).token_counter == old(self).token_counter,
            old(self).store.reliable() && is_internal(r)
                ==> final(self).store.state() == old(self).store.state(),
            old(self).store.reliable() || !is_internal(r) ==> registration_written(
                old(self).store.state(),
                final(self).store.state(),
                payload.username@,
                payload.email@,
                hashed_password@,
                new_id,
                verification_token@,
                now,
                r,
            ),
    {
        let ghost pre = self.store.state();
        let role = match self.store.find_by_name("author") {
            Ok(Some(role)) => role,
            Ok(None) => {
                return Err(
                    ApiError::new(ErrorKind::InternalError, "服务器内部配置错误，无法完成注册。"),
                );
            },
            Err(_) => {
                return Err(store_fault());
            },
        };
        proof {
            let i = choose|i: int| 0 <= i < pre.roles.len() && pre.roles[i] == role@;
            assert(pre.roles[i].name == default_role());
            assert forall|other: NamedRow| #[trigger]
                pre.is_role_named(other, default_role()) implies other == role@ by {
                lemma_role_unique(pre, other, role@);
            }
        }
        let expires_at = match expiry_from(now, VERIFICATION_TTL_SECONDS) {
            Some(v) => v,
            None => {
                return Err(ApiError::new(ErrorKind::InternalError, "无法计算令牌有效期"));
            },
        };
        let user = User {
            id: new_id,
            username: payload.username.clone(),
            email: payload.email.clone(),
            hashed_password: hashed_password.to_owned(),
            created_at: now,
            updated_at: now,
            email_verified_at: None,
        };
        let token_hash = hash_token(verification_token);
        match self.store.create_registered(&user, role.id, token_hash.as_str(), expires_at) {
            Ok(_) => {},
            Err(StoreError::Conflict) => {
                return Err(ApiError::new(ErrorKind::Conflict, "记录已存在或与现有数据冲突"));
            },
            Err(_) => {
                return Err(store_fault());
            },
        }
        let public = match self.user_public(&user) {
            Ok(p) => p,
            Err(e) => {
                return Err(e);
            },
        };
        let mail = verification_email(
            user.email.as_str(),
            user.username.as_str(),
            verification_token,
        );
        Ok((public, mail))
    }

    /// Registers a user at `now`, with the password hash, the identifier
    /// and the verification token to use.
    pub fn register_user_with(
        &mut self,
        payload: &UserRegistrationPayload,
        hashed_password: &str,
        new_id: u128,
        verification_token: &str,
        now: i64,
    ) -> (r: Result<(UserPublic, OutgoingEmail), ApiError>)
        requires
            old(self).store.well_formed(),
        ensures
            final(self).store.well_formed(),
            final(self).store.reliable() == old(self).store.reliable(),
            final(self).config == old(self).config,
            final(self).token_counter == old(self).token_counter,
            password_violation(payload.password@) matches Some(v) ==> fails_saying(
                r,
                ErrorKind::ValidationError,
                violation_text(v),
            ) && final(self).store.state() == old(self).store.state(),
            old(self).store.reliable() && is_internal(r)
                ==> final(self).store.state() == old(self).store.state(),
            old(self).store.reliable() || !is_internal(r) ==> register_outcome(
                old(self).store.state(),
                final(self).store.state(),
                payload.username@,
                payload.email@,
                payload.password@,
                hashed_password@,
                new_id,
                verification_token@,
                now,
                r,
            ),
    {
        match self.check_registration(payload) {
            Ok(_) => {},
            Err(e) => {
                return Err(e);
            },
        }
        self.complete_registration(payload, hashed_password, new_id, verification_token, now)
    }

    /// Registers a user. The password, the username and the address are
    /// checked first; only then is the password hashed, the clock read,
    /// and a fresh identifier and verification token drawn. The hash that
    /// is stored verifies against the password.
    pub fn register_user(&mut self, payload: &UserRegistrationPayload) -> (r: Result<
        (UserPublic, OutgoingEmail),
        ApiError,
    >)
        requires
            old(self).store.well_formed(),
        ensures
            final(self).store.well_formed(),
            final(self).store.reliable() == old(self).store.reliable(),
            final(self).config == old(self).config,
            final(self).token_counter == old(self).token_counter || final(self).token_counter
                == next_counter(old(self).token_counter),
            password_violation(payload.password@) matches Some(v) ==> fails_saying(
                r,
                ErrorKind::ValidationError,
                violation_text(v),
            ) && final(self).store.state() == old(self).store.state() && final(self).token_counter
                == old(self).token_counter,
            old(self).store.reliable() && password_violation(payload.password@) is None
                && (old(self).store.state().has_username(payload.username@)
                || old(self).store.state().has_email(payload.email@))
                ==> fails_with(r, ErrorKind::Conflict)
                && final(self).store.state() == old(self).store.state()
                && final(self).token_counter == old(self).token_counter,
            old(self).store.reliable() && is_internal(r)
                ==> final(self).store.state() == old(self).store.state(),
            !is_internal(r) ==> exists|hashed: Seq<char>, new_id: u128, token: Seq<char>, now: i64|
                (r is Ok ==> argon2_check(hashed, payload.password@) == PasswordCheck::Match)
                    && #[trigger] register_outcome(
                    old(self).store.state(),
                    final(self).store.state(),
                    payload.username@,
                    payload.email@,
                    payload.password@,
                    hashed,
                    new_id,
                    token,
                    now,
                    r,
                ),
    {
        match self.check_registration(payload) {
            Ok(_) => {},
            Err(e) => {
                let r = Err(e);
                proof {
                    if !is_internal(r) {
                        assert(register_outcome(
                            old(self).store.state(),
                            self.store.state(),
                            payload.username@,
                            payload.email@,
                            payload.password@,
                            Seq::<char>::empty(),
                            0u128,
                            Seq::<char>::empty(),
                            0i64,
                            r,
                        ));
                    }
                }
                return r;
            },
        }
        let hashed = match hash_password(payload.password.as_str()) {
            Ok(h) => h,
            Err(e) => {
                return Err(e);
            },
        };
        let now = unix_now();
        let new_id = uuid_new_v4();
        let token = generate_one_time_token(&mut self.token_counter);
        let r = self.complete_registration(payload, hashed.as_str(), new_id, token.as_str(), now);
        proof {
            if !is_internal(r) {
                assert(register_outcome(
                    old(self).store.state(),
                    self.store.state(),
                    payload.username@,
                    payload.email@,
                    payload.password@,
                    hashed@,
                    new_id,
                    token@,
                    now,
                    r,
                ));
            }
        }
        r
    }

    /// Issues a one-time token for a user at `now`: the given token is
    /// stored under its hash and is good for `ttl` seconds.
    pub fn issue_one_time_token_with(
        &mut self,
        user_id: u128,
        token_type: TokenType,
        ttl: i64,
        token: &str,
        now: i64,
    ) -> (r: Result<(), ApiError>)
        requires
            old(self).store.well_formed(),
        ensures
            final(self).store.well_formed(),
            final(self).store.reliable() == old(self).store.reliable(),
            final(self).config == old(self).config,
            final(self).token_counter == old(self).token_counter,
            r matches Err(e) ==> e.kind == ErrorKind::InternalError && final(self).store.state()
                == old(self).store.state(),
            old(self).store.reliable() || r is Ok ==> issue_outcome(
                old(self).store.state(),
                final(self).store.state(),
                user_id,
                token_type,
                ttl,
                token@,
                now,
                r,
            ),
    {
        let expires_at = match expiry_from(now, ttl) {
            Some(v) => v,
            None => {
                return Err(ApiError::new(ErrorKind::InternalError, "无法计算令牌有效期"));
            },
        };
        let token_hash = hash_token(token);
        match self.store.store_token(user_id, token_hash.as_str(), token_type, expires_at) {
            Ok(_) => Ok(()),
            Err(_) => Err(store_fault()),
        }
    }

    /// Issues a fresh one-time token for a user, good for `ttl` seconds:
    /// the clock is read and the token drawn. The token is handed out in
    /// clear; the store holds its hash only.
    pub fn issue_one_time_token(&mut self, user_id: u128, token_type: TokenType, ttl: i64) -> (r:
        Result<String, ApiError>)
        requires
            old(self).store.well_formed(),
        ensures
            final(self).store.well_formed(),
            final(self).store.reliable() == old(self).store.reliable(),
            final(self).config == old(self).config,
            final(self).token_counter == next_counter(old(self).token_counter),
            match r {
                Ok(token) => exists|now: i64|
                    one_time_token_stored(
                        old(self).store.state(),
                        final(self).store.state(),
                        user_id,
                        token_type,
                        ttl,
                        token@,
                        now,
                    ),
                Err(e) => e.kind == ErrorKind::InternalError
                    && final(self).store.state() == old(self).store.state(),
            },
    {
        let now = unix_now();
        let token = generate_one_time_token(&mut self.token_counter);
        match self.issue_one_time_token_with(user_id, token_type, ttl, token.as_str(), now) {
            Ok(_) => {},
            Err(e) => {
                return Err(e);
            },
        }
        let ghost text = token@;
        let r = Ok(token);
        proof {
            assert(one_time_token_stored(
                old(self).store.state(),
                self.store.state(),
                user_id,
                token_type,
                ttl,
                text,
                now,
            ));
            assert(r matches Ok(t) && t@ == text);
        }
        r
    }

    /// Consumes a one-time token at `now`: looks it up and deletes it, in
    /// one step, and returns its owner. An unknown, an expired and a used
    /// token all give `None`.
    pub fn consume_one_time_token_at(&mut self, token: &str, token_type: TokenType, now: i64) -> (r:
        Result<Option<u128>, ApiError>)
        requires
            old(self).store.well_formed(),
        ensures
            final(self).store.well_formed(),
            final(self).store.reliable() == old(self).store.reliable(),
            final(self).config == old(self).config,
            final(self).token_counter == old(self).token_counter,
            r matches Err(e) ==> e.kind == ErrorKind::InternalError,
            old(self).store.reliable() ==> r is Ok,
            r is Ok ==> consume_outcome(
                old(self).store.state(),
                final(self).store.state(),
                token@,
                token_type,
                now,
                r,
            ),
    {
        let token_hash = hash_token(token);
        match self.store.find_and_consume_token(token_hash.as_str(), token_type, now) {
            Ok(found) => Ok(found),
            Err(_) => Err(store_fault()),
        }
    }

    /// Deletes every refresh token of a user: all sessions end.
    pub fn revoke_all(&mut self, user_id: u128) -> (r: Result<(), ApiError>)
        requires
            old(self).store.well_formed(),
        ensures
            final(self).store.well_formed(),
            final(self).store.reliable() == old(self).store.reliable(),
            final(self).config == old(self).config,
            final(self).token_counter == old(self).token_counter,
            old(self).store.reliable() ==> r is Ok,
            match r {
                Ok(_) => final(self).store.state() == old(self).store.state().without_refresh_tokens_of(user_id),
                Err(e) => e.kind == ErrorKind::InternalError
                    && final(self).store.state() == old(self).store.state(),
            },
    {
        match self.store.delete_all_refresh_token_for_user(user_id) {
            Ok(_) => Ok(()),
            Err(_) => Err(store_fault()),
        }
    }

    /// Verifies an e-mail address with a one-time token, at `now`.
    pub fn verify_email_at(&mut self, token: &str, now: i64) -> (r: Result<(), ApiError>)
        requires
            old(self).store.well_formed(),
        ensures
            final(self).store.well_formed(),
            final(self).store.reliable() == old(self).store.reliable(),
            final(self).config == old(self).config,
            final(self).token_counter == old(self).token_counter,
            old(self).store.reliable() || !is_internal(r) ==> verify_email_outcome(
                old(self).store.state(),
                final(self).store.state(),
                token@,
                now,
                r,
            ),
    {
        let user_id = match self.consume_one_time_token_at(
            token,
            TokenType::EmailVerification,
            now,
        ) {
            Ok(Some(id)) => id,
            Ok(None) => {
                return Err(token_rejected("邮箱验证失败：无效或已过期的令牌"));
            },
            Err(e) => {
                return Err(e);
            },
        };
        match self.store.mark_email_as_verified(user_id, now) {
            Ok(_) => Ok(()),
            Err(_) => Err(store_fault()),
        }
    }

    /// Verifies an e-mail address with a one-time token, by the wall clock.
    pub fn verify_email(&mut self, token: &str) -> (r: Result<(), ApiError>)
        requires
            old(self).store.well_formed(),
        ensures
            final(self).store.well_formed(),
            final(self).store.reliable() == old(self).store.reliable(),
            final(self).config == old(self).config,
            final(self).token_counter == old(self).token_counter,
            old(self).store.reliable() || !is_internal(r) ==> exists|now: i64|
                verify_email_outcome(
                    old(self).store.state(),
                    final(self).store.state(),
                    token@,
                    now,
                    r,
                ),
    {
        let now = unix_now();
        let r = self.verify_email_at(token, now);
        proof {
            if old(self).store.reliable() || !is_internal(r) {
                assert(verify_email_outcome(
                    old(self).store.state(),
                    self.store.state(),
                    token@,
                    now,
                    r,
                ));
            }
        }
        r
    }

    /// The user whom a password reset for an address is for, if there is
    /// one.
    fn reset_recipient(&self, email: &str) -> (r: Result<Option<User>, ApiError>)
        requires
            self.store.well_formed(),
        ensures
            self.store.reliable() ==> r is Ok,
            r matches Err(e) ==> e.kind == ErrorKind::InternalError,
            r matches Ok(found) ==> (match found {
                Some(user) => self.store.state().has_email(email@) && self.store.state().users.contains(
                    user@,
                ) && user@.email == email@ && forall|other: UserRow| #[trigger]
                    self.store.state().users.contains(other) && other.email == email@ ==> other
                        == user@,
                None => !self.store.state().has_email(email@),
            }),
    {
        let ghost pre = self.store.state();
        match self.store.find_by_email(email) {
            Ok(Some(user)) => {
                proof {
                    let i = choose|i: int| 0 <= i < pre.users.len() && pre.users[i] == user@;
                    assert(pre.users[i].email == email@);
                    assert forall|other: UserRow| #[trigger]
                        pre.users.contains(other) && other.email == email@ implies other
                        == user@ by {
                        lemma_user_unique(pre, other, user@);
                    }
                }
                Ok(Some(user))
            },
            Ok(None) => Ok(None),
            Err(_) => Err(store_fault()),
        }
    }

    /// Stores a reset token for a user at `now` and makes the message
    /// that carries it.
    fn issue_reset(&mut self, user: &User, reset_token: &str, now: i64) -> (r: Result<
        Option<OutgoingEmail>,
        ApiError,
    >)
        requires
            old(self).store.well_formed(),
        ensures
            final(self).store.well_formed(),
            final(self).store.reliable() == old(self).store.reliable(),
            final(self).config == old(self).config,
            final(self).token_counter == old(self).token_counter,
            r matches Err(e) ==> e.kind == ErrorKind::InternalError && final(self).store.state()
                == old(self).store.state(),
            r matches Ok(found) ==> (found matches Some(mail) && mail.to@ == user.email@
                && mail.subject@ == reset_subject() && mail.html_body@ == reset_body(
                user.username@,
                reset_token@,
            )),
            old(self).store.reliable() || r is Ok ==> (match expiry_after(now, RESET_TTL_SECONDS) {
                Some(expires_at) => if old(self).store.state().one_time_tokens.contains_key(
                    blake3_hex_digest(reset_token@),
                ) {
                    r is Err
                } else {
                    r is Ok && final(self).store.state() == old(self).store.state().with_one_time_token(
                        blake3_hex_digest(reset_token@),
                        OneTimeTokenRow {
                            user_id: user.id,
                            token_type: TokenType::PasswordReset,
                            expires_at,
                        },
                    )
                },
                None => r is Err,
            }),
    {
        match self.issue_one_time_token_with(
            user.id,
            TokenType::PasswordReset,
            RESET_TTL_SECONDS,
            reset_token,
            now,
        ) {
            Ok(_) => {},
            Err(e) => {
                return Err(e);
            },
        }
        Ok(Some(reset_email(user.email.as_str(), user.username.as_str(), reset_token)))
    }

    /// Handles a request for a password reset at `now`, with the reset
    /// token to use. The caller learns nothing of whether the address is
    /// known: the call succeeds either way.
    pub fn request_password_reset_with(&mut self, email: &str, reset_token: &str, now: i64) -> (r:
        Result<Option<OutgoingEmail>, ApiError>)
        requires
            old(self).store.well_formed(),
        ensures
            final(self).store.well_formed(),
            final(self).store.reliable() == old(self).store.reliable(),
            final(self).config == old(self).config,
            final(self).token_counter == old(self).token_counter,
            old(self).store.reliable() || !is_internal(r) ==> reset_request_outcome(
                old(self).store.state(),
                final(self).store.state(),
                email@,
                reset_token@,
                now,
                r,
            ),
    {
        let user = match self.reset_recipient(email) {
            Ok(Some(u)) => u,
            Ok(None) => {
                return Ok(None);
            },
            Err(e) => {
                return Err(e);
            },
        };
        self.issue_reset(&user, reset_token, now)
    }

    /// Handles a request for a password reset. The address is looked up
    /// first; only for a known address is the clock read and a fresh
    /// reset token drawn, so a request for an unknown address draws
    /// nothing and stores nothing.
    pub fn request_password_reset(&mut self, email: &str) -> (r: Result<
        Option<OutgoingEmail>,
        ApiError,
    >)
        requires
            old(self).store.well_formed(),
        ensures
            final(self).store.well_formed(),
            final(self).store.reliable() == old(self).store.reliable(),
            final(self).config == old(self).config,
            final(self).token_counter == old(self).token_counter || final(self).token_counter
                == next_counter(old(self).token_counter),
            old(self).store.reliable() && !old(self).store.state().has_email(email@)
                ==> final(self).store.state() == old(self).store.state()
                && final(self).token_counter == old(self).token_counter && r matches Ok(None),
            r is Err ==> final(self).store.state() == old(self).store.state(),
            old(self).store.reliable() || !is_internal(r) ==> exists|token: Seq<char>, now: i64|
                reset_request_outcome(
                    old(self).store.state(),
                    final(self).store.state(),
                    email@,
                    token,
                    now,
                    r,
                ),
    {
        let user = match self.reset_recipient(email) {
            Ok(Some(u)) => u,
            Ok(None) => {
                let r = Ok(None);
                proof {
                    assert(reset_request_outcome(
                        old(self).store.state(),
                        self.store.state(),
                        email@,
                        Seq::<char>::empty(),
                        0i64,
                        r,
                    ));
                }
                return r;
            },
            Err(e) => {
                return Err(e);
            },
        };
        let now = unix_now();
        let token = generate_one_time_token(&mut self.token_counter);
        let r = self.issue_reset(&user, token.as_str(), now);
        proof {
            if old(self).store.reliable() || !is_internal(r) {
                assert(reset_request_outcome(
                    old(self).store.state(),
                    self.store.state(),
                    email@,
                    token@,
                    now,
                    r,
                ));
            }
        }
        r
    }

    /// Resets a password at `now`, with the hash of the new password to
    /// store.
    pub fn reset_password_with(&mut self, payload: &ResetPasswordPayload, new_hash: &str, now: i64)
        -> (r: Result<(), ApiError>)
        requires
            old(self).store.well_formed(),
        ensures
            final(self).store.well_formed(),
            final(self).store.reliable() == old(self).store.reliable(),
            final(self).config == old(self).config,
            final(self).token_counter == old(self).token_counter,
            passwords_refusal(
                payload.new_password@,
                payload.confirm_password@,
                new_password_mismatch(),
            ) matches Some(m) ==> fails_saying(r, ErrorKind::ValidationError, m)
                && final(self).store.state() == old(self).store.state(),
            old(self).store.reliable() ==> !is_internal(r),
            old(self).store.reliable() || !is_internal(r) ==> reset_outcome(
                old(self).store.state(),
                final(self).store.state(),
                payload.token@,
                payload.new_password@,
                payload.confirm_password@,
                new_hash@,
                now,
                r,
            ),
    {
        match check_passwords(
            &payload.new_password,
            &payload.confirm_password,
            "新密码与确认密码不匹配",
        ) {
            Ok(_) => {},
            Err(e) => {
                return Err(e);
            },
        }
        let user_id = match self.consume_one_time_token_at(
            payload.token.as_str(),
            TokenType::PasswordReset,
            now,
        ) {
            Ok(Some(id)) => id,
            Ok(None) => {
                return Err(token_rejected("密码重置失败：无效、已过期或已使用的令牌"));
            },
            Err(e) => {
                return Err(e);
            },
        };
        self.store_new_password(user_id, new_hash, now)
    }

    /// Stores a new password hash for a user and ends every session of
    /// the user.
    fn store_new_password(&mut self, user_id: u128, new_hash: &str, now: i64) -> (r: Result<
        (),
        ApiError,
    >)
        requires
            old(self).store.well_formed(),
        ensures
            final(self).store.well_formed(),
            final(self).store.reliable() == old(self).store.reliable(),
            final(self).config == old(self).config,
            final(self).token_counter == old(self).token_counter,
            old(self).store.reliable() ==> r is Ok,
            r matches Err(e) ==> e.kind == ErrorKind::InternalError,
            r is Ok ==> final(self).store.state() == old(self).store.state().with_password(
                user_id,
                new_hash@,
                now,
            ).without_refresh_tokens_of(user_id),
    {
        match self.store.update_password(user_id, new_hash, now) {
            Ok(_) => {},
            Err(_) => {
                return Err(store_fault());
            },
        }
        self.revoke_all(user_id)
    }

    /// Resets a password. The new password and its confirmation are
    /// checked first; then the clock is read and the token consumed;
    /// only then is the new password hashed and the hash stored. Where
    /// hashing fails the token is spent already. The hash that is stored
    /// verifies against the new password.
    pub fn reset_password(&mut self, payload: &ResetPasswordPayload) -> (r: Result<(), ApiError>)
        requires
            old(self).store.well_formed(),
        ensures
            final(self).store.well_formed(),
            final(self).store.reliable() == old(self).store.reliable(),
            final(self).config == old(self).config,
            final(self).token_counter == old(self).token_counter,
            passwords_refusal(
                payload.new_password@,
                payload.confirm_password@,
                new_password_mismatch(),
            ) matches Some(m) ==> fails_saying(r, ErrorKind::ValidationError, m)
                && final(self).store.state() == old(self).store.state(),
            old(self).store.reliable() && is_internal(r)
                ==> final(self).store.state() == old(self).store.state().without_one_time_token(
                blake3_hex_digest(payload.token@),
            ),
            !is_internal(r) ==> exists|new_hash: Seq<char>, now: i64|
                (r is Ok ==> argon2_check(new_hash, payload.new_password@) == PasswordCheck::Match)
                    && #[trigger] reset_outcome(
                    old(self).store.state(),
                    final(self).store.state(),
                    payload.token@,
                    payload.new_password@,
                    payload.confirm_password@,
                    new_hash,
                    now,
                    r,
                ),
    {
        match check_passwords(
            &payload.new_password,
            &payload.confirm_password,
            "新密码与确认密码不匹配",
        ) {
            Ok(_) => {},
            Err(e) => {
                let r = Err(e);
                proof {
                    assert(reset_outcome(
                        old(self).store.state(),
                        self.store.state(),
                        payload.token@,
                        payload.new_password@,
                        payload.confirm_password@,
                        Seq::<char>::empty(),
                        0i64,
                        r,
                    ));
                }
                return r;
            },
        }
        let now = unix_now();
        let user_id = match self.consume_one_time_token_at(
            payload.token.as_str(),
            TokenType::PasswordReset,
            now,
        ) {
            Ok(Some(id)) => id,
            Ok(None) => {
                let r = Err(token_rejected("密码重置失败：无效、已过期或已使用的令牌"));
                proof {
                    assert(reset_outcome(
                        old(self).store.state(),
                        self.store.state(),
                        payload.token@,
                        payload.new_password@,
                        payload.confirm_password@,
                        Seq::<char>::empty(),
                        now,
                        r,
                    ));
                }
                return r;
            },
            Err(e) => {
                return Err(e);
            },
        };
        let new_hash = match hash_password(payload.new_password.as_str()) {
            Ok(h) => h,
            Err(e) => {
                return Err(e);
            },
        };
        let r = self.store_new_password(user_id, new_hash.as_str(), now);
        proof {
            if !is_internal(r) {
                assert(reset_outcome(
                    old(self).store.state(),
                    self.store.state(),
                    payload.token@,
                    payload.new_password@,
                    payload.confirm_password@,
                    new_hash@,
                    now,
                    r,
                ));
            }
        }
        r
    }
}

} // verus!
