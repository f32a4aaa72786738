//! What the authentication flows guarantee across calls: lockout after
//! repeated failures, single use of one-time tokens, rotation of refresh
//! tokens, and permissions as the union over roles.

use crate::api_error::{ApiError, ErrorKind};
use crate::auth::{guest_permission, UserContext};
use crate::config::AuthConfig;
use crate::models::{NamedRow, UserPublic, UserRow};
use crate::repositories::state::{next_failure_count, IdentityState, TokenType};
use crate::services::auth::{
    after_failed_login,
    claims_for,
    consume_outcome,
    default_role,
    fails_saying,
    fails_with,
    is_internal,
    issued,
    locked_message,
    lockout_reached,
    lockout_until,
    login_outcome,
    new_user_row,
    refresh_outcome,
    register_outcome,
    remaining_lockout,
    reset_outcome,
    reset_request_outcome,
    tokens_of,
    verify_email_outcome,
    LoginTokens,
};
use crate::services::email::OutgoingEmail;
use crate::services::token::blake3_hex_digest;
use crate::text::texts;
use crate::utils::password::{argon2_check, PasswordCheck};
use vstd::prelude::*;

verus! {

/// The store after a run of failed logins under one username, one at each
/// of the given instants, in order.
pub open spec fn after_failures(
    st: IdentityState,
    username: Seq<char>,
    times: Seq<i64>,
    max_failures: u32,
    duration: i64,
) -> IdentityState
    decreases times.len(),
{
    if times.len() == 0 {
        st
    } else {
        after_failed_login(
            after_failures(st, username, times.drop_last(), max_failures, duration),
            username,
            times.last(),
            max_failures,
            duration,
        )
    }
}

/// A failed login keeps the rules of the store, and leaves a count of at
/// least one more than before, up to the largest count.
pub proof fn lemma_failed_login_counts(
    st: IdentityState,
    username: Seq<char>,
    now: i64,
    max_failures: u32,
    duration: i64,
)
    requires
        st.valid(),
    ensures
        after_failed_login(st, username, now, max_failures, duration).valid(),
        after_failed_login(st, username, now, max_failures, duration).attempt(username) matches Some(
            a,
        ) && a.failure_count == next_failure_count(st.attempt(username)) && a.failure_count >= 1,
{
    let counted = st.with_failure(username);
    assert(counted.login_attempts.contains_key(username));
    if st.login_attempts.contains_key(username) {
        assert(st.login_attempts[username].failure_count >= 0);
    }
}

/// After a run of `n` failed logins the count is at least `n`, up to the
/// largest count.
pub proof fn lemma_failures_accumulate(
    st: IdentityState,
    username: Seq<char>,
    times: Seq<i64>,
    max_failures: u32,
    duration: i64,
)
    requires
        st.valid(),
        times.len() >= 1,
    ensures
        after_failures(st, username, times, max_failures, duration).valid(),
        after_failures(st, username, times, max_failures, duration).attempt(username) matches Some(
            a,
        ) && (a.failure_count >= times.len() || a.failure_count == i32::MAX),
    decreases times.len(),
{
    let before = after_failures(st, username, times.drop_last(), max_failures, duration);
    if times.len() == 1 {
        assert(times.drop_last().len() == 0);
        assert(before == st);
    } else {
        lemma_failures_accumulate(st, username, times.drop_last(), max_failures, duration);
    }
    lemma_failed_login_counts(before, username, times.last(), max_failures, duration);
}

/// Lockout. After as many failed logins in a row as the threshold asks
/// for, and at least one, the username is locked out from the last failure
/// on for the lockout duration: the lockout ends at the last failure's
/// instant plus the duration, and logins are locked at every instant
/// before that end.
pub proof fn lemma_lockout_after_repeated_failures(
    st: IdentityState,
    username: Seq<char>,
    times: Seq<i64>,
    max_failures: u32,
    duration: i64,
)
    requires
        st.valid(),
        times.len() >= 1,
        times.len() >= max_failures,
        max_failures <= i32::MAX,
    ensures
        ({
            let end = after_failures(st, username, times, max_failures, duration);
            let until = lockout_until(times.last(), duration);
            &&& end.attempt(username) matches Some(a) && a.lockout_expires_at == Some(until)
            &&& forall|t: i64| t < until ==> end.locked_at(username, t)
            &&& times.last() + duration <= i64::MAX ==> forall|t: i64|
                times.last() <= t < times.last() + duration ==> end.locked_at(username, t)
        }),
{
    let before = after_failures(st, username, times.drop_last(), max_failures, duration);
    if times.len() == 1 {
        assert(times.drop_last().len() == 0);
        assert(before == st);
        if st.login_attempts.contains_key(username) {
            assert(st.login_attempts[username].failure_count >= 0);
        }
    } else {
        lemma_failures_accumulate(st, username, times.drop_last(), max_failures, duration);
    }
    let count = next_failure_count(before.attempt(username));
    assert(lockout_reached(count, max_failures));
    let counted = before.with_failure(username);
    assert(counted.login_attempts.contains_key(username));
}

/// A failed login is counted. A login that is turned away for its
/// credentials leaves the store as one more failure leaves it.
pub proof fn lemma_failed_login_is_counted(
    pre: IdentityState,
    post: IdentityState,
    cfg: AuthConfig,
    username: Seq<char>,
    password: Seq<char>,
    now: i64,
    refresh_token: Seq<char>,
    jti: Seq<char>,
    r: Result<(LoginTokens, UserPublic), ApiError>,
)
    requires
        login_outcome(pre, post, cfg, username, password, now, refresh_token, jti, r),
        fails_with(r, ErrorKind::InvalidCredentials),
    ensures
        !pre.locked_at(username, now),
        post == after_failed_login(
            pre,
            username,
            now,
            cfg.max_login_failures,
            cfg.lockout_duration_seconds,
        ),
{
    if pre.has_username(username) {
        let i = choose|i: int|
            0 <= i < pre.users.len() && #[trigger] pre.users[i].username == username;
        let user = pre.users[i];
        assert(pre.users.contains(user));
        assert(argon2_check(user.hashed_password, password) == PasswordCheck::Mismatch);
    }
}

/// Success clears the counter. After a login that succeeded, no failures
/// are counted against the username and no lockout is set.
pub proof fn lemma_successful_login_clears(
    pre: IdentityState,
    post: IdentityState,
    cfg: AuthConfig,
    username: Seq<char>,
    password: Seq<char>,
    now: i64,
    refresh_token: Seq<char>,
    jti: Seq<char>,
    r: Result<(LoginTokens, UserPublic), ApiError>,
)
    requires
        login_outcome(pre, post, cfg, username, password, now, refresh_token, jti, r),
        r is Ok,
    ensures
        !pre.locked_at(username, now),
        post.attempt(username) is None,
        forall|t: i64| !post.locked_at(username, t),
{
    assert(pre.has_username(username));
    let i = choose|i: int| 0 <= i < pre.users.len() && #[trigger] pre.users[i].username == username;
    let user = pre.users[i];
    assert(pre.users.contains(user));
    assert(argon2_check(user.hashed_password, password) == PasswordCheck::Match);
    assert(issued(
        pre.without_attempt(username),
        post,
        cfg,
        user,
        now,
        refresh_token,
        jti,
        tokens_of(r),
    ));
}

/// A locked account stays shut. While a lockout is active, a login is
/// turned away with `AccountLocked` whatever the password, and nothing is
/// counted or changed.
pub proof fn lemma_locked_login_is_refused(
    pre: IdentityState,
    post: IdentityState,
    cfg: AuthConfig,
    username: Seq<char>,
    password: Seq<char>,
    now: i64,
    refresh_token: Seq<char>,
    jti: Seq<char>,
    r: Result<(LoginTokens, UserPublic), ApiError>,
)
    requires
        login_outcome(pre, post, cfg, username, password, now, refresh_token, jti, r),
        pre.locked_at(username, now),
    ensures
        r matches Err(e) && e.kind is AccountLocked,
        post == pre,
{
}

/// A locked account says when to come back. While a lockout that ends at
/// `until` is active, a login is turned away with the seconds that are
/// left of it: `until - now`, which is more than 0, held at the largest
/// number of seconds where it would pass it.
pub proof fn lemma_locked_login_says_when(
    pre: IdentityState,
    post: IdentityState,
    cfg: AuthConfig,
    username: Seq<char>,
    password: Seq<char>,
    now: i64,
    until: i64,
    refresh_token: Seq<char>,
    jti: Seq<char>,
    r: Result<(LoginTokens, UserPublic), ApiError>,
)
    requires
        login_outcome(pre, post, cfg, username, password, now, refresh_token, jti, r),
        pre.attempt(username) matches Some(a) && a.lockout_expires_at == Some(until),
        now < until,
    ensures
        post == pre,
        remaining_lockout(pre, username, now) > 0,
        until - now <= i64::MAX ==> remaining_lockout(pre, username, now) == until - now,
        fails_saying(
            r,
            (ErrorKind::AccountLocked { retry_after: remaining_lockout(pre, username, now) }),
            locked_message(remaining_lockout(pre, username, now)),
        ),
{
}

/// The failure that reaches the threshold locks. A login that is turned
/// away for its credentials, and is the failure with which the count
/// reaches the threshold, leaves that count and a lockout that ends the
/// lockout duration after `now`: logins are locked from `now` until then.
/// One that leaves the count below the threshold sets no lockout: no
/// login from `now` on is locked.
pub proof fn lemma_failure_at_threshold_locks(
    pre: IdentityState,
    post: IdentityState,
    cfg: AuthConfig,
    username: Seq<char>,
    password: Seq<char>,
    now: i64,
    refresh_token: Seq<char>,
    jti: Seq<char>,
    r: Result<(LoginTokens, UserPublic), ApiError>,
)
    requires
        pre.valid(),
        login_outcome(pre, post, cfg, username, password, now, refresh_token, jti, r),
        fails_with(r, ErrorKind::InvalidCredentials),
    ensures
        ({
            let count = next_failure_count(pre.attempt(username));
            let until = lockout_until(now, cfg.lockout_duration_seconds);
            &&& post.attempt(username) matches Some(a) && a.failure_count == count
            &&& count >= cfg.max_login_failures ==> {
                &&& post.attempt(username).unwrap().lockout_expires_at == Some(until)
                &&& forall|t: i64| t < until ==> post.locked_at(username, t)
                &&& now + cfg.lockout_duration_seconds <= i64::MAX ==> forall|t: i64|
                    now <= t < now + cfg.lockout_duration_seconds ==> post.locked_at(username, t)
            }
            &&& count < cfg.max_login_failures ==> forall|t: i64|
                now <= t ==> !post.locked_at(username, t)
        }),
{
    lemma_failed_login_is_counted(pre, post, cfg, username, password, now, refresh_token, jti, r);
    lemma_failed_login_counts(
        pre,
        username,
        now,
        cfg.max_login_failures,
        cfg.lockout_duration_seconds,
    );
    let counted = pre.with_failure(username);
    assert(counted.login_attempts.contains_key(username));
}

/// After a lockout has run out, the right password opens the account
/// again. A login under a username whose lockout, if any, ended at `now`
/// or before, with the password that the stored hash was made from,
/// succeeds unless issuing the tokens fails, and clears the counter and
/// the lockout.
pub proof fn lemma_login_after_lockout_ran_out(
    pre: IdentityState,
    post: IdentityState,
    cfg: AuthConfig,
    user: UserRow,
    password: Seq<char>,
    now: i64,
    refresh_token: Seq<char>,
    jti: Seq<char>,
    r: Result<(LoginTokens, UserPublic), ApiError>,
)
    requires
        login_outcome(pre, post, cfg, user.username, password, now, refresh_token, jti, r),
        pre.users.contains(user),
        argon2_check(user.hashed_password, password) == PasswordCheck::Match,
        !pre.locked_at(user.username, now),
        !is_internal(r),
    ensures
        r is Ok,
        post.attempt(user.username) is None,
        forall|t: i64| !post.locked_at(user.username, t),
{
    let i = choose|i: int| 0 <= i < pre.users.len() && pre.users[i] == user;
    assert(pre.users[i].username == user.username);
    assert(pre.has_username(user.username));
    assert(issued(
        pre.without_attempt(user.username),
        post,
        cfg,
        user,
        now,
        refresh_token,
        jti,
        tokens_of(r),
    ));
}

/// Bad logins look alike. A login under a username that no user has and
/// a login with a wrong password are turned away with the same kind of
/// error and the same message.
pub proof fn lemma_bad_logins_look_alike(
    cfg: AuthConfig,
    unknown_pre: IdentityState,
    unknown_post: IdentityState,
    unknown_name: Seq<char>,
    unknown_password: Seq<char>,
    unknown_now: i64,
    unknown_token: Seq<char>,
    unknown_jti: Seq<char>,
    unknown: Result<(LoginTokens, UserPublic), ApiError>,
    pre: IdentityState,
    post: IdentityState,
    user: UserRow,
    wrong_password: Seq<char>,
    now: i64,
    refresh_token: Seq<char>,
    jti: Seq<char>,
    wrong: Result<(LoginTokens, UserPublic), ApiError>,
)
    requires
        login_outcome(
            unknown_pre,
            unknown_post,
            cfg,
            unknown_name,
            unknown_password,
            unknown_now,
            unknown_token,
            unknown_jti,
            unknown,
        ),
        !unknown_pre.locked_at(unknown_name, unknown_now),
        !unknown_pre.has_username(unknown_name),
        login_outcome(pre, post, cfg, user.username, wrong_password, now, refresh_token, jti, wrong),
        !pre.locked_at(user.username, now),
        pre.users.contains(user),
        argon2_check(user.hashed_password, wrong_password) == PasswordCheck::Mismatch,
    ensures
        unknown matches Err(a) && wrong matches Err(b) && a.kind == b.kind && a.message@
            == b.message@,
{
    let i = choose|i: int| 0 <= i < pre.users.len() && pre.users[i] == user;
    assert(pre.users[i].username == user.username);
    assert(pre.has_username(user.username));
}

/// Consuming takes one row. Consuming a one-time token that is stored, of
/// the type asked for and not expired, returns its owner and deletes that
/// token and nothing else.
pub proof fn lemma_consume_takes_one_row(
    pre: IdentityState,
    post: IdentityState,
    token: Seq<char>,
    token_type: TokenType,
    now: i64,
    r: Result<Option<u128>, ApiError>,
)
    requires
        consume_outcome(pre, post, token, token_type, now, r),
        pre.one_time_tokens.contains_key(blake3_hex_digest(token)),
        pre.one_time_tokens[blake3_hex_digest(token)].token_type == token_type,
        pre.one_time_tokens[blake3_hex_digest(token)].expires_at > now,
    ensures
        r == Ok::<Option<u128>, ApiError>(
            Some(pre.one_time_tokens[blake3_hex_digest(token)].user_id),
        ),
        !post.one_time_tokens.contains_key(blake3_hex_digest(token)),
        forall|h: Seq<char>|
            h != blake3_hex_digest(token) ==> (#[trigger] post.one_time_tokens.contains_key(h)
                == pre.one_time_tokens.contains_key(h)) && (pre.one_time_tokens.contains_key(h)
                ==> post.one_time_tokens[h] == pre.one_time_tokens[h]),
        post.users == pre.users,
        post.user_roles == pre.user_roles,
        post.refresh_tokens == pre.refresh_tokens,
        post.login_attempts == pre.login_attempts,
{
}

/// Single use. Once a one-time token is deleted, it cannot be consumed
/// again, for whatever purpose and at whatever time.
pub proof fn lemma_consumed_token_is_gone(
    st: IdentityState,
    token_hash: Seq<char>,
    token_type: TokenType,
    now: i64,
)
    ensures
        st.without_one_time_token(token_hash).consumable(token_hash, token_type, now) is None,
{
}

/// Single use, at the service. After a consumption that succeeded, any
/// other consumption of the same token, for whatever purpose and at
/// whatever time, finds nothing and changes nothing.
pub proof fn lemma_consume_succeeds_once(
    s0: IdentityState,
    s1: IdentityState,
    s2: IdentityState,
    token: Seq<char>,
    first_type: TokenType,
    second_type: TokenType,
    first_time: i64,
    second_time: i64,
    first: Result<Option<u128>, ApiError>,
    second: Result<Option<u128>, ApiError>,
)
    requires
        consume_outcome(s0, s1, token, first_type, first_time, first),
        first matches Ok(Some(_)),
        consume_outcome(s1, s2, token, second_type, second_time, second),
    ensures
        second == Ok::<Option<u128>, ApiError>(None),
        s2 == s1,
{
    let hash = blake3_hex_digest(token);
    assert(!s1.one_time_tokens.contains_key(hash));
}

/// Single use of a verification token. After an e-mail verification that
/// succeeded, a second one with the same token is turned away and changes
/// nothing.
pub proof fn lemma_verify_email_once(
    s0: IdentityState,
    s1: IdentityState,
    s2: IdentityState,
    token: Seq<char>,
    first_time: i64,
    second_time: i64,
    first: Result<(), ApiError>,
    second: Result<(), ApiError>,
)
    requires
        verify_email_outcome(s0, s1, token, first_time, first),
        first is Ok,
        verify_email_outcome(s1, s2, token, second_time, second),
    ensures
        fails_with(second, ErrorKind::InvalidOrExpiredToken),
        s2 == s1,
{
    let hash = blake3_hex_digest(token);
    assert(!s1.one_time_tokens.contains_key(hash));
}

/// Single use of a reset token. After a password reset that succeeded, a
/// second one with the same token and an acceptable password is turned
/// away and changes nothing.
pub proof fn lemma_reset_password_once(
    s0: IdentityState,
    s1: IdentityState,
    s2: IdentityState,
    token: Seq<char>,
    password: Seq<char>,
    first_hash: Seq<char>,
    second_hash: Seq<char>,
    first_time: i64,
    second_time: i64,
    first: Result<(), ApiError>,
    second: Result<(), ApiError>,
)
    requires
        reset_outcome(s0, s1, token, password, password, first_hash, first_time, first),
        first is Ok,
        reset_outcome(s1, s2, token, password, password, second_hash, second_time, second),
    ensures
        fails_with(second, ErrorKind::InvalidOrExpiredToken),
        s2 == s1,
{
    let hash = blake3_hex_digest(token);
    assert(!s1.one_time_tokens.contains_key(hash));
}

/// A reset ends every session. After a password reset that succeeded, no
/// refresh token of the owner is left.
pub proof fn lemma_reset_revokes_sessions(
    s0: IdentityState,
    s1: IdentityState,
    token: Seq<char>,
    password: Seq<char>,
    new_hash: Seq<char>,
    now: i64,
    r: Result<(), ApiError>,
)
    requires
        reset_outcome(s0, s1, token, password, password, new_hash, now, r),
        r is Ok,
    ensures
        s0.consumable(blake3_hex_digest(token), TokenType::PasswordReset, now) matches Some(owner)
            && forall|h: Seq<char>| #[trigger]
            s1.refresh_tokens.contains_key(h) ==> s1.refresh_tokens[h].user_id != owner,
{
}

/// Registration is whole. After a registration that succeeded in a store
/// that kept its rules, the user is stored with the address not yet
/// verified and holds the default role and no other, the profile
/// returned lists that one role, and the verification token is stored
/// for that user; the name and the address were free before.
pub proof fn lemma_registered_user_holds_default_role(
    pre: IdentityState,
    post: IdentityState,
    username: Seq<char>,
    email: Seq<char>,
    password: Seq<char>,
    hashed_password: Seq<char>,
    new_id: u128,
    token: Seq<char>,
    now: i64,
    r: Result<(UserPublic, OutgoingEmail), ApiError>,
)
    requires
        pre.valid(),
        register_outcome(
            pre,
            post,
            username,
            email,
            password,
            hashed_password,
            new_id,
            token,
            now,
            r,
        ),
        r is Ok,
    ensures
        !pre.has_username(username) && !pre.has_email(email),
        post.users == pre.users.push(new_user_row(new_id, username, email, hashed_password, now)),
        post.users.last().email_verified_at is None,
        post.user_role_names(new_id) == Set::<Seq<char>>::empty().insert(default_role()),
        texts(r.unwrap().0.roles@) == Seq::<Seq<char>>::empty().push(default_role()),
        post.one_time_tokens.contains_key(blake3_hex_digest(token)) && post.one_time_tokens[blake3_hex_digest(
            token,
        )].user_id == new_id,
{
    assert(pre.has_role_named(default_role()));
    let i = choose|i: int| 0 <= i < pre.roles.len() && #[trigger] pre.roles[i].name == default_role();
    let role: NamedRow = pre.roles[i];
    assert(pre.roles.contains(role));
    assert(pre.is_role_named(role, default_role()));
    assert(post.roles == pre.roles);
    assert(post.roles[i].name == default_role() && post.user_roles.contains(
        (new_id, post.roles[i].id),
    ));
    let held = post.user_role_names(new_id);
    let only = Set::<Seq<char>>::empty().insert(default_role());
    assert forall|name: Seq<char>| held.contains(name) implies name == default_role() by {
        let j = choose|j: int|
            0 <= j < post.roles.len() && #[trigger] post.roles[j].name == name
                && post.user_roles.contains((new_id, post.roles[j].id));
        if pre.user_roles.contains((new_id, post.roles[j].id)) {
            assert(pre.has_user_id(new_id));
        }
        assert(post.roles[j].id == role.id);
        if j < i {
            assert(pre.roles[j].id != pre.roles[i].id);
        } else if i < j {
            assert(pre.roles[i].id != pre.roles[j].id);
        }
    }
    assert(held =~= only);
    let names = texts(r.unwrap().0.roles@);
    names.unique_seq_to_set();
    assert(only.len() == 1) by {
        assert(only =~= set![default_role()]);
    }
    assert(names.len() == 1);
    assert(names.to_set().contains(names[0]));
    assert(names =~= Seq::<Seq<char>>::empty().push(default_role()));
}

/// A second registration is a conflict. After a registration that
/// succeeded, one more under the same username is turned away, whatever
/// the address, and changes nothing.
pub proof fn lemma_registering_twice_conflicts(
    s0: IdentityState,
    s1: IdentityState,
    s2: IdentityState,
    username: Seq<char>,
    first_email: Seq<char>,
    second_email: Seq<char>,
    password: Seq<char>,
    first_hash: Seq<char>,
    second_hash: Seq<char>,
    first_id: u128,
    second_id: u128,
    first_token: Seq<char>,
    second_token: Seq<char>,
    first_time: i64,
    second_time: i64,
    first: Result<(UserPublic, OutgoingEmail), ApiError>,
    second: Result<(UserPublic, OutgoingEmail), ApiError>,
)
    requires
        s0.valid(),
        register_outcome(
            s0,
            s1,
            username,
            first_email,
            password,
            first_hash,
            first_id,
            first_token,
            first_time,
            first,
        ),
        first is Ok,
        register_outcome(
            s1,
            s2,
            username,
            second_email,
            password,
            second_hash,
            second_id,
            second_token,
            second_time,
            second,
        ),
    ensures
        fails_with(second, ErrorKind::Conflict),
        s2 == s1,
{
    lemma_registered_user_holds_default_role(
        s0,
        s1,
        username,
        first_email,
        password,
        first_hash,
        first_id,
        first_token,
        first_time,
        first,
    );
    assert(s1.users[s1.users.len() - 1].username == username);
    assert(s1.has_username(username));
}

/// An unknown address learns nothing. A request for a password reset for
/// an address that no user has succeeds, stores no token and makes no
/// message.
pub proof fn lemma_reset_request_for_unknown_address(
    pre: IdentityState,
    post: IdentityState,
    email: Seq<char>,
    token: Seq<char>,
    now: i64,
    r: Result<Option<OutgoingEmail>, ApiError>,
)
    requires
        reset_request_outcome(pre, post, email, token, now, r),
        !pre.has_email(email),
    ensures
        r matches Ok(None),
        post == pre,
{
}

/// Rotation. After a refresh that succeeded, the old refresh token is
/// turned away by the next refresh, provided the new token does not hash
/// to the same value as the old one.
pub proof fn lemma_refresh_rotates(
    s0: IdentityState,
    s1: IdentityState,
    s2: IdentityState,
    cfg: AuthConfig,
    old_token: Seq<char>,
    first_time: i64,
    new_token: Seq<char>,
    first_jti: Seq<char>,
    first: Result<LoginTokens, ApiError>,
    second_time: i64,
    next_token: Seq<char>,
    second_jti: Seq<char>,
    second: Result<LoginTokens, ApiError>,
)
    requires
        refresh_outcome(s0, s1, cfg, old_token, first_time, new_token, first_jti, first),
        first is Ok,
        blake3_hex_digest(new_token) != blake3_hex_digest(old_token),
        refresh_outcome(s1, s2, cfg, old_token, second_time, next_token, second_jti, second),
    ensures
        fails_with(second, ErrorKind::InvalidOrExpiredToken),
        s2 == s1,
        s1.refresh_tokens.contains_key(blake3_hex_digest(new_token)),
{
    let hash = blake3_hex_digest(old_token);
    let owner = s0.refresh_owner(hash, first_time).unwrap();
    assert(s0.has_user_id(owner));
    let i = choose|i: int| 0 <= i < s0.users.len() && #[trigger] s0.users[i].id == owner;
    let user = s0.users[i];
    assert(s0.users.contains(user));
    assert(issued(
        s0.without_refresh_token(hash),
        s1,
        cfg,
        user,
        first_time,
        new_token,
        first_jti,
        first,
    ));
    assert(!s1.refresh_tokens.contains_key(hash));
}

/// Logout ends the session. Once a refresh token is deleted, a refresh
/// with it is turned away at whatever time.
pub proof fn lemma_logged_out_token_is_refused(
    st: IdentityState,
    s2: IdentityState,
    cfg: AuthConfig,
    token: Seq<char>,
    now: i64,
    new_token: Seq<char>,
    jti: Seq<char>,
    r: Result<LoginTokens, ApiError>,
)
    requires
        refresh_outcome(
            st.without_refresh_token(blake3_hex_digest(token)),
            s2,
            cfg,
            token,
            now,
            new_token,
            jti,
            r,
        ),
    ensures
        fails_with(r, ErrorKind::InvalidOrExpiredToken),
{
}

/// Permissions are the union over roles. A caller whose token carries
/// claims for a user has a permission exactly when some role the user
/// holds grants a permission of that name.
pub proof fn lemma_permissions_are_union_over_roles(
    st: IdentityState,
    cfg: AuthConfig,
    user: UserRow,
    now: i64,
    jti: Seq<char>,
    caller: UserContext,
    permission: Seq<char>,
)
    requires
        caller matches UserContext::Authenticated(u) && claims_for(st, cfg, user, now, jti, u.0@),
    ensures
        caller.grants(permission) <==> st.user_permission_names(user.id).contains(permission),
        caller.grants(permission) <==> exists|i: int|
            0 <= i < st.permissions.len() && #[trigger] st.permissions[i].name == permission
                && st.user_granted(user.id, st.permissions[i].id),
{
    match caller {
        UserContext::Authenticated(u) => {
            let names = u.0@.permissions;
            assert(names.to_set().contains(permission) <==> names.contains(permission));
        },
        UserContext::Guest => {},
    }
}

/// A guest has one permission only: to read published posts.
pub proof fn lemma_guest_has_one_permission(permission: Seq<char>)
    ensures
        UserContext::Guest.grants(permission) <==> permission == guest_permission(),
{
}

} // verus!
