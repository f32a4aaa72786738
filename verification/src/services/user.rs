//! What users do to their own accounts, and administrators to theirs:
//! profiles and password changes. A changed password ends every session.

use crate::api_error::{ApiError, ErrorKind};
use crate::clock::unix_now;
use crate::dtos::user::{
    ChangePasswordPayload,
    CreateUserPayload,
    ResetUserPasswordPayload,
    UpdateProfilePayload,
    UpdateUserPayload,
};
use crate::ids::uuid_new_v4;
use crate::models::{clone_option_text, option_text, User, UserPublic, UserRow};
use crate::repositories::state::{
    email_taken_by_other,
    renamed_row,
    user_position,
    username_taken_by_other,
    IdentityState,
    StoreError,
};
use crate::repositories::user::UserRepository;
use crate::services::auth::{
    fails_saying,
    fails_with,
    is_internal,
    lemma_user_unique,
    public_profile,
    store_fault,
};
use crate::utils::password::{
    argon2_check,
    check_passwords,
    hash_password,
    new_password_mismatch,
    password_mismatch,
    password_violation,
    passwords_refusal,
    verify_password,
    violation_text,
    PasswordCheck,
};
use vstd::prelude::*;

verus! {

/// What looking a profile up returns: the public profile of the user, or
/// `NotFound` where there is no such user.
pub open spec fn profile_outcome(st: IdentityState, user_id: u128, r: Result<UserPublic, ApiError>)
    -> bool {
    if st.has_user_id(user_id) {
        forall|user: UserRow| #[trigger]
            st.users.contains(user) && user.id == user_id ==> (r matches Ok(p) && public_profile(
                p,
                user,
                st,
            ))
    } else {
        fails_with(r, ErrorKind::NotFound)
    }
}

/// What replacing a password does: the hash is replaced and every refresh
/// token of the user deleted.
pub open spec fn with_new_password(pre: IdentityState, user_id: u128, new_hash: Seq<char>, now: i64)
    -> IdentityState {
    pre.with_password(user_id, new_hash, now).without_refresh_tokens_of(user_id)
}

/// What a user's change of password does and returns. A confirmation
/// that differs, or a new password that breaks the policy, is a validation
/// error; an unknown user is not found; a current password that does not
/// match gives `InvalidCredentials`; in each case nothing changes.
/// Otherwise the password is replaced and every session ended.
pub open spec fn change_password_outcome(
    pre: IdentityState,
    post: IdentityState,
    user_id: u128,
    current_password: Seq<char>,
    new_password: Seq<char>,
    confirm_password: Seq<char>,
    new_hash: Seq<char>,
    now: i64,
    r: Result<(), ApiError>,
) -> bool {
    if new_password != confirm_password {
        post == pre && fails_saying(r, ErrorKind::ValidationError, "新密码与确认密码不匹配"@)
    } else {
        match password_violation(new_password) {
            Some(v) => post == pre && fails_saying(
                r,
                ErrorKind::ValidationError,
                violation_text(v),
            ),
            None => if !pre.has_user_id(user_id) {
                post == pre && fails_with(r, ErrorKind::NotFound)
            } else {
                forall|user: UserRow| #[trigger]
                    pre.users.contains(user) && user.id == user_id ==> (match argon2_check(
                        user.hashed_password,
                        current_password,
                    ) {
                        PasswordCheck::Malformed => post == pre && is_internal(r),
                        PasswordCheck::Mismatch => post == pre && fails_saying(
                            r,
                            ErrorKind::InvalidCredentials,
                            "当前密码不正确"@,
                        ),
                        PasswordCheck::Match => post == with_new_password(
                            pre,
                            user_id,
                            new_hash,
                            now,
                        ) && r is Ok,
                    })
            },
        }
    }
}

/// What an administrator's reset of a user's password does and returns:
/// as a change of password, without the current password being asked for.
pub open spec fn admin_reset_outcome(
    pre: IdentityState,
    post: IdentityState,
    user_id: u128,
    new_password: Seq<char>,
    confirm_password: Seq<char>,
    new_hash: Seq<char>,
    now: i64,
    r: Result<(), ApiError>,
) -> bool {
    if new_password != confirm_password {
        post == pre && fails_saying(r, ErrorKind::ValidationError, "新密码与确认密码不匹配"@)
    } else {
        match password_violation(new_password) {
            Some(v) => post == pre && fails_saying(
                r,
                ErrorKind::ValidationError,
                violation_text(v),
            ),
            None => if !pre.has_user_id(user_id) {
                post == pre && fails_with(r, ErrorKind::NotFound)
            } else {
                post == with_new_password(pre, user_id, new_hash, now) && r is Ok
            },
        }
    }
}

/// The message that a name or an address is taken.
pub open spec fn taken_text(prefix: Seq<char>, value: Seq<char>) -> Seq<char> {
    prefix + value + "' 已被占用"@
}

/// The row of a user as it stands after a change of profile.
pub open spec fn profile_after(
    pre: IdentityState,
    user_id: u128,
    username: Option<Seq<char>>,
    email: Option<Seq<char>>,
    now: i64,
) -> UserRow {
    renamed_row(pre.users[user_position(pre.users, user_id)], user_id, username, email, now)
}

/// What a change of profile does and returns. A name or an address that
/// another user has is a conflict, and an unknown user is not found; in
/// each case nothing changes. Otherwise what is given replaces what was
/// there, and the result is the public profile as changed.
pub open spec fn update_profile_outcome(
    pre: IdentityState,
    post: IdentityState,
    user_id: u128,
    username: Option<Seq<char>>,
    email: Option<Seq<char>>,
    now: i64,
    r: Result<UserPublic, ApiError>,
) -> bool {
    if username matches Some(n) && username_taken_by_other(pre.users, user_id, n) {
        post == pre && fails_saying(r, ErrorKind::Conflict, taken_text("用户名 '"@, username.unwrap()))
    } else if email matches Some(e) && email_taken_by_other(pre.users, user_id, e) {
        post == pre && fails_saying(r, ErrorKind::Conflict, taken_text("邮箱 '"@, email.unwrap()))
    } else if !pre.has_user_id(user_id) {
        post == pre && fails_with(r, ErrorKind::NotFound)
    } else {
        &&& post == pre.with_profile(user_id, username, email, now)
        &&& r matches Ok(p) && public_profile(
            p,
            profile_after(pre, user_id, username, email, now),
            post,
        )
    }
}

/// The row of a user whom an administrator makes at `now`: the address
/// counts as verified.
pub open spec fn admin_made_row(
    id: u128,
    username: Seq<char>,
    email: Seq<char>,
    hashed_password: Seq<char>,
    now: i64,
) -> UserRow {
    UserRow {
        id,
        username,
        email,
        hashed_password,
        created_at: now,
        updated_at: now,
        email_verified_at: Some(now),
    }
}

/// What an administrator's making of a user does and returns. A
/// confirmation that differs, or a password that breaks the policy, is a
/// validation error; a name, an address or an identifier that is taken is
/// a conflict; in each case nothing changes. Otherwise the user is added,
/// with no role, and the result is the public profile.
pub open spec fn admin_create_outcome(
    pre: IdentityState,
    post: IdentityState,
    username: Seq<char>,
    email: Seq<char>,
    password: Seq<char>,
    confirm_password: Seq<char>,
    hashed_password: Seq<char>,
    new_id: u128,
    now: i64,
    r: Result<UserPublic, ApiError>,
) -> bool {
    if password != confirm_password {
        post == pre && fails_saying(r, ErrorKind::ValidationError, "密码与确认密码不匹配"@)
    } else {
        match password_violation(password) {
            Some(v) => post == pre && fails_saying(
                r,
                ErrorKind::ValidationError,
                violation_text(v),
            ),
            None => if pre.has_username(username) {
                post == pre && fails_saying(
                    r,
                    ErrorKind::Conflict,
                    taken_text("用户名 '"@, username),
                )
            } else if pre.has_email(email) {
                post == pre && fails_saying(r, ErrorKind::Conflict, taken_text("邮箱 '"@, email))
            } else if pre.has_user_id(new_id) {
                post == pre && fails_with(r, ErrorKind::Conflict)
            } else {
                &&& post == pre.with_user(
                    admin_made_row(new_id, username, email, hashed_password, now),
                )
                &&& r matches Ok(p) && public_profile(
                    p,
                    admin_made_row(new_id, username, email, hashed_password, now),
                    post,
                )
            },
        }
    }
}

/// What an administrator's change of a user does and returns. An unknown
/// user is not found. Where a password and its confirmation are both
/// given, they must agree and the password must keep the policy. A name
/// or an address that another user has is a conflict. In each of these
/// cases nothing changes. Otherwise the profile is changed, and where a
/// password is given it is replaced and every session ended.
pub open spec fn admin_update_outcome(
    pre: IdentityState,
    post: IdentityState,
    user_id: u128,
    username: Option<Seq<char>>,
    email: Option<Seq<char>>,
    password: Option<Seq<char>>,
    confirm_password: Option<Seq<char>>,
    new_hash: Seq<char>,
    now: i64,
    r: Result<UserPublic, ApiError>,
) -> bool {
    if !pre.has_user_id(user_id) {
        post == pre && fails_saying(r, ErrorKind::NotFound, "用户不存在"@)
    } else if password is Some && confirm_password is Some && password.unwrap()
        != confirm_password.unwrap() {
        post == pre && fails_saying(r, ErrorKind::ValidationError, "密码与确认密码不匹配"@)
    } else if password is Some && confirm_password is Some && password_violation(password.unwrap())
        is Some {
        post == pre && fails_saying(
            r,
            ErrorKind::ValidationError,
            violation_text(password_violation(password.unwrap()).unwrap()),
        )
    } else if username is Some && username_taken_by_other(pre.users, user_id, username.unwrap()) {
        post == pre && fails_saying(r, ErrorKind::Conflict, taken_text("用户名 '"@, username.unwrap()))
    } else if email is Some && email_taken_by_other(pre.users, user_id, email.unwrap()) {
        post == pre && fails_saying(r, ErrorKind::Conflict, taken_text("邮箱 '"@, email.unwrap()))
    } else {
        &&& post == (match password {
            Some(_) => with_new_password(
                pre.with_profile(user_id, username, email, now),
                user_id,
                new_hash,
                now,
            ),
            None => pre.with_profile(user_id, username, email, now),
        })
        &&& r matches Ok(p) && public_profile(
            p,
            profile_after(pre, user_id, username, email, now),
            post,
        )
    }
}

/// What deleting a user does and returns: the user goes, with the roles
/// held and every token; an unknown user is not found.
pub open spec fn delete_outcome(
    pre: IdentityState,
    post: IdentityState,
    user_id: u128,
    r: Result<(), ApiError>,
) -> bool {
    if pre.has_user_id(user_id) {
        post == pre.without_user(user_id) && r is Ok
    } else {
        post == pre && fails_with(r, ErrorKind::NotFound)
    }
}

/// The message that a name or an address is taken.
pub fn taken_message(prefix: &str, value: &str) -> (r: String)
    ensures
        r@ == taken_text(prefix@, value@),
{
    let mut message = prefix.to_owned();
    message.append(value);
    message.append("' 已被占用");
    assert(message@ =~= taken_text(prefix@, value@));
    message
}

/// Whether a hash goes with a password, where there is a password.
pub open spec fn hash_matches(hash: Seq<char>, password: Option<Seq<char>>) -> bool {
    match password {
        Some(p) => argon2_check(hash, p) == PasswordCheck::Match,
        None => true,
    }
}

/// What the checks of a user's change of password give, before anything
/// is hashed or written: the passwords, then the user, then the current
/// password.
pub open spec fn password_change_checked(
    st: IdentityState,
    user_id: u128,
    current_password: Seq<char>,
    new_password: Seq<char>,
    confirm_password: Seq<char>,
    r: Result<(), ApiError>,
) -> bool {
    match passwords_refusal(new_password, confirm_password, new_password_mismatch()) {
        Some(m) => fails_saying(r, ErrorKind::ValidationError, m),
        None => if !st.has_user_id(user_id) {
            fails_with(r, ErrorKind::NotFound)
        } else {
            forall|user: UserRow| #[trigger]
                st.users.contains(user) && user.id == user_id ==> (match argon2_check(
                    user.hashed_password,
                    current_password,
                ) {
                    PasswordCheck::Malformed => is_internal(r),
                    PasswordCheck::Mismatch => fails_saying(
                        r,
                        ErrorKind::InvalidCredentials,
                        "当前密码不正确"@,
                    ),
                    PasswordCheck::Match => r is Ok,
                })
        },
    }
}

/// What the checks of an administrator's reset of a password give: the
/// passwords, then the user.
pub open spec fn admin_reset_checked(
    st: IdentityState,
    user_id: u128,
    new_password: Seq<char>,
    confirm_password: Seq<char>,
    r: Result<(), ApiError>,
) -> bool {
    match passwords_refusal(new_password, confirm_password, new_password_mismatch()) {
        Some(m) => fails_saying(r, ErrorKind::ValidationError, m),
        None => if !st.has_user_id(user_id) {
            fails_with(r, ErrorKind::NotFound)
        } else {
            r is Ok
        },
    }
}

/// What the checks of an administrator's making of a user give: the
/// passwords, then the name, then the address.
pub open spec fn admin_create_checked(
    st: IdentityState,
    username: Seq<char>,
    email: Seq<char>,
    password: Seq<char>,
    confirm_password: Seq<char>,
    r: Result<(), ApiError>,
) -> bool {
    match passwords_refusal(password, confirm_password, password_mismatch()) {
        Some(m) => fails_saying(r, ErrorKind::ValidationError, m),
        None => if st.has_username(username) {
            fails_saying(r, ErrorKind::Conflict, taken_text("用户名 '"@, username))
        } else if st.has_email(email) {
            fails_saying(r, ErrorKind::Conflict, taken_text("邮箱 '"@, email))
        } else {
            r is Ok
        },
    }
}

/// What adding a user whom an administrator makes does and returns: the
/// user is added and the profile returned, or, where the identifier, the
/// name or the address is taken, nothing changes and it is a conflict.
pub open spec fn made_user_outcome(
    pre: IdentityState,
    post: IdentityState,
    row: UserRow,
    r: Result<UserPublic, ApiError>,
) -> bool {
    if pre.can_add_user(row) {
        &&& post == pre.with_user(row)
        &&& r matches Ok(p) && public_profile(p, row, post)
    } else {
        post == pre && fails_with(r, ErrorKind::Conflict)
    }
}

/// What the checks of an administrator's change of a user give: the
/// user, then the passwords where both are given, then the name and the
/// address.
pub open spec fn admin_update_checked(
    st: IdentityState,
    user_id: u128,
    username: Option<Seq<char>>,
    email: Option<Seq<char>>,
    password: Option<Seq<char>>,
    confirm_password: Option<Seq<char>>,
    r: Result<(), ApiError>,
) -> bool {
    if !st.has_user_id(user_id) {
        fails_saying(r, ErrorKind::NotFound, "用户不存在"@)
    } else if password is Some && confirm_password is Some && password.unwrap()
        != confirm_password.unwrap() {
        fails_saying(r, ErrorKind::ValidationError, password_mismatch())
    } else if password is Some && confirm_password is Some && password_violation(password.unwrap())
        is Some {
        fails_saying(
            r,
            ErrorKind::ValidationError,
            violation_text(password_violation(password.unwrap()).unwrap()),
        )
    } else if username is Some && username_taken_by_other(st.users, user_id, username.unwrap()) {
        fails_saying(r, ErrorKind::Conflict, taken_text("用户名 '"@, username.unwrap()))
    } else if email is Some && email_taken_by_other(st.users, user_id, email.unwrap()) {
        fails_saying(r, ErrorKind::Conflict, taken_text("邮箱 '"@, email.unwrap()))
    } else {
        r is Ok
    }
}

/// The user service's rules, over any store of users.
pub struct UserService {}

impl UserService {
    /// The public profile of a user.
    pub fn get_my_profile<S: UserRepository>(store: &S, user_id: u128) -> (r: Result<
        UserPublic,
        ApiError,
    >)
        requires
            store.well_formed(),
        ensures
            store.reliable() || !is_internal(r) ==> profile_outcome(store.state(), user_id, r),
    {
        let user = match store.find_by_id(user_id) {
            Ok(Some(u)) => u,
            Ok(None) => {
                return Err(ApiError::new(ErrorKind::NotFound, "无法找到当前用户的信息"));
            },
            Err(_) => {
                return Err(store_fault());
            },
        };
        proof {
            let st = store.state();
            let i = choose|i: int| 0 <= i < st.users.len() && st.users[i] == user@;
            assert(st.users[i].id == user_id);
            assert forall|other: UserRow| #[trigger]
                st.users.contains(other) && other.id == user_id implies other == user@ by {
                lemma_user_unique(st, other, user@);
            }
        }
        match store.get_user_roles(user.id) {
            Ok(roles) => Ok(
                UserPublic {
                    id: user.id,
                    username: user.username,
                    email: user.email,
                    created_at: user.created_at,
                    roles,
                },
            ),
            Err(_) => Err(store_fault()),
        }
    }

    /// The public profile of a user, as an administrator sees it.
    pub fn admin_get_user<S: UserRepository>(store: &S, user_id: u128) -> (r: Result<
        UserPublic,
        ApiError,
    >)
        requires
            store.well_formed(),
        ensures
            store.reliable() || !is_internal(r) ==> profile_outcome(store.state(), user_id, r),
    {
        Self::get_my_profile(store, user_id)
    }

    /// Replaces the password of a user and ends every session.
    fn replace_password<S: UserRepository>(store: &mut S, user_id: u128, new_hash: &str, now: i64)
        -> (r: Result<(), ApiError>)
        requires
            old(store).well_formed(),
        ensures
            final(store).well_formed(),
            final(store).reliable() == old(store).reliable(),
            old(store).reliable() ==> r is Ok,
            r matches Err(e) ==> e.kind == ErrorKind::InternalError,
            r is Ok ==> final(store).state() == with_new_password(
                old(store).state(),
                user_id,
                new_hash@,
                now,
            ),
    {
        match store.update_password(user_id, new_hash, now) {
            Ok(_) => {},
            Err(_) => {
                return Err(store_fault());
            },
        }
        match store.delete_all_refresh_token_for_user(user_id) {
            Ok(_) => Ok(()),
            Err(_) => Err(store_fault()),
        }
    }

    /// What is checked of a user's change of password before the new
    /// password is hashed: the passwords, the user, the current password.
    pub fn check_password_change<S: UserRepository>(
        store: &S,
        user_id: u128,
        payload: &ChangePasswordPayload,
    ) -> (r: Result<(), ApiError>)
        requires
            store.well_formed(),
        ensures
            passwords_refusal(
                payload.new_password@,
                payload.confirm_password@,
                new_password_mismatch(),
            ) matches Some(m) ==> fails_saying(r, ErrorKind::ValidationError, m),
            store.reliable() || !is_internal(r) ==> password_change_checked(
                store.state(),
                user_id,
                payload.current_password@,
                payload.new_password@,
                payload.confirm_password@,
                r,
            ),
    {
        let ghost pre = store.state();
        match check_passwords(
            &payload.new_password,
            &payload.confirm_password,
            "新密码与确认密码不匹配",
        ) {
            Ok(_) => {},
            Err(e) => {
                return Err(e);
            },
        }
        let user = match store.find_by_id(user_id) {
            Ok(Some(u)) => u,
            Ok(None) => {
                return Err(ApiError::new(ErrorKind::NotFound, "无法找到当前用户"));
            },
            Err(_) => {
                return Err(store_fault());
            },
        };
        proof {
            let i = choose|i: int| 0 <= i < pre.users.len() && pre.users[i] == user@;
            assert(pre.users[i].id == user_id);
            assert forall|other: UserRow| #[trigger]
                pre.users.contains(other) && other.id == user_id implies other == user@ by {
                lemma_user_unique(pre, other, user@);
            }
        }
        let matches = match verify_password(
            user.hashed_password.as_str(),
            payload.current_password.as_str(),
        ) {
            Ok(m) => m,
            Err(e) => {
                return Err(e);
            },
        };
        if !matches {
            return Err(ApiError::new(ErrorKind::InvalidCredentials, "当前密码不正确"));
        }
        Ok(())
    }

    /// Changes a user's password at `now`, with the hash of the new
    /// password to store.
    pub fn change_my_password_with<S: UserRepository>(
        store: &mut S,
        user_id: u128,
        payload: &ChangePasswordPayload,
        new_hash: &str,
        now: i64,
    ) -> (r: Result<(), ApiError>)
        requires
            old(store).well_formed(),
        ensures
            final(store).well_formed(),
            final(store).reliable() == old(store).reliable(),
            passwords_refusal(
                payload.new_password@,
                payload.confirm_password@,
                new_password_mismatch(),
            ) matches Some(m) ==> fails_saying(r, ErrorKind::ValidationError, m)
                && final(store).state() == old(store).state(),
            old(store).reliable() && is_internal(r) ==> final(store).state() == old(store).state(),
            old(store).reliable() || !is_internal(r) ==> change_password_outcome(
                old(store).state(),
                final(store).state(),
                user_id,
                payload.current_password@,
                payload.new_password@,
                payload.confirm_password@,
                new_hash@,
                now,
                r,
            ),
    {
        match Self::check_password_change(store, user_id, payload) {
            Ok(_) => {},
            Err(e) => {
                return Err(e);
            },
        }
        Self::replace_password(store, user_id, new_hash, now)
    }

    /// Changes a user's password. The passwords, the user and the current
    /// password are checked first; only then is the new password hashed,
    /// the clock read and the hash stored. The hash that is stored
    /// verifies against the new password.
    pub fn change_my_password<S: UserRepository>(
        store: &mut S,
        user_id: u128,
        payload: &ChangePasswordPayload,
    ) -> (r: Result<(), ApiError>)
        requires
            old(store).well_formed(),
        ensures
            final(store).well_formed(),
            final(store).reliable() == old(store).reliable(),
            passwords_refusal(
                payload.new_password@,
                payload.confirm_password@,
                new_password_mismatch(),
            ) matches Some(m) ==> fails_saying(r, ErrorKind::ValidationError, m)
                && final(store).state() == old(store).state(),
            old(store).reliable() && !old(store).state().has_user_id(user_id) && passwords_refusal(
                payload.new_password@,
                payload.confirm_password@,
                new_password_mismatch(),
            ) is None ==> fails_with(r, ErrorKind::NotFound) && final(store).state() == old(store).state(),
            old(store).reliable() && is_internal(r) ==> final(store).state() == old(store).state(),
            !is_internal(r) ==> exists|new_hash: Seq<char>, now: i64|
                (r is Ok ==> argon2_check(new_hash, payload.new_password@) == PasswordCheck::Match)
                    && #[trigger] change_password_outcome(
                    old(store).state(),
                    final(store).state(),
                    user_id,
                    payload.current_password@,
                    payload.new_password@,
                    payload.confirm_password@,
                    new_hash,
                    now,
                    r,
                ),
    {
        match Self::check_password_change(store, user_id, payload) {
            Ok(_) => {},
            Err(e) => {
                let r = Err(e);
                proof {
                    if !is_internal(r) {
                        assert(change_password_outcome(
                            old(store).state(),
                            store.state(),
                            user_id,
                            payload.current_password@,
                            payload.new_password@,
                            payload.confirm_password@,
                            Seq::<char>::empty(),
                            0i64,
                            r,
                        ));
                    }
                }
                return r;
            },
        }
        let new_hash = match hash_password(payload.new_password.as_str()) {
            Ok(h) => h,
            Err(e) => {
                return Err(e);
            },
        };
        let now = unix_now();
        let r = Self::replace_password(store, user_id, new_hash.as_str(), now);
        proof {
            if !is_internal(r) {
                assert(change_password_outcome(
                    old(store).state(),
                    store.state(),
                    user_id,
                    payload.current_password@,
                    payload.new_password@,
                    payload.confirm_password@,
                    new_hash@,
                    now,
                    r,
                ));
            }
        }
        r
    }

    /// What is checked of an administrator's reset of a password before
    /// the new password is hashed: the passwords, then the user.
    pub fn check_admin_reset<S: UserRepository>(
        store: &S,
        user_id: u128,
        payload: &ResetUserPasswordPayload,
    ) -> (r: Result<(), ApiError>)
        requires
            store.well_formed(),
        ensures
            passwords_refusal(
                payload.new_password@,
                payload.confirm_password@,
                new_password_mismatch(),
            ) matches Some(m) ==> fails_saying(r, ErrorKind::ValidationError, m),
            store.reliable() ==> !is_internal(r),
            !is_internal(r) ==> admin_reset_checked(
                store.state(),
                user_id,
                payload.new_password@,
                payload.confirm_password@,
                r,
            ),
    {
        let ghost pre = store.state();
        match check_passwords(
            &payload.new_password,
            &payload.confirm_password,
            "新密码与确认密码不匹配",
        ) {
            Ok(_) => {},
            Err(e) => {
                return Err(e);
            },
        }
        match store.find_by_id(user_id) {
            Ok(Some(u)) => {
                proof {
                    let i = choose|i: int| 0 <= i < pre.users.len() && pre.users[i] == u@;
                    assert(pre.users[i].id == user_id);
                }
                Ok(())
            },
            Ok(None) => Err(ApiError::new(ErrorKind::NotFound, "用户不存在")),
            Err(_) => Err(store_fault()),
        }
    }

    /// Resets a user's password on an administrator's behalf at `now`,
    /// with the hash of the new password to store.
    pub fn admin_reset_user_password_with<S: UserRepository>(
        store: &mut S,
        user_id: u128,
        payload: &ResetUserPasswordPayload,
        new_hash: &str,
        now: i64,
    ) -> (r: Result<(), ApiError>)
        requires
            old(store).well_formed(),
        ensures
            final(store).well_formed(),
            final(store).reliable() == old(store).reliable(),
            passwords_refusal(
                payload.new_password@,
                payload.confirm_password@,
                new_password_mismatch(),
            ) matches Some(m) ==> fails_saying(r, ErrorKind::ValidationError, m)
                && final(store).state() == old(store).state(),
            old(store).reliable() ==> !is_internal(r),
            old(store).reliable() || !is_internal(r) ==> admin_reset_outcome(
                old(store).state(),
                final(store).state(),
                user_id,
                payload.new_password@,
                payload.confirm_password@,
                new_hash@,
                now,
                r,
            ),
    {
        match Self::check_admin_reset(store, user_id, payload) {
            Ok(_) => {},
            Err(e) => {
                return Err(e);
            },
        }
        Self::replace_password(store, user_id, new_hash, now)
    }

    /// Resets a user's password on an administrator's behalf. The
    /// passwords and the user are checked first; only then is the new
    /// password hashed, the clock read and the hash stored. The hash that
    /// is stored verifies against the new password.
    pub fn admin_reset_user_password<S: UserRepository>(
        store: &mut S,
        user_id: u128,
        payload: &ResetUserPasswordPayload,
    ) -> (r: Result<(), ApiError>)
        requires
            old(store).well_formed(),
        ensures
            final(store).well_formed(),
            final(store).reliable() == old(store).reliable(),
            passwords_refusal(
                payload.new_password@,
                payload.confirm_password@,
                new_password_mismatch(),
            ) matches Some(m) ==> fails_saying(r, ErrorKind::ValidationError, m)
                && final(store).state() == old(store).state(),
            old(store).reliable() && !old(store).state().has_user_id(user_id) && passwords_refusal(
                payload.new_password@,
                payload.confirm_password@,
                new_password_mismatch(),
            ) is None ==> fails_with(r, ErrorKind::NotFound) && final(store).state() == old(store).state(),
            old(store).reliable() && is_internal(r) ==> final(store).state() == old(store).state(),
            !is_internal(r) ==> exists|new_hash: Seq<char>, now: i64|
                (r is Ok ==> argon2_check(new_hash, payload.new_password@) == PasswordCheck::Match)
                    && #[trigger] admin_reset_outcome(
                    old(store).state(),
                    final(store).state(),
                    user_id,
                    payload.new_password@,
                    payload.confirm_password@,
                    new_hash,
                    now,
                    r,
                ),
    {
        match Self::check_admin_reset(store, user_id, payload) {
            Ok(_) => {},
            Err(e) => {
                let r = Err(e);
                proof {
                    if !is_internal(r) {
                        assert(admin_reset_outcome(
                            old(store).state(),
                            store.state(),
                            user_id,
                            payload.new_password@,
                            payload.confirm_password@,
                            Seq::<char>::empty(),
                            0i64,
                            r,
                        ));
                    }
                }
                return r;
            },
        }
        let new_hash = match hash_password(payload.new_password.as_str()) {
            Ok(h) => h,
            Err(e) => {
                return Err(e);
            },
        };
        let now = unix_now();
        let r = Self::replace_password(store, user_id, new_hash.as_str(), now);
        proof {
            if !is_internal(r) {
                assert(admin_reset_outcome(
                    old(store).state(),
                    store.state(),
                    user_id,
                    payload.new_password@,
                    payload.confirm_password@,
                    new_hash@,
                    now,
                    r,
                ));
            }
        }
        r
    }

    /// The public profile of a user as the store holds the roles.
    fn profile_of<S: UserRepository>(store: &S, user: &User) -> (r: Result<UserPublic, ApiError>)
        requires
            store.well_formed(),
        ensures
            store.reliable() ==> r is Ok,
            r matches Err(e) ==> e.kind == ErrorKind::InternalError,
            r matches Ok(p) ==> public_profile(p, user@, store.state()),
    {
        match store.get_user_roles(user.id) {
            Ok(roles) => Ok(
                UserPublic {
                    id: user.id,
                    username: user.username.clone(),
                    email: user.email.clone(),
                    created_at: user.created_at,
                    roles,
                },
            ),
            Err(_) => Err(store_fault()),
        }
    }

    /// Checks that no other user has a name and an address that are to
    /// be given to a user.
    fn check_free<S: UserRepository>(
        store: &S,
        user_id: u128,
        username: &Option<String>,
        email: &Option<String>,
    ) -> (r: Result<(), ApiError>)
        requires
            store.well_formed(),
        ensures
            store.reliable() ==> !is_internal(r),
            !is_internal(r) ==> (if username matches Some(n) && username_taken_by_other(
                store.state().users,
                user_id,
                n@,
            ) {
                fails_saying(r, ErrorKind::Conflict, taken_text("用户名 '"@, username.unwrap()@))
            } else if email matches Some(e) && email_taken_by_other(
                store.state().users,
                user_id,
                e@,
            ) {
                fails_saying(r, ErrorKind::Conflict, taken_text("邮箱 '"@, email.unwrap()@))
            } else {
                r is Ok
            }),
    {
        let ghost st = store.state();
        match username {
            Some(n) => {
                match store.find_by_username(n.as_str()) {
                    Ok(Some(existing)) => {
                        proof {
                            let i = choose|i: int| 0 <= i < st.users.len() && st.users[i] == existing@;
                            assert(st.users[i].username == n@);
                            if existing.id == user_id {
                                assert forall|j: int|
                                    0 <= j < st.users.len() && #[trigger] st.users[j].username
                                        == n@ implies st.users[j].id == user_id by {
                                    assert(st.users.contains(st.users[j]));
                                    lemma_user_unique(st, st.users[j], existing@);
                                }
                            }
                        }
                        if existing.id != user_id {
                            return Err(
                                ApiError {
                                    kind: ErrorKind::Conflict,
                                    message: taken_message("用户名 '", n.as_str()),
                                },
                            );
                        }
                    },
                    Ok(None) => {},
                    Err(_) => {
                        return Err(store_fault());
                    },
                }
            },
            None => {},
        }
        match email {
            Some(e) => {
                match store.find_by_email(e.as_str()) {
                    Ok(Some(existing)) => {
                        proof {
                            let i = choose|i: int| 0 <= i < st.users.len() && st.users[i] == existing@;
                            assert(st.users[i].email == e@);
                            if existing.id == user_id {
                                assert forall|j: int|
                                    0 <= j < st.users.len() && #[trigger] st.users[j].email
                                        == e@ implies st.users[j].id == user_id by {
                                    assert(st.users.contains(st.users[j]));
                                    lemma_user_unique(st, st.users[j], existing@);
                                }
                            }
                        }
                        if existing.id != user_id {
                            return Err(
                                ApiError {
                                    kind: ErrorKind::Conflict,
                                    message: taken_message("邮箱 '", e.as_str()),
                                },
                            );
                        }
                    },
                    Ok(None) => {},
                    Err(_) => {
                        return Err(store_fault());
                    },
                }
            },
            None => {},
        }
        Ok(())
    }

    /// Changes a user's own name, address or both, at `now`.
    pub fn update_my_profile<S: UserRepository>(
        store: &mut S,
        user_id: u128,
        payload: &UpdateProfilePayload,
        now: i64,
    ) -> (r: Result<UserPublic, ApiError>)
        requires
            old(store).well_formed(),
        ensures
            final(store).well_formed(),
            final(store).reliable() == old(store).reliable(),
            old(store).reliable() || !is_internal(r) ==> update_profile_outcome(
                old(store).state(),
                final(store).state(),
                user_id,
                option_text(payload.username),
                option_text(payload.email),
                now,
                r,
            ),
    {
        match Self::check_free(store, user_id, &payload.username, &payload.email) {
            Ok(_) => {},
            Err(e) => {
                return Err(e);
            },
        }
        let username = clone_option_text(&payload.username);
        let email = clone_option_text(&payload.email);
        let changed = match store.update(user_id, username, email, now) {
            Ok(u) => u,
            Err(StoreError::NotFound) => {
                return Err(ApiError::new(ErrorKind::NotFound, "未找到用户"));
            },
            Err(_) => {
                return Err(store_fault());
            },
        };
        Self::profile_of(store, &changed)
    }

    /// Deletes a user's own account.
    pub fn delete_my_account<S: UserRepository>(store: &mut S, user_id: u128) -> (r: Result<
        (),
        ApiError,
    >)
        requires
            old(store).well_formed(),
        ensures
            final(store).well_formed(),
            final(store).reliable() == old(store).reliable(),
            old(store).reliable() || !is_internal(r) ==> delete_outcome(
                old(store).state(),
                final(store).state(),
                user_id,
                r,
            ),
    {
        match store.delete(user_id) {
            Ok(_) => Ok(()),
            Err(StoreError::NotFound) => Err(ApiError::new(ErrorKind::NotFound, "用户不存在")),
            Err(_) => Err(store_fault()),
        }
    }

    /// Deletes a user on an administrator's behalf.
    pub fn admin_delete_user<S: UserRepository>(store: &mut S, user_id: u128) -> (r: Result<
        (),
        ApiError,
    >)
        requires
            old(store).well_formed(),
        ensures
            final(store).well_formed(),
            final(store).reliable() == old(store).reliable(),
            old(store).reliable() || !is_internal(r) ==> delete_outcome(
                old(store).state(),
                final(store).state(),
                user_id,
                r,
            ),
    {
        Self::delete_my_account(store, user_id)
    }

    /// What is checked of an administrator's making of a user before the
    /// password is hashed: the passwords, then the name, then the address.
    pub fn check_admin_create<S: UserRepository>(store: &S, payload: &CreateUserPayload) -> (r:
        Result<(), ApiError>)
        requires
            store.well_formed(),
        ensures
            passwords_refusal(
                payload.password@,
                payload.confirm_password@,
                password_mismatch(),
            ) matches Some(m) ==> fails_saying(r, ErrorKind::ValidationError, m),
            store.reliable() ==> !is_internal(r),
            !is_internal(r) ==> admin_create_checked(
                store.state(),
                payload.username@,
                payload.email@,
                payload.password@,
                payload.confirm_password@,
                r,
            ),
    {
        let ghost pre = store.state();
        match check_passwords(&payload.password, &payload.confirm_password, "密码与确认密码不匹配") {
            Ok(_) => {},
            Err(e) => {
                return Err(e);
            },
        }
        match store.find_by_username(payload.username.as_str()) {
            Ok(None) => {},
            Ok(Some(u)) => {
                proof {
                    let i = choose|i: int| 0 <= i < pre.users.len() && pre.users[i] == u@;
                    assert(pre.users[i].username == payload.username@);
                }
                return Err(
                    ApiError {
                        kind: ErrorKind::Conflict,
                        message: taken_message("用户名 '", payload.username.as_str()),
                    },
                );
            },
            Err(_) => {
                return Err(store_fault());
            },
        }
        match store.find_by_email(payload.email.as_str()) {
            Ok(None) => Ok(()),
            Ok(Some(u)) => {
                proof {
                    let i = choose|i: int| 0 <= i < pre.users.len() && pre.users[i] == u@;
                    assert(pre.users[i].email == payload.email@);
                }
                Err(
                    ApiError {
                        kind: ErrorKind::Conflict,
                        message: taken_message("邮箱 '", payload.email.as_str()),
                    },
                )
            },
            Err(_) => Err(store_fault()),
        }
    }

    /// Adds a user whom an administrator makes, and returns the profile.
    pub fn add_made_user<S: UserRepository>(
        store: &mut S,
        payload: &CreateUserPayload,
        hashed_password: &str,
        new_id: u128,
        now: i64,
    ) -> (r: Result<UserPublic, ApiError>)
        requires
            old(store).well_formed(),
        ensures
            final(store).well_formed(),
            final(store).reliable() == old(store).reliable(),
            old(store).reliable() ==> !is_internal(r),
            !is_internal(r) ==> made_user_outcome(
                old(store).state(),
                final(store).state(),
                admin_made_row(new_id, payload.username@, payload.email@, hashed_password@, now),
                r,
            ),
    {
        let user = User {
            id: new_id,
            username: payload.username.clone(),
            email: payload.email.clone(),
            hashed_password: hashed_password.to_owned(),
            created_at: now,
            updated_at: now,
            email_verified_at: Some(now),
        };
        match store.create_user(&user) {
            Ok(_) => {},
            Err(StoreError::Conflict) => {
                return Err(ApiError::new(ErrorKind::Conflict, "记录已存在或与现有数据冲突"));
            },
            Err(_) => {
                return Err(store_fault());
            },
        }
        Self::profile_of(store, &user)
    }

    /// Makes a user on an administrator's behalf at `now`, with the
    /// password hash and the identifier to use.
    pub fn admin_create_user_with<S: UserRepository>(
        store: &mut S,
        payload: &CreateUserPayload,
        hashed_password: &str,
        new_id: u128,
        now: i64,
    ) -> (r: Result<UserPublic, ApiError>)
        requires
            old(store).well_formed(),
        ensures
            final(store).well_formed(),
            final(store).reliable() == old(store).reliable(),
            passwords_refusal(
                payload.password@,
                payload.confirm_password@,
                password_mismatch(),
            ) matches Some(m) ==> fails_saying(r, ErrorKind::ValidationError, m)
                && final(store).state() == old(store).state(),
            old(store).reliable() ==> !is_internal(r),
            old(store).reliable() || !is_internal(r) ==> admin_create_outcome(
                old(store).state(),
                final(store).state(),
                payload.username@,
                payload.email@,
                payload.password@,
                payload.confirm_password@,
                hashed_password@,
                new_id,
                now,
                r,
            ),
    {
        match Self::check_admin_create(store, payload) {
            Ok(_) => {},
            Err(e) => {
                return Err(e);
            },
        }
        Self::add_made_user(store, payload, hashed_password, new_id, now)
    }

    /// Makes a user on an administrator's behalf. The passwords, the name
    /// and the address are checked first; only then is the password
    /// hashed, the clock read and a fresh identifier drawn. The hash that
    /// is stored verifies against the password.
    pub fn admin_create_user<S: UserRepository>(store: &mut S, payload: &CreateUserPayload) -> (r:
        Result<UserPublic, ApiError>)
        requires
            old(store).well_formed(),
        ensures
            final(store).well_formed(),
            final(store).reliable() == old(store).reliable(),
            passwords_refusal(
                payload.password@,
                payload.confirm_password@,
                password_mismatch(),
            ) matches Some(m) ==> fails_saying(r, ErrorKind::ValidationError, m)
                && final(store).state() == old(store).state(),
            old(store).reliable() && passwords_refusal(
                payload.password@,
                payload.confirm_password@,
                password_mismatch(),
            ) is None && (old(store).state().has_username(payload.username@)
                || old(store).state().has_email(payload.email@))
                ==> fails_with(r, ErrorKind::Conflict)
                && final(store).state() == old(store).state(),
            old(store).reliable() && is_internal(r) ==> final(store).state() == old(store).state(),
            !is_internal(r) ==> exists|hashed: Seq<char>, new_id: u128, now: i64|
                (r is Ok ==> argon2_check(hashed, payload.password@) == PasswordCheck::Match)
                    && #[trigger] admin_create_outcome(
                    old(store).state(),
                    final(store).state(),
                    payload.username@,
                    payload.email@,
                    payload.password@,
                    payload.confirm_password@,
                    hashed,
                    new_id,
                    now,
                    r,
                ),
    {
        match Self::check_admin_create(store, payload) {
            Ok(_) => {},
            Err(e) => {
                let r = Err(e);
                proof {
                    if !is_internal(r) {
                        assert(admin_create_outcome(
                            old(store).state(),
                            store.state(),
                            payload.username@,
                            payload.email@,
                            payload.password@,
                            payload.confirm_password@,
                            Seq::<char>::empty(),
                            0u128,
                            0i64,
                            r,
                        ));
                    }
                }
                return r;
            },
        }
        let hashed = match hash_password(payload.password.as_str()) {
            Ok(h) => h,
            Err(e) => {
                return Err(e);
            },
        };
        let now = unix_now();
        let new_id = uuid_new_v4();
        let r = Self::add_made_user(store, payload, hashed.as_str(), new_id, now);
        proof {
            if !is_internal(r) {
                assert(admin_create_outcome(
                    old(store).state(),
                    store.state(),
                    payload.username@,
                    payload.email@,
                    payload.password@,
                    payload.confirm_password@,
                    hashed@,
                    new_id,
                    now,
                    r,
                ));
            }
        }
        r
    }

    /// What is checked of an administrator's change of a user before
    /// anything is hashed or written: the user, the passwords where both
    /// are given, the name and the address.
    pub fn check_admin_update<S: UserRepository>(
        store: &S,
        user_id: u128,
        payload: &UpdateUserPayload,
    ) -> (r: Result<(), ApiError>)
        requires
            store.well_formed(),
        ensures
            store.reliable() ==> !is_internal(r),
            !is_internal(r) ==> admin_update_checked(
                store.state(),
                user_id,
                option_text(payload.username),
                option_text(payload.email),
                option_text(payload.password),
                option_text(payload.confirm_password),
                r,
            ),
    {
        let ghost pre = store.state();
        match store.find_by_id(user_id) {
            Ok(Some(u)) => {
                proof {
                    let i = choose|i: int| 0 <= i < pre.users.len() && pre.users[i] == u@;
                    assert(pre.users[i].id == user_id);
                }
            },
            Ok(None) => {
                return Err(ApiError::new(ErrorKind::NotFound, "用户不存在"));
            },
            Err(_) => {
                return Err(store_fault());
            },
        }
        match (&payload.password, &payload.confirm_password) {
            (Some(password), Some(confirm)) => {
                match check_passwords(password, confirm, "密码与确认密码不匹配") {
                    Ok(_) => {},
                    Err(e) => {
                        return Err(e);
                    },
                }
            },
            _ => {},
        }
        Self::check_free(store, user_id, &payload.username, &payload.email)
    }

    /// Writes the name and the address that an administrator gives a
    /// user whose checks have passed, and returns the user as changed.
    fn write_profile<S: UserRepository>(
        store: &mut S,
        user_id: u128,
        payload: &UpdateUserPayload,
        now: i64,
    ) -> (r: Result<User, ApiError>)
        requires
            old(store).well_formed(),
            old(store).state().can_rename(
                user_id,
                option_text(payload.username),
                option_text(payload.email),
            ),
        ensures
            final(store).well_formed(),
            final(store).reliable() == old(store).reliable(),
            old(store).reliable() ==> r is Ok,
            match r {
                Ok(user) => final(store).state() == old(store).state().with_profile(
                    user_id,
                    option_text(payload.username),
                    option_text(payload.email),
                    now,
                ) && user@ == profile_after(
                    old(store).state(),
                    user_id,
                    option_text(payload.username),
                    option_text(payload.email),
                    now,
                ),
                Err(e) => e.kind == ErrorKind::InternalError && final(store).state() == old(store).state(),
            },
    {
        let username = clone_option_text(&payload.username);
        let email = clone_option_text(&payload.email);
        match store.update(user_id, username, email, now) {
            Ok(u) => Ok(u),
            Err(_) => Err(store_fault()),
        }
    }

    /// Ends an administrator's change of a user: stores the hash where a
    /// new password is given, and returns the profile of the user as
    /// changed.
    fn finish_admin_update<S: UserRepository>(
        store: &mut S,
        user_id: u128,
        payload: &UpdateUserPayload,
        changed: &User,
        new_hash: &str,
        now: i64,
    ) -> (r: Result<UserPublic, ApiError>)
        requires
            old(store).well_formed(),
        ensures
            final(store).well_formed(),
            final(store).reliable() == old(store).reliable(),
            old(store).reliable() ==> r is Ok,
            r matches Err(e) ==> e.kind == ErrorKind::InternalError,
            r matches Ok(p) ==> final(store).state() == (match payload.password {
                Some(_) => with_new_password(old(store).state(), user_id, new_hash@, now),
                None => old(store).state(),
            }) && public_profile(p, changed@, final(store).state()),
    {
        match &payload.password {
            Some(_) => {
                match Self::replace_password(store, user_id, new_hash, now) {
                    Ok(_) => {},
                    Err(e) => {
                        return Err(e);
                    },
                }
            },
            None => {},
        }
        Self::profile_of(store, changed)
    }

    /// Changes a user on an administrator's behalf at `now`, with the hash
    /// to store where a new password is given.
    pub fn admin_update_user_with<S: UserRepository>(
        store: &mut S,
        user_id: u128,
        payload: &UpdateUserPayload,
        new_hash: &str,
        now: i64,
    ) -> (r: Result<UserPublic, ApiError>)
        requires
            old(store).well_formed(),
        ensures
            final(store).well_formed(),
            final(store).reliable() == old(store).reliable(),
            old(store).reliable() ==> !is_internal(r),
            old(store).reliable() || !is_internal(r) ==> admin_update_outcome(
                old(store).state(),
                final(store).state(),
                user_id,
                option_text(payload.username),
                option_text(payload.email),
                option_text(payload.password),
                option_text(payload.confirm_password),
                new_hash@,
                now,
                r,
            ),
    {
        match Self::check_admin_update(store, user_id, payload) {
            Ok(_) => {},
            Err(e) => {
                return Err(e);
            },
        }
        let changed = match Self::write_profile(store, user_id, payload, now) {
            Ok(u) => u,
            Err(e) => {
                return Err(e);
            },
        };
        Self::finish_admin_update(store, user_id, payload, &changed, new_hash, now)
    }

    /// Changes a user on an administrator's behalf. The user, the
    /// passwords, the name and the address are checked first; then the
    /// clock is read and the profile written; only then is a new
    /// password, where one is given, hashed and stored. With a store
    /// that does not fail and no new password the change cannot fail for
    /// reasons of its own. Where hashing fails the profile is written
    /// already. A hash that is stored verifies against the password given.
    pub fn admin_update_user<S: UserRepository>(
        store: &mut S,
        user_id: u128,
        payload: &UpdateUserPayload,
    ) -> (r: Result<UserPublic, ApiError>)
        requires
            old(store).well_formed(),
        ensures
            final(store).well_formed(),
            final(store).reliable() == old(store).reliable(),
            old(store).reliable() && !old(store).state().has_user_id(user_id) ==> fails_saying(
                r,
                ErrorKind::NotFound,
                "用户不存在"@,
            ) && final(store).state() == old(store).state(),
            old(store).reliable() && is_internal(r) ==> payload.password is Some && exists|now: i64|
                final(store).state() == #[trigger] old(store).state().with_profile(
                    user_id,
                    option_text(payload.username),
                    option_text(payload.email),
                    now,
                ),
            old(store).reliable() && payload.password is None ==> exists|now: i64| #[trigger]
                admin_update_outcome(
                    old(store).state(),
                    final(store).state(),
                    user_id,
                    option_text(payload.username),
                    option_text(payload.email),
                    option_text(payload.password),
                    option_text(payload.confirm_password),
                    Seq::<char>::empty(),
                    now,
                    r,
                ),
            !is_internal(r) ==> exists|new_hash: Seq<char>, now: i64|
                (r is Ok ==> hash_matches(new_hash, option_text(payload.password)))
                    && #[trigger] admin_update_outcome(
                    old(store).state(),
                    final(store).state(),
                    user_id,
                    option_text(payload.username),
                    option_text(payload.email),
                    option_text(payload.password),
                    option_text(payload.confirm_password),
                    new_hash,
                    now,
                    r,
                ),
    {
        match Self::check_admin_update(store, user_id, payload) {
            Ok(_) => {},
            Err(e) => {
                let r = Err(e);
                proof {
                    if !is_internal(r) {
                        assert(admin_update_outcome(
                            old(store).state(),
                            store.state(),
                            user_id,
                            option_text(payload.username),
                            option_text(payload.email),
                            option_text(payload.password),
                            option_text(payload.confirm_password),
                            Seq::<char>::empty(),
                            0i64,
                            r,
                        ));
                    }
                }
                return r;
            },
        }
        let now = unix_now();
        let changed = match Self::write_profile(store, user_id, payload, now) {
            Ok(u) => u,
            Err(e) => {
                return Err(e);
            },
        };
        let new_hash = match &payload.password {
            Some(password) => match hash_password(password.as_str()) {
                Ok(h) => h,
                Err(e) => {
                    return Err(e);
                },
            },
            None => String::new(),
        };
        let r = Self::finish_admin_update(store, user_id, payload, &changed, new_hash.as_str(), now);
        proof {
            if !is_internal(r) {
                assert(admin_update_outcome(
                    old(store).state(),
                    store.state(),
                    user_id,
                    option_text(payload.username),
                    option_text(payload.email),
                    option_text(payload.password),
                    option_text(payload.confirm_password),
                    new_hash@,
                    now,
                    r,
                ));
            }
        }
        r
    }
}

} // verus!
