//! The identity store as a mathematical value, and the effect of each of
//! its operations on that value.

use crate::models::{NamedRow, UserRow};
use vstd::prelude::*;

verus! {

/// What a store reports when an operation did not take place.
#[derive(Clone, Copy, Debug, PartialEq, Eq, Structural)]
pub enum StoreError {
    /// A uniqueness rule would be broken.
    Conflict,
    /// The row to change is not there.
    NotFound,
    /// The store could not be reached, or gave up.
    Unavailable,
}

/// The failed logins counted against a username.
#[derive(Clone, Copy, Debug)]
pub struct LoginAttempt {
    pub failure_count: i32,
    /// The instant, in Unix seconds, at which a lockout ends.
    pub lockout_expires_at: Option<i64>,
}

/// A stored refresh token, found by the hash of its secret.
#[derive(Clone, Copy, Debug)]
pub struct RefreshTokenRow {
    pub user_id: u128,
    pub expires_at: i64,
}

/// What a one-time token is for.
#[derive(Clone, Copy, Debug, PartialEq, Eq, Structural)]
pub enum TokenType {
    EmailVerification,
    PasswordReset,
}

/// A stored one-time token, found by the hash of its secret.
#[derive(Clone, Copy, Debug)]
pub struct OneTimeTokenRow {
    pub user_id: u128,
    pub token_type: TokenType,
    pub expires_at: i64,
}

/// What a registration writes, all of it or none.
pub struct Registration {
    pub user: UserRow,
    pub role_id: u128,
    pub token_hash: Seq<char>,
    pub token_expires_at: i64,
}

/// Everything the identity store holds.
pub struct IdentityState {
    pub users: Seq<UserRow>,
    pub roles: Seq<NamedRow>,
    pub permissions: Seq<NamedRow>,
    /// Pairs of a user and a role the user holds.
    pub user_roles: Set<(u128, u128)>,
    /// Pairs of a role and a permission the role grants.
    pub role_permissions: Set<(u128, u128)>,
    /// Refresh tokens by hash.
    pub refresh_tokens: Map<Seq<char>, RefreshTokenRow>,
    /// One-time tokens by hash.
    pub one_time_tokens: Map<Seq<char>, OneTimeTokenRow>,
    /// Failed logins by username.
    pub login_attempts: Map<Seq<char>, LoginAttempt>,
}

/// No two rows share an identifier or a name.
pub open spec fn distinct_named(rows: Seq<NamedRow>) -> bool {
    forall|i: int, j: int|
        0 <= i < j < rows.len() ==> rows[i].id != rows[j].id && rows[i].name != rows[j].name
}

/// The pairs of `first` with each of `seconds`.
pub open spec fn pairs_with(first: u128, seconds: Seq<u128>) -> Set<(u128, u128)> {
    Set::new(|p: (u128, u128)| p.0 == first && seconds.contains(p.1))
}

/// Whether some user has the identifier.
pub open spec fn users_have_id(users: Seq<UserRow>, id: u128) -> bool {
    exists|i: int| 0 <= i < users.len() && #[trigger] users[i].id == id
}

/// Whether each pair of a user and a role names a user that exists.
pub open spec fn roles_are_held_by_users(users: Seq<UserRow>, user_roles: Set<(u128, u128)>) -> bool {
    forall|p: (u128, u128)| #[trigger] user_roles.contains(p) ==> users_have_id(users, p.0)
}

/// Whether every identifier that one list of users holds is held by the
/// other too.
pub open spec fn ids_stay(before: Seq<UserRow>, after: Seq<UserRow>) -> bool {
    forall|id: u128| #[trigger] users_have_id(before, id) ==> users_have_id(after, id)
}

/// A list that keeps each row's identifier in its place keeps every
/// identifier.
pub proof fn lemma_ids_stay(before: Seq<UserRow>, after: Seq<UserRow>)
    requires
        before.len() <= after.len(),
        forall|j: int| 0 <= j < before.len() ==> after[j].id == before[j].id,
    ensures
        ids_stay(before, after),
{
    assert forall|id: u128| #[trigger] users_have_id(before, id) implies users_have_id(
        after,
        id,
    ) by {
        let i = choose|i: int| 0 <= i < before.len() && #[trigger] before[i].id == id;
        assert(after[i].id == id);
    }
}

/// Whether some user has the username.
pub open spec fn users_have_username(users: Seq<UserRow>, name: Seq<char>) -> bool {
    exists|i: int| 0 <= i < users.len() && #[trigger] users[i].username == name
}

/// Whether some user has the e-mail address.
pub open spec fn users_have_email(users: Seq<UserRow>, email: Seq<char>) -> bool {
    exists|i: int| 0 <= i < users.len() && #[trigger] users[i].email == email
}

/// No two users share an identifier, a username or an e-mail address.
pub open spec fn distinct_users(users: Seq<UserRow>) -> bool {
    forall|i: int, j: int|
        0 <= i < j < users.len() ==> users[i].id != users[j].id && users[i].username
            != users[j].username && users[i].email != users[j].email
}

/// A user's row after the e-mail address of `user_id` was verified at `now`.
pub open spec fn verified_row(u: UserRow, user_id: u128, now: i64) -> UserRow {
    if u.id == user_id {
        UserRow { email_verified_at: Some(now), ..u }
    } else {
        u
    }
}

/// A user's row after the password hash of `user_id` was replaced at `now`.
pub open spec fn password_row(u: UserRow, user_id: u128, hash: Seq<char>, now: i64) -> UserRow {
    if u.id == user_id {
        UserRow { hashed_password: hash, updated_at: now, ..u }
    } else {
        u
    }
}

/// A user's row after the profile of `user_id` was changed at `now`: a
/// name or an address that is given replaces the old one.
pub open spec fn renamed_row(
    u: UserRow,
    user_id: u128,
    username: Option<Seq<char>>,
    email: Option<Seq<char>>,
    now: i64,
) -> UserRow {
    if u.id == user_id {
        UserRow {
            username: match username {
                Some(n) => n,
                None => u.username,
            },
            email: match email {
                Some(e) => e,
                None => u.email,
            },
            updated_at: now,
            ..u
        }
    } else {
        u
    }
}

/// Whether a user other than `user_id` has the username.
pub open spec fn username_taken_by_other(users: Seq<UserRow>, user_id: u128, name: Seq<char>)
    -> bool {
    exists|i: int|
        0 <= i < users.len() && #[trigger] users[i].username == name && users[i].id != user_id
}

/// Whether a user other than `user_id` has the e-mail address.
pub open spec fn email_taken_by_other(users: Seq<UserRow>, user_id: u128, email: Seq<char>) -> bool {
    exists|i: int| 0 <= i < users.len() && #[trigger] users[i].email == email && users[i].id != user_id
}

/// The place of the user with the given identifier.
pub open spec fn user_position(users: Seq<UserRow>, user_id: u128) -> int {
    choose|i: int| 0 <= i < users.len() && #[trigger] users[i].id == user_id
}

/// The failure count after one more failure.
pub open spec fn next_failure_count(attempt: Option<LoginAttempt>) -> i32 {
    match attempt {
        None => 1,
        Some(a) => if a.failure_count < i32::MAX {
            (a.failure_count + 1) as i32
        } else {
            i32::MAX
        },
    }
}

impl IdentityState {
    /// The rules of the store: no two users share an identifier, a
    /// username or an e-mail address; no two roles, and no two permissions,
    /// share an identifier or a name; only a user that exists holds a
    /// role; no failure count is negative.
    pub open spec fn valid(self) -> bool {
        &&& distinct_users(self.users)
        &&& distinct_named(self.roles)
        &&& distinct_named(self.permissions)
        &&& roles_are_held_by_users(self.users, self.user_roles)
        &&& forall|u: Seq<char>| #[trigger]
            self.login_attempts.contains_key(u) ==> self.login_attempts[u].failure_count >= 0
    }

    /// Whether some user has the identifier.
    pub open spec fn has_user_id(self, id: u128) -> bool {
        users_have_id(self.users, id)
    }

    /// Whether a user can be given the roles: a user that exists can, and
    /// no roles can be given to anyone.
    pub open spec fn can_hold_roles(self, user_id: u128, role_ids: Seq<u128>) -> bool {
        role_ids.len() == 0 || self.has_user_id(user_id)
    }

    /// Whether some user has the username.
    pub open spec fn has_username(self, name: Seq<char>) -> bool {
        users_have_username(self.users, name)
    }

    /// Whether some user has the e-mail address.
    pub open spec fn has_email(self, email: Seq<char>) -> bool {
        users_have_email(self.users, email)
    }

    /// Whether a row is the role of the given name.
    pub open spec fn is_role_named(self, row: NamedRow, name: Seq<char>) -> bool {
        self.roles.contains(row) && row.name == name
    }

    /// Whether some role has the name.
    pub open spec fn has_role_named(self, name: Seq<char>) -> bool {
        exists|i: int| 0 <= i < self.roles.len() && #[trigger] self.roles[i].name == name
    }

    /// The names of the roles a user holds.
    pub open spec fn user_role_names(self, user_id: u128) -> Set<Seq<char>> {
        Set::new(
            |name: Seq<char>|
                exists|i: int|
                    0 <= i < self.roles.len() && #[trigger] self.roles[i].name == name
                        && self.user_roles.contains((user_id, self.roles[i].id)),
        )
    }

    /// Whether some role of the user grants the permission with the given
    /// identifier.
    pub open spec fn user_granted(self, user_id: u128, permission_id: u128) -> bool {
        exists|role_id: u128|
            self.user_roles.contains((user_id, role_id)) && #[trigger] self.role_permissions.contains(
                (role_id, permission_id),
            )
    }

    /// The names of the permissions a user has: the union, over the roles
    /// the user holds, of the permissions each role grants.
    pub open spec fn user_permission_names(self, user_id: u128) -> Set<Seq<char>> {
        Set::new(
            |name: Seq<char>|
                exists|i: int|
                    0 <= i < self.permissions.len() && #[trigger] self.permissions[i].name == name
                        && self.user_granted(user_id, self.permissions[i].id),
        )
    }

    /// The failures counted against a username, if any.
    pub open spec fn attempt(self, username: Seq<char>) -> Option<LoginAttempt> {
        if self.login_attempts.contains_key(username) {
            Some(self.login_attempts[username])
        } else {
            None
        }
    }

    /// Whether logins under the username are locked out at `now`.
    pub open spec fn locked_at(self, username: Seq<char>, now: i64) -> bool {
        match self.attempt(username) {
            Some(a) => match a.lockout_expires_at {
                Some(until) => now < until,
                None => false,
            },
            None => false,
        }
    }

    /// The owner of the refresh token with the given hash, where the token
    /// is stored and not yet expired at `now`.
    pub open spec fn refresh_owner(self, token_hash: Seq<char>, now: i64) -> Option<u128> {
        if self.refresh_tokens.contains_key(token_hash) && self.refresh_tokens[token_hash].expires_at
            > now {
            Some(self.refresh_tokens[token_hash].user_id)
        } else {
            None
        }
    }

    /// The owner of the one-time token with the given hash, where the
    /// token is stored, of the given type and not yet expired at `now`.
    pub open spec fn consumable(self, token_hash: Seq<char>, token_type: TokenType, now: i64)
        -> Option<u128> {
        if self.one_time_tokens.contains_key(token_hash) && self.one_time_tokens[token_hash].token_type
            == token_type && self.one_time_tokens[token_hash].expires_at > now {
            Some(self.one_time_tokens[token_hash].user_id)
        } else {
            None
        }
    }

    /// One more failure counted against a username; a lockout that was
    /// set stays as it is.
    pub open spec fn with_failure(self, username: Seq<char>) -> IdentityState {
        IdentityState {
            login_attempts: self.login_attempts.insert(
                username,
                LoginAttempt {
                    failure_count: next_failure_count(self.attempt(username)),
                    lockout_expires_at: match self.attempt(username) {
                        Some(a) => a.lockout_expires_at,
                        None => None,
                    },
                },
            ),
            ..self
        }
    }

    /// A lockout until `until` on a username that has failures counted;
    /// no change for one that has none.
    pub open spec fn with_lockout(self, username: Seq<char>, until: i64) -> IdentityState {
        match self.attempt(username) {
            Some(a) => IdentityState {
                login_attempts: self.login_attempts.insert(
                    username,
                    LoginAttempt { failure_count: a.failure_count, lockout_expires_at: Some(until) },
                ),
                ..self
            },
            None => self,
        }
    }

    /// Counter and lockout of a username cleared.
    pub open spec fn without_attempt(self, username: Seq<char>) -> IdentityState {
        IdentityState { login_attempts: self.login_attempts.remove(username), ..self }
    }

    /// A one-time token stored under a hash.
    pub open spec fn with_one_time_token(self, token_hash: Seq<char>, row: OneTimeTokenRow)
        -> IdentityState {
        IdentityState { one_time_tokens: self.one_time_tokens.insert(token_hash, row), ..self }
    }

    /// The one-time token under a hash deleted.
    pub open spec fn without_one_time_token(self, token_hash: Seq<char>) -> IdentityState {
        IdentityState { one_time_tokens: self.one_time_tokens.remove(token_hash), ..self }
    }

    /// A refresh token stored under a hash.
    pub open spec fn with_refresh_token(self, token_hash: Seq<char>, row: RefreshTokenRow)
        -> IdentityState {
        IdentityState { refresh_tokens: self.refresh_tokens.insert(token_hash, row), ..self }
    }

    /// The refresh token under a hash deleted.
    pub open spec fn without_refresh_token(self, token_hash: Seq<char>) -> IdentityState {
        IdentityState { refresh_tokens: self.refresh_tokens.remove(token_hash), ..self }
    }

    /// Every refresh token of a user removed.
    pub open spec fn without_refresh_tokens_of(self, user_id: u128) -> IdentityState {
        IdentityState {
            refresh_tokens: Map::new(
                |k: Seq<char>|
                    self.refresh_tokens.contains_key(k) && self.refresh_tokens[k].user_id
                        != user_id,
                |k: Seq<char>| self.refresh_tokens[k],
            ),
            ..self
        }
    }

    /// Whether a registration can be written: identifier, username,
    /// e-mail address and token hash are all free.
    pub open spec fn can_register(self, reg: Registration) -> bool {
        &&& !self.has_user_id(reg.user.id)
        &&& !self.has_username(reg.user.username)
        &&& !self.has_email(reg.user.email)
        &&& !self.one_time_tokens.contains_key(reg.token_hash)
    }

    /// A registration written: the user, the role held, and the
    /// e-mail verification token.
    pub open spec fn with_registration(self, reg: Registration) -> IdentityState {
        IdentityState {
            users: self.users.push(reg.user),
            user_roles: self.user_roles.insert((reg.user.id, reg.role_id)),
            one_time_tokens: self.one_time_tokens.insert(
                reg.token_hash,
                OneTimeTokenRow {
                    user_id: reg.user.id,
                    token_type: TokenType::EmailVerification,
                    expires_at: reg.token_expires_at,
                },
            ),
            ..self
        }
    }

    /// The e-mail address of a user marked as verified at `now`.
    pub open spec fn with_verified(self, user_id: u128, now: i64) -> IdentityState {
        IdentityState {
            users: self.users.map_values(|u: UserRow| verified_row(u, user_id, now)),
            ..self
        }
    }

    /// The password hash of a user replaced at `now`.
    pub open spec fn with_password(self, user_id: u128, hash: Seq<char>, now: i64) -> IdentityState {
        IdentityState {
            users: self.users.map_values(|u: UserRow| password_row(u, user_id, hash, now)),
            ..self
        }
    }

    /// Whether a user can be added: identifier, username and e-mail
    /// address are all free.
    pub open spec fn can_add_user(self, user: UserRow) -> bool {
        !self.has_user_id(user.id) && !self.has_username(user.username) && !self.has_email(
            user.email,
        )
    }

    /// A user added.
    pub open spec fn with_user(self, user: UserRow) -> IdentityState {
        IdentityState { users: self.users.push(user), ..self }
    }

    /// Whether the profile of a user can be changed: the user is there,
    /// and no other user has the new name or the new address.
    pub open spec fn can_rename(
        self,
        user_id: u128,
        username: Option<Seq<char>>,
        email: Option<Seq<char>>,
    ) -> bool {
        &&& self.has_user_id(user_id)
        &&& username matches Some(n) ==> !username_taken_by_other(self.users, user_id, n)
        &&& email matches Some(e) ==> !email_taken_by_other(self.users, user_id, e)
    }

    /// The profile of a user changed at `now`.
    pub open spec fn with_profile(
        self,
        user_id: u128,
        username: Option<Seq<char>>,
        email: Option<Seq<char>>,
        now: i64,
    ) -> IdentityState {
        IdentityState {
            users: self.users.map_values(
                |u: UserRow| renamed_row(u, user_id, username, email, now),
            ),
            ..self
        }
    }

    /// A user deleted, and with the user the roles held and every refresh
    /// and one-time token. Failures counted against the username stay.
    pub open spec fn without_user(self, user_id: u128) -> IdentityState {
        IdentityState {
            users: self.users.remove(user_position(self.users, user_id)),
            user_roles: Set::new(
                |p: (u128, u128)| self.user_roles.contains(p) && p.0 != user_id,
            ),
            refresh_tokens: Map::new(
                |k: Seq<char>|
                    self.refresh_tokens.contains_key(k) && self.refresh_tokens[k].user_id
                        != user_id,
                |k: Seq<char>| self.refresh_tokens[k],
            ),
            one_time_tokens: Map::new(
                |k: Seq<char>|
                    self.one_time_tokens.contains_key(k) && self.one_time_tokens[k].user_id
                        != user_id,
                |k: Seq<char>| self.one_time_tokens[k],
            ),
            ..self
        }
    }

    /// A role taken from a user.
    pub open spec fn without_user_role(self, user_id: u128, role_id: u128) -> IdentityState {
        IdentityState { user_roles: self.user_roles.remove((user_id, role_id)), ..self }
    }

    /// The roles of a user replaced by the given ones.
    pub open spec fn with_only_user_roles(self, user_id: u128, role_ids: Seq<u128>)
        -> IdentityState {
        IdentityState {
            user_roles: Set::new(
                |p: (u128, u128)| self.user_roles.contains(p) && p.0 != user_id,
            ).union(pairs_with(user_id, role_ids)),
            ..self
        }
    }

    /// A role added.
    pub open spec fn with_role(self, row: NamedRow) -> IdentityState {
        IdentityState { roles: self.roles.push(row), ..self }
    }

    /// A permission added.
    pub open spec fn with_permission(self, row: NamedRow) -> IdentityState {
        IdentityState { permissions: self.permissions.push(row), ..self }
    }

    /// A user holding the given roles, besides those held.
    pub open spec fn with_user_roles(self, user_id: u128, role_ids: Seq<u128>) -> IdentityState {
        IdentityState { user_roles: self.user_roles.union(pairs_with(user_id, role_ids)), ..self }
    }

    /// A role granting the given permissions, besides those it grants.
    pub open spec fn with_role_permissions(self, role_id: u128, permission_ids: Seq<u128>)
        -> IdentityState {
        IdentityState {
            role_permissions: self.role_permissions.union(pairs_with(role_id, permission_ids)),
            ..self
        }
    }
}

/// What every store has: the value it stands for, whether it is in order,
/// and whether it can be relied on to carry out what it is asked.
pub trait IdentityStore {
    /// Everything the store holds. A store that does not say what it
    /// holds stands for some value that nothing is known of.
    open spec fn state(&self) -> IdentityState {
        arbitrary()
    }

    /// The store's own invariant.
    open spec fn well_formed(&self) -> bool {
        true
    }

    /// Whether the store never reports `Unavailable`. A store in memory
    /// is reliable; one behind a network is not.
    open spec fn reliable(&self) -> bool {
        false
    }
}

} // verus!
