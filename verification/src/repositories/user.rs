//! Users, the roles they hold, and their refresh tokens.

use crate::models::{option_text, User};
use crate::repositories::state::{
    renamed_row,
    user_position,
    IdentityStore,
    RefreshTokenRow,
    Registration,
    StoreError,
};
use crate::text::texts;
use vstd::prelude::*;

verus! {

/// Holds the users.
pub trait UserRepository: IdentityStore {
    /// The user of the given username.
    fn find_by_username(&self, username: &str) -> (r: Result<Option<User>, StoreError>)
        requires
            self.well_formed(),
        ensures
            self.state().valid(),
            self.reliable() ==> r is Ok,
            r matches Ok(Some(u)) ==> self.state().users.contains(u@) && u@.username == username@,
            r matches Ok(None) ==> !self.state().has_username(username@),
    ;

    /// The user of the given e-mail address.
    fn find_by_email(&self, email: &str) -> (r: Result<Option<User>, StoreError>)
        requires
            self.well_formed(),
        ensures
            self.state().valid(),
            self.reliable() ==> r is Ok,
            r matches Ok(Some(u)) ==> self.state().users.contains(u@) && u@.email == email@,
            r matches Ok(None) ==> !self.state().has_email(email@),
    ;

    /// The user of the given identifier.
    fn find_by_id(&self, user_id: u128) -> (r: Result<Option<User>, StoreError>)
        requires
            self.well_formed(),
        ensures
            self.state().valid(),
            self.reliable() ==> r is Ok,
            r matches Ok(Some(u)) ==> self.state().users.contains(u@) && u@.id == user_id,
            r matches Ok(None) ==> !self.state().has_user_id(user_id),
    ;

    /// Writes a registration as one transaction: the user, the role the
    /// user holds, and the e-mail verification token; all of it or nothing.
    fn create_registered(
        &mut self,
        user: &User,
        role_id: u128,
        token_hash: &str,
        token_expires_at: i64,
    ) -> (r: Result<(), StoreError>)
        requires
            old(self).well_formed(),
        ensures
            final(self).well_formed(),
            final(self).reliable() == old(self).reliable(),
            old(self).reliable() && old(self).state().can_register(
                (Registration { user: user@, role_id, token_hash: token_hash@, token_expires_at }),
            ) ==> r is Ok,
            old(self).reliable() ==> r is Ok || r == Err::<(), StoreError>(StoreError::Conflict),
            match r {
                Ok(_) => old(self).state().can_register(
                    (Registration {
                        user: user@,
                        role_id,
                        token_hash: token_hash@,
                        token_expires_at,
                    }),
                ) && final(self).state() == old(self).state().with_registration(
                    (Registration {
                        user: user@,
                        role_id,
                        token_hash: token_hash@,
                        token_expires_at,
                    }),
                ),
                Err(e) => final(self).state() == old(self).state() && (e == StoreError::Conflict
                    ==> !old(self).state().can_register(
                    (Registration {
                        user: user@,
                        role_id,
                        token_hash: token_hash@,
                        token_expires_at,
                    }),
                )),
            },
    ;

    /// Adds a user as given, without a role and without a token. The
    /// identifier, the username and the e-mail address must be free.
    fn create_user(&mut self, user: &User) -> (r: Result<(), StoreError>)
        requires
            old(self).well_formed(),
        ensures
            final(self).well_formed(),
            final(self).reliable() == old(self).reliable(),
            old(self).reliable() && old(self).state().can_add_user(user@) ==> r is Ok,
            old(self).reliable() ==> r is Ok || r == Err::<(), StoreError>(StoreError::Conflict),
            match r {
                Ok(_) => old(self).state().can_add_user(user@) && final(self).state() == old(self).state().with_user(user@),
                Err(e) => final(self).state() == old(self).state() && (e == StoreError::Conflict
                    ==> !old(self).state().can_add_user(user@)),
            },
    ;

    /// Changes the username, the e-mail address or both of a user, and
    /// returns the user as changed.
    fn update(&mut self, user_id: u128, username: Option<String>, email: Option<String>, now: i64)
        -> (r: Result<User, StoreError>)
        requires
            old(self).well_formed(),
        ensures
            final(self).well_formed(),
            final(self).reliable() == old(self).reliable(),
            old(self).reliable() && old(self).state().can_rename(
                user_id,
                option_text(username),
                option_text(email),
            ) ==> r is Ok,
            match r {
                Ok(u) => old(self).state().can_rename(
                    user_id,
                    option_text(username),
                    option_text(email),
                ) && final(self).state() == old(self).state().with_profile(
                    user_id,
                    option_text(username),
                    option_text(email),
                    now,
                ) && final(self).state().users.contains(u@) && u@.id == user_id && u@
                    == renamed_row(
                    old(self).state().users[user_position(old(self).state().users, user_id)],
                    user_id,
                    option_text(username),
                    option_text(email),
                    now,
                ),
                Err(e) => final(self).state() == old(self).state() && (e == StoreError::NotFound
                    ==> !old(self).state().has_user_id(user_id)) && (e == StoreError::Conflict
                    ==> old(self).state().has_user_id(user_id) && !old(self).state().can_rename(
                    user_id,
                    option_text(username),
                    option_text(email),
                )) && (old(self).reliable() ==> e != StoreError::Unavailable),
            },
    ;

    /// Deletes a user, with the roles held and every token of the user.
    fn delete(&mut self, user_id: u128) -> (r: Result<(), StoreError>)
        requires
            old(self).well_formed(),
        ensures
            final(self).well_formed(),
            final(self).reliable() == old(self).reliable(),
            old(self).reliable() ==> (r is Ok <==> old(self).state().has_user_id(user_id)),
            match r {
                Ok(_) => old(self).state().has_user_id(user_id) && final(self).state() == old(self).state().without_user(user_id),
                Err(e) => final(self).state() == old(self).state() && (e == StoreError::NotFound
                    ==> !old(self).state().has_user_id(user_id)) && (old(self).reliable() ==> e
                    == StoreError::NotFound),
            },
    ;

    /// Takes a role from a user.
    fn remove_role_from_user(&mut self, user_id: u128, role_id: u128) -> (r: Result<
        (),
        StoreError,
    >)
        requires
            old(self).well_formed(),
        ensures
            final(self).well_formed(),
            final(self).reliable() == old(self).reliable(),
            old(self).reliable() ==> r is Ok,
            match r {
                Ok(_) => final(self).state() == old(self).state().without_user_role(
                    user_id,
                    role_id,
                ),
                Err(_) => final(self).state() == old(self).state(),
            },
    ;

    /// Replaces the roles a user holds by the given ones. Roles for a
    /// user that does not exist are refused.
    fn set_user_roles(&mut self, user_id: u128, role_ids: &Vec<u128>) -> (r: Result<(), StoreError>)
        requires
            old(self).well_formed(),
        ensures
            final(self).well_formed(),
            final(self).reliable() == old(self).reliable(),
            old(self).reliable() && old(self).state().can_hold_roles(user_id, role_ids@) ==> r is Ok,
            match r {
                Ok(_) => old(self).state().can_hold_roles(user_id, role_ids@) && final(self).state()
                    == old(self).state().with_only_user_roles(user_id, role_ids@),
                Err(_) => final(self).state() == old(self).state(),
            },
    ;

    /// Lets a user hold the given roles, besides those held. Roles for a
    /// user that does not exist are refused.
    fn assign_roles_to_user(&mut self, user_id: u128, role_ids: &Vec<u128>) -> (r: Result<
        (),
        StoreError,
    >)
        requires
            old(self).well_formed(),
        ensures
            final(self).well_formed(),
            final(self).reliable() == old(self).reliable(),
            old(self).reliable() && old(self).state().can_hold_roles(user_id, role_ids@) ==> r is Ok,
            match r {
                Ok(_) => old(self).state().can_hold_roles(user_id, role_ids@) && final(self).state()
                    == old(self).state().with_user_roles(user_id, role_ids@),
                Err(_) => final(self).state() == old(self).state(),
            },
    ;

    /// The names of the roles a user holds, each once.
    fn get_user_roles(&self, user_id: u128) -> (r: Result<Vec<String>, StoreError>)
        requires
            self.well_formed(),
        ensures
            self.reliable() ==> r is Ok,
            r matches Ok(names) ==> texts(names@).to_set() == self.state().user_role_names(user_id)
                && texts(names@).no_duplicates(),
    ;

    /// The names of the permissions that the roles of a user grant, each
    /// once.
    fn get_user_permissions(&self, user_id: u128) -> (r: Result<Vec<String>, StoreError>)
        requires
            self.well_formed(),
        ensures
            self.reliable() ==> r is Ok,
            r matches Ok(names) ==> texts(names@).to_set() == self.state().user_permission_names(
                user_id,
            ) && texts(names@).no_duplicates(),
    ;

    /// Marks the e-mail address of a user as verified at `now`.
    fn mark_email_as_verified(&mut self, user_id: u128, now: i64) -> (r: Result<(), StoreError>)
        requires
            old(self).well_formed(),
        ensures
            final(self).well_formed(),
            final(self).reliable() == old(self).reliable(),
            old(self).reliable() ==> r is Ok,
            match r {
                Ok(_) => final(self).state() == old(self).state().with_verified(user_id, now),
                Err(_) => final(self).state() == old(self).state(),
            },
    ;

    /// Replaces the password hash of a user.
    fn update_password(&mut self, user_id: u128, new_hashed_password: &str, now: i64) -> (r: Result<
        (),
        StoreError,
    >)
        requires
            old(self).well_formed(),
        ensures
            final(self).well_formed(),
            final(self).reliable() == old(self).reliable(),
            old(self).reliable() ==> r is Ok,
            match r {
                Ok(_) => final(self).state() == old(self).state().with_password(
                    user_id,
                    new_hashed_password@,
                    now,
                ),
                Err(_) => final(self).state() == old(self).state(),
            },
    ;

    /// Stores a refresh token by its hash. The hash must not be stored
    /// already.
    fn store_refresh_token(&mut self, user_id: u128, token_hash: &str, expires_at: i64) -> (r:
        Result<(), StoreError>)
        requires
            old(self).well_formed(),
        ensures
            final(self).well_formed(),
            final(self).reliable() == old(self).reliable(),
            old(self).reliable() && !old(self).state().refresh_tokens.contains_key(token_hash@)
                ==> r is Ok,
            match r {
                Ok(_) => !old(self).state().refresh_tokens.contains_key(token_hash@) && final(self).state() == old(self).state().with_refresh_token(
                    token_hash@,
                    RefreshTokenRow { user_id, expires_at },
                ),
                Err(_) => final(self).state() == old(self).state(),
            },
    ;

    /// The owner of a refresh token that is stored and not expired at `now`.
    fn find_user_by_refresh_token(&self, token_hash: &str, now: i64) -> (r: Result<
        Option<User>,
        StoreError,
    >)
        requires
            self.well_formed(),
        ensures
            self.state().valid(),
            self.reliable() ==> r is Ok,
            r matches Ok(Some(u)) ==> self.state().users.contains(u@) && self.state().refresh_owner(
                token_hash@,
                now,
            ) == Some(u@.id),
            r matches Ok(None) ==> (match self.state().refresh_owner(token_hash@, now) {
                Some(owner) => !self.state().has_user_id(owner),
                None => true,
            }),
    ;

    /// Deletes a refresh token.
    fn delete_refresh_token(&mut self, token_hash: &str) -> (r: Result<(), StoreError>)
        requires
            old(self).well_formed(),
        ensures
            final(self).well_formed(),
            final(self).reliable() == old(self).reliable(),
            old(self).reliable() ==> r is Ok,
            match r {
                Ok(_) => final(self).state() == old(self).state().without_refresh_token(
                    token_hash@,
                ),
                Err(_) => final(self).state() == old(self).state(),
            },
    ;

    /// Deletes every refresh token of a user.
    fn delete_all_refresh_token_for_user(&mut self, user_id: u128) -> (r: Result<(), StoreError>)
        requires
            old(self).well_formed(),
        ensures
            final(self).well_formed(),
            final(self).reliable() == old(self).reliable(),
            old(self).reliable() ==> r is Ok,
            match r {
                Ok(_) => final(self).state() == old(self).state().without_refresh_tokens_of(
                    user_id,
                ),
                Err(_) => final(self).state() == old(self).state(),
            },
    ;
}

} // verus!
