//! The lockout tracker's part of the store: failed logins by username.

use crate::repositories::state::{next_failure_count, IdentityStore, LoginAttempt, StoreError};
use vstd::prelude::*;

verus! {

/// Counts failed logins per username and holds the lockouts.
pub trait LoginAttemptRepository: IdentityStore {
    /// The failures counted against a username, if any.
    fn get_by_username(&self, username: &str) -> (r: Result<Option<LoginAttempt>, StoreError>)
        requires
            self.well_formed(),
        ensures
            self.reliable() ==> r is Ok,
            r matches Ok(found) ==> found == self.state().attempt(username@),
    ;

    /// Counts one more failure, in one step, and returns the new count.
    /// The count stops at the largest value it can hold.
    fn record_failure(&mut self, username: &str) -> (r: Result<i32, StoreError>)
        requires
            old(self).well_formed(),
        ensures
            final(self).well_formed(),
            final(self).reliable() == old(self).reliable(),
            old(self).reliable() ==> r is Ok,
            match r {
                Ok(n) => n == next_failure_count(old(self).state().attempt(username@))
                    && final(self).state() == old(self).state().with_failure(username@),
                Err(_) => final(self).state() == old(self).state(),
            },
    ;

    /// Locks a username with counted failures out until `expires_at`.
    fn set_lockout(&mut self, username: &str, expires_at: i64) -> (r: Result<(), StoreError>)
        requires
            old(self).well_formed(),
        ensures
            final(self).well_formed(),
            final(self).reliable() == old(self).reliable(),
            old(self).reliable() ==> r is Ok,
            match r {
                Ok(_) => final(self).state() == old(self).state().with_lockout(
                    username@,
                    expires_at,
                ),
                Err(_) => final(self).state() == old(self).state(),
            },
    ;

    /// Clears counter and lockout of a username.
    fn clear_for_username(&mut self, username: &str) -> (r: Result<(), StoreError>)
        requires
            old(self).well_formed(),
        ensures
            final(self).well_formed(),
            final(self).reliable() == old(self).reliable(),
            old(self).reliable() ==> r is Ok,
            match r {
                Ok(_) => final(self).state() == old(self).state().without_attempt(username@),
                Err(_) => final(self).state() == old(self).state(),
            },
    ;
}

} // verus!
