//! The one-time token store: tokens for e-mail verification and password
//! reset, each usable once.

use crate::repositories::state::{IdentityStore, OneTimeTokenRow, StoreError, TokenType};
use vstd::prelude::*;

verus! {

impl TokenType {
    /// The name under which the type is stored.
    pub fn as_str(&self) -> (s: &'static str)
        ensures
            s@ == (match *self {
                TokenType::EmailVerification => "email_verification"@,
                TokenType::PasswordReset => "password_reset"@,
            }),
    {
        match self {
            TokenType::EmailVerification => "email_verification",
            TokenType::PasswordReset => "password_reset",
        }
    }
}

/// Holds one-time tokens by the hash of their secret.
pub trait OneTimeTokenRepository: IdentityStore {
    /// Stores a new token. The hash must not be stored already.
    fn store_token(
        &mut self,
        user_id: u128,
        token_hash: &str,
        token_type: TokenType,
        expires_at: i64,
    ) -> (r: Result<(), StoreError>)
        requires
            old(self).well_formed(),
        ensures
            final(self).well_formed(),
            final(self).reliable() == old(self).reliable(),
            old(self).reliable() && !old(self).state().one_time_tokens.contains_key(token_hash@)
                ==> r is Ok,
            match r {
                Ok(_) => !old(self).state().one_time_tokens.contains_key(token_hash@) && final(self).state() == old(self).state().with_one_time_token(
                    token_hash@,
                    OneTimeTokenRow { user_id, token_type, expires_at },
                ),
                Err(_) => final(self).state() == old(self).state(),
            },
    ;

    /// Looks a token up and deletes it, in one step. Returns its owner
    /// where the token was stored, of the given type and not expired at
    /// `now`; an unknown, expired or used token gives `None` and changes
    /// nothing, and the three cannot be told apart.
    fn find_and_consume_token(&mut self, token_hash: &str, token_type: TokenType, now: i64) -> (r:
        Result<Option<u128>, StoreError>)
        requires
            old(self).well_formed(),
        ensures
            final(self).well_formed(),
            final(self).reliable() == old(self).reliable(),
            old(self).reliable() ==> r is Ok,
            match r {
                Ok(Some(user_id)) => old(self).state().consumable(token_hash@, token_type, now)
                    == Some(user_id) && final(self).state() == old(self).state().without_one_time_token(token_hash@),
                Ok(None) => old(self).state().consumable(token_hash@, token_type, now) is None
                    && final(self).state() == old(self).state(),
                Err(_) => final(self).state() == old(self).state(),
            },
    ;
}

} // verus!
