//! Permissions.

use crate::models::Permission;
use crate::repositories::role::{has_named_id, has_named_name, new_named_row};
use crate::repositories::state::{IdentityStore, StoreError};
use vstd::prelude::*;

verus! {

/// Holds the permissions.
pub trait PermissionRepository: IdentityStore {
    /// Adds a permission. Identifier and name must be free.
    fn create(&mut self, id: u128, name: &str, description: Option<String>, now: i64) -> (r: Result<
        Permission,
        StoreError,
    >)
        requires
            old(self).well_formed(),
        ensures
            final(self).well_formed(),
            final(self).reliable() == old(self).reliable(),
            old(self).reliable() && !has_named_id(old(self).state().permissions, id)
                && !has_named_name(old(self).state().permissions, name@) ==> r is Ok,
            match r {
                Ok(p) => p@ == new_named_row(id, name@, description, now) && !has_named_id(
                    old(self).state().permissions,
                    id,
                ) && !has_named_name(old(self).state().permissions, name@) && final(self).state()
                    == old(self).state().with_permission(p@),
                Err(e) => final(self).state() == old(self).state() && (e == StoreError::Conflict
                    ==> has_named_id(old(self).state().permissions, id) || has_named_name(
                    old(self).state().permissions,
                    name@,
                )) && (old(self).reliable() ==> e == StoreError::Conflict),
            },
    ;
}

} // verus!
