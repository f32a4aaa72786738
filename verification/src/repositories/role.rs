//! Roles and the permissions they grant.

use crate::models::{option_text, NamedRow, Role};
use crate::repositories::state::{IdentityStore, StoreError};
use vstd::prelude::*;

verus! {

/// The row of a role or permission made at `now`.
pub open spec fn new_named_row(id: u128, name: Seq<char>, description: Option<String>, now: i64)
    -> NamedRow {
    NamedRow { id, name, description: option_text(description), created_at: now, updated_at: now }
}

/// Whether some row has the identifier.
pub open spec fn has_named_id(rows: Seq<NamedRow>, id: u128) -> bool {
    exists|i: int| 0 <= i < rows.len() && #[trigger] rows[i].id == id
}

/// Whether some row has the name.
pub open spec fn has_named_name(rows: Seq<NamedRow>, name: Seq<char>) -> bool {
    exists|i: int| 0 <= i < rows.len() && #[trigger] rows[i].name == name
}

/// Holds the roles.
pub trait RoleRepository: IdentityStore {
    /// Adds a role. Identifier and name must be free.
    fn create(&mut self, id: u128, name: &str, description: Option<String>, now: i64) -> (r: Result<
        Role,
        StoreError,
    >)
        requires
            old(self).well_formed(),
        ensures
            final(self).well_formed(),
            final(self).reliable() == old(self).reliable(),
            old(self).reliable() && !has_named_id(old(self).state().roles, id) && !has_named_name(
                old(self).state().roles,
                name@,
            ) ==> r is Ok,
            match r {
                Ok(role) => role@ == new_named_row(id, name@, description, now) && !has_named_id(
                    old(self).state().roles,
                    id,
                ) && !has_named_name(old(self).state().roles, name@) && final(self).state() == old(self).state().with_role(role@),
                Err(e) => final(self).state() == old(self).state() && (e == StoreError::Conflict
                    ==> has_named_id(old(self).state().roles, id) || has_named_name(
                    old(self).state().roles,
                    name@,
                )) && (old(self).reliable() ==> e == StoreError::Conflict),
            },
    ;

    /// The role of the given name.
    fn find_by_name(&self, name: &str) -> (r: Result<Option<Role>, StoreError>)
        requires
            self.well_formed(),
        ensures
            self.state().valid(),
            self.reliable() ==> r is Ok,
            r matches Ok(Some(role)) ==> self.state().is_role_named(role@, name@),
            r matches Ok(None) ==> !self.state().has_role_named(name@),
    ;

    /// Lets a role grant the given permissions, besides those it grants.
    fn assign_permissions_to_role(&mut self, role_id: u128, permission_ids: &Vec<u128>) -> (r:
        Result<(), StoreError>)
        requires
            old(self).well_formed(),
        ensures
            final(self).well_formed(),
            final(self).reliable() == old(self).reliable(),
            old(self).reliable() ==> r is Ok,
            match r {
                Ok(_) => final(self).state() == old(self).state().with_role_permissions(
                    role_id,
                    permission_ids@,
                ),
                Err(_) => final(self).state() == old(self).state(),
            },
    ;
}

} // verus!
