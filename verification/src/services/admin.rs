//! Administration of roles and permissions: who holds which role, and
//! which role grants what.

use crate::api_error::{ApiError, ErrorKind};
use crate::clock::unix_now;
use crate::dtos::admin::{CreatePermissionPayload, CreateRolePayload, DashboardStats, UserStats};
use crate::ids::uuid_new_v4;
use crate::models::{clone_option_text, Permission, Role};
use crate::repositories::permission::PermissionRepository;
use crate::repositories::role::{has_named_id, has_named_name, new_named_row, RoleRepository};
use crate::repositories::state::{IdentityState, StoreError};
use crate::repositories::user::UserRepository;
use crate::services::auth::{fails_with, is_internal, store_fault};
use crate::text::texts;
use vstd::prelude::*;

verus! {

/// What making a role or a permission does and returns, told of the rows
/// before and after and of the row that is returned: an identifier or a
/// name that is taken is a conflict and nothing changes; otherwise the row
/// is added.
pub open spec fn create_named_outcome<T>(
    before: Seq<crate::models::NamedRow>,
    after: Seq<crate::models::NamedRow>,
    made: Option<crate::models::NamedRow>,
    id: u128,
    name: Seq<char>,
    description: Option<String>,
    now: i64,
    r: Result<T, ApiError>,
) -> bool {
    if has_named_id(before, id) || has_named_name(before, name) {
        after == before && fails_with(r, ErrorKind::Conflict)
    } else {
        r is Ok && made == Some(new_named_row(id, name, description, now)) && after == before.push(
            new_named_row(id, name, description, now),
        )
    }
}

/// The row a result holds, for a role.
pub open spec fn role_made(r: Result<Role, ApiError>) -> Option<crate::models::NamedRow> {
    match r {
        Ok(role) => Some(role@),
        Err(_) => None,
    }
}

/// The row a result holds, for a permission.
pub open spec fn permission_made(r: Result<Permission, ApiError>) -> Option<
    crate::models::NamedRow,
> {
    match r {
        Ok(p) => Some(p@),
        Err(_) => None,
    }
}

/// The administration service's rules, over any store.
pub struct AdminService {}

impl AdminService {
    /// Replaces the roles a user holds by the given ones. Roles for a
    /// user that does not exist are refused by the store.
    pub fn set_user_roles<S: UserRepository>(
        store: &mut S,
        target_user_id: u128,
        role_ids: &Vec<u128>,
    ) -> (r: Result<(), ApiError>)
        requires
            old(store).well_formed(),
        ensures
            final(store).well_formed(),
            final(store).reliable() == old(store).reliable(),
            old(store).reliable() ==> (r is Ok <==> old(store).state().can_hold_roles(
                target_user_id,
                role_ids@,
            )),
            match r {
                Ok(_) => old(store).state().can_hold_roles(target_user_id, role_ids@)
                    && final(store).state() == old(store).state().with_only_user_roles(target_user_id, role_ids@),
                Err(e) => e.kind == ErrorKind::InternalError && final(store).state() == old(store).state(),
            },
    {
        match store.set_user_roles(target_user_id, role_ids) {
            Ok(_) => Ok(()),
            Err(_) => Err(store_fault()),
        }
    }

    /// Lets a role grant the given permissions, besides those it grants.
    pub fn set_role_permissions<S: RoleRepository>(
        store: &mut S,
        role_id: u128,
        permission_ids: &Vec<u128>,
    ) -> (r: Result<(), ApiError>)
        requires
            old(store).well_formed(),
        ensures
            final(store).well_formed(),
            final(store).reliable() == old(store).reliable(),
            old(store).reliable() ==> r is Ok,
            match r {
                Ok(_) => final(store).state() == old(store).state().with_role_permissions(
                    role_id,
                    permission_ids@,
                ),
                Err(e) => e.kind == ErrorKind::InternalError && final(store).state() == old(store).state(),
            },
    {
        match store.assign_permissions_to_role(role_id, permission_ids) {
            Ok(_) => Ok(()),
            Err(_) => Err(store_fault()),
        }
    }

    /// The names of the permissions a user has through the roles held.
    pub fn list_user_roles_permissions<S: UserRepository>(store: &S, user_id: u128) -> (r: Result<
        Vec<String>,
        ApiError,
    >)
        requires
            store.well_formed(),
        ensures
            store.reliable() ==> r is Ok,
            match r {
                Ok(names) => texts(names@).no_duplicates() && texts(names@).to_set()
                    == store.state().user_permission_names(user_id),
                Err(e) => e.kind == ErrorKind::InternalError,
            },
    {
        match store.get_user_permissions(user_id) {
            Ok(names) => Ok(names),
            Err(_) => Err(store_fault()),
        }
    }

    /// Puts the counts of the dashboard together.
    pub fn get_dashboard_stats(
        total_posts: i64,
        published_posts: i64,
        draft_posts: i64,
        total_categories: i64,
        total_tags: i64,
        user_stats: &UserStats,
    ) -> (d: DashboardStats)
        ensures
            d.total_posts == total_posts,
            d.published_posts == published_posts,
            d.draft_posts == draft_posts,
            d.total_categories == total_categories,
            d.total_tags == total_tags,
            d.total_users == user_stats.total,
            d.verified_users == user_stats.verified,
            d.unverified_users == user_stats.unverified,
    {
        DashboardStats {
            total_posts,
            published_posts,
            draft_posts,
            total_categories,
            total_tags,
            total_users: user_stats.total,
            verified_users: user_stats.verified,
            unverified_users: user_stats.unverified,
        }
    }

    /// Makes a role at `now`, with the identifier to use.
    pub fn create_role_with<S: RoleRepository>(
        store: &mut S,
        payload: &CreateRolePayload,
        id: u128,
        now: i64,
    ) -> (r: Result<Role, ApiError>)
        requires
            old(store).well_formed(),
        ensures
            final(store).well_formed(),
            final(store).reliable() == old(store).reliable(),
            old(store).reliable() || !is_internal(r) ==> create_named_outcome(
                old(store).state().roles,
                final(store).state().roles,
                role_made(r),
                id,
                payload.name@,
                payload.description,
                now,
                r,
            ) && final(store).state() == (IdentityState {
                roles: final(store).state().roles,
                ..old(store).state()
            }),
    {
        match RoleRepository::create(
            store,
            id,
            payload.name.as_str(),
            clone_option_text(&payload.description),
            now,
        ) {
            Ok(role) => Ok(role),
            Err(StoreError::Conflict) => Err(
                ApiError::new(ErrorKind::Conflict, "记录已存在或与现有数据冲突"),
            ),
            Err(_) => Err(store_fault()),
        }
    }

    /// Makes a role: the clock is read and a fresh identifier is drawn.
    pub fn create_role<S: RoleRepository>(store: &mut S, payload: &CreateRolePayload) -> (r: Result<
        Role,
        ApiError,
    >)
        requires
            old(store).well_formed(),
        ensures
            final(store).well_formed(),
            final(store).reliable() == old(store).reliable(),
            old(store).reliable() || !is_internal(r) ==> final(store).state() == (IdentityState {
                roles: final(store).state().roles,
                ..old(store).state()
            }),
            old(store).reliable() || !is_internal(r) ==> exists|id: u128, now: i64| #[trigger]
                create_named_outcome(
                    old(store).state().roles,
                    final(store).state().roles,
                    role_made(r),
                    id,
                    payload.name@,
                    payload.description,
                    now,
                    r,
                ),
    {
        let id = uuid_new_v4();
        let now = unix_now();
        let r = Self::create_role_with(store, payload, id, now);
        proof {
            if old(store).reliable() || !is_internal(r) {
                assert(create_named_outcome(
                    old(store).state().roles,
                    store.state().roles,
                    role_made(r),
                    id,
                    payload.name@,
                    payload.description,
                    now,
                    r,
                ));
            }
        }
        r
    }

    /// Makes a permission at `now`, with the identifier to use.
    pub fn create_permission_with<S: PermissionRepository>(
        store: &mut S,
        payload: &CreatePermissionPayload,
        id: u128,
        now: i64,
    ) -> (r: Result<Permission, ApiError>)
        requires
            old(store).well_formed(),
        ensures
            final(store).well_formed(),
            final(store).reliable() == old(store).reliable(),
            old(store).reliable() || !is_internal(r) ==> create_named_outcome(
                old(store).state().permissions,
                final(store).state().permissions,
                permission_made(r),
                id,
                payload.name@,
                payload.description,
                now,
                r,
            ) && final(store).state() == (IdentityState {
                permissions: final(store).state().permissions,
                ..old(store).state()
            }),
    {
        match PermissionRepository::create(
            store,
            id,
            payload.name.as_str(),
            clone_option_text(&payload.description),
            now,
        ) {
            Ok(p) => Ok(p),
            Err(StoreError::Conflict) => Err(
                ApiError::new(ErrorKind::Conflict, "记录已存在或与现有数据冲突"),
            ),
            Err(_) => Err(store_fault()),
        }
    }

    /// Makes a permission: the clock is read and a fresh identifier is
    /// drawn.
    pub fn create_permission<S: PermissionRepository>(
        store: &mut S,
        payload: &CreatePermissionPayload,
    ) -> (r: Result<Permission, ApiError>)
        requires
            old(store).well_formed(),
        ensures
            final(store).well_formed(),
            final(store).reliable() == old(store).reliable(),
            old(store).reliable() || !is_internal(r) ==> final(store).state() == (IdentityState {
                permissions: final(store).state().permissions,
                ..old(store).state()
            }),
            old(store).reliable() || !is_internal(r) ==> exists|id: u128, now: i64| #[trigger]
                create_named_outcome(
                    old(store).state().permissions,
                    final(store).state().permissions,
                    permission_made(r),
                    id,
                    payload.name@,
                    payload.description,
                    now,
                    r,
                ),
    {
        let id = uuid_new_v4();
        let now = unix_now();
        let r = Self::create_permission_with(store, payload, id, now);
        proof {
            if old(store).reliable() || !is_internal(r) {
                assert(create_named_outcome(
                    old(store).state().permissions,
                    store.state().permissions,
                    permission_made(r),
                    id,
                    payload.name@,
                    payload.description,
                    now,
                    r,
                ));
            }
        }
        r
    }
}

} // verus!
