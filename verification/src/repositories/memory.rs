//! A store that keeps everything in memory. It never reports
//! `Unavailable`, so the services' contracts hold of it without exception.

use crate::models::{clone_option_text, option_text, NamedRow, Permission, Role, User, UserRow};
use crate::repositories::login_attempt::LoginAttemptRepository;
use crate::repositories::one_time_token::OneTimeTokenRepository;
use crate::repositories::permission::PermissionRepository;
use crate::repositories::role::{has_named_id, has_named_name, RoleRepository};
use crate::repositories::state::{
    distinct_named,
    distinct_users,
    email_taken_by_other,
    ids_stay,
    lemma_ids_stay,
    pairs_with,
    password_row,
    renamed_row,
    user_position,
    username_taken_by_other,
    users_have_email,
    users_have_id,
    users_have_username,
    verified_row,
    IdentityState,
    IdentityStore,
    LoginAttempt,
    OneTimeTokenRow,
    RefreshTokenRow,
    StoreError,
    TokenType,
};
use crate::repositories::table::Table;
use crate::repositories::user::UserRepository;
use crate::text::{text_eq, texts};
use vstd::prelude::*;

verus! {

/// The rows of a list of users.
pub open spec fn user_rows(users: Seq<User>) -> Seq<UserRow> {
    users.map_values(|u: User| u@)
}

/// A role or a permission as the store keeps it.
pub struct Named {
    pub id: u128,
    pub name: String,
    pub description: Option<String>,
    pub created_at: i64,
    pub updated_at: i64,
}

impl View for Named {
    type V = NamedRow;

    open spec fn view(&self) -> NamedRow {
        NamedRow {
            id: self.id,
            name: self.name@,
            description: option_text(self.description),
            created_at: self.created_at,
            updated_at: self.updated_at,
        }
    }
}

/// The rows of a list of roles or permissions.
pub open spec fn named_rows(rows: Seq<Named>) -> Seq<NamedRow> {
    rows.map_values(|r: Named| r@)
}

/// The identity store in memory.
pub struct MemoryStore {
    users: Vec<User>,
    roles: Vec<Named>,
    permissions: Vec<Named>,
    user_roles: Vec<(u128, u128)>,
    role_permissions: Vec<(u128, u128)>,
    refresh_tokens: Table<RefreshTokenRow>,
    one_time_tokens: Table<OneTimeTokenRow>,
    login_attempts: Table<LoginAttempt>,
}

/// A store that holds nothing.
pub open spec fn empty_state() -> IdentityState {
    IdentityState {
        users: Seq::empty(),
        roles: Seq::empty(),
        permissions: Seq::empty(),
        user_roles: Set::empty(),
        role_permissions: Set::empty(),
        refresh_tokens: Map::empty(),
        one_time_tokens: Map::empty(),
        login_attempts: Map::empty(),
    }
}

impl IdentityStore for MemoryStore {
    closed spec fn state(&self) -> IdentityState {
        IdentityState {
            users: user_rows(self.users@),
            roles: named_rows(self.roles@),
            permissions: named_rows(self.permissions@),
            user_roles: self.user_roles@.to_set(),
            role_permissions: self.role_permissions@.to_set(),
            refresh_tokens: self.refresh_tokens@,
            one_time_tokens: self.one_time_tokens@,
            login_attempts: self.login_attempts@,
        }
    }

    closed spec fn well_formed(&self) -> bool {
        &&& self.refresh_tokens.wf()
        &&& self.one_time_tokens.wf()
        &&& self.login_attempts.wf()
        &&& self.state().valid()
    }

    open spec fn reliable(&self) -> bool {
        true
    }

}

impl MemoryStore {
    /// A store that holds nothing.
    pub fn new() -> (s: MemoryStore)
        ensures
            s.well_formed(),
            s.reliable(),
            s.state() == empty_state(),
    {
        let s = MemoryStore {
            users: Vec::new(),
            roles: Vec::new(),
            permissions: Vec::new(),
            user_roles: Vec::new(),
            role_permissions: Vec::new(),
            refresh_tokens: Table::new(),
            one_time_tokens: Table::new(),
            login_attempts: Table::new(),
        };
        proof {
            assert(s.state().users =~= Seq::<UserRow>::empty());
            assert(s.state().roles =~= Seq::<NamedRow>::empty());
            assert(s.state().permissions =~= Seq::<NamedRow>::empty());
            assert(s.state().user_roles =~= Set::<(u128, u128)>::empty());
            assert(s.state().role_permissions =~= Set::<(u128, u128)>::empty());
        }
        s
    }
}

impl MemoryStore {
    /// Whether a one-time token is stored under the given hash.
    pub fn has_one_time_token(&self, token_hash: &str) -> (r: bool)
        ensures
            r == self.state().one_time_tokens.contains_key(token_hash@),
    {
        self.one_time_tokens.find(token_hash).is_some()
    }

    /// Whether a refresh token is stored under the given hash.
    pub fn has_refresh_token(&self, token_hash: &str) -> (r: bool)
        ensures
            r == self.state().refresh_tokens.contains_key(token_hash@),
    {
        self.refresh_tokens.find(token_hash).is_some()
    }
}

impl LoginAttemptRepository for MemoryStore {
    fn get_by_username(&self, username: &str) -> (r: Result<Option<LoginAttempt>, StoreError>) {
        Ok(self.login_attempts.get(username))
    }

    fn record_failure(&mut self, username: &str) -> (r: Result<i32, StoreError>) {
        let current = self.login_attempts.get(username);
        let next = match current {
            None => LoginAttempt { failure_count: 1, lockout_expires_at: None },
            Some(a) => LoginAttempt {
                failure_count: if a.failure_count < i32::MAX {
                    a.failure_count + 1
                } else {
                    i32::MAX
                },
                lockout_expires_at: a.lockout_expires_at,
            },
        };
        self.login_attempts.put(username, next);
        Ok(next.failure_count)
    }

    fn set_lockout(&mut self, username: &str, expires_at: i64) -> (r: Result<(), StoreError>) {
        match self.login_attempts.get(username) {
            Some(a) => {
                self.login_attempts.put(
                    username,
                    LoginAttempt {
                        failure_count: a.failure_count,
                        lockout_expires_at: Some(expires_at),
                    },
                );
            },
            None => {},
        }
        Ok(())
    }

    fn clear_for_username(&mut self, username: &str) -> (r: Result<(), StoreError>) {
        self.login_attempts.remove(username);
        Ok(())
    }
}

impl OneTimeTokenRepository for MemoryStore {
    fn store_token(
        &mut self,
        user_id: u128,
        token_hash: &str,
        token_type: TokenType,
        expires_at: i64,
    ) -> (r: Result<(), StoreError>) {
        match self.one_time_tokens.find(token_hash) {
            Some(_) => Err(StoreError::Conflict),
            None => {
                self.one_time_tokens.put(
                    token_hash,
                    OneTimeTokenRow { user_id, token_type, expires_at },
                );
                Ok(())
            },
        }
    }

    fn find_and_consume_token(&mut self, token_hash: &str, token_type: TokenType, now: i64) -> (r:
        Result<Option<u128>, StoreError>) {
        match self.one_time_tokens.get(token_hash) {
            Some(row) => {
                if row.token_type == token_type && row.expires_at > now {
                    self.one_time_tokens.remove(token_hash);
                    Ok(Some(row.user_id))
                } else {
                    Ok(None)
                }
            },
            None => Ok(None),
        }
    }
}

/// Whether a pair occurs in a list of pairs.
fn pair_in(pairs: &Vec<(u128, u128)>, a: u128, b: u128) -> (r: bool)
    ensures
        r == pairs@.to_set().contains((a, b)),
{
    let mut i: usize = 0;
    while i < pairs.len()
        invariant
            i <= pairs.len(),
            forall|j: int| 0 <= j < i ==> pairs@[j] != (a, b),
        decreases pairs.len() - i,
    {
        if pairs[i].0 == a && pairs[i].1 == b {
            assert(pairs@[i as int] == (a, b));
            assert(pairs@.contains((a, b)));
            return true;
        }
        i = i + 1;
    }
    assert(!pairs@.contains((a, b)));
    false
}

/// Adds the pairs of `first` with each of `seconds` to a list of pairs.
fn push_pairs(pairs: &mut Vec<(u128, u128)>, first: u128, seconds: &Vec<u128>)
    ensures
        final(pairs)@.to_set() == old(pairs)@.to_set().union(pairs_with(first, seconds@)),
{
    let ghost before = pairs@;
    let mut i: usize = 0;
    while i < seconds.len()
        invariant
            i <= seconds.len(),
            pairs@.len() == before.len() + i,
            forall|j: int| 0 <= j < before.len() ==> pairs@[j] == before[j],
            forall|j: int| 0 <= j < i ==> pairs@[before.len() + j] == (first, seconds@[j]),
        decreases seconds.len() - i,
    {
        pairs.push((first, seconds[i]));
        i = i + 1;
    }
    proof {
        let added = pairs_with(first, seconds@);
        assert forall|p: (u128, u128)| pairs@.to_set().contains(p) == before.to_set().union(
            added,
        ).contains(p) by {
            if pairs@.contains(p) {
                let j = choose|j: int| 0 <= j < pairs@.len() && pairs@[j] == p;
                if j < before.len() {
                    assert(before[j] == p);
                    assert(before.contains(p));
                } else {
                    let k = j - before.len();
                    assert(seconds@[k] == p.1);
                    assert(seconds@.contains(p.1));
                }
            }
            if before.contains(p) {
                let j = choose|j: int| 0 <= j < before.len() && before[j] == p;
                assert(pairs@[j] == p);
            }
            if added.contains(p) {
                let k = choose|k: int| 0 <= k < seconds@.len() && seconds@[k] == p.1;
                assert(pairs@[before.len() + k] == p);
            }
        }
        assert(pairs@.to_set() =~= before.to_set().union(added));
    }
}

/// The place of the row with the given identifier.
fn named_by_id(rows: &Vec<Named>, id: u128) -> (r: Option<usize>)
    ensures
        match r {
            Some(i) => i < rows.len() && rows@[i as int].id == id && has_named_id(
                named_rows(rows@),
                id,
            ),
            None => !has_named_id(named_rows(rows@), id),
        },
{
    let mut i: usize = 0;
    while i < rows.len()
        invariant
            i <= rows.len(),
            forall|j: int| 0 <= j < i ==> named_rows(rows@)[j].id != id,
        decreases rows.len() - i,
    {
        if rows[i].id == id {
            assert(named_rows(rows@)[i as int].id == id);
            return Some(i);
        }
        i = i + 1;
    }
    None
}

/// The place of the row with the given name.
fn named_by_name(rows: &Vec<Named>, name: &str) -> (r: Option<usize>)
    ensures
        match r {
            Some(i) => i < rows.len() && rows@[i as int].name@ == name@ && has_named_name(
                named_rows(rows@),
                name@,
            ),
            None => !has_named_name(named_rows(rows@), name@),
        },
{
    let mut i: usize = 0;
    while i < rows.len()
        invariant
            i <= rows.len(),
            forall|j: int| 0 <= j < i ==> named_rows(rows@)[j].name != name@,
        decreases rows.len() - i,
    {
        if text_eq(rows[i].name.as_str(), name) {
            assert(named_rows(rows@)[i as int].name == name@);
            return Some(i);
        }
        i = i + 1;
    }
    None
}

/// Adds a row whose identifier and name are free.
fn push_named(rows: &mut Vec<Named>, id: u128, name: &str, description: Option<String>, now: i64)
    requires
        distinct_named(named_rows(old(rows)@)),
        !has_named_id(named_rows(old(rows)@), id),
        !has_named_name(named_rows(old(rows)@), name@),
    ensures
        distinct_named(named_rows(final(rows)@)),
        named_rows(final(rows)@) == named_rows(old(rows)@).push(
            (NamedRow {
                id,
                name: name@,
                description: option_text(description),
                created_at: now,
                updated_at: now,
            }),
        ),
{
    let ghost before = named_rows(rows@);
    rows.push(Named { id, name: name.to_owned(), description, created_at: now, updated_at: now });
    proof {
        let row = NamedRow {
            id,
            name: name@,
            description: option_text(description),
            created_at: now,
            updated_at: now,
        };
        assert(named_rows(rows@) =~= before.push(row));
        assert forall|i: int, j: int| 0 <= i < j < named_rows(rows@).len() implies named_rows(
            rows@,
        )[i].id != named_rows(rows@)[j].id && named_rows(rows@)[i].name != named_rows(rows@)[j].name by {
            if j == before.len() {
                assert(before[i].id != id);
                assert(before[i].name != name@);
            } else {
                assert(named_rows(rows@)[i] == before[i]);
                assert(named_rows(rows@)[j] == before[j]);
            }
        }
    }
}

/// The names of the rows that are flagged.
pub open spec fn flagged_names(rows: Seq<NamedRow>, flags: Seq<bool>, upto: int) -> Set<Seq<char>> {
    Set::new(
        |name: Seq<char>| exists|i: int| 0 <= i < upto && #[trigger] rows[i].name == name && flags[i],
    )
}

/// Collects the names of the flagged rows, each once.
fn selected_names(rows: &Vec<Named>, flags: &Vec<bool>) -> (out: Vec<String>)
    requires
        rows.len() == flags.len(),
        distinct_named(named_rows(rows@)),
    ensures
        texts(out@).no_duplicates(),
        texts(out@).to_set() == flagged_names(named_rows(rows@), flags@, rows.len() as int),
{
    let ghost all = named_rows(rows@);
    let mut out: Vec<String> = Vec::new();
    let mut i: usize = 0;
    assert(texts(out@).to_set() =~= flagged_names(all, flags@, 0));
    while i < rows.len()
        invariant
            i <= rows.len(),
            rows.len() == flags.len(),
            all == named_rows(rows@),
            distinct_named(all),
            texts(out@).no_duplicates(),
            texts(out@).to_set() == flagged_names(all, flags@, i as int),
        decreases rows.len() - i,
    {
        let ghost before = texts(out@);
        if flags[i] {
            out.push(rows[i].name.clone());
            proof {
                let name = all[i as int].name;
                assert(texts(out@) =~= before.push(name));
                assert(!before.contains(name)) by {
                    if before.contains(name) {
                        assert(before.to_set().contains(name));
                        let j = choose|j: int| 0 <= j < i && #[trigger] all[j].name == name && flags@[j];
                        assert(all[j].name != all[i as int].name);
                    }
                }
                assert forall|a: int, b: int| 0 <= a < b < texts(out@).len() implies texts(out@)[a]
                    != texts(out@)[b] by {
                    if b == before.len() {
                        assert(before[a] == texts(out@)[a]);
                        assert(before.contains(before[a]));
                    } else {
                        assert(before[a] != before[b]);
                    }
                }
                assert forall|n: Seq<char>| texts(out@).to_set().contains(n) == flagged_names(
                    all,
                    flags@,
                    i + 1,
                ).contains(n) by {
                    if texts(out@).contains(n) {
                        let k = choose|k: int| 0 <= k < texts(out@).len() && texts(out@)[k] == n;
                        if k < before.len() {
                            assert(before[k] == n);
                            assert(before.contains(n));
                            assert(before.to_set().contains(n));
                            let j = choose|j: int|
                                0 <= j < i && #[trigger] all[j].name == n && flags@[j];
                            assert(0 <= j < i + 1 && all[j].name == n && flags@[j]);
                        } else {
                            assert(all[i as int].name == n && flags@[i as int]);
                        }
                    }
                    if flagged_names(all, flags@, i + 1).contains(n) {
                        let j = choose|j: int|
                            0 <= j < i + 1 && #[trigger] all[j].name == n && flags@[j];
                        if j < i {
                            assert(flagged_names(all, flags@, i as int).contains(n));
                            assert(before.to_set().contains(n));
                            assert(before.contains(n));
                            let k = choose|k: int| 0 <= k < before.len() && before[k] == n;
                            assert(texts(out@)[k] == n);
                        } else {
                            assert(texts(out@)[before.len() as int] == n);
                        }
                    }
                }
                assert(texts(out@).to_set() =~= flagged_names(all, flags@, i + 1));
            }
        } else {
            proof {
                assert forall|n: Seq<char>| flagged_names(all, flags@, i as int).contains(n)
                    == flagged_names(all, flags@, i + 1).contains(n) by {
                    if flagged_names(all, flags@, i + 1).contains(n) {
                        let j = choose|j: int|
                            0 <= j < i + 1 && #[trigger] all[j].name == n && flags@[j];
                        assert(j < i);
                    }
                    if flagged_names(all, flags@, i as int).contains(n) {
                        let j = choose|j: int|
                            0 <= j < i && #[trigger] all[j].name == n && flags@[j];
                        assert(0 <= j < i + 1 && all[j].name == n && flags@[j]);
                    }
                }
                assert(flagged_names(all, flags@, i as int) =~= flagged_names(all, flags@, i + 1));
            }
        }
        i = i + 1;
    }
    out
}

impl MemoryStore {
    /// Whether some role of the user grants the permission.
    fn granted(&self, user_id: u128, permission_id: u128) -> (r: bool)
        ensures
            r == self.state().user_granted(user_id, permission_id),
    {
        let mut i: usize = 0;
        while i < self.user_roles.len()
            invariant
                i <= self.user_roles.len(),
                forall|j: int|
                    0 <= j < i ==> !(self.user_roles@[j].0 == user_id
                        && self.role_permissions@.to_set().contains(
                        (self.user_roles@[j].1, permission_id),
                    )),
            decreases self.user_roles.len() - i,
        {
            let pair = self.user_roles[i];
            if pair.0 == user_id && pair_in(&self.role_permissions, pair.1, permission_id) {
                proof {
                    assert(self.user_roles@[i as int] == (user_id, pair.1));
                    assert(self.user_roles@.contains((user_id, pair.1)));
                    assert(self.state().role_permissions.contains((pair.1, permission_id)));
                }
                return true;
            }
            i = i + 1;
        }
        proof {
            if self.state().user_granted(user_id, permission_id) {
                let role_id = choose|role_id: u128|
                    self.state().user_roles.contains((user_id, role_id))
                        && #[trigger] self.state().role_permissions.contains(
                        (role_id, permission_id),
                    );
                assert(self.user_roles@.contains((user_id, role_id)));
                let j = choose|j: int|
                    0 <= j < self.user_roles@.len() && self.user_roles@[j] == (user_id, role_id);
                assert(false);
            }
        }
        false
    }
}

impl RoleRepository for MemoryStore {
    fn create(&mut self, id: u128, name: &str, description: Option<String>, now: i64) -> (r: Result<
        Role,
        StoreError,
    >) {
        if named_by_id(&self.roles, id).is_some() || named_by_name(&self.roles, name).is_some() {
            return Err(StoreError::Conflict);
        }
        let role = Role {
            id,
            name: name.to_owned(),
            description: clone_option_text(&description),
            created_at: now,
            updated_at: now,
        };
        push_named(&mut self.roles, id, name, description, now);
        Ok(role)
    }

    fn find_by_name(&self, name: &str) -> (r: Result<Option<Role>, StoreError>) {
        match named_by_name(&self.roles, name) {
            Some(i) => {
                let row = &self.roles[i];
                let role = Role {
                    id: row.id,
                    name: row.name.clone(),
                    description: clone_option_text(&row.description),
                    created_at: row.created_at,
                    updated_at: row.updated_at,
                };
                proof {
                    assert(named_rows(self.roles@)[i as int] == role@);
                    assert(self.state().roles.contains(role@));
                }
                Ok(Some(role))
            },
            None => Ok(None),
        }
    }

    fn assign_permissions_to_role(&mut self, role_id: u128, permission_ids: &Vec<u128>) -> (r:
        Result<(), StoreError>) {
        push_pairs(&mut self.role_permissions, role_id, permission_ids);
        Ok(())
    }
}

impl PermissionRepository for MemoryStore {
    fn create(&mut self, id: u128, name: &str, description: Option<String>, now: i64) -> (r: Result<
        Permission,
        StoreError,
    >) {
        if named_by_id(&self.permissions, id).is_some() || named_by_name(
            &self.permissions,
            name,
        ).is_some() {
            return Err(StoreError::Conflict);
        }
        let permission = Permission {
            id,
            name: name.to_owned(),
            description: clone_option_text(&description),
            created_at: now,
            updated_at: now,
        };
        push_named(&mut self.permissions, id, name, description, now);
        Ok(permission)
    }
}

/// The place of the user with the given identifier.
fn user_by_id(users: &Vec<User>, id: u128) -> (r: Option<usize>)
    ensures
        match r {
            Some(i) => i < users.len() && users@[i as int].id == id && users_have_id(
                user_rows(users@),
                id,
            ),
            None => !users_have_id(user_rows(users@), id),
        },
{
    let mut i: usize = 0;
    while i < users.len()
        invariant
            i <= users.len(),
            forall|j: int| 0 <= j < i ==> user_rows(users@)[j].id != id,
        decreases users.len() - i,
    {
        if users[i].id == id {
            assert(user_rows(users@)[i as int].id == id);
            return Some(i);
        }
        i = i + 1;
    }
    None
}

/// The place of the user with the given username.
fn user_by_username(users: &Vec<User>, username: &str) -> (r: Option<usize>)
    ensures
        match r {
            Some(i) => i < users.len() && users@[i as int].username@ == username@
                && users_have_username(user_rows(users@), username@),
            None => !users_have_username(user_rows(users@), username@),
        },
{
    let mut i: usize = 0;
    while i < users.len()
        invariant
            i <= users.len(),
            forall|j: int| 0 <= j < i ==> user_rows(users@)[j].username != username@,
        decreases users.len() - i,
    {
        if text_eq(users[i].username.as_str(), username) {
            assert(user_rows(users@)[i as int].username == username@);
            return Some(i);
        }
        i = i + 1;
    }
    None
}

/// The place of the user with the given e-mail address.
fn user_by_email(users: &Vec<User>, email: &str) -> (r: Option<usize>)
    ensures
        match r {
            Some(i) => i < users.len() && users@[i as int].email@ == email@ && users_have_email(
                user_rows(users@),
                email@,
            ),
            None => !users_have_email(user_rows(users@), email@),
        },
{
    let mut i: usize = 0;
    while i < users.len()
        invariant
            i <= users.len(),
            forall|j: int| 0 <= j < i ==> user_rows(users@)[j].email != email@,
        decreases users.len() - i,
    {
        if text_eq(users[i].email.as_str(), email) {
            assert(user_rows(users@)[i as int].email == email@);
            return Some(i);
        }
        i = i + 1;
    }
    None
}

/// A copy of the user at a place, as a lookup hands it out.
fn found_user(users: &Vec<User>, i: usize) -> (u: User)
    requires
        i < users.len(),
    ensures
        u@ == users@[i as int]@,
        user_rows(users@).contains(u@),
{
    let u = users[i].duplicate();
    assert(user_rows(users@)[i as int] == u@);
    u
}

/// Adds a user whose identifier, username and e-mail address are free.
fn push_user(users: &mut Vec<User>, user: &User)
    requires
        distinct_users(user_rows(old(users)@)),
        !users_have_id(user_rows(old(users)@), user.id),
        !users_have_username(user_rows(old(users)@), user.username@),
        !users_have_email(user_rows(old(users)@), user.email@),
    ensures
        distinct_users(user_rows(final(users)@)),
        user_rows(final(users)@) == user_rows(old(users)@).push(user@),
        ids_stay(user_rows(old(users)@), user_rows(final(users)@)),
{
    let ghost before = user_rows(users@);
    users.push(user.duplicate());
    proof {
        assert(user_rows(users@) =~= before.push(user@));
        lemma_ids_stay(before, user_rows(users@));
        assert forall|i: int, j: int| 0 <= i < j < user_rows(users@).len() implies user_rows(
            users@,
        )[i].id != user_rows(users@)[j].id && user_rows(users@)[i].username != user_rows(
            users@,
        )[j].username && user_rows(users@)[i].email != user_rows(users@)[j].email by {
            if j == before.len() {
                assert(before[i].id != user.id);
                assert(before[i].username != user.username@);
                assert(before[i].email != user.email@);
            } else {
                assert(user_rows(users@)[i] == before[i]);
                assert(user_rows(users@)[j] == before[j]);
            }
        }
    }
}

/// Marks the e-mail address of a user as verified.
fn set_verified(users: &mut Vec<User>, user_id: u128, now: i64)
    requires
        distinct_users(user_rows(old(users)@)),
    ensures
        distinct_users(user_rows(final(users)@)),
        user_rows(final(users)@) == user_rows(old(users)@).map_values(
            |u: UserRow| verified_row(u, user_id, now),
        ),
        ids_stay(user_rows(old(users)@), user_rows(final(users)@)),
{
    let ghost before = user_rows(users@);
    let mut i: usize = 0;
    while i < users.len()
        invariant
            i <= users.len(),
            users.len() == before.len(),
            forall|j: int| 0 <= j < i ==> #[trigger] users@[j]@ == verified_row(before[j], user_id, now),
            forall|j: int| i <= j < users.len() ==> #[trigger] users@[j]@ == before[j],
        decreases users.len() - i,
    {
        if users[i].id == user_id {
            let mut u = users[i].duplicate();
            u.email_verified_at = Some(now);
            users[i] = u;
        }
        i = i + 1;
    }
    proof {
        let after = user_rows(users@);
        assert forall|j: int| 0 <= j < after.len() implies after[j] == verified_row(
            before[j],
            user_id,
            now,
        ) by {
            assert(users@[j]@ == verified_row(before[j], user_id, now));
        }
        assert(after =~= before.map_values(|u: UserRow| verified_row(u, user_id, now)));
        lemma_ids_stay(before, after);
        assert forall|a: int, b: int| 0 <= a < b < after.len() implies after[a].id != after[b].id
            && after[a].username != after[b].username && after[a].email != after[b].email by {
            assert(after[a] == verified_row(before[a], user_id, now));
            assert(after[b] == verified_row(before[b], user_id, now));
        }
    }
}

/// Replaces the password hash of a user.
fn set_password(users: &mut Vec<User>, user_id: u128, hash: &str, now: i64)
    requires
        distinct_users(user_rows(old(users)@)),
    ensures
        distinct_users(user_rows(final(users)@)),
        user_rows(final(users)@) == user_rows(old(users)@).map_values(
            |u: UserRow| password_row(u, user_id, hash@, now),
        ),
        ids_stay(user_rows(old(users)@), user_rows(final(users)@)),
{
    let ghost before = user_rows(users@);
    let mut i: usize = 0;
    while i < users.len()
        invariant
            i <= users.len(),
            users.len() == before.len(),
            forall|j: int|
                0 <= j < i ==> #[trigger] users@[j]@ == password_row(before[j], user_id, hash@, now),
            forall|j: int| i <= j < users.len() ==> #[trigger] users@[j]@ == before[j],
        decreases users.len() - i,
    {
        if users[i].id == user_id {
            let mut u = users[i].duplicate();
            u.hashed_password = hash.to_owned();
            u.updated_at = now;
            users[i] = u;
        }
        i = i + 1;
    }
    proof {
        let after = user_rows(users@);
        assert forall|j: int| 0 <= j < after.len() implies after[j] == password_row(
            before[j],
            user_id,
            hash@,
            now,
        ) by {
            assert(users@[j]@ == password_row(before[j], user_id, hash@, now));
        }
        assert(after =~= before.map_values(|u: UserRow| password_row(u, user_id, hash@, now)));
        lemma_ids_stay(before, after);
        assert forall|a: int, b: int| 0 <= a < b < after.len() implies after[a].id != after[b].id
            && after[a].username != after[b].username && after[a].email != after[b].email by {
            assert(after[a] == password_row(before[a], user_id, hash@, now));
            assert(after[b] == password_row(before[b], user_id, hash@, now));
        }
    }
}

/// A row that belongs to a user.
pub trait Owned: Copy {
    /// The user the row belongs to.
    spec fn owner(&self) -> u128;

    fn owner_id(&self) -> (id: u128)
        ensures
            id == self.owner(),
    ;
}

impl Owned for RefreshTokenRow {
    open spec fn owner(&self) -> u128 {
        self.user_id
    }

    fn owner_id(&self) -> (id: u128) {
        self.user_id
    }
}

impl Owned for OneTimeTokenRow {
    open spec fn owner(&self) -> u128 {
        self.user_id
    }

    fn owner_id(&self) -> (id: u128) {
        self.user_id
    }
}

/// Takes every row of a user out of a table.
fn drop_rows_of<V: Owned>(table: &mut Table<V>, user_id: u128)
    requires
        old(table).wf(),
    ensures
        final(table).wf(),
        final(table)@ == Map::new(
            |k: Seq<char>| old(table)@.contains_key(k) && old(table)@[k].owner() != user_id,
            |k: Seq<char>| old(table)@[k],
        ),
{
    let ghost before = table@;
    let mut i: usize = 0;
    while i < table.entries.len()
        invariant
            i <= table.entries.len(),
            table.wf(),
            forall|k: Seq<char>| #[trigger]
                table@.contains_key(k) ==> before.contains_key(k) && table@[k] == before[k],
            forall|k: Seq<char>|
                before.contains_key(k) && before[k].owner() != user_id
                    ==> #[trigger] table@.contains_key(k),
            forall|j: int| 0 <= j < i ==> table.entries@[j].value.owner() != user_id,
        decreases table.entries.len() - i,
    {
        if table.entries[i].value.owner_id() == user_id {
            let ghost key = table.entries@[i as int].key@;
            let ghost prior = table@;
            proof {
                table.lemma_row(i as int);
            }
            table.remove_at(i);
            proof {
                assert(table@ == prior.remove(key));
                assert forall|k: Seq<char>|
                    before.contains_key(k) && before[k].owner()
                        != user_id implies #[trigger] table@.contains_key(k) by {
                    assert(prior.contains_key(k));
                    assert(prior[k] == before[k]);
                    assert(k != key);
                }
            }
        } else {
            i = i + 1;
        }
    }
    proof {
        let target = Map::new(
            |k: Seq<char>| before.contains_key(k) && before[k].owner() != user_id,
            |k: Seq<char>| before[k],
        );
        assert forall|k: Seq<char>| table@.contains_key(k) implies target.contains_key(k) by {
            let j = choose|j: int| table.at(j, k);
            table.lemma_row(j);
        }
        assert(table@ =~= target);
    }
}

/// Takes a pair out of a list of pairs, wherever it stands.
fn drop_pair(pairs: &mut Vec<(u128, u128)>, first: u128, second: u128)
    ensures
        final(pairs)@.to_set() == old(pairs)@.to_set().remove((first, second)),
{
    let ghost before = pairs@;
    let ghost gone = (first, second);
    let mut kept: Vec<(u128, u128)> = Vec::new();
    let mut i: usize = 0;
    while i < pairs.len()
        invariant
            i <= pairs.len(),
            pairs@ == before,
            gone == (first, second),
            forall|k: int| 0 <= k < kept.len() ==> before.contains(#[trigger] kept@[k]) && kept@[k]
                != gone,
            forall|j: int| 0 <= j < i && (#[trigger] before[j]) != gone ==> kept@.contains(before[j]),
        decreases pairs.len() - i,
    {
        let pair = pairs[i];
        assert(pair == before[i as int]);
        if !(pair.0 == first && pair.1 == second) {
            let ghost prior = kept@;
            kept.push(pair);
            proof {
                assert(pair != gone);
                assert(before.contains(pair));
                assert forall|j: int|
                    0 <= j < i + 1 && (#[trigger] before[j]) != gone implies kept@.contains(
                    before[j],
                ) by {
                    if j < i {
                        assert(prior.contains(before[j]));
                        let k = choose|k: int| 0 <= k < prior.len() && prior[k] == before[j];
                        assert(kept@[k] == before[j]);
                    } else {
                        assert(kept@[prior.len() as int] == before[j]);
                    }
                }
                assert forall|k: int| 0 <= k < kept.len() implies before.contains(
                    #[trigger] kept@[k],
                ) && kept@[k] != gone by {
                    if k < prior.len() {
                        assert(kept@[k] == prior[k]);
                    } else {
                        assert(kept@[k] == pair);
                    }
                }
            }
        } else {
            assert(pair == gone);
        }
        i = i + 1;
    }
    proof {
        let target = before.to_set().remove(gone);
        assert forall|p: (u128, u128)| kept@.to_set().contains(p) == target.contains(p) by {
            if kept@.contains(p) {
                let k = choose|k: int| 0 <= k < kept@.len() && kept@[k] == p;
                assert(before.contains(kept@[k]));
            }
            if target.contains(p) {
                assert(before.contains(p));
                let j = choose|j: int| 0 <= j < before.len() && before[j] == p;
                assert(kept@.contains(before[j]));
            }
        }
        assert(kept@.to_set() =~= target);
    }
    *pairs = kept;
}

/// Takes the pairs of a user out of a list of pairs.
fn drop_pairs_of(pairs: &mut Vec<(u128, u128)>, user_id: u128)
    ensures
        final(pairs)@.to_set() == Set::new(
            |p: (u128, u128)| old(pairs)@.to_set().contains(p) && p.0 != user_id,
        ),
{
    let ghost before = pairs@;
    let mut kept: Vec<(u128, u128)> = Vec::new();
    let mut i: usize = 0;
    while i < pairs.len()
        invariant
            i <= pairs.len(),
            pairs@ == before,
            forall|k: int| 0 <= k < kept.len() ==> before.contains(#[trigger] kept@[k]) && kept@[k].0
                != user_id,
            forall|j: int|
                0 <= j < i && (#[trigger] before[j]).0 != user_id ==> kept@.contains(before[j]),
        decreases pairs.len() - i,
    {
        let pair = pairs[i];
        if pair.0 != user_id {
            let ghost prior = kept@;
            kept.push(pair);
            proof {
                assert(before.contains(pair));
                assert forall|j: int|
                    0 <= j < i + 1 && (#[trigger] before[j]).0 != user_id implies kept@.contains(
                    before[j],
                ) by {
                    if j < i {
                        assert(prior.contains(before[j]));
                        let k = choose|k: int| 0 <= k < prior.len() && prior[k] == before[j];
                        assert(kept@[k] == before[j]);
                    } else {
                        assert(kept@[prior.len() as int] == before[j]);
                    }
                }
                assert forall|k: int| 0 <= k < kept.len() implies before.contains(
                    #[trigger] kept@[k],
                ) && kept@[k].0 != user_id by {
                    if k < prior.len() {
                        assert(kept@[k] == prior[k]);
                    }
                }
            }
        }
        i = i + 1;
    }
    proof {
        let target = Set::new(|p: (u128, u128)| before.to_set().contains(p) && p.0 != user_id);
        assert forall|p: (u128, u128)| kept@.to_set().contains(p) == target.contains(p) by {
            if kept@.contains(p) {
                let k = choose|k: int| 0 <= k < kept@.len() && kept@[k] == p;
                assert(before.contains(kept@[k]));
            }
            if target.contains(p) {
                assert(before.contains(p));
                let j = choose|j: int| 0 <= j < before.len() && before[j] == p;
                assert(kept@.contains(before[j]));
            }
        }
        assert(kept@.to_set() =~= target);
    }
    *pairs = kept;
}

/// Whether a user other than `user_id` has the username.
fn username_of_other(users: &Vec<User>, user_id: u128, username: &str) -> (r: bool)
    ensures
        r == username_taken_by_other(user_rows(users@), user_id, username@),
{
    let mut i: usize = 0;
    while i < users.len()
        invariant
            i <= users.len(),
            forall|j: int|
                0 <= j < i ==> !((#[trigger] user_rows(users@)[j]).username == username@
                    && user_rows(users@)[j].id != user_id),
        decreases users.len() - i,
    {
        if users[i].id != user_id && text_eq(users[i].username.as_str(), username) {
            assert(user_rows(users@)[i as int].username == username@);
            return true;
        }
        i = i + 1;
    }
    false
}

/// Whether a user other than `user_id` has the e-mail address.
fn email_of_other(users: &Vec<User>, user_id: u128, email: &str) -> (r: bool)
    ensures
        r == email_taken_by_other(user_rows(users@), user_id, email@),
{
    let mut i: usize = 0;
    while i < users.len()
        invariant
            i <= users.len(),
            forall|j: int|
                0 <= j < i ==> !((#[trigger] user_rows(users@)[j]).email == email@ && user_rows(
                    users@,
                )[j].id != user_id),
        decreases users.len() - i,
    {
        if users[i].id != user_id && text_eq(users[i].email.as_str(), email) {
            assert(user_rows(users@)[i as int].email == email@);
            return true;
        }
        i = i + 1;
    }
    false
}

/// Changes the profile of the user at a place.
fn rename_at(
    users: &mut Vec<User>,
    at: usize,
    username: Option<String>,
    email: Option<String>,
    now: i64,
) -> (changed: User)
    requires
        at < old(users).len(),
        distinct_users(user_rows(old(users)@)),
        username matches Some(n) ==> !username_taken_by_other(
            user_rows(old(users)@),
            old(users)@[at as int].id,
            n@,
        ),
        email matches Some(e) ==> !email_taken_by_other(
            user_rows(old(users)@),
            old(users)@[at as int].id,
            e@,
        ),
    ensures
        distinct_users(user_rows(final(users)@)),
        user_rows(final(users)@) == user_rows(old(users)@).map_values(
            |u: UserRow|
                renamed_row(
                    u,
                    old(users)@[at as int].id,
                    option_text(username),
                    option_text(email),
                    now,
                ),
        ),
        changed@ == user_rows(final(users)@)[at as int],
        changed@.id == old(users)@[at as int].id,
        ids_stay(user_rows(old(users)@), user_rows(final(users)@)),
{
    let ghost before = user_rows(users@);
    let ghost id = users@[at as int].id;
    let current = &users[at];
    let fresh = User {
        id: current.id,
        username: match &username {
            Some(n) => n.clone(),
            None => current.username.clone(),
        },
        email: match &email {
            Some(e) => e.clone(),
            None => current.email.clone(),
        },
        hashed_password: current.hashed_password.clone(),
        created_at: current.created_at,
        updated_at: now,
        email_verified_at: current.email_verified_at,
    };
    let copy = fresh.duplicate();
    users[at] = fresh;
    proof {
        let after = user_rows(users@);
        let f = |u: UserRow| renamed_row(u, id, option_text(username), option_text(email), now);
        assert(before[at as int].id == id);
        assert forall|j: int| 0 <= j < after.len() implies after[j] == f(before[j]) by {
            if j != at {
                assert(users@[j] == old(users)@[j]);
                assert(before[j].id != id) by {
                    if j < at {
                        assert(before[j].id != before[at as int].id);
                    } else {
                        assert(before[at as int].id != before[j].id);
                    }
                }
            }
        }
        assert(after =~= before.map_values(f));
        lemma_ids_stay(before, after);
        assert forall|a: int, b: int| 0 <= a < b < after.len() implies after[a].id != after[b].id
            && after[a].username != after[b].username && after[a].email != after[b].email by {
            assert(after[a] == f(before[a]));
            assert(after[b] == f(before[b]));
            assert(before[a].id != before[b].id);
        }
    }
    copy
}

impl UserRepository for MemoryStore {
    fn find_by_username(&self, username: &str) -> (r: Result<Option<User>, StoreError>) {
        match user_by_username(&self.users, username) {
            Some(i) => Ok(Some(found_user(&self.users, i))),
            None => Ok(None),
        }
    }

    fn find_by_email(&self, email: &str) -> (r: Result<Option<User>, StoreError>) {
        match user_by_email(&self.users, email) {
            Some(i) => Ok(Some(found_user(&self.users, i))),
            None => Ok(None),
        }
    }

    fn find_by_id(&self, user_id: u128) -> (r: Result<Option<User>, StoreError>) {
        match user_by_id(&self.users, user_id) {
            Some(i) => Ok(Some(found_user(&self.users, i))),
            None => Ok(None),
        }
    }

    fn create_registered(
        &mut self,
        user: &User,
        role_id: u128,
        token_hash: &str,
        token_expires_at: i64,
    ) -> (r: Result<(), StoreError>) {
        if user_by_id(&self.users, user.id).is_some() {
            return Err(StoreError::Conflict);
        }
        if user_by_username(&self.users, user.username.as_str()).is_some() {
            return Err(StoreError::Conflict);
        }
        if user_by_email(&self.users, user.email.as_str()).is_some() {
            return Err(StoreError::Conflict);
        }
        if self.one_time_tokens.find(token_hash).is_some() {
            return Err(StoreError::Conflict);
        }
        let ghost before = self.user_roles@;
        push_user(&mut self.users, user);
        self.user_roles.push((user.id, role_id));
        self.one_time_tokens.put(
            token_hash,
            OneTimeTokenRow {
                user_id: user.id,
                token_type: TokenType::EmailVerification,
                expires_at: token_expires_at,
            },
        );
        proof {
            let pair = (user.id, role_id);
            assert forall|p: (u128, u128)| self.user_roles@.to_set().contains(p)
                == before.to_set().insert(pair).contains(p) by {
                if self.user_roles@.contains(p) {
                    let j = choose|j: int| 0 <= j < self.user_roles@.len() && self.user_roles@[j] == p;
                    if j < before.len() {
                        assert(before[j] == p);
                        assert(before.contains(p));
                    }
                }
                if before.contains(p) {
                    let j = choose|j: int| 0 <= j < before.len() && before[j] == p;
                    assert(self.user_roles@[j] == p);
                }
                if p == pair {
                    assert(self.user_roles@[before.len() as int] == p);
                }
            }
            assert(self.user_roles@.to_set() =~= before.to_set().insert(pair));
            let rows = user_rows(self.users@);
            assert(rows[rows.len() - 1].id == user.id);
        }
        Ok(())
    }

    fn create_user(&mut self, user: &User) -> (r: Result<(), StoreError>) {
        if user_by_id(&self.users, user.id).is_some() {
            return Err(StoreError::Conflict);
        }
        if user_by_username(&self.users, user.username.as_str()).is_some() {
            return Err(StoreError::Conflict);
        }
        if user_by_email(&self.users, user.email.as_str()).is_some() {
            return Err(StoreError::Conflict);
        }
        push_user(&mut self.users, user);
        Ok(())
    }

    fn update(&mut self, user_id: u128, username: Option<String>, email: Option<String>, now: i64)
        -> (r: Result<User, StoreError>) {
        let at = match user_by_id(&self.users, user_id) {
            Some(i) => i,
            None => {
                return Err(StoreError::NotFound);
            },
        };
        match &username {
            Some(n) => {
                if username_of_other(&self.users, user_id, n.as_str()) {
                    return Err(StoreError::Conflict);
                }
            },
            None => {},
        }
        match &email {
            Some(e) => {
                if email_of_other(&self.users, user_id, e.as_str()) {
                    return Err(StoreError::Conflict);
                }
            },
            None => {},
        }
        let ghost before = user_rows(self.users@);
        let changed = rename_at(&mut self.users, at, username, email, now);
        proof {
            assert(user_rows(self.users@)[at as int] == changed@);
            assert(before[at as int].id == user_id);
            let chosen = user_position(before, user_id);
            assert(chosen == at) by {
                if chosen < at {
                    assert(before[chosen].id != before[at as int].id);
                } else if at < chosen {
                    assert(before[at as int].id != before[chosen].id);
                }
            }
        }
        Ok(changed)
    }

    fn delete(&mut self, user_id: u128) -> (r: Result<(), StoreError>) {
        let at = match user_by_id(&self.users, user_id) {
            Some(i) => i,
            None => {
                return Err(StoreError::NotFound);
            },
        };
        let ghost before = user_rows(self.users@);
        self.users.remove(at);
        proof {
            let after = user_rows(self.users@);
            assert(before[at as int].id == user_id);
            let chosen = user_position(before, user_id);
            assert(chosen == at) by {
                if chosen < at {
                    assert(before[chosen].id != before[at as int].id);
                } else if at < chosen {
                    assert(before[at as int].id != before[chosen].id);
                }
            }
            assert(after =~= before.remove(at as int));
            assert forall|a: int, b: int| 0 <= a < b < after.len() implies after[a].id != after[b].id
                && after[a].username != after[b].username && after[a].email != after[b].email by {
                let a0 = if a < at { a } else { a + 1 };
                let b0 = if b < at { b } else { b + 1 };
                assert(after[a] == before[a0]);
                assert(after[b] == before[b0]);
            }
        }
        drop_pairs_of(&mut self.user_roles, user_id);
        drop_rows_of(&mut self.refresh_tokens, user_id);
        drop_rows_of(&mut self.one_time_tokens, user_id);
        proof {
            let target = old(self).state().without_user(user_id);
            assert(self.state().user_roles =~= target.user_roles);
            assert(self.state().refresh_tokens =~= target.refresh_tokens);
            assert(self.state().one_time_tokens =~= target.one_time_tokens);
            let after = user_rows(self.users@);
            assert forall|p: (u128, u128)| #[trigger]
                self.state().user_roles.contains(p) implies users_have_id(after, p.0) by {
                assert(old(self).state().user_roles.contains(p) && p.0 != user_id);
                let i = choose|i: int| 0 <= i < before.len() && #[trigger] before[i].id == p.0;
                let k = if i < at { i } else { i - 1 };
                assert(after[k] == before[i]);
            }
        }
        Ok(())
    }

    fn remove_role_from_user(&mut self, user_id: u128, role_id: u128) -> (r: Result<
        (),
        StoreError,
    >) {
        drop_pair(&mut self.user_roles, user_id, role_id);
        Ok(())
    }

    fn set_user_roles(&mut self, user_id: u128, role_ids: &Vec<u128>) -> (r: Result<(), StoreError>) {
        if role_ids.len() > 0 && user_by_id(&self.users, user_id).is_none() {
            return Err(StoreError::NotFound);
        }
        drop_pairs_of(&mut self.user_roles, user_id);
        push_pairs(&mut self.user_roles, user_id, role_ids);
        proof {
            let target = old(self).state().with_only_user_roles(user_id, role_ids@);
            assert(self.state().user_roles =~= target.user_roles);
        }
        Ok(())
    }

    fn assign_roles_to_user(&mut self, user_id: u128, role_ids: &Vec<u128>) -> (r: Result<
        (),
        StoreError,
    >) {
        if role_ids.len() > 0 && user_by_id(&self.users, user_id).is_none() {
            return Err(StoreError::NotFound);
        }
        push_pairs(&mut self.user_roles, user_id, role_ids);
        Ok(())
    }

    fn get_user_roles(&self, user_id: u128) -> (r: Result<Vec<String>, StoreError>) {
        let mut flags: Vec<bool> = Vec::new();
        let mut i: usize = 0;
        while i < self.roles.len()
            invariant
                i <= self.roles.len(),
                flags.len() == i,
                forall|j: int|
                    0 <= j < i ==> flags@[j] == self.user_roles@.to_set().contains(
                        (user_id, self.roles@[j].id),
                    ),
            decreases self.roles.len() - i,
        {
            flags.push(pair_in(&self.user_roles, user_id, self.roles[i].id));
            i = i + 1;
        }
        let names = selected_names(&self.roles, &flags);
        proof {
            let rows = named_rows(self.roles@);
            let target = self.state().user_role_names(user_id);
            assert forall|n: Seq<char>| flagged_names(rows, flags@, rows.len() as int).contains(n)
                == target.contains(n) by {
                if flagged_names(rows, flags@, rows.len() as int).contains(n) {
                    let j = choose|j: int|
                        0 <= j < rows.len() && #[trigger] rows[j].name == n && flags@[j];
                    assert(rows[j].id == self.roles@[j].id);
                    assert(self.state().roles[j].name == n);
                }
                if target.contains(n) {
                    let j = choose|j: int|
                        0 <= j < rows.len() && #[trigger] self.state().roles[j].name == n
                            && self.state().user_roles.contains(
                            (user_id, self.state().roles[j].id),
                        );
                    assert(rows[j].name == n && flags@[j]);
                }
            }
            assert(flagged_names(rows, flags@, rows.len() as int) =~= target);
        }
        Ok(names)
    }

    fn get_user_permissions(&self, user_id: u128) -> (r: Result<Vec<String>, StoreError>) {
        let mut flags: Vec<bool> = Vec::new();
        let mut i: usize = 0;
        while i < self.permissions.len()
            invariant
                i <= self.permissions.len(),
                flags.len() == i,
                forall|j: int|
                    0 <= j < i ==> flags@[j] == self.state().user_granted(
                        user_id,
                        self.permissions@[j].id,
                    ),
            decreases self.permissions.len() - i,
        {
            flags.push(self.granted(user_id, self.permissions[i].id));
            i = i + 1;
        }
        let names = selected_names(&self.permissions, &flags);
        proof {
            let rows = named_rows(self.permissions@);
            let target = self.state().user_permission_names(user_id);
            assert forall|n: Seq<char>| flagged_names(rows, flags@, rows.len() as int).contains(n)
                == target.contains(n) by {
                if flagged_names(rows, flags@, rows.len() as int).contains(n) {
                    let j = choose|j: int|
                        0 <= j < rows.len() && #[trigger] rows[j].name == n && flags@[j];
                    assert(rows[j].id == self.permissions@[j].id);
                    assert(self.state().permissions[j].name == n);
                }
                if target.contains(n) {
                    let j = choose|j: int|
                        0 <= j < rows.len() && #[trigger] self.state().permissions[j].name == n
                            && self.state().user_granted(user_id, self.state().permissions[j].id);
                    assert(rows[j].name == n && flags@[j]);
                }
            }
            assert(flagged_names(rows, flags@, rows.len() as int) =~= target);
        }
        Ok(names)
    }

    fn mark_email_as_verified(&mut self, user_id: u128, now: i64) -> (r: Result<(), StoreError>) {
        set_verified(&mut self.users, user_id, now);
        Ok(())
    }

    fn update_password(&mut self, user_id: u128, new_hashed_password: &str, now: i64) -> (r: Result<
        (),
        StoreError,
    >) {
        set_password(&mut self.users, user_id, new_hashed_password, now);
        Ok(())
    }

    fn store_refresh_token(&mut self, user_id: u128, token_hash: &str, expires_at: i64) -> (r:
        Result<(), StoreError>) {
        match self.refresh_tokens.find(token_hash) {
            Some(_) => Err(StoreError::Conflict),
            None => {
                self.refresh_tokens.put(token_hash, RefreshTokenRow { user_id, expires_at });
                Ok(())
            },
        }
    }

    fn find_user_by_refresh_token(&self, token_hash: &str, now: i64) -> (r: Result<
        Option<User>,
        StoreError,
    >) {
        match self.refresh_tokens.get(token_hash) {
            Some(row) => {
                if row.expires_at > now {
                    match user_by_id(&self.users, row.user_id) {
                        Some(i) => Ok(Some(found_user(&self.users, i))),
                        None => Ok(None),
                    }
                } else {
                    Ok(None)
                }
            },
            None => Ok(None),
        }
    }

    fn delete_refresh_token(&mut self, token_hash: &str) -> (r: Result<(), StoreError>) {
        self.refresh_tokens.remove(token_hash);
        Ok(())
    }

    fn delete_all_refresh_token_for_user(&mut self, user_id: u128) -> (r: Result<(), StoreError>) {
        drop_rows_of(&mut self.refresh_tokens, user_id);
        proof {
            let target = old(self).state().without_refresh_tokens_of(user_id);
            assert(self.state().refresh_tokens =~= target.refresh_tokens);
        }
        Ok(())
    }
}

} // verus!
