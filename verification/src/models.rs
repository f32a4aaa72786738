//! The records of the identity store and of the content layer, as plain
//! values: identifiers are 128-bit numbers, instants are Unix seconds.

use vstd::prelude::*;

verus! {

/// A registered user.
#[derive(Clone, Debug)]
pub struct User {
    pub id: u128,
    pub username: String,
    pub email: String,
    pub hashed_password: String,
    pub created_at: i64,
    pub updated_at: i64,
    pub email_verified_at: Option<i64>,
}

/// What of a user may be shown: no password hash.
#[derive(Clone, Debug)]
pub struct UserPublic {
    pub id: u128,
    pub username: String,
    pub email: String,
    pub created_at: i64,
    pub roles: Vec<String>,
}

/// A role: a named set of permissions.
#[derive(Clone, Debug)]
pub struct Role {
    pub id: u128,
    pub name: String,
    pub description: Option<String>,
    pub created_at: i64,
    pub updated_at: i64,
}

/// A permission that roles grant.
#[derive(Clone, Debug)]
pub struct Permission {
    pub id: u128,
    pub name: String,
    pub description: Option<String>,
    pub created_at: i64,
    pub updated_at: i64,
}

/// A category of posts.
#[derive(Clone, Debug)]
pub struct Category {
    pub id: u128,
    pub name: String,
    pub slug: String,
    pub created_at: i64,
    pub updated_at: i64,
}

/// A tag on posts.
#[derive(Clone, Debug)]
pub struct Tag {
    pub id: u128,
    pub name: String,
    pub slug: String,
    pub created_at: i64,
    pub updated_at: i64,
}

/// A post. It is a draft while `published_at` is `None`.
#[derive(Clone, Debug)]
pub struct Post {
    pub id: u128,
    pub slug: String,
    pub title: String,
    pub content: String,
    pub author_id: Option<u128>,
    pub created_at: i64,
    pub updated_at: i64,
    pub published_at: Option<i64>,
    /// Users the draft is shared with.
    pub draft_shared_with: Option<Vec<u128>>,
    /// Whether holders of the shared-drafts permission may see the draft.
    pub is_draft_public: Option<bool>,
}

/// One entry of the audit trail of draft accesses. Entries are only ever added.
#[derive(Clone, Debug)]
pub struct DraftAccessLog {
    pub id: u128,
    pub post_id: u128,
    pub accessed_by: u128,
    pub access_type: String,
    pub access_reason: Option<String>,
    pub created_at: i64,
}

/// A user as mathematical values.
pub struct UserRow {
    pub id: u128,
    pub username: Seq<char>,
    pub email: Seq<char>,
    pub hashed_password: Seq<char>,
    pub created_at: i64,
    pub updated_at: i64,
    pub email_verified_at: Option<i64>,
}

/// A role or a permission as mathematical values.
pub struct NamedRow {
    pub id: u128,
    pub name: Seq<char>,
    pub description: Option<Seq<char>>,
    pub created_at: i64,
    pub updated_at: i64,
}

/// The characters of an optional string.
pub open spec fn option_text(s: Option<String>) -> Option<Seq<char>> {
    match s {
        Some(t) => Some(t@),
        None => None,
    }
}

/// A copy of an optional string.
pub fn clone_option_text(s: &Option<String>) -> (r: Option<String>)
    ensures
        option_text(r) == option_text(*s),
{
    match s {
        Some(t) => Some(t.clone()),
        None => None,
    }
}

impl View for User {
    type V = UserRow;

    open spec fn view(&self) -> UserRow {
        UserRow {
            id: self.id,
            username: self.username@,
            email: self.email@,
            hashed_password: self.hashed_password@,
            created_at: self.created_at,
            updated_at: self.updated_at,
            email_verified_at: self.email_verified_at,
        }
    }
}

impl User {
    /// A copy of this user.
    pub fn duplicate(&self) -> (r: User)
        ensures
            r@ == self@,
    {
        User {
            id: self.id,
            username: self.username.clone(),
            email: self.email.clone(),
            hashed_password: self.hashed_password.clone(),
            created_at: self.created_at,
            updated_at: self.updated_at,
            email_verified_at: self.email_verified_at,
        }
    }
}

impl View for Role {
    type V = NamedRow;

    open spec fn view(&self) -> NamedRow {
        NamedRow {
            id: self.id,
            name: self.name@,
            description: option_text(self.description),
            created_at: self.created_at,
            updated_at: self.updated_at,
        }
    }
}

impl Role {
    /// A copy of this role.
    pub fn duplicate(&self) -> (r: Role)
        ensures
            r@ == self@,
    {
        Role {
            id: self.id,
            name: self.name.clone(),
            description: clone_option_text(&self.description),
            created_at: self.created_at,
            updated_at: self.updated_at,
        }
    }
}

impl View for Permission {
    type V = NamedRow;

    open spec fn view(&self) -> NamedRow {
        NamedRow {
            id: self.id,
            name: self.name@,
            description: option_text(self.description),
            created_at: self.created_at,
            updated_at: self.updated_at,
        }
    }
}

impl Permission {
    /// A copy of this permission.
    pub fn duplicate(&self) -> (r: Permission)
        ensures
            r@ == self@,
    {
        Permission {
            id: self.id,
            name: self.name.clone(),
            description: clone_option_text(&self.description),
            created_at: self.created_at,
            updated_at: self.updated_at,
        }
    }
}

} // verus!
