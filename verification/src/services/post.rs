//! Visibility of posts: who may see a draft, what a caller may do to a
//! post, and which accesses are written to the audit trail.

use crate::api_error::{ApiError, ErrorKind};
use crate::auth::{AuthUser, UserContext};
use crate::dtos::post::{CategoryDto, PostDetailDto, TagDto, UpdatePostPayload, UserBasicDto};
use crate::ids::{uuid_parse, uuid_text, uuid_to_string};
use crate::services::auth::fails_saying;
use crate::text::{trim, trimmed};
use crate::utils::slug::{slug_of, slugify};
use crate::models::{clone_option_text, option_text, DraftAccessLog, Post};
use crate::utils::markdown::{markdown_to_html_safe, rendered_html};
use vstd::prelude::*;

verus! {

/// The permission that lets a caller see drafts their authors made public.
pub open spec fn shared_drafts_permission() -> Seq<char> {
    "post:draft:access_shared"@
}

/// What a caller does to a draft.
#[derive(Clone, Copy, Debug, PartialEq, Eq, Structural)]
pub enum AccessType {
    View,
    Edit,
    Delete,
}

impl AccessType {
    /// The name under which the type is written to the audit trail.
    pub fn as_str(&self) -> (s: &'static str)
        ensures
            s@ == (match *self {
                AccessType::View => "view"@,
                AccessType::Edit => "edit"@,
                AccessType::Delete => "delete"@,
            }),
    {
        match self {
            AccessType::View => "view",
            AccessType::Edit => "edit",
            AccessType::Delete => "delete",
        }
    }
}

/// Why a caller may see a post, or that the caller may not.
#[derive(Clone, Copy, Debug, PartialEq, Eq, Structural)]
pub enum DraftAccess {
    /// The post is published: everybody may see it.
    Published,
    /// The caller wrote the draft.
    Author,
    /// The draft is shared with the caller.
    Shared,
    /// The draft is public and the caller may see public drafts.
    PublicDraft,
    Denied,
}

/// Whether a post is published.
pub open spec fn is_published(post: Post) -> bool {
    post.published_at is Some
}

/// Whether a user wrote a post.
pub open spec fn is_author(post: Post, user_id: u128) -> bool {
    post.author_id == Some(user_id)
}

/// Whether a draft is shared with a user.
pub open spec fn is_shared_with(post: Post, user_id: u128) -> bool {
    post.draft_shared_with matches Some(list) && list@.contains(user_id)
}

/// Whether the author made a draft public.
pub open spec fn is_public_draft(post: Post) -> bool {
    post.is_draft_public == Some(true)
}

/// The identifier of a caller; none for a guest.
pub open spec fn caller_id(caller: UserContext) -> Option<u128> {
    match caller {
        UserContext::Guest => None,
        UserContext::Authenticated(user) => Some(
            match uuid_parse(user.0.sub@) {
                Some(v) => v,
                None => 0u128,
            },
        ),
    }
}

/// The rule of access to a post. A published post is open to everybody.
/// For a draft, in this order: the author may see it; a user it is shared
/// with may see it; where it is public, a user with the permission to see
/// shared drafts may see it; nobody else may, and no guest.
pub open spec fn draft_access(post: Post, caller: UserContext) -> DraftAccess {
    if is_published(post) {
        DraftAccess::Published
    } else {
        match caller_id(caller) {
            None => DraftAccess::Denied,
            Some(id) => if is_author(post, id) {
                DraftAccess::Author
            } else if is_shared_with(post, id) {
                DraftAccess::Shared
            } else if is_public_draft(post) && caller.grants(shared_drafts_permission()) {
                DraftAccess::PublicDraft
            } else {
                DraftAccess::Denied
            },
        }
    }
}

/// Whether an access is written to the audit trail: every access to a
/// draft by somebody other than its author.
pub open spec fn is_audited(access: DraftAccess) -> bool {
    access == DraftAccess::Shared || access == DraftAccess::PublicDraft
}

/// The entry that records an access.
pub open spec fn is_entry_for(
    entry: DraftAccessLog,
    entry_id: u128,
    post: Post,
    user_id: u128,
    access_type: AccessType,
    reason: Option<String>,
    now: i64,
) -> bool {
    &&& entry.id == entry_id
    &&& entry.post_id == post.id
    &&& entry.accessed_by == user_id
    &&& entry.access_type@ == (match access_type {
        AccessType::View => "view"@,
        AccessType::Edit => "edit"@,
        AccessType::Delete => "delete"@,
    })
    &&& option_text(entry.access_reason) == option_text(reason)
    &&& entry.created_at == now
}

/// Whether an identifier occurs in a list.
pub fn id_in(list: &Vec<u128>, id: u128) -> (r: bool)
    ensures
        r == list@.contains(id),
{
    let mut i: usize = 0;
    while i < list.len()
        invariant
            i <= list.len(),
            forall|j: int| 0 <= j < i ==> list@[j] != id,
        decreases list.len() - i,
    {
        if list[i] == id {
            return true;
        }
        i = i + 1;
    }
    false
}

/// A copy of a list of identifiers.
pub fn copy_ids(list: &Vec<u128>) -> (r: Vec<u128>)
    ensures
        r@ == list@,
{
    let mut out: Vec<u128> = Vec::new();
    let mut i: usize = 0;
    while i < list.len()
        invariant
            i <= list.len(),
            out@ == list@.take(i as int),
        decreases list.len() - i,
    {
        out.push(list[i]);
        assert(list@.take(i + 1) =~= list@.take(i as int).push(list@[i as int]));
        i = i + 1;
    }
    assert(list@.take(list.len() as int) =~= list@);
    out
}

/// Whether a draft is shared with a user.
pub fn shared_with(post: &Post, user_id: u128) -> (r: bool)
    ensures
        r == is_shared_with(*post, user_id),
{
    match &post.draft_shared_with {
        Some(list) => id_in(list, user_id),
        None => false,
    }
}

/// Whether a user wrote a post.
pub fn wrote(post: &Post, user_id: u128) -> (r: bool)
    ensures
        r == is_author(*post, user_id),
{
    match post.author_id {
        Some(author) => author == user_id,
        None => false,
    }
}

/// Whether the author made a draft public.
pub fn public_draft(post: &Post) -> (r: bool)
    ensures
        r == is_public_draft(*post),
{
    match post.is_draft_public {
        Some(flag) => flag,
        None => false,
    }
}

/// What is shown of the drafts' sharing: the users a draft is shared
/// with, and nothing for a published post.
pub open spec fn shown_shared_with(post: Post) -> Option<Seq<u128>> {
    if is_published(post) {
        None
    } else {
        match post.draft_shared_with {
            Some(list) => Some(list@),
            None => None,
        }
    }
}

/// Whether the caller is looking at somebody else's draft; unknown for
/// a published post and where the caller is not known.
pub open spec fn accessing_others_draft(post: Post, accessing_user_id: Option<u128>) -> Option<
    bool,
> {
    if is_published(post) {
        None
    } else {
        match accessing_user_id {
            Some(id) => Some(!is_author(post, id)),
            None => None,
        }
    }
}

/// Whether the caller's own post is at hand.
pub open spec fn is_own_post(post: Post, accessing_user_id: Option<u128>) -> bool {
    accessing_user_id matches Some(id) && is_author(post, id)
}

/// Whether a draft is open to the caller by sharing, or by being public
/// where the caller may see public drafts.
pub open spec fn draft_opened_to(
    post: Post,
    accessing_user_id: Option<u128>,
    may_see_public_drafts: bool,
) -> bool {
    accessing_user_id matches Some(id) && (is_shared_with(post, id) || (is_public_draft(post)
        && may_see_public_drafts))
}

/// Whether the caller may see the whole post: the author may, everybody
/// may once it is published, and so may those a draft is opened to. The
/// right to read any post does not open a private draft.
pub open spec fn may_view_detail(
    post: Post,
    accessing_user_id: Option<u128>,
    may_see_public_drafts: bool,
) -> bool {
    is_own_post(post, accessing_user_id) || is_published(post) || draft_opened_to(
        post,
        accessing_user_id,
        may_see_public_drafts,
    )
}

/// Whether the caller may edit, delete or publish the post: the author
/// may, and for a published post so may a caller with the right to read
/// any post. A draft shared with the caller stays read-only.
pub open spec fn may_change(post: Post, accessing_user_id: Option<u128>, can_read_any: bool) -> bool {
    is_own_post(post, accessing_user_id) || (is_published(post) && can_read_any)
}

/// The rules of sharing a draft: only a draft can be shared, and only by
/// its author.
pub open spec fn share_refusal(post: Post, user_id: u128) -> Option<Seq<char>> {
    if is_published(post) {
        Some("只能分享草稿文章"@)
    } else if !is_author(post, user_id) {
        Some("您只能分享自己的草稿"@)
    } else {
        None
    }
}

/// The identifiers of an optional list.
pub open spec fn ids_of(list: Option<Vec<u128>>) -> Option<Seq<u128>> {
    match list {
        Some(v) => Some(v@),
        None => None,
    }
}

/// Whether `after` is `current` with an update applied at `now`. What the
/// update gives replaces what was there, and what it leaves out stays;
/// the slug that goes with a new title comes before one the update
/// names; a post that is to be unpublished loses its date of
/// publication. The sharing of the draft is always spelt out afterwards:
/// with nobody and not public, where nothing was said before.
pub open spec fn is_updated(
    current: Post,
    payload: UpdatePostPayload,
    new_slug: Option<Seq<char>>,
    now: i64,
    after: Post,
) -> bool {
    &&& after.id == current.id
    &&& after.author_id == current.author_id
    &&& after.created_at == current.created_at
    &&& after.updated_at == now
    &&& after.title@ == (match payload.title {
        Some(t) => t@,
        None => current.title@,
    })
    &&& after.content@ == (match payload.content {
        Some(c) => c@,
        None => current.content@,
    })
    &&& after.slug@ == (match new_slug {
        Some(s) => s,
        None => match payload.slug {
            Some(s) => s@,
            None => current.slug@,
        },
    })
    &&& after.published_at == (if payload.unpublish {
        None
    } else {
        match payload.published_at {
            Some(t) => Some(t),
            None => current.published_at,
        }
    })
    &&& ids_of(after.draft_shared_with) == Some(
        match payload.draft_shared_with {
            Some(list) => list@,
            None => match current.draft_shared_with {
                Some(list) => list@,
                None => Seq::empty(),
            },
        },
    )
    &&& after.is_draft_public == Some(
        match payload.is_draft_public {
            Some(flag) => flag,
            None => match current.is_draft_public {
                Some(flag) => flag,
                None => false,
            },
        },
    )
}

/// Whether a post is shown in the list of a user: every own post, every
/// published post, the drafts that are shared with the user, and the
/// public drafts where the user may see those; with the right to read
/// any post, every post.
pub open spec fn is_listed_for(
    post: Post,
    user_id: u128,
    can_read_any: bool,
    may_see_public_drafts: bool,
) -> bool {
    can_read_any || is_author(post, user_id) || is_published(post) || is_shared_with(post, user_id)
        || (is_public_draft(post) && may_see_public_drafts)
}

/// The identifier of an authenticated caller.
pub open spec fn user_id_of(user: AuthUser) -> u128 {
    match uuid_parse(user.0.sub@) {
        Some(v) => v,
        None => 0u128,
    }
}

/// The rule of changing a post. A caller with the permission for any
/// post may; a caller with the permission for own posts may where the
/// post is the caller's own; nobody else may.
pub open spec fn change_refusal(
    user: AuthUser,
    author: Option<u128>,
    any_permission: Seq<char>,
    own_permission: Seq<char>,
    not_own: Seq<char>,
) -> Option<Seq<char>> {
    if user.0@.permissions.contains(any_permission) {
        None
    } else if !user.0@.permissions.contains(own_permission) {
        Some("权限不足"@)
    } else if author != Some(user_id_of(user)) {
        Some(not_own)
    } else {
        None
    }
}

/// The first of a list of identifiers that is not among the known ones.
pub open spec fn first_unknown(ids: Seq<u128>, known: Seq<u128>) -> Option<u128>
    decreases ids.len(),
{
    if ids.len() == 0 {
        None
    } else if !known.contains(ids[0]) {
        Some(ids[0])
    } else {
        first_unknown(ids.drop_first(), known)
    }
}

/// What is shown agrees with what is allowed. The whole of a post is
/// marked as open to a caller exactly when the rule of access lets the
/// caller see the post.
pub proof fn lemma_detail_agrees_with_access(post: Post, caller: UserContext)
    ensures
        may_view_detail(post, caller_id(caller), caller.grants(shared_drafts_permission()))
            <==> draft_access(post, caller) != DraftAccess::Denied,
{
}

/// An access is audited exactly when it is granted to somebody other
/// than the author of a draft.
pub proof fn lemma_audit_covers_foreign_access(post: Post, caller: UserContext)
    ensures
        is_audited(draft_access(post, caller)) <==> (!is_published(post) && !is_own_post(
            post,
            caller_id(caller),
        ) && draft_access(post, caller) != DraftAccess::Denied),
{
}

/// The post service's rules. Reading and writing posts in a store is the
/// caller's part.
pub struct PostService {}

impl PostService {
    /// Decides on what ground a caller may see a post.
    pub fn draft_access_of(post: &Post, caller: &UserContext) -> (r: DraftAccess)
        ensures
            r == draft_access(*post, *caller),
    {
        if post.published_at.is_some() {
            return DraftAccess::Published;
        }
        let id = match caller.user_id() {
            Some(id) => id,
            None => {
                return DraftAccess::Denied;
            },
        };
        if wrote(post, id) {
            DraftAccess::Author
        } else if shared_with(post, id) {
            DraftAccess::Shared
        } else if public_draft(post) && caller.has_permission("post:draft:access_shared") {
            DraftAccess::PublicDraft
        } else {
            DraftAccess::Denied
        }
    }

    /// Whether a caller may see a post.
    pub fn can_access_draft(post: &Post, caller: &UserContext) -> (r: bool)
        ensures
            r == (draft_access(*post, *caller) != DraftAccess::Denied),
    {
        match Self::draft_access_of(post, caller) {
            DraftAccess::Denied => false,
            _ => true,
        }
    }

    /// Decides on an access and makes the audit entry for it. The entry
    /// is there exactly for an access that is granted to somebody other
    /// than the author of a draft. A guest who is denied is
    /// unauthenticated; a user who is denied is forbidden.
    pub fn authorize_draft_access(
        post: &Post,
        caller: &UserContext,
        access_type: AccessType,
        reason: Option<String>,
        entry_id: u128,
        now: i64,
    ) -> (r: Result<Option<DraftAccessLog>, ApiError>)
        ensures
            match draft_access(*post, *caller) {
                DraftAccess::Denied => r matches Err(e) && e.kind == (match *caller {
                    UserContext::Guest => ErrorKind::Unauthenticated,
                    UserContext::Authenticated(_) => ErrorKind::Forbidden,
                }),
                DraftAccess::Published => r matches Ok(None),
                DraftAccess::Author => r matches Ok(None),
                _ => r matches Ok(Some(entry)) && caller_id(*caller) matches Some(id) && is_entry_for(
                    entry,
                    entry_id,
                    *post,
                    id,
                    access_type,
                    reason,
                    now,
                ),
            },
    {
        match Self::draft_access_of(post, caller) {
            DraftAccess::Denied => match caller {
                UserContext::Guest => Err(
                    ApiError::new(ErrorKind::Unauthenticated, "需要登录才能访问此功能"),
                ),
                UserContext::Authenticated(_) => Err(
                    ApiError::new(ErrorKind::Forbidden, "权限不足"),
                ),
            },
            DraftAccess::Published => Ok(None),
            DraftAccess::Author => Ok(None),
            _ => {
                let id = match caller.user_id() {
                    Some(id) => id,
                    None => 0,
                };
                Ok(Some(Self::log_draft_access(post, id, access_type, reason, entry_id, now)))
            },
        }
    }

    /// The audit entry for an access to a draft.
    pub fn log_draft_access(
        post: &Post,
        accessed_by: u128,
        access_type: AccessType,
        reason: Option<String>,
        entry_id: u128,
        now: i64,
    ) -> (entry: DraftAccessLog)
        ensures
            is_entry_for(entry, entry_id, *post, accessed_by, access_type, reason, now),
    {
        DraftAccessLog {
            id: entry_id,
            post_id: post.id,
            accessed_by,
            access_type: access_type.as_str().to_owned(),
            access_reason: clone_option_text(&reason),
            created_at: now,
        }
    }

    /// Checks that a user may share a post: only a draft, and only the
    /// author's own.
    pub fn check_share_draft(post: &Post, user_id: u128) -> (r: Result<(), ApiError>)
        ensures
            match share_refusal(*post, user_id) {
                Some(message) => r matches Err(e) && e.kind == ErrorKind::Forbidden && e.message@
                    == message,
                None => r is Ok,
            },
    {
        if post.published_at.is_some() {
            Err(ApiError::new(ErrorKind::Forbidden, "只能分享草稿文章"))
        } else if !wrote(post, user_id) {
            Err(ApiError::new(ErrorKind::Forbidden, "您只能分享自己的草稿"))
        } else {
            Ok(())
        }
    }

    /// Puts a post together with what belongs to it, and works out what
    /// the caller may do to it.
    pub fn create_post_detail_dto(
        post: &Post,
        categories: Vec<CategoryDto>,
        tags: Vec<TagDto>,
        rendered_html: String,
        accessing_user_id: Option<u128>,
        author: Option<UserBasicDto>,
        can_read_any: bool,
        may_see_public_drafts: bool,
    ) -> (d: PostDetailDto)
        ensures
            d.id == post.id,
            d.slug@ == post.slug@,
            d.title@ == post.title@,
            d.content_markdown@ == post.content@,
            d.content_html == rendered_html,
            d.author_id == post.author_id,
            d.author == author,
            d.created_at == post.created_at,
            d.updated_at == post.updated_at,
            d.published_at == post.published_at,
            d.categories == (if categories@.len() == 0 {
                None
            } else {
                Some(categories)
            }),
            d.tags == (if tags@.len() == 0 {
                None
            } else {
                Some(tags)
            }),
            (match d.draft_shared_with {
                Some(list) => Some(list@),
                None => None,
            }) == shown_shared_with(*post),
            d.is_draft_public == (if is_published(*post) {
                None
            } else {
                post.is_draft_public
            }),
            d.is_accessing_others_draft == accessing_others_draft(*post, accessing_user_id),
            d.can_view_detail == may_view_detail(*post, accessing_user_id, may_see_public_drafts),
            d.can_edit == may_change(*post, accessing_user_id, can_read_any),
            d.can_delete == may_change(*post, accessing_user_id, can_read_any),
            d.can_publish == may_change(*post, accessing_user_id, can_read_any),
    {
        let published = post.published_at.is_some();
        let is_accessing_others_draft = if published {
            None
        } else {
            match accessing_user_id {
                Some(id) => Some(!wrote(post, id)),
                None => None,
            }
        };
        let own = match accessing_user_id {
            Some(id) => wrote(post, id),
            None => false,
        };
        let opened = match accessing_user_id {
            Some(id) => shared_with(post, id) || (public_draft(post) && may_see_public_drafts),
            None => false,
        };
        let can_view_detail = own || published || opened;
        let can_change = own || (published && can_read_any);
        let draft_shared_with = if published {
            None
        } else {
            match &post.draft_shared_with {
                Some(list) => Some(copy_ids(list)),
                None => None,
            }
        };
        PostDetailDto {
            id: post.id,
            slug: post.slug.clone(),
            title: post.title.clone(),
            content_markdown: post.content.clone(),
            content_html: rendered_html,
            author_id: post.author_id,
            author,
            created_at: post.created_at,
            updated_at: post.updated_at,
            published_at: post.published_at,
            categories: if categories.len() == 0 {
                None
            } else {
                Some(categories)
            },
            tags: if tags.len() == 0 {
                None
            } else {
                Some(tags)
            },
            draft_shared_with,
            is_draft_public: if published {
                None
            } else {
                post.is_draft_public
            },
            is_accessing_others_draft,
            can_edit: can_change,
            can_delete: can_change,
            can_publish: can_change,
            can_view_detail,
        }
    }

    /// A post as an endpoint shows it: its Markdown rendered to HTML, and
    /// what the caller may do to it worked out.
    pub fn render_post_detail(
        post: &Post,
        categories: Vec<CategoryDto>,
        tags: Vec<TagDto>,
        accessing_user_id: Option<u128>,
        author: Option<UserBasicDto>,
        can_read_any: bool,
        may_see_public_drafts: bool,
    ) -> (d: PostDetailDto)
        ensures
            d.id == post.id,
            d.slug@ == post.slug@,
            d.title@ == post.title@,
            d.content_markdown@ == post.content@,
            d.content_html@ == rendered_html(post.content@),
            d.author_id == post.author_id,
            d.author == author,
            d.created_at == post.created_at,
            d.updated_at == post.updated_at,
            d.published_at == post.published_at,
            d.categories == (if categories@.len() == 0 {
                None
            } else {
                Some(categories)
            }),
            d.tags == (if tags@.len() == 0 {
                None
            } else {
                Some(tags)
            }),
            (match d.draft_shared_with {
                Some(list) => Some(list@),
                None => None,
            }) == shown_shared_with(*post),
            d.is_draft_public == (if is_published(*post) {
                None
            } else {
                post.is_draft_public
            }),
            d.is_accessing_others_draft == accessing_others_draft(*post, accessing_user_id),
            d.can_view_detail == may_view_detail(*post, accessing_user_id, may_see_public_drafts),
            d.can_edit == may_change(*post, accessing_user_id, can_read_any),
            d.can_delete == may_change(*post, accessing_user_id, can_read_any),
            d.can_publish == may_change(*post, accessing_user_id, can_read_any),
    {
        let html = markdown_to_html_safe(post.content.as_str());
        Self::create_post_detail_dto(
            post,
            categories,
            tags,
            html,
            accessing_user_id,
            author,
            can_read_any,
            may_see_public_drafts,
        )
    }

    /// A post with an update applied at `now`.
    pub fn apply_update(
        current: &Post,
        payload: &UpdatePostPayload,
        new_slug: Option<&str>,
        now: i64,
    ) -> (after: Post)
        ensures
            is_updated(
                *current,
                *payload,
                match new_slug {
                    Some(s) => Some(s@),
                    None => None,
                },
                now,
                after,
            ),
    {
        let slug = match new_slug {
            Some(s) => s.to_owned(),
            None => match &payload.slug {
                Some(s) => s.clone(),
                None => current.slug.clone(),
            },
        };
        let published_at = if payload.unpublish {
            None
        } else {
            match payload.published_at {
                Some(t) => Some(t),
                None => current.published_at,
            }
        };
        let shared = match &payload.draft_shared_with {
            Some(list) => copy_ids(list),
            None => match &current.draft_shared_with {
                Some(list) => copy_ids(list),
                None => Vec::new(),
            },
        };
        let public = match payload.is_draft_public {
            Some(flag) => flag,
            None => match current.is_draft_public {
                Some(flag) => flag,
                None => false,
            },
        };
        Post {
            id: current.id,
            slug,
            title: match &payload.title {
                Some(t) => t.clone(),
                None => current.title.clone(),
            },
            content: match &payload.content {
                Some(c) => c.clone(),
                None => current.content.clone(),
            },
            author_id: current.author_id,
            created_at: current.created_at,
            updated_at: now,
            published_at,
            draft_shared_with: Some(shared),
            is_draft_public: Some(public),
        }
    }

    /// Whether a post is shown in the list of a user.
    pub fn listed_for(
        post: &Post,
        user_id: u128,
        can_read_any: bool,
        may_see_public_drafts: bool,
    ) -> (r: bool)
        ensures
            r == is_listed_for(*post, user_id, can_read_any, may_see_public_drafts),
    {
        can_read_any || wrote(post, user_id) || post.published_at.is_some() || shared_with(
            post,
            user_id,
        ) || (public_draft(post) && may_see_public_drafts)
    }

    /// Decides whether a caller may change a post under a pair of
    /// permissions, one for any post and one for the caller's own.
    fn authorize_change(
        user: &AuthUser,
        author: Option<u128>,
        any_permission: &str,
        own_permission: &str,
        not_own: &str,
    ) -> (r: Result<(), ApiError>)
        ensures
            match change_refusal(*user, author, any_permission@, own_permission@, not_own@) {
                Some(message) => fails_saying(r, ErrorKind::Forbidden, message),
                None => r is Ok,
            },
    {
        if user.require_permission(any_permission).is_ok() {
            return Ok(());
        }
        match user.require_permission(own_permission) {
            Ok(_) => {},
            Err(e) => {
                return Err(e);
            },
        }
        let id = user.user_id();
        let own = match author {
            Some(a) => a == id,
            None => false,
        };
        if own {
            Ok(())
        } else {
            Err(ApiError::new(ErrorKind::Forbidden, not_own))
        }
    }

    /// Whether a caller may edit a post: with `post:edit_any` any post,
    /// with `post:edit_own` the caller's own.
    pub fn authorize_edit(user: &AuthUser, author: Option<u128>) -> (r: Result<(), ApiError>)
        ensures
            match change_refusal(
                *user,
                author,
                "post:edit_any"@,
                "post:edit_own"@,
                "您只能编辑自己的帖子"@,
            ) {
                Some(message) => fails_saying(r, ErrorKind::Forbidden, message),
                None => r is Ok,
            },
    {
        Self::authorize_change(user, author, "post:edit_any", "post:edit_own", "您只能编辑自己的帖子")
    }

    /// Whether a caller may delete a post: with `post:delete_any` any
    /// post, with `post:delete_own` the caller's own.
    pub fn authorize_delete(user: &AuthUser, author: Option<u128>) -> (r: Result<(), ApiError>)
        ensures
            match change_refusal(
                *user,
                author,
                "post:delete_any"@,
                "post:delete_own"@,
                "您只能删除自己的帖子"@,
            ) {
                Some(message) => fails_saying(r, ErrorKind::Forbidden, message),
                None => r is Ok,
            },
    {
        Self::authorize_change(
            user,
            author,
            "post:delete_any",
            "post:delete_own",
            "您只能删除自己的帖子",
        )
    }

    /// The slug of a post to be made. Title and content must each hold
    /// more than white space; the slug is made of the title as given.
    pub fn check_new_post(title: &str, content: &str) -> (r: Result<String, ApiError>)
        ensures
            if trimmed(title@).len() == 0 {
                fails_saying(r, ErrorKind::ValidationError, "标题不能为空"@)
            } else if trimmed(content@).len() == 0 {
                fails_saying(r, ErrorKind::ValidationError, "内容不能为空"@)
            } else {
                r matches Ok(slug) && slug@ == slug_of(title@)
            },
    {
        if trim(title).as_str().unicode_len() == 0 {
            return Err(ApiError::new(ErrorKind::ValidationError, "标题不能为空"));
        }
        if trim(content).as_str().unicode_len() == 0 {
            return Err(ApiError::new(ErrorKind::ValidationError, "内容不能为空"));
        }
        Ok(slugify(title))
    }

    /// The new slug of a post whose title is to change; none where no
    /// title is given. A title that is given must hold more than white
    /// space.
    pub fn check_post_update(title: &Option<String>) -> (r: Result<Option<String>, ApiError>)
        ensures
            match title {
                Some(t) => if trimmed(t@).len() == 0 {
                    fails_saying(r, ErrorKind::ValidationError, "标题不能为空"@)
                } else {
                    r matches Ok(Some(slug)) && slug@ == slug_of(t@)
                },
                None => r matches Ok(None),
            },
    {
        match title {
            Some(t) => {
                if trim(t.as_str()).as_str().unicode_len() == 0 {
                    Err(ApiError::new(ErrorKind::ValidationError, "标题不能为空"))
                } else {
                    Ok(Some(slugify(t.as_str())))
                }
            },
            None => Ok(None),
        }
    }

    /// Checks that every identifier of a list is among the known ones,
    /// and names the first that is not.
    pub fn check_ids_known(ids: &Vec<u128>, known: &Vec<u128>, what: &str) -> (r: Result<
        (),
        ApiError,
    >)
        ensures
            match first_unknown(ids@, known@) {
                Some(id) => fails_saying(r, ErrorKind::ValidationError, what@ + uuid_text(id)),
                None => r is Ok,
            },
    {
        let mut i: usize = 0;
        assert(ids@.skip(0) =~= ids@);
        while i < ids.len()
            invariant
                i <= ids.len(),
                first_unknown(ids@, known@) == first_unknown(ids@.skip(i as int), known@),
            decreases ids.len() - i,
        {
            let ghost rest = ids@.skip(i as int);
            proof {
                assert(rest[0] == ids@[i as int]);
                assert(rest.drop_first() =~= ids@.skip(i + 1));
            }
            if !id_in(known, ids[i]) {
                let mut message = what.to_owned();
                message.append(uuid_to_string(ids[i]).as_str());
                return Err(ApiError { kind: ErrorKind::ValidationError, message });
            }
            i = i + 1;
        }
        assert(ids@.skip(ids.len() as int).len() == 0);
        Ok(())
    }
}

} // verus!
