use blog_backend::api_error::ErrorKind;
use blog_backend::auth::{AuthUser, UserContext};
use blog_backend::dtos::post::{CategoryDto, TagDto, UserBasicDto};
use blog_backend::models::{Category, Post, Tag};
use blog_backend::services::jwt::Claims;
use blog_backend::services::post::{AccessType, DraftAccess};
use blog_backend::services::PostService;

const AUTHOR: u128 = 0x11111111_1111_1111_1111_111111111111;
const FRIEND: u128 = 0x22222222_2222_2222_2222_222222222222;
const EDITOR: u128 = 0x33333333_3333_3333_3333_333333333333;

fn caller(id: u128, permissions: &[&str]) -> UserContext {
    UserContext::Authenticated(AuthUser(Claims {
        sub: uuid::Uuid::from_u128(id).to_string(),
        username: "someone".to_string(),
        exp: 0,
        jti: String::new(),
        roles: Vec::new(),
        permissions: permissions.iter().map(|p| p.to_string()).collect(),
    }))
}

fn draft(shared_with: Option<Vec<u128>>, public: Option<bool>) -> Post {
    Post {
        id: 9,
        slug: "a-post".to_string(),
        title: "A post".to_string(),
        content: "Some *text*".to_string(),
        author_id: Some(AUTHOR),
        created_at: 100,
        updated_at: 200,
        published_at: None,
        draft_shared_with: shared_with,
        is_draft_public: public,
    }
}

fn published() -> Post {
    let mut post = draft(Some(vec![FRIEND]), Some(true));
    post.published_at = Some(300);
    post
}

#[test]
fn published_posts_are_open_to_everybody() {
    let post = published();
    assert_eq!(PostService::draft_access_of(&post, &UserContext::Guest), DraftAccess::Published);
    assert_eq!(PostService::draft_access_of(&post, &caller(EDITOR, &[])), DraftAccess::Published);
    assert!(PostService::can_access_draft(&post, &UserContext::Guest));
}

#[test]
fn draft_rules_apply_in_order() {
    let post = draft(Some(vec![FRIEND, AUTHOR]), Some(true));
    assert_eq!(PostService::draft_access_of(&post, &caller(AUTHOR, &[])), DraftAccess::Author);
    assert_eq!(
        PostService::draft_access_of(&post, &caller(FRIEND, &["post:draft:access_shared"])),
        DraftAccess::Shared
    );
    assert_eq!(
        PostService::draft_access_of(&post, &caller(EDITOR, &["post:draft:access_shared"])),
        DraftAccess::PublicDraft
    );
    assert_eq!(PostService::draft_access_of(&post, &caller(EDITOR, &["post:read_any"])), DraftAccess::Denied);
    assert_eq!(PostService::draft_access_of(&post, &UserContext::Guest), DraftAccess::Denied);
    assert!(!PostService::can_access_draft(&post, &UserContext::Guest));
    assert!(PostService::can_access_draft(&post, &caller(FRIEND, &[])));
}

#[test]
fn private_draft_is_for_the_author_only() {
    let post = draft(None, None);
    assert!(PostService::can_access_draft(&post, &caller(AUTHOR, &[])));
    assert!(!PostService::can_access_draft(&post, &caller(FRIEND, &["post:draft:access_shared"])));
    let not_public = draft(Some(Vec::new()), Some(false));
    assert!(!PostService::can_access_draft(&not_public, &caller(EDITOR, &["post:draft:access_shared"])));
}

#[test]
fn accesses_by_others_are_audited() {
    let post = draft(Some(vec![FRIEND]), Some(true));
    let by_author = PostService::authorize_draft_access(&post, &caller(AUTHOR, &[]), AccessType::Edit, None, 1, 500).unwrap();
    assert!(by_author.is_none());

    let entry = PostService::authorize_draft_access(
        &post,
        &caller(FRIEND, &[]),
        AccessType::View,
        Some("proofreading".to_string()),
        77,
        500,
    )
    .unwrap()
    .unwrap();
    assert_eq!(entry.id, 77);
    assert_eq!(entry.post_id, 9);
    assert_eq!(entry.accessed_by, FRIEND);
    assert_eq!(entry.access_type, "view");
    assert_eq!(entry.access_reason, Some("proofreading".to_string()));
    assert_eq!(entry.created_at, 500);

    let entry = PostService::authorize_draft_access(
        &post,
        &caller(EDITOR, &["post:draft:access_shared"]),
        AccessType::Delete,
        None,
        78,
        501,
    )
    .unwrap()
    .unwrap();
    assert_eq!(entry.accessed_by, EDITOR);
    assert_eq!(entry.access_type, "delete");
    assert_eq!(entry.access_reason, None);

    let err = PostService::authorize_draft_access(&post, &caller(EDITOR, &[]), AccessType::View, None, 79, 502).unwrap_err();
    assert_eq!(err.kind, ErrorKind::Forbidden);
    assert_eq!(err.status_code(), 403);
    let err = PostService::authorize_draft_access(&post, &UserContext::Guest, AccessType::View, None, 79, 502).unwrap_err();
    assert_eq!(err.kind, ErrorKind::Unauthenticated);
    assert_eq!(err.status_code(), 401);

    let open = PostService::authorize_draft_access(&published(), &UserContext::Guest, AccessType::View, None, 80, 503).unwrap();
    assert!(open.is_none());
    assert_eq!(AccessType::Edit.as_str(), "edit");
}

#[test]
fn only_the_author_shares_a_draft() {
    assert!(PostService::check_share_draft(&draft(None, None), AUTHOR).is_ok());
    let err = PostService::check_share_draft(&draft(None, None), FRIEND).unwrap_err();
    assert_eq!(err.kind, ErrorKind::Forbidden);
    assert_eq!(err.message, "您只能分享自己的草稿");
    let err = PostService::check_share_draft(&published(), AUTHOR).unwrap_err();
    assert_eq!(err.message, "只能分享草稿文章");
}

#[test]
fn detail_of_own_draft() {
    let post = draft(Some(vec![FRIEND]), Some(false));
    let d = PostService::create_post_detail_dto(&post, Vec::new(), Vec::new(), "<p>x</p>".to_string(), Some(AUTHOR), None, false, true);
    assert_eq!(d.id, 9);
    assert_eq!(d.slug, "a-post");
    assert_eq!(d.content_markdown, "Some *text*");
    assert_eq!(d.content_html, "<p>x</p>");
    assert!(d.categories.is_none());
    assert!(d.tags.is_none());
    assert_eq!(d.draft_shared_with, Some(vec![FRIEND]));
    assert_eq!(d.is_draft_public, Some(false));
    assert_eq!(d.is_accessing_others_draft, Some(false));
    assert!(d.can_view_detail && d.can_edit && d.can_delete && d.can_publish);
}

#[test]
fn detail_of_a_shared_draft_is_read_only() {
    let post = draft(Some(vec![FRIEND]), None);
    let d = PostService::create_post_detail_dto(&post, Vec::new(), Vec::new(), String::new(), Some(FRIEND), None, true, true);
    assert_eq!(d.is_accessing_others_draft, Some(true));
    assert!(d.can_view_detail);
    assert!(!d.can_edit && !d.can_delete && !d.can_publish);
}

#[test]
fn reading_any_post_does_not_open_a_private_draft() {
    let post = draft(None, None);
    let d = PostService::create_post_detail_dto(&post, Vec::new(), Vec::new(), String::new(), Some(EDITOR), None, true, true);
    assert!(!d.can_view_detail);
    assert!(!d.can_edit);
    let unknown = PostService::create_post_detail_dto(&post, Vec::new(), Vec::new(), String::new(), None, None, false, true);
    assert_eq!(unknown.is_accessing_others_draft, None);
    assert!(!unknown.can_view_detail);
}

#[test]
fn detail_of_a_published_post() {
    let post = published();
    let categories = vec![CategoryDto::from(Category { id: 1, name: "Rust".to_string(), slug: "rust".to_string(), created_at: 0, updated_at: 0 })];
    let tags = vec![TagDto::from(Tag { id: 2, name: "web".to_string(), slug: "web".to_string(), created_at: 0, updated_at: 0 })];
    let author = UserBasicDto { id: AUTHOR, username: "alice".to_string(), email: "alice@x.com".to_string() };
    let d = PostService::create_post_detail_dto(&post, categories, tags, String::new(), Some(EDITOR), Some(author), true, true);
    assert_eq!(d.published_at, Some(300));
    assert_eq!(d.draft_shared_with, None);
    assert_eq!(d.is_draft_public, None);
    assert_eq!(d.is_accessing_others_draft, None);
    assert_eq!(d.categories.as_ref().unwrap()[0].name, "Rust");
    assert_eq!(d.tags.as_ref().unwrap()[0].slug, "web");
    assert_eq!(d.author.as_ref().unwrap().username, "alice");
    assert!(d.can_view_detail && d.can_edit && d.can_delete && d.can_publish);
    let plain = PostService::create_post_detail_dto(&post, Vec::new(), Vec::new(), String::new(), Some(EDITOR), None, false, true);
    assert!(plain.can_view_detail);
    assert!(!plain.can_edit);
}

#[test]
fn rendered_detail_holds_the_html_of_the_content() {
    let post = draft(None, None);
    let d = PostService::render_post_detail(&post, Vec::new(), Vec::new(), Some(AUTHOR), None, false, true);
    assert_eq!(d.content_html, "<p>Some <em>text</em></p>\n");
    assert_ne!(d.content_html, d.content_markdown);
    assert!(d.can_edit);
}

#[test]
fn updates_replace_what_they_give_and_keep_the_rest() {
    let current = draft(None, None);
    let nothing = blog_backend::dtos::post::UpdatePostPayload {
        title: None,
        content: None,
        slug: None,
        category_ids: None,
        tag_ids: None,
        published_at: None,
        unpublish: false,
        draft_shared_with: None,
        is_draft_public: None,
    };
    let same = PostService::apply_update(&current, &nothing, None, 900);
    assert_eq!(same.id, 9);
    assert_eq!(same.title, "A post");
    assert_eq!(same.content, "Some *text*");
    assert_eq!(same.slug, "a-post");
    assert_eq!(same.author_id, Some(AUTHOR));
    assert_eq!(same.created_at, 100);
    assert_eq!(same.updated_at, 900);
    assert_eq!(same.published_at, None);
    assert_eq!(same.draft_shared_with, Some(Vec::new()));
    assert_eq!(same.is_draft_public, Some(false));

    let mut change = nothing.clone();
    change.title = Some("New title".to_string());
    change.slug = Some("named-slug".to_string());
    change.published_at = Some(777);
    change.draft_shared_with = Some(vec![FRIEND]);
    change.is_draft_public = Some(true);
    let changed = PostService::apply_update(&current, &change, Some("new-title"), 901);
    assert_eq!(changed.title, "New title");
    assert_eq!(changed.slug, "new-title");
    assert_eq!(changed.published_at, Some(777));
    assert_eq!(changed.draft_shared_with, Some(vec![FRIEND]));
    assert_eq!(changed.is_draft_public, Some(true));
    let named = PostService::apply_update(&current, &change, None, 901);
    assert_eq!(named.slug, "named-slug");

    let mut unpublish = nothing.clone();
    unpublish.unpublish = true;
    unpublish.published_at = Some(5);
    let was_published = published();
    let withdrawn = PostService::apply_update(&was_published, &unpublish, None, 902);
    assert_eq!(withdrawn.published_at, None);
    assert_eq!(withdrawn.draft_shared_with, Some(vec![FRIEND]));
    assert_eq!(withdrawn.is_draft_public, Some(true));
    let kept = PostService::apply_update(&was_published, &nothing, None, 902);
    assert_eq!(kept.published_at, Some(300));
}

#[test]
fn lists_show_what_a_user_may_see() {
    let private = draft(None, None);
    assert!(PostService::listed_for(&private, AUTHOR, false, true));
    assert!(!PostService::listed_for(&private, FRIEND, false, true));
    assert!(PostService::listed_for(&private, FRIEND, true, true));
    let shared = draft(Some(vec![FRIEND]), None);
    assert!(PostService::listed_for(&shared, FRIEND, false, true));
    assert!(!PostService::listed_for(&shared, EDITOR, false, true));
    let public = draft(None, Some(true));
    assert!(PostService::listed_for(&public, EDITOR, false, true));
    assert!(!PostService::listed_for(&public, EDITOR, false, false));
    assert!(PostService::listed_for(&published(), EDITOR, false, true));
}

#[test]
fn public_drafts_open_only_to_those_who_may_see_them() {
    let post = draft(None, Some(true));
    let with = PostService::create_post_detail_dto(&post, Vec::new(), Vec::new(), String::new(), Some(EDITOR), None, false, true);
    assert!(with.can_view_detail);
    assert!(!with.can_edit);
    let without = PostService::create_post_detail_dto(&post, Vec::new(), Vec::new(), String::new(), Some(EDITOR), None, false, false);
    assert!(!without.can_view_detail);
    let shared = draft(Some(vec![EDITOR]), Some(true));
    let by_sharing = PostService::create_post_detail_dto(&shared, Vec::new(), Vec::new(), String::new(), Some(EDITOR), None, false, false);
    assert!(by_sharing.can_view_detail);
}
