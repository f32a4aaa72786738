use blog_backend::api_error::ErrorKind;
use blog_backend::auth::AuthUser;
use blog_backend::dtos::admin::UserStats;
use blog_backend::dtos::category::CategoryPostCount;
use blog_backend::dtos::tag::TagPostCount;
use blog_backend::models::{Category, Tag};
use blog_backend::services::jwt::Claims;
use blog_backend::services::{AdminService, CategoryService, PostService, TagService};
use blog_backend::text::join;

const ME: u128 = 0x550e8400e29b41d4a716446655440000;

fn user_with(permissions: &[&str]) -> AuthUser {
    AuthUser(Claims {
        sub: "550e8400-e29b-41d4-a716-446655440000".to_string(),
        username: "alice".to_string(),
        exp: 0,
        jti: String::new(),
        roles: Vec::new(),
        permissions: permissions.iter().map(|p| p.to_string()).collect(),
    })
}

fn category_count(id: u128, name: &str, post_count: usize) -> CategoryPostCount {
    CategoryPostCount {
        category: Category {
            id,
            name: name.to_string(),
            slug: name.to_string(),
            created_at: 0,
            updated_at: 0,
        },
        post_count,
        sample_post_titles: Vec::new(),
    }
}

fn tag_count(id: u128, name: &str, post_count: usize) -> TagPostCount {
    TagPostCount {
        tag: Tag { id, name: name.to_string(), slug: name.to_string(), created_at: 0, updated_at: 0 },
        post_count,
        sample_post_titles: Vec::new(),
    }
}

#[test]
fn texts_are_joined_with_a_separator() {
    assert_eq!(join(&Vec::new(), ", "), "");
    assert_eq!(join(&vec!["a".to_string()], ", "), "a");
    assert_eq!(join(&vec!["a".to_string(), "b".to_string(), "c".to_string()], ", "), "a, b, c");
    assert_eq!(join(&vec!["".to_string(), "".to_string()], "-"), "-");
}

#[test]
fn category_names_are_trimmed_and_slugged() {
    let (name, slug) = CategoryService::checked_name(&Some("  Rust Lang  ".to_string())).unwrap();
    assert_eq!(name, "Rust Lang");
    assert_eq!(slug, "rust-lang");
    let err = CategoryService::checked_name(&Some("   ".to_string())).unwrap_err();
    assert_eq!(err.kind, ErrorKind::ValidationError);
    assert_eq!(err.message, "分类名称不能为空");
    assert_eq!(CategoryService::checked_name(&None).unwrap_err().message, "分类名称不能为空");
    assert_eq!(CategoryService::checked_rename(&None).unwrap(), None);
    assert_eq!(
        CategoryService::checked_rename(&Some("My Test String!!!1!1".to_string())).unwrap(),
        Some(("My Test String!!!1!1".to_string(), "my-test-string-1-1".to_string()))
    );
    assert!(CategoryService::checked_rename(&Some("\n\t".to_string())).is_err());
}

#[test]
fn tag_names_are_trimmed_and_slugged() {
    let (name, slug) = TagService::checked_name(" Web Dev ").unwrap();
    assert_eq!(name, "Web Dev");
    assert_eq!(slug, "web-dev");
    assert_eq!(TagService::checked_name("").unwrap_err().message, "标签名称不能为空");
    assert_eq!(
        TagService::checked_rename(&Some(" ".to_string())).unwrap_err().message,
        "标签名不能为空"
    );
    assert_eq!(TagService::checked_rename(&None).unwrap(), None);
    assert_eq!(
        TagService::checked_rename(&Some("Æúű--cool?".to_string())).unwrap().unwrap().1,
        "aeuu-cool"
    );
}

#[test]
fn nothing_is_merged_into_itself() {
    assert!(CategoryService::check_merge(1, &vec![2, 3]).is_ok());
    assert!(CategoryService::check_merge(1, &Vec::new()).is_ok());
    let err = CategoryService::check_merge(1, &vec![2, 1]).unwrap_err();
    assert_eq!(err.kind, ErrorKind::ValidationError);
    assert_eq!(err.message, "不能将分类合并到自身");
    assert!(TagService::check_merge(1, &vec![2]).is_ok());
    assert_eq!(TagService::check_merge(2, &vec![2]).unwrap_err().message, "不能将标签合并到自身");
}

#[test]
fn category_merges_are_summed_up() {
    assert_eq!(
        CategoryService::merge_summary(2, "Rust", 14, 3, None),
        "成功将 2 个分类合并到 'Rust' 分类，影响 14 篇文章，移除 3 个重复关联"
    );
    assert_eq!(
        CategoryService::merge_summary(1, "Rust", 0, 0, Some("Rust Lang")),
        "成功将 1 个分类合并到 'Rust' 分类，影响 0 篇文章，移除 0 个重复关联，并将目标分类重命名为 'Rust Lang'"
    );
    assert_eq!(
        CategoryService::batch_delete_summary(3, 40, 5, true),
        "成功删除 3 个分类，影响了 40 篇文章，其中 5 篇孤儿文章已自动归类到'未分类'"
    );
    assert_eq!(
        CategoryService::batch_delete_summary(3, 40, 0, true),
        "成功删除 3 个分类，影响了 40 篇文章"
    );
    assert_eq!(
        CategoryService::batch_delete_summary(3, 40, 5, false),
        "成功删除 3 个分类，影响了 40 篇文章"
    );
}

#[test]
fn category_merge_previews_point_out_what_matters() {
    let counts = vec![
        category_count(1, "Target", 200),
        category_count(2, "Busy", 51),
        category_count(3, "Quiet", 50),
        category_count(4, "Loud", 1000),
    ];
    assert_eq!(
        CategoryService::preview_issues(&counts, &vec![2, 3, 4], 7),
        vec![
            "⚠️ 分类 'Busy' 有 51 篇文章，删除后这些文章将转移到目标分类".to_string(),
            "⚠️ 分类 'Loud' 有 1000 篇文章，删除后这些文章将转移到目标分类".to_string(),
            "ℹ️ 有 7 篇文章同时使用了源分类和目标分类，将自动去重".to_string(),
        ]
    );
    assert_eq!(
        CategoryService::preview_issues(&counts, &vec![3], 0),
        vec!["✅ 未发现潜在问题，可以安全执行合并操作".to_string()]
    );
    assert_eq!(
        CategoryService::preview_issues(&Vec::new(), &Vec::new(), 1),
        vec!["ℹ️ 有 1 篇文章同时使用了源分类和目标分类，将自动去重".to_string()]
    );
}

#[test]
fn tag_merges_are_summed_up_and_previewed() {
    assert_eq!(
        TagService::merge_summary(2, &vec!["web".to_string(), "www".to_string()], "internet", 9, 1),
        "成功将 2 个标签(web, www) 合并到 'internet'，影响了 9 篇文章，移除了 1 个重复关联"
    );
    let counts = vec![tag_count(1, "internet", 60), tag_count(2, "web", 10), tag_count(3, "www", 51)];
    assert_eq!(
        TagService::preview_issues(&counts, 2, 4),
        vec![
            "有 4 篇文章同时拥有目标标签和源标签，合并后将移除重复关联".to_string(),
            "以下标签使用频率较高，请谨慎合并：internet, www".to_string(),
        ]
    );
    assert_eq!(
        TagService::preview_issues(&Vec::new(), 0, 0),
        vec!["没有找到有效的源标签".to_string()]
    );
    assert!(TagService::preview_issues(&vec![tag_count(2, "web", 50)], 1, 0).is_empty());
}

#[test]
fn posts_need_a_title_and_content() {
    assert_eq!(PostService::check_new_post("Hello, World!", "text").unwrap(), "hello-world");
    let err = PostService::check_new_post("  ", "text").unwrap_err();
    assert_eq!(err.kind, ErrorKind::ValidationError);
    assert_eq!(err.status_code(), 400);
    assert_eq!(err.message, "标题不能为空");
    assert_eq!(PostService::check_new_post("Title", "\n").unwrap_err().message, "内容不能为空");
    assert_eq!(PostService::check_new_post("", "").unwrap_err().message, "标题不能为空");
    assert_eq!(PostService::check_post_update(&None).unwrap(), None);
    assert_eq!(
        PostService::check_post_update(&Some("You & Me".to_string())).unwrap(),
        Some("you-me".to_string())
    );
    assert_eq!(
        PostService::check_post_update(&Some(" ".to_string())).unwrap_err().message,
        "标题不能为空"
    );
}

#[test]
fn posts_are_changed_by_their_authors_or_by_editors() {
    let editor = user_with(&["post:edit_any", "post:delete_any"]);
    assert!(PostService::authorize_edit(&editor, Some(1)).is_ok());
    assert!(PostService::authorize_delete(&editor, None).is_ok());

    let author = user_with(&["post:edit_own", "post:delete_own"]);
    assert!(PostService::authorize_edit(&author, Some(ME)).is_ok());
    assert!(PostService::authorize_delete(&author, Some(ME)).is_ok());
    let err = PostService::authorize_edit(&author, Some(1)).unwrap_err();
    assert_eq!(err.kind, ErrorKind::Forbidden);
    assert_eq!(err.message, "您只能编辑自己的帖子");
    let err = PostService::authorize_delete(&author, None).unwrap_err();
    assert_eq!(err.message, "您只能删除自己的帖子");
    assert_eq!(err.status_code(), 403);

    let reader = user_with(&["post:read_any"]);
    let err = PostService::authorize_edit(&reader, Some(ME)).unwrap_err();
    assert_eq!(err.kind, ErrorKind::Forbidden);
    assert_eq!(err.message, "权限不足");
    assert_eq!(PostService::authorize_delete(&reader, Some(ME)).unwrap_err().message, "权限不足");
}

#[test]
fn unknown_identifiers_are_named() {
    assert!(PostService::check_ids_known(&vec![1, 2], &vec![2, 1, 3], "无效的分类 ID：").is_ok());
    assert!(PostService::check_ids_known(&Vec::new(), &Vec::new(), "无效的分类 ID：").is_ok());
    let err = PostService::check_ids_known(&vec![1, ME, 9], &vec![1], "无效的标签 ID：").unwrap_err();
    assert_eq!(err.kind, ErrorKind::ValidationError);
    assert_eq!(err.message, "无效的标签 ID：550e8400-e29b-41d4-a716-446655440000");
}

#[test]
fn dashboard_counts_are_put_together() {
    let users = UserStats { total: 10, verified: 7, unverified: 3, by_role: Vec::new() };
    let d = AdminService::get_dashboard_stats(20, 15, 5, 4, 9, &users);
    assert_eq!(d.total_posts, 20);
    assert_eq!(d.published_posts, 15);
    assert_eq!(d.draft_posts, 5);
    assert_eq!(d.total_categories, 4);
    assert_eq!(d.total_tags, 9);
    assert_eq!(d.total_users, 10);
    assert_eq!(d.verified_users, 7);
    assert_eq!(d.unverified_users, 3);
}
