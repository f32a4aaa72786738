//! Shapes of the post endpoints.

use crate::models::{Category, Tag};
use vstd::prelude::*;

verus! {

/// What an author submits to make a post.
#[derive(Clone, Debug)]
pub struct CreatePostPayload {
    pub title: String,
    pub content: String,
    pub category_ids: Option<Vec<u128>>,
    pub tag_ids: Option<Vec<u128>>,
    pub draft_shared_with: Option<Vec<u128>>,
    pub is_draft_public: Option<bool>,
}

/// What is submitted to change a post.
#[derive(Clone, Debug)]
pub struct UpdatePostPayload {
    pub title: Option<String>,
    pub content: Option<String>,
    pub slug: Option<String>,
    pub category_ids: Option<Vec<u128>>,
    pub tag_ids: Option<Vec<u128>>,
    pub published_at: Option<i64>,
    /// Asks for the post to become a draft again.
    pub unpublish: bool,
    pub draft_shared_with: Option<Vec<u128>>,
    pub is_draft_public: Option<bool>,
}

/// With whom a draft is to be shared.
#[derive(Clone, Debug)]
pub struct ShareDraftPayload {
    pub shared_with: Vec<u128>,
    pub is_public: bool,
    pub message: Option<String>,
}

/// An entry of the audit trail, with the names that go with it.
#[derive(Clone, Debug)]
pub struct DraftAccessLogDto {
    pub id: u128,
    pub post_id: u128,
    pub post_title: String,
    pub accessed_by: u128,
    pub accessed_by_username: String,
    pub access_type: String,
    pub access_reason: Option<String>,
    pub created_at: i64,
}

/// The little of a user that is shown with a post.
#[derive(Clone, Debug)]
pub struct UserBasicDto {
    pub id: u128,
    pub username: String,
    pub email: String,
}

/// A post as an endpoint shows it, with what the caller may do to it.
#[derive(Clone, Debug)]
pub struct PostDetailDto {
    pub id: u128,
    pub slug: String,
    pub title: String,
    pub content_markdown: String,
    pub content_html: String,
    pub author_id: Option<u128>,
    pub author: Option<UserBasicDto>,
    pub created_at: i64,
    pub updated_at: i64,
    pub published_at: Option<i64>,
    pub categories: Option<Vec<CategoryDto>>,
    pub tags: Option<Vec<TagDto>>,
    pub draft_shared_with: Option<Vec<u128>>,
    pub is_draft_public: Option<bool>,
    pub is_accessing_others_draft: Option<bool>,
    pub can_edit: bool,
    pub can_delete: bool,
    pub can_publish: bool,
    pub can_view_detail: bool,
}

/// A category as a post shows it.
#[derive(Clone, Debug)]
pub struct CategoryDto {
    pub id: u128,
    pub name: String,
    pub slug: String,
}

impl CategoryDto {
    /// The part of a category that endpoints show.
    pub fn from(category: Category) -> (d: CategoryDto)
        ensures
            d.id == category.id,
            d.name == category.name,
            d.slug == category.slug,
    {
        CategoryDto { id: category.id, name: category.name, slug: category.slug }
    }
}

/// A tag as a post shows it.
#[derive(Clone, Debug)]
pub struct TagDto {
    pub id: u128,
    pub name: String,
    pub slug: String,
}

impl TagDto {
    /// The part of a tag that endpoints show.
    pub fn from(tag: Tag) -> (d: TagDto)
        ensures
            d.id == tag.id,
            d.name == tag.name,
            d.slug == tag.slug,
    {
        TagDto { id: tag.id, name: tag.name, slug: tag.slug }
    }
}

} // verus!
