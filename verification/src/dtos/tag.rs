//! Shapes of the tag endpoints.

use crate::models::Tag;
use vstd::prelude::*;

verus! {

/// What is submitted to make a tag.
#[derive(Clone, Debug)]
pub struct CreateTagPayload {
    pub name: String,
}

/// What is submitted to rename a tag.
#[derive(Clone, Debug)]
pub struct UpdateTagPayload {
    pub name: Option<String>,
}

/// Which tags to fold into which.
#[derive(Clone, Debug)]
pub struct MergeTagsPayload {
    pub target_tag_id: u128,
    pub source_tag_ids: Vec<u128>,
    pub new_target_name: Option<String>,
}

/// What a merge of tags did.
#[derive(Clone, Debug)]
pub struct MergeTagsResponse {
    pub target_tag: Tag,
    pub merged_tag_count: usize,
    pub affected_post_count: usize,
    pub duplicate_relations_removed: usize,
    pub operation_summary: String,
}

/// Which tags to delete together.
#[derive(Clone, Debug)]
pub struct BatchDeleteTagsPayload {
    pub tag_ids: Vec<u128>,
    pub handle_orphaned_posts: Option<OrphanedPostsHandling>,
}

/// What a deletion of several tags did.
#[derive(Clone, Debug)]
pub struct BatchDeleteTagsResponse {
    pub deleted_count: usize,
    pub affected_post_count: usize,
    pub orphaned_post_count: usize,
    pub operation_summary: String,
}

/// What becomes of posts that lose their last tag.
#[derive(Clone, Copy, Debug, PartialEq, Eq, Structural)]
pub enum OrphanedPostsHandling {
    LeaveAsIs,
    AddUncategorizedTag,
    AutoSuggestTags,
}

/// Which merge of tags to preview.
#[derive(Clone, Debug)]
pub struct MergeTagsPreviewPayload {
    pub target_tag_id: u128,
    pub source_tag_ids: Vec<u128>,
}

/// What a merge of tags would do.
#[derive(Clone, Debug)]
pub struct MergeTagsPreviewResponse {
    pub target_tag: Tag,
    pub source_tags: Vec<Tag>,
    pub total_posts_affected: usize,
    pub posts_with_duplicates: usize,
    pub posts_by_tag: Vec<TagPostCount>,
    pub potential_issues: Vec<String>,
}

/// How many posts a tag is on, with the titles of some.
#[derive(Clone, Debug)]
pub struct TagPostCount {
    pub tag: Tag,
    pub post_count: usize,
    pub sample_post_titles: Vec<String>,
}

/// A tag with the number of posts it is on.
#[derive(Clone, Debug)]
pub struct TagUsageStats {
    pub tag: Tag,
    pub post_count: i64,
}

/// Tags whose names are alike, and why they count as alike.
#[derive(Clone, Debug)]
pub struct SimilarTagGroup {
    pub tags: Vec<Tag>,
    pub similarity_reason: String,
}

} // verus!
