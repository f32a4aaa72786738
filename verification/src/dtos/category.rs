//! Shapes of the category endpoints.

use crate::models::Category;
use vstd::prelude::*;

verus! {

/// What is submitted to make a category.
#[derive(Clone, Debug)]
pub struct CreateCategoryPayload {
    pub name: Option<String>,
}

/// What is submitted to rename a category.
#[derive(Clone, Debug)]
pub struct UpdateCategoryPayload {
    pub name: Option<String>,
}

/// Which categories to fold into which.
#[derive(Clone, Debug)]
pub struct MergeCategoriesPayload {
    pub target_category_id: u128,
    pub source_category_ids: Vec<u128>,
    pub new_target_name: Option<String>,
}

/// What a merge of categories did.
#[derive(Clone, Debug)]
pub struct MergeCategoriesResponse {
    pub target_category: Category,
    pub merged_category_count: usize,
    pub affected_post_count: usize,
    pub duplicate_relations_removed: usize,
    pub operation_summary: String,
}

/// Which categories to delete together.
#[derive(Clone, Debug)]
pub struct BatchDeleteCategoriesPayload {
    pub category_ids: Vec<u128>,
    pub handle_orphaned_posts: Option<OrphanedPostsHandling>,
}

/// What a deletion of several categories did.
#[derive(Clone, Debug)]
pub struct BatchDeleteCategoriesResponse {
    pub deleted_count: usize,
    pub affected_post_count: usize,
    pub orphaned_post_count: usize,
    pub operation_summary: String,
}

/// What becomes of posts that lose their last category.
#[derive(Clone, Copy, Debug, PartialEq, Eq, Structural)]
pub enum OrphanedPostsHandling {
    LeaveAsIs,
    AddUncategorizedCategory,
    AutoSuggestCategories,
}

/// Which merge of categories to preview.
#[derive(Clone, Debug)]
pub struct MergeCategoriesPreviewPayload {
    pub target_category_id: u128,
    pub source_category_ids: Vec<u128>,
}

/// What a merge of categories would do.
#[derive(Clone, Debug)]
pub struct MergeCategoriesPreviewResponse {
    pub target_category: Category,
    pub source_categories: Vec<Category>,
    pub total_posts_affected: usize,
    pub posts_with_duplicates: usize,
    pub posts_by_category: Vec<CategoryPostCount>,
    pub potential_issues: Vec<String>,
}

/// How many posts a category is on, with the titles of some.
#[derive(Clone, Debug)]
pub struct CategoryPostCount {
    pub category: Category,
    pub post_count: usize,
    pub sample_post_titles: Vec<String>,
}

/// A category with the number of posts it is on.
#[derive(Clone, Debug)]
pub struct CategoryUsageStats {
    pub category: Category,
    pub post_count: i64,
}

/// Categories whose names are alike, and why they count as alike.
#[derive(Clone, Debug)]
pub struct SimilarCategoryGroup {
    pub categories: Vec<Category>,
    pub similarity_reason: String,
}

} // verus!
