//! Categories whose names are alike.

use crate::dtos::category::SimilarCategoryGroup;
use crate::models::Category;
use crate::similarity::{alike, alike_pairs, are_alike_pairs, names_alike, SimilarityRule};
use vstd::prelude::*;

pub use crate::similarity::levenshtein_distance;

verus! {

/// Whether two category names are alike: one contains the other, or
/// their edit distance is less than three tenths of the longer name.
pub fn is_similar(name1: &str, name2: &str) -> (r: bool)
    ensures
        r == names_alike(SimilarityRule::EditDistance, name1@, name2@),
{
    alike(SimilarityRule::EditDistance, name1, name2)
}

/// The names of a list of categories.
pub open spec fn category_names(categories: Seq<Category>) -> Seq<Seq<char>> {
    categories.map_values(|c: Category| c.name@)
}

/// Whether a category is a copy of another.
pub open spec fn same_category(a: Category, b: Category) -> bool {
    a.id == b.id && a.name@ == b.name@ && a.slug@ == b.slug@ && a.created_at == b.created_at
        && a.updated_at == b.updated_at
}

/// Whether a group holds the two categories at a pair of places.
pub open spec fn is_group_of(
    group: SimilarCategoryGroup,
    categories: Seq<Category>,
    pair: (usize, usize),
) -> bool {
    &&& group.categories@.len() == 2
    &&& same_category(group.categories@[0], categories[pair.0 as int])
    &&& same_category(group.categories@[1], categories[pair.1 as int])
    &&& group.similarity_reason@ == "名称相似"@
}

fn copy_category(c: &Category) -> (r: Category)
    ensures
        same_category(r, *c),
{
    Category {
        id: c.id,
        name: c.name.clone(),
        slug: c.slug.clone(),
        created_at: c.created_at,
        updated_at: c.updated_at,
    }
}

/// The groups of two categories each whose names are alike: one group
/// for each such pair, in the order of the list.
pub fn find_similar_categories(categories: &Vec<Category>) -> (groups: Vec<SimilarCategoryGroup>)
    ensures
        exists|pairs: Seq<(usize, usize)>| #[trigger]
            are_alike_pairs(SimilarityRule::EditDistance, category_names(categories@), pairs)
                && groups@.len() == pairs.len() && forall|k: int|
                0 <= k < pairs.len() ==> is_group_of(#[trigger] groups@[k], categories@, pairs[k]),
{
    let mut names: Vec<String> = Vec::new();
    let mut i: usize = 0;
    while i < categories.len()
        invariant
            i <= categories.len(),
            names.len() == i,
            forall|j: int| 0 <= j < i ==> names@[j]@ == categories@[j].name@,
        decreases categories.len() - i,
    {
        names.push(categories[i].name.clone());
        i = i + 1;
    }
    assert(crate::text::texts(names@) =~= category_names(categories@));
    let pairs = alike_pairs(SimilarityRule::EditDistance, &names);
    let mut groups: Vec<SimilarCategoryGroup> = Vec::new();
    let mut k: usize = 0;
    while k < pairs.len()
        invariant
            k <= pairs.len(),
            groups.len() == k,
            are_alike_pairs(SimilarityRule::EditDistance, category_names(categories@), pairs@),
            forall|m: int| 0 <= m < k ==> is_group_of(#[trigger] groups@[m], categories@, pairs@[m]),
        decreases pairs.len() - k,
    {
        let pair = pairs[k];
        assert(pair == pairs@[k as int]);
        assert(pair.0 < pair.1 && pair.1 < category_names(categories@).len());
        let mut both: Vec<Category> = Vec::new();
        both.push(copy_category(&categories[pair.0]));
        both.push(copy_category(&categories[pair.1]));
        groups.push(SimilarCategoryGroup { categories: both, similarity_reason: "名称相似".to_owned() });
        k = k + 1;
    }
    groups
}

} // verus!
