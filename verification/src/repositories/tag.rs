//! Tags whose names are alike.

use crate::dtos::tag::SimilarTagGroup;
use crate::models::Tag;
use crate::similarity::{alike, alike_pairs, are_alike_pairs, names_alike, SimilarityRule};
use vstd::prelude::*;

verus! {

/// Whether two tag names are alike: one contains the other, or they
/// share a run of three bytes.
pub fn is_similar(name1: &str, name2: &str) -> (r: bool)
    ensures
        r == names_alike(SimilarityRule::SharedFragment, name1@, name2@),
{
    alike(SimilarityRule::SharedFragment, name1, name2)
}

/// The names of a list of tags.
pub open spec fn tag_names(tags: Seq<Tag>) -> Seq<Seq<char>> {
    tags.map_values(|t: Tag| t.name@)
}

/// Whether a tag is a copy of another.
pub open spec fn same_tag(a: Tag, b: Tag) -> bool {
    a.id == b.id && a.name@ == b.name@ && a.slug@ == b.slug@ && a.created_at == b.created_at
        && a.updated_at == b.updated_at
}

/// Whether a group holds the two tags at a pair of places.
pub open spec fn is_group_of(group: SimilarTagGroup, tags: Seq<Tag>, pair: (usize, usize)) -> bool {
    &&& group.tags@.len() == 2
    &&& same_tag(group.tags@[0], tags[pair.0 as int])
    &&& same_tag(group.tags@[1], tags[pair.1 as int])
    &&& group.similarity_reason@ == "名称相似"@
}

fn copy_tag(t: &Tag) -> (r: Tag)
    ensures
        same_tag(r, *t),
{
    Tag {
        id: t.id,
        name: t.name.clone(),
        slug: t.slug.clone(),
        created_at: t.created_at,
        updated_at: t.updated_at,
    }
}

/// The groups of two tags each whose names are alike: one group for each
/// such pair, in the order of the list.
pub fn find_similar_tags(tags: &Vec<Tag>) -> (groups: Vec<SimilarTagGroup>)
    ensures
        exists|pairs: Seq<(usize, usize)>| #[trigger]
            are_alike_pairs(SimilarityRule::SharedFragment, tag_names(tags@), pairs) && groups@.len()
                == pairs.len() && forall|k: int|
                0 <= k < pairs.len() ==> is_group_of(#[trigger] groups@[k], tags@, pairs[k]),
{
    let mut names: Vec<String> = Vec::new();
    let mut i: usize = 0;
    while i < tags.len()
        invariant
            i <= tags.len(),
            names.len() == i,
            forall|j: int| 0 <= j < i ==> names@[j]@ == tags@[j].name@,
        decreases tags.len() - i,
    {
        names.push(tags[i].name.clone());
        i = i + 1;
    }
    assert(crate::text::texts(names@) =~= tag_names(tags@));
    let pairs = alike_pairs(SimilarityRule::SharedFragment, &names);
    let mut groups: Vec<SimilarTagGroup> = Vec::new();
    let mut k: usize = 0;
    while k < pairs.len()
        invariant
            k <= pairs.len(),
            groups.len() == k,
            are_alike_pairs(SimilarityRule::SharedFragment, tag_names(tags@), pairs@),
            forall|m: int| 0 <= m < k ==> is_group_of(#[trigger] groups@[m], tags@, pairs@[m]),
        decreases pairs.len() - k,
    {
        let pair = pairs[k];
        assert(pair == pairs@[k as int]);
        assert(pair.0 < pair.1 && pair.1 < tag_names(tags@).len());
        let mut both: Vec<Tag> = Vec::new();
        both.push(copy_tag(&tags[pair.0]));
        both.push(copy_tag(&tags[pair.1]));
        groups.push(SimilarTagGroup { tags: both, similarity_reason: "名称相似".to_owned() });
        k = k + 1;
    }
    groups
}

} // verus!
