//! The rules of the tag endpoints: names, merges and what is reported of
//! them.

use crate::api_error::{ApiError, ErrorKind};
use crate::dtos::tag::TagPostCount;
use crate::services::auth::fails_saying;
use crate::services::category::HEAVY_USE;
use crate::services::post::id_in;
use crate::services::token::{decimal, push_decimal};
use crate::text::{join, joined, texts, trim, trimmed};
use crate::utils::slug::{slug_of, slugify};
use vstd::prelude::*;

verus! {

/// The summary of a merge of tags.
pub open spec fn merge_summary_text(
    merged: usize,
    source_names: Seq<Seq<char>>,
    target_name: Seq<char>,
    affected: usize,
    duplicates: usize,
) -> Seq<char> {
    "成功将 "@ + decimal(merged as nat) + " 个标签("@ + joined(source_names, ", "@) + ") 合并到 '"@
        + target_name + "'，影响了 "@ + decimal(affected as nat) + " 篇文章，移除了 "@ + decimal(
        duplicates as nat,
    ) + " 个重复关联"@
}

/// The note that posts hold both a source and the target of a merge.
pub open spec fn duplicates_text(duplicates: usize) -> Seq<char> {
    "有 "@ + decimal(duplicates as nat) + " 篇文章同时拥有目标标签和源标签，合并后将移除重复关联"@
}

/// The warning that names the much used tags of a merge.
pub open spec fn heavy_use_text(names: Seq<Seq<char>>) -> Seq<char> {
    "以下标签使用频率较高，请谨慎合并："@ + joined(names, ", "@)
}

/// The names of the much used tags among the first `upto` of a preview.
pub open spec fn heavy_names(counts: Seq<TagPostCount>, upto: int) -> Seq<Seq<char>>
    decreases upto,
{
    if upto <= 0 {
        Seq::empty()
    } else {
        let rest = heavy_names(counts, upto - 1);
        let c = counts[upto - 1];
        if c.post_count > HEAVY_USE {
            rest.push(c.tag.name@)
        } else {
            rest
        }
    }
}

/// What a preview of a merge points out, in this order: that posts hold
/// both a source and the target; that no source was found; which tags
/// are much used.
pub open spec fn preview_issue_texts(
    counts: Seq<TagPostCount>,
    sources_found: usize,
    duplicates: usize,
) -> Seq<Seq<char>> {
    let first: Seq<Seq<char>> = if duplicates > 0 {
        seq![duplicates_text(duplicates)]
    } else {
        Seq::empty()
    };
    let second = if sources_found == 0 {
        first.push("没有找到有效的源标签"@)
    } else {
        first
    };
    let heavy = heavy_names(counts, counts.len() as int);
    if heavy.len() > 0 {
        second.push(heavy_use_text(heavy))
    } else {
        second
    }
}

/// The tag service's rules. Reading and writing tags in a store is the
/// caller's part.
pub struct TagService {}

impl TagService {
    /// The name and the slug of a tag to be made: the name without the
    /// white space at its ends, which must leave something.
    pub fn checked_name(name: &str) -> (r: Result<(String, String), ApiError>)
        ensures
            if trimmed(name@).len() > 0 {
                r matches Ok(p) && p.0@ == trimmed(name@) && p.1@ == slug_of(trimmed(name@))
            } else {
                fails_saying(r, ErrorKind::ValidationError, "标签名称不能为空"@)
            },
    {
        let clean = trim(name);
        if clean.as_str().unicode_len() == 0 {
            Err(ApiError::new(ErrorKind::ValidationError, "标签名称不能为空"))
        } else {
            let slug = slugify(clean.as_str());
            Ok((clean, slug))
        }
    }

    /// The new name and slug of a tag to be renamed; none where no name
    /// is given, which leaves the tag as it is.
    pub fn checked_rename(name: &Option<String>) -> (r: Result<Option<(String, String)>, ApiError>)
        ensures
            match name {
                Some(n) => if trimmed(n@).len() > 0 {
                    r matches Ok(Some(p)) && p.0@ == trimmed(n@) && p.1@ == slug_of(trimmed(n@))
                } else {
                    fails_saying(r, ErrorKind::ValidationError, "标签名不能为空"@)
                },
                None => r matches Ok(None),
            },
    {
        match name {
            Some(n) => {
                let clean = trim(n.as_str());
                if clean.as_str().unicode_len() == 0 {
                    Err(ApiError::new(ErrorKind::ValidationError, "标签名不能为空"))
                } else {
                    let slug = slugify(clean.as_str());
                    Ok(Some((clean, slug)))
                }
            },
            None => Ok(None),
        }
    }

    /// A tag is not merged into itself.
    pub fn check_merge(target_tag_id: u128, source_tag_ids: &Vec<u128>) -> (r: Result<(), ApiError>)
        ensures
            if source_tag_ids@.contains(target_tag_id) {
                fails_saying(r, ErrorKind::ValidationError, "不能将标签合并到自身"@)
            } else {
                r is Ok
            },
    {
        if id_in(source_tag_ids, target_tag_id) {
            Err(ApiError::new(ErrorKind::ValidationError, "不能将标签合并到自身"))
        } else {
            Ok(())
        }
    }

    /// The summary of a merge: how many tags, named, went into which, how
    /// many posts that touched, and how many double links went.
    pub fn merge_summary(
        merged: usize,
        source_names: &Vec<String>,
        target_name: &str,
        affected: usize,
        duplicates: usize,
    ) -> (r: String)
        ensures
            r@ == merge_summary_text(
                merged,
                texts(source_names@),
                target_name@,
                affected,
                duplicates,
            ),
    {
        let names = join(source_names, ", ");
        let mut out = "成功将 ".to_owned();
        push_decimal(&mut out, merged as u64);
        out.append(" 个标签(");
        out.append(names.as_str());
        out.append(") 合并到 '");
        out.append(target_name);
        out.append("'，影响了 ");
        push_decimal(&mut out, affected as u64);
        out.append(" 篇文章，移除了 ");
        push_decimal(&mut out, duplicates as u64);
        out.append(" 个重复关联");
        assert(out@ =~= merge_summary_text(
            merged,
            texts(source_names@),
            target_name@,
            affected,
            duplicates,
        ));
        out
    }

    /// What a preview of a merge points out.
    pub fn preview_issues(counts: &Vec<TagPostCount>, sources_found: usize, duplicates: usize) -> (r:
        Vec<String>)
        ensures
            texts(r@) == preview_issue_texts(counts@, sources_found, duplicates),
    {
        let mut issues: Vec<String> = Vec::new();
        assert(texts(issues@) =~= Seq::<Seq<char>>::empty());
        if duplicates > 0 {
            let mut text = "有 ".to_owned();
            push_decimal(&mut text, duplicates as u64);
            text.append(" 篇文章同时拥有目标标签和源标签，合并后将移除重复关联");
            assert(text@ =~= duplicates_text(duplicates));
            issues.push(text);
            assert(texts(issues@) =~= seq![duplicates_text(duplicates)]);
        }
        if sources_found == 0 {
            let ghost before = texts(issues@);
            issues.push("没有找到有效的源标签".to_owned());
            assert(texts(issues@) =~= before.push("没有找到有效的源标签"@));
        }
        let mut heavy: Vec<String> = Vec::new();
        let mut i: usize = 0;
        assert(texts(heavy@) =~= heavy_names(counts@, 0));
        while i < counts.len()
            invariant
                i <= counts.len(),
                texts(heavy@) == heavy_names(counts@, i as int),
            decreases counts.len() - i,
        {
            let ghost before = texts(heavy@);
            if counts[i].post_count > HEAVY_USE {
                heavy.push(counts[i].tag.name.clone());
                assert(texts(heavy@) =~= before.push(counts@[i as int].tag.name@));
            }
            i = i + 1;
        }
        if heavy.len() > 0 {
            let ghost before = texts(issues@);
            let names = join(&heavy, ", ");
            let mut text = "以下标签使用频率较高，请谨慎合并：".to_owned();
            text.append(names.as_str());
            assert(text@ =~= heavy_use_text(texts(heavy@)));
            issues.push(text);
            assert(texts(issues@) =~= before.push(heavy_use_text(texts(heavy@))));
        }
        issues
    }
}

} // verus!
