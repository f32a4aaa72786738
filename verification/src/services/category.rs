//! The rules of the category endpoints: names, merges and what is
//! reported of them.

use crate::api_error::{ApiError, ErrorKind};
use crate::dtos::category::CategoryPostCount;
use crate::services::auth::fails_saying;
use crate::services::post::id_in;
use crate::services::token::{decimal, push_decimal};
use crate::text::{texts, trim, trimmed};
use crate::utils::slug::{slug_of, slugify};
use vstd::prelude::*;

verus! {

/// The number of posts from which a category counts as much used.
pub const HEAVY_USE: usize = 50;

/// The summary of a merge of categories.
pub open spec fn merge_summary_text(
    merged: usize,
    shown_target: Seq<char>,
    affected: usize,
    duplicates: usize,
    new_name: Option<Seq<char>>,
) -> Seq<char> {
    let base = "成功将 "@ + decimal(merged as nat) + " 个分类合并到 '"@ + shown_target + "' 分类，影响 "@
        + decimal(affected as nat) + " 篇文章，移除 "@ + decimal(duplicates as nat) + " 个重复关联"@;
    match new_name {
        Some(name) => base + "，并将目标分类重命名为 '"@ + name + "'"@,
        None => base,
    }
}

/// The warning for a much used category that a merge would delete.
pub open spec fn heavy_source_text(name: Seq<char>, post_count: usize) -> Seq<char> {
    "⚠️ 分类 '"@ + name + "' 有 "@ + decimal(post_count as nat)
        + " 篇文章，删除后这些文章将转移到目标分类"@
}

/// The note that posts hold both a source and the target of a merge.
pub open spec fn duplicates_text(duplicates: usize) -> Seq<char> {
    "ℹ️ 有 "@ + decimal(duplicates as nat) + " 篇文章同时使用了源分类和目标分类，将自动去重"@
}

/// The warnings for the much used sources among the first `upto`
/// categories of a preview.
pub open spec fn heavy_source_warnings(
    counts: Seq<CategoryPostCount>,
    source_ids: Seq<u128>,
    upto: int,
) -> Seq<Seq<char>>
    decreases upto,
{
    if upto <= 0 {
        Seq::empty()
    } else {
        let rest = heavy_source_warnings(counts, source_ids, upto - 1);
        let c = counts[upto - 1];
        if c.post_count > HEAVY_USE && source_ids.contains(c.category.id) {
            rest.push(heavy_source_text(c.category.name@, c.post_count))
        } else {
            rest
        }
    }
}

/// What a preview of a merge points out: a warning for each much used
/// source, a note where posts hold both a source and the target, and,
/// where there is nothing of either, that the merge is safe.
pub open spec fn preview_issue_texts(
    counts: Seq<CategoryPostCount>,
    source_ids: Seq<u128>,
    duplicates: usize,
) -> Seq<Seq<char>> {
    let warnings = heavy_source_warnings(counts, source_ids, counts.len() as int);
    let noted = if duplicates > 0 {
        warnings.push(duplicates_text(duplicates))
    } else {
        warnings
    };
    if noted.len() == 0 {
        seq!["✅ 未发现潜在问题，可以安全执行合并操作"@]
    } else {
        noted
    }
}

/// The summary of a deletion of several categories.
pub open spec fn batch_delete_summary_text(
    deleted: usize,
    affected: usize,
    orphaned: usize,
    handle_orphaned: bool,
) -> Seq<char> {
    let base = "成功删除 "@ + decimal(deleted as nat) + " 个分类，影响了 "@ + decimal(affected as nat)
        + " 篇文章"@;
    if handle_orphaned && orphaned > 0 {
        base + "，其中 "@ + decimal(orphaned as nat) + " 篇孤儿文章已自动归类到'未分类'"@
    } else {
        base
    }
}

/// The category service's rules. Reading and writing categories in a
/// store is the caller's part.
pub struct CategoryService {}

impl CategoryService {
    /// The name and the slug of a category to be made: the name without
    /// the white space at its ends, which must leave something.
    pub fn checked_name(name: &Option<String>) -> (r: Result<(String, String), ApiError>)
        ensures
            match name {
                Some(n) => if trimmed(n@).len() > 0 {
                    r matches Ok(p) && p.0@ == trimmed(n@) && p.1@ == slug_of(trimmed(n@))
                } else {
                    fails_saying(r, ErrorKind::ValidationError, "分类名称不能为空"@)
                },
                None => fails_saying(r, ErrorKind::ValidationError, "分类名称不能为空"@),
            },
    {
        match name {
            Some(n) => {
                let clean = trim(n.as_str());
                if clean.as_str().unicode_len() == 0 {
                    Err(ApiError::new(ErrorKind::ValidationError, "分类名称不能为空"))
                } else {
                    let slug = slugify(clean.as_str());
                    Ok((clean, slug))
                }
            },
            None => Err(ApiError::new(ErrorKind::ValidationError, "分类名称不能为空")),
        }
    }

    /// The new name and slug of a category to be renamed; none where no
    /// name is given, which leaves the category as it is.
    pub fn checked_rename(name: &Option<String>) -> (r: Result<Option<(String, String)>, ApiError>)
        ensures
            match name {
                Some(n) => if trimmed(n@).len() > 0 {
                    r matches Ok(Some(p)) && p.0@ == trimmed(n@) && p.1@ == slug_of(trimmed(n@))
                } else {
                    fails_saying(r, ErrorKind::ValidationError, "分类名称不能为空"@)
                },
                None => r matches Ok(None),
            },
    {
        match name {
            Some(_) => match Self::checked_name(name) {
                Ok(p) => Ok(Some(p)),
                Err(e) => Err(e),
            },
            None => Ok(None),
        }
    }

    /// A category is not merged into itself.
    pub fn check_merge(target_category_id: u128, source_category_ids: &Vec<u128>) -> (r: Result<
        (),
        ApiError,
    >)
        ensures
            if source_category_ids@.contains(target_category_id) {
                fails_saying(r, ErrorKind::ValidationError, "不能将分类合并到自身"@)
            } else {
                r is Ok
            },
    {
        if id_in(source_category_ids, target_category_id) {
            Err(ApiError::new(ErrorKind::ValidationError, "不能将分类合并到自身"))
        } else {
            Ok(())
        }
    }

    /// The summary of a merge: how many categories went into which, how
    /// many posts that touched, how many double links went, and the new
    /// name where the target got one.
    pub fn merge_summary(
        merged: usize,
        shown_target: &str,
        affected: usize,
        duplicates: usize,
        new_name: Option<&str>,
    ) -> (r: String)
        ensures
            r@ == merge_summary_text(
                merged,
                shown_target@,
                affected,
                duplicates,
                match new_name {
                    Some(n) => Some(n@),
                    None => None,
                },
            ),
    {
        let mut out = "成功将 ".to_owned();
        push_decimal(&mut out, merged as u64);
        out.append(" 个分类合并到 '");
        out.append(shown_target);
        out.append("' 分类，影响 ");
        push_decimal(&mut out, affected as u64);
        out.append(" 篇文章，移除 ");
        push_decimal(&mut out, duplicates as u64);
        out.append(" 个重复关联");
        match new_name {
            Some(name) => {
                out.append("，并将目标分类重命名为 '");
                out.append(name);
                out.append("'");
                assert(out@ =~= merge_summary_text(
                    merged,
                    shown_target@,
                    affected,
                    duplicates,
                    Some(name@),
                ));
            },
            None => {
                assert(out@ =~= merge_summary_text(
                    merged,
                    shown_target@,
                    affected,
                    duplicates,
                    None,
                ));
            },
        }
        out
    }

    /// What a preview of a merge points out.
    pub fn preview_issues(
        counts: &Vec<CategoryPostCount>,
        source_category_ids: &Vec<u128>,
        duplicates: usize,
    ) -> (r: Vec<String>)
        ensures
            texts(r@) == preview_issue_texts(counts@, source_category_ids@, duplicates),
    {
        let mut issues: Vec<String> = Vec::new();
        let mut i: usize = 0;
        assert(texts(issues@) =~= heavy_source_warnings(counts@, source_category_ids@, 0));
        while i < counts.len()
            invariant
                i <= counts.len(),
                texts(issues@) == heavy_source_warnings(counts@, source_category_ids@, i as int),
            decreases counts.len() - i,
        {
            let ghost before = texts(issues@);
            let c = &counts[i];
            if c.post_count > HEAVY_USE && id_in(source_category_ids, c.category.id) {
                let mut text = "⚠️ 分类 '".to_owned();
                text.append(c.category.name.as_str());
                text.append("' 有 ");
                push_decimal(&mut text, c.post_count as u64);
                text.append(" 篇文章，删除后这些文章将转移到目标分类");
                assert(text@ =~= heavy_source_text(c.category.name@, c.post_count));
                issues.push(text);
                assert(texts(issues@) =~= before.push(
                    heavy_source_text(c.category.name@, c.post_count),
                ));
            }
            i = i + 1;
        }
        if duplicates > 0 {
            let ghost before = texts(issues@);
            let mut text = "ℹ️ 有 ".to_owned();
            push_decimal(&mut text, duplicates as u64);
            text.append(" 篇文章同时使用了源分类和目标分类，将自动去重");
            assert(text@ =~= duplicates_text(duplicates));
            issues.push(text);
            assert(texts(issues@) =~= before.push(duplicates_text(duplicates)));
        }
        if issues.len() == 0 {
            issues.push("✅ 未发现潜在问题，可以安全执行合并操作".to_owned());
            assert(texts(issues@) =~= seq!["✅ 未发现潜在问题，可以安全执行合并操作"@]);
        }
        issues
    }

    /// The summary of a deletion of several categories of which only the
    /// number is known.
    pub fn simple_delete_summary(deleted: usize) -> (r: String)
        ensures
            r@ == "成功删除 "@ + decimal(deleted as nat) + " 个分类"@,
    {
        let mut out = "成功删除 ".to_owned();
        push_decimal(&mut out, deleted as u64);
        out.append(" 个分类");
        assert(out@ =~= "成功删除 "@ + decimal(deleted as nat) + " 个分类"@);
        out
    }

    /// Whether a deletion is to look after the posts that lose their last
    /// category.
    pub fn handles_orphans(handling: Option<crate::dtos::category::OrphanedPostsHandling>) -> (r:
        bool)
        ensures
            r == (handling == Some(
                crate::dtos::category::OrphanedPostsHandling::AddUncategorizedCategory,
            )),
    {
        match handling {
            Some(crate::dtos::category::OrphanedPostsHandling::AddUncategorizedCategory) => true,
            _ => false,
        }
    }

    /// The summary of a deletion of several categories.
    pub fn batch_delete_summary(
        deleted: usize,
        affected: usize,
        orphaned: usize,
        handle_orphaned: bool,
    ) -> (r: String)
        ensures
            r@ == batch_delete_summary_text(deleted, affected, orphaned, handle_orphaned),
    {
        let mut out = "成功删除 ".to_owned();
        push_decimal(&mut out, deleted as u64);
        out.append(" 个分类，影响了 ");
        push_decimal(&mut out, affected as u64);
        out.append(" 篇文章");
        if handle_orphaned && orphaned > 0 {
            out.append("，其中 ");
            push_decimal(&mut out, orphaned as u64);
            out.append(" 篇孤儿文章已自动归类到'未分类'");
        }
        assert(out@ =~= batch_delete_summary_text(deleted, affected, orphaned, handle_orphaned));
        out
    }
}

} // verus!
