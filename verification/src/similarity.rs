//! Similarity of names: edit distance, shared fragments, and the pairs of
//! a list of names that are alike.

use crate::text::{
    chars_of,
    contains_bytes,
    contains_chars,
    is_substring,
    lowercase,
    to_lowercase,
};
use vstd::prelude::*;
use vstd::string::StringSliceAdditionalSpecFns;
use vstd::utf8::encode_utf8;

verus! {

/// The least of three numbers.
pub open spec fn min3(a: nat, b: nat, c: nat) -> nat {
    if a <= b && a <= c {
        a
    } else if b <= c {
        b
    } else {
        c
    }
}

/// The edit distance of two texts: the least number of characters to
/// insert, delete or replace to make one of the other.
pub open spec fn edit_distance(a: Seq<char>, b: Seq<char>) -> nat
    decreases a.len() + b.len(),
{
    if a.len() == 0 {
        b.len()
    } else if b.len() == 0 {
        a.len()
    } else {
        min3(
            edit_distance(a.drop_last(), b) + 1,
            edit_distance(a, b.drop_last()) + 1,
            edit_distance(a.drop_last(), b.drop_last()) + (if a.last() == b.last() {
                0nat
            } else {
                1nat
            }),
        )
    }
}

/// The edit distance is at most the length of the longer text.
pub proof fn lemma_edit_distance_bound(a: Seq<char>, b: Seq<char>)
    ensures
        edit_distance(a, b) <= a.len() || edit_distance(a, b) <= b.len(),
    decreases a.len() + b.len(),
{
    if a.len() > 0 && b.len() > 0 {
        lemma_edit_distance_bound(a.drop_last(), b.drop_last());
    }
}

/// The edit distance of two texts, by the table of the distances of
/// their prefixes, kept one row at a time.
pub fn edit_distance_of(a: &Vec<char>, b: &Vec<char>) -> (d: usize)
    ensures
        d == edit_distance(a@, b@),
{
    let a_len: usize = a.len();
    let b_len: usize = b.len();
    if a_len == 0 {
        return b_len;
    }
    if b_len == 0 {
        return a_len;
    }
    // prev[k] is the distance of the first i characters of `a` to the
    // first k + 1 characters of `b`.
    let mut prev: Vec<u128> = Vec::new();
    let mut j: usize = 0;
    while j < b_len
        invariant
            j <= b_len,
            b_len == b.len(),
            prev.len() == j,
            forall|k: int| 0 <= k < j ==> prev@[k] == edit_distance(a@.take(0), b@.take(k + 1)),
        decreases b_len - j,
    {
        assert(a@.take(0).len() == 0);
        assert(b@.take(j + 1).len() == j + 1);
        prev.push((j as u128) + 1);
        j = j + 1;
    }
    let mut i: usize = 0;
    while i < a_len
        invariant
            i <= a_len,
            a_len == a.len(),
            b_len == b.len(),
            b_len > 0,
            prev.len() == b_len,
            forall|k: int| 0 <= k < b_len ==> prev@[k] == edit_distance(a@.take(i as int), b@.take(k + 1)),
        decreases a_len - i,
    {
        let mut cur: Vec<u128> = Vec::new();
        let mut j: usize = 0;
        while j < b_len
            invariant
                j <= b_len,
                i < a_len,
                a_len == a.len(),
                b_len == b.len(),
                prev.len() == b_len,
                cur.len() == j,
                forall|k: int|
                    0 <= k < b_len ==> prev@[k] == edit_distance(a@.take(i as int), b@.take(k + 1)),
                forall|k: int| 0 <= k < j ==> cur@[k] == edit_distance(a@.take(i + 1), b@.take(k + 1)),
            decreases b_len - j,
        {
            let ghost head_a = a@.take(i + 1);
            let ghost head_b = b@.take(j + 1);
            proof {
                assert(head_a.drop_last() =~= a@.take(i as int));
                assert(head_b.drop_last() =~= b@.take(j as int));
                assert(head_a.last() == a@[i as int]);
                assert(head_b.last() == b@[j as int]);
                assert(head_a.len() == i + 1 && head_b.len() == j + 1);
                lemma_edit_distance_bound(a@.take(i as int), head_b);
                lemma_edit_distance_bound(head_a, b@.take(j as int));
                lemma_edit_distance_bound(a@.take(i as int), b@.take(j as int));
                assert(a@.take(i as int).len() == i);
                assert(b@.take(j as int).len() == j);
            }
            let up: u128 = prev[j];
            let left: u128 = if j == 0 {
                (i as u128) + 1
            } else {
                cur[j - 1]
            };
            let diag: u128 = if j == 0 {
                i as u128
            } else {
                prev[j - 1]
            };
            let cost: u128 = if a[i] == b[j] {
                0
            } else {
                1
            };
            let first: u128 = up + 1;
            let second: u128 = left + 1;
            let third: u128 = diag + cost;
            let best: u128 = if first <= second && first <= third {
                first
            } else if second <= third {
                second
            } else {
                third
            };
            cur.push(best);
            j = j + 1;
        }
        prev = cur;
        i = i + 1;
    }
    proof {
        assert(a@.take(a_len as int) =~= a@);
        assert(b@.take(b_len as int) =~= b@);
        lemma_edit_distance_bound(a@, b@);
    }
    prev[b_len - 1] as usize
}

/// The edit distance of two texts.
pub fn levenshtein_distance(a: &str, b: &str) -> (d: usize)
    ensures
        d == edit_distance(a@, b@),
{
    let a_chars = chars_of(a);
    let b_chars = chars_of(b);
    edit_distance_of(&a_chars, &b_chars)
}

/// By which rule two names count as alike.
#[derive(Clone, Copy, Debug, PartialEq, Eq, Structural)]
pub enum SimilarityRule {
    /// The edit distance is less than three tenths of the longer name.
    EditDistance,
    /// The names share a run of three bytes.
    SharedFragment,
}

/// The length of a text in bytes.
pub open spec fn byte_len(s: Seq<char>) -> nat {
    encode_utf8(s).len()
}

/// Whether one of two texts stands in the other.
pub open spec fn one_contains_other(a: Seq<char>, b: Seq<char>) -> bool {
    is_substring(a, b) || is_substring(b, a)
}

/// Whether the edit distance of two texts is less than three tenths of
/// the length, in bytes, of the longer one.
pub open spec fn close_in_distance(a: Seq<char>, b: Seq<char>) -> bool {
    let longer = if byte_len(a) >= byte_len(b) {
        byte_len(a)
    } else {
        byte_len(b)
    };
    longer > 0 && 10 * edit_distance(a, b) < 3 * longer
}

/// Whether two texts of at least three bytes each share a run of three
/// bytes.
pub open spec fn share_fragment(a: Seq<char>, b: Seq<char>) -> bool {
    byte_len(a) >= 3 && byte_len(b) >= 3 && exists|at: int|
        0 <= at && at + 3 <= byte_len(a) && #[trigger] is_substring(
            encode_utf8(b),
            encode_utf8(a).subrange(at, at + 3),
        )
}

/// Whether two names are alike under a rule. Case is set aside first;
/// names of which one contains the other are alike under either rule.
pub open spec fn names_alike(rule: SimilarityRule, name1: Seq<char>, name2: Seq<char>) -> bool {
    let a = lowercase(name1);
    let b = lowercase(name2);
    one_contains_other(a, b) || (match rule {
        SimilarityRule::EditDistance => close_in_distance(a, b),
        SimilarityRule::SharedFragment => share_fragment(a, b),
    })
}

/// Whether two lower-case texts share a run of three bytes.
fn fragments_shared(a: &str, b: &str) -> (r: bool)
    ensures
        r == share_fragment(a@, b@),
{
    let a_bytes = a.as_bytes();
    let b_bytes = b.as_bytes();
    assert(a.spec_bytes() == encode_utf8(a@));
    assert(b.spec_bytes() == encode_utf8(b@));
    if a_bytes.len() < 3 || b_bytes.len() < 3 {
        return false;
    }
    let last: usize = a_bytes.len() - 3;
    let mut at: usize = 0;
    while at <= last
        invariant
            at <= last + 1,
            last == a_bytes.len() - 3,
            a_bytes@ == encode_utf8(a@),
            b_bytes@ == encode_utf8(b@),
            forall|k: int|
                0 <= k < at ==> !is_substring(
                    encode_utf8(b@),
                    #[trigger] encode_utf8(a@).subrange(k, k + 3),
                ),
        decreases last + 1 - at,
    {
        let window = vstd::slice::slice_subrange(a_bytes, at, at + 3);
        if contains_bytes(b_bytes, window) {
            assert(window@ == encode_utf8(a@).subrange(at as int, at + 3));
            return true;
        }
        at = at + 1;
    }
    false
}

/// Whether two names are alike under a rule.
pub fn alike(rule: SimilarityRule, name1: &str, name2: &str) -> (r: bool)
    ensures
        r == names_alike(rule, name1@, name2@),
{
    let lower1 = to_lowercase(name1);
    let lower2 = to_lowercase(name2);
    let chars1 = chars_of(lower1.as_str());
    let chars2 = chars_of(lower2.as_str());
    if contains_chars(&chars1, &chars2) || contains_chars(&chars2, &chars1) {
        return true;
    }
    match rule {
        SimilarityRule::EditDistance => {
            let distance: usize = edit_distance_of(&chars1, &chars2);
            let text1 = lower1.as_str();
            let text2 = lower2.as_str();
            let len1: usize = text1.as_bytes().len();
            let len2: usize = text2.as_bytes().len();
            assert(text1.spec_bytes() == encode_utf8(lower1@));
            assert(text2.spec_bytes() == encode_utf8(lower2@));
            let longer: usize = if len1 >= len2 {
                len1
            } else {
                len2
            };
            longer > 0 && 10 * (distance as u128) < 3 * (longer as u128)
        },
        SimilarityRule::SharedFragment => fragments_shared(lower1.as_str(), lower2.as_str()),
    }
}

/// Whether a pair of places comes before another: by the first place,
/// then by the second.
pub open spec fn pair_before(p: (usize, usize), q: (usize, usize)) -> bool {
    p.0 < q.0 || (p.0 == q.0 && p.1 < q.1)
}

/// Whether `pairs` are the pairs of places of names that are alike: each
/// pair names two different places in order, the names at them are alike,
/// no such pair is left out, and the pairs stand in order.
pub open spec fn are_alike_pairs(
    rule: SimilarityRule,
    names: Seq<Seq<char>>,
    pairs: Seq<(usize, usize)>,
) -> bool {
    &&& forall|k: int|
        0 <= k < pairs.len() ==> (#[trigger] pairs[k]).0 < pairs[k].1 && pairs[k].1 < names.len()
            && names_alike(rule, names[pairs[k].0 as int], names[pairs[k].1 as int])
    &&& forall|i: int, j: int|
        0 <= i < j < names.len() && #[trigger] names_alike(rule, names[i], names[j])
            ==> pairs.contains((i as usize, j as usize))
    &&& forall|k: int, l: int| 0 <= k < l < pairs.len() ==> pair_before(pairs[k], pairs[l])
}

/// The pairs of places of names that are alike.
pub fn alike_pairs(rule: SimilarityRule, names: &Vec<String>) -> (pairs: Vec<(usize, usize)>)
    ensures
        are_alike_pairs(rule, crate::text::texts(names@), pairs@),
{
    let ghost all = crate::text::texts(names@);
    let n: usize = names.len();
    let mut pairs: Vec<(usize, usize)> = Vec::new();
    let mut i: usize = 0;
    while i < n
        invariant
            i <= n,
            n == names.len(),
            all == crate::text::texts(names@),
            forall|k: int|
                0 <= k < pairs.len() ==> (#[trigger] pairs@[k]).0 < pairs@[k].1 && pairs@[k].1 < n
                    && pairs@[k].0 < i && names_alike(
                    rule,
                    all[pairs@[k].0 as int],
                    all[pairs@[k].1 as int],
                ),
            forall|a: int, b: int|
                0 <= a < b < n && a < i && #[trigger] names_alike(rule, all[a], all[b])
                    ==> pairs@.contains((a as usize, b as usize)),
            forall|k: int, l: int| 0 <= k < l < pairs.len() ==> pair_before(pairs@[k], pairs@[l]),
        decreases n - i,
    {
        let mut j: usize = i + 1;
        while j < n
            invariant
                i < n,
                i + 1 <= j <= n,
                n == names.len(),
                all == crate::text::texts(names@),
                forall|k: int|
                    0 <= k < pairs.len() ==> (#[trigger] pairs@[k]).0 < pairs@[k].1 && pairs@[k].1
                        < n && (pairs@[k].0 < i || (pairs@[k].0 == i && pairs@[k].1 < j))
                        && names_alike(rule, all[pairs@[k].0 as int], all[pairs@[k].1 as int]),
                forall|a: int, b: int|
                    0 <= a < b < n && (a < i || (a == i && b < j)) && #[trigger] names_alike(
                        rule,
                        all[a],
                        all[b],
                    ) ==> pairs@.contains((a as usize, b as usize)),
                forall|k: int, l: int|
                    0 <= k < l < pairs.len() ==> pair_before(pairs@[k], pairs@[l]),
            decreases n - j,
        {
            if alike(rule, names[i].as_str(), names[j].as_str()) {
                let ghost before = pairs@;
                pairs.push((i, j));
                proof {
                    assert forall|a: int, b: int|
                        0 <= a < b < n && (a < i || (a == i && b < j + 1)) && #[trigger] names_alike(
                            rule,
                            all[a],
                            all[b],
                        ) implies pairs@.contains((a as usize, b as usize)) by {
                        if a == i && b == j {
                            assert(pairs@[before.len() as int] == (i, j));
                        } else {
                            assert(before.contains((a as usize, b as usize)));
                            let k = choose|k: int|
                                0 <= k < before.len() && before[k] == (a as usize, b as usize);
                            assert(pairs@[k] == (a as usize, b as usize));
                        }
                    }
                    assert forall|k: int, l: int| 0 <= k < l < pairs.len() implies pair_before(
                        pairs@[k],
                        pairs@[l],
                    ) by {
                        if l == before.len() {
                            assert(pairs@[k] == before[k]);
                        } else {
                            assert(pairs@[k] == before[k] && pairs@[l] == before[l]);
                        }
                    }
                }
            }
            j = j + 1;
        }
        i = i + 1;
    }
    pairs
}

} // verus!
