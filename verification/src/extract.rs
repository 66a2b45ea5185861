//! Finding the first balanced bracketed span in free text.
//!
//! One counter serves both kinds of bracket: `{` and `[` raise it, `}` and `]`
//! lower it, and the kinds are not matched against each other. The span starts
//! at the first opening bracket of the text and ends at the first closing
//! bracket that brings the counter back to zero. A closing bracket that comes
//! before any opening one lowers the counter below zero like any other.

use crate::error::ResponseError;
use crate::text::char_substring;
use vstd::prelude::*;
use vstd::std_specs::iter::IteratorSpec;
use vstd::string::*;

verus! {

pub open spec fn is_opening(c: char) -> bool {
    c == '{' || c == '['
}

pub open spec fn is_closing(c: char) -> bool {
    c == '}' || c == ']'
}

/// What one character adds to the nesting counter.
pub open spec fn bracket_weight(c: char) -> int {
    if is_opening(c) {
        1
    } else if is_closing(c) {
        -1
    } else {
        0
    }
}

/// The nesting counter after the first `n` characters of `s`.
pub open spec fn depth(s: Seq<char>, n: int) -> int
    decreases n,
{
    if n <= 0 {
        0
    } else {
        depth(s, n - 1) + bracket_weight(s[n - 1])
    }
}

/// The character at `i` is a closing bracket that brings the counter to zero.
pub open spec fn closes_at(s: Seq<char>, i: int) -> bool {
    0 <= i < s.len() && is_closing(s[i]) && depth(s, i + 1) == 0
}

/// `i` is the place of the first opening bracket of `s`.
pub open spec fn is_span_start(s: Seq<char>, i: int) -> bool {
    &&& 0 <= i < s.len()
    &&& is_opening(s[i])
    &&& forall|j: int| 0 <= j < i ==> !is_opening(#[trigger] s[j])
}

/// `i` is the first place at which a closing bracket brings the counter to zero.
pub open spec fn is_span_end(s: Seq<char>, i: int) -> bool {
    &&& closes_at(s, i)
    &&& forall|j: int| 0 <= j < i ==> !#[trigger] closes_at(s, j)
}

/// The span of `s`, if it has one: from the first opening bracket to the
/// first closing bracket that brings the counter to zero, both included.
pub open spec fn balanced_span(s: Seq<char>) -> Option<Seq<char>> {
    if exists|e: int| closes_at(s, e) {
        let start = choose|b: int| is_span_start(s, b);
        let end = choose|e: int| is_span_end(s, e);
        Some(s.subrange(start, end + 1))
    } else {
        None
    }
}

/// Without an opening bracket the counter never rises above zero.
proof fn lemma_depth_without_opening(s: Seq<char>, n: int)
    requires
        0 <= n <= s.len(),
        forall|j: int| 0 <= j < n ==> !is_opening(#[trigger] s[j]),
    ensures
        depth(s, n) <= 0,
    decreases n,
{
    if n > 0 {
        lemma_depth_without_opening(s, n - 1);
    }
}

/// At most one place is the start of the span, and at most one its end.
pub proof fn lemma_span_bounds_unique(s: Seq<char>, b1: int, b2: int, e1: int, e2: int)
    requires
        is_span_start(s, b1),
        is_span_start(s, b2),
        is_span_end(s, e1),
        is_span_end(s, e2),
    ensures
        b1 == b2,
        e1 == e2,
{
    if b1 < b2 {
        assert(!is_opening(s[b1]));
    }
    if b2 < b1 {
        assert(!is_opening(s[b2]));
    }
    if e1 < e2 {
        assert(!closes_at(s, e1));
    }
    if e2 < e1 {
        assert(!closes_at(s, e2));
    }
}

/// Where the span ends, it has started before.
pub proof fn lemma_span_start_before_end(s: Seq<char>, e: int)
    requires
        closes_at(s, e),
    ensures
        exists|b: int| is_span_start(s, b) && b < e,
{
    if forall|j: int| 0 <= j < e ==> !is_opening(#[trigger] s[j]) {
        lemma_depth_without_opening(s, e);
        assert(depth(s, e + 1) == depth(s, e) + bracket_weight(s[e]));
        assert(false);
    }
    let j0 = choose|j: int| 0 <= j < e && is_opening(#[trigger] s[j]);
    lemma_first_opening(s, j0);
    let b = choose|b: int| is_span_start(s, b) && b <= j0;
    assert(is_span_start(s, b) && b < e);
}

/// Before an opening bracket, or at it, stands the first one.
proof fn lemma_first_opening(s: Seq<char>, j: int)
    requires
        0 <= j < s.len(),
        is_opening(s[j]),
    ensures
        exists|b: int| is_span_start(s, b) && b <= j,
    decreases j,
{
    if forall|k: int| 0 <= k < j ==> !is_opening(#[trigger] s[k]) {
        assert(is_span_start(s, j));
    } else {
        let k = choose|k: int| 0 <= k < j && is_opening(#[trigger] s[k]);
        lemma_first_opening(s, k);
        let b = choose|b: int| is_span_start(s, b) && b <= k;
        assert(is_span_start(s, b) && b <= j);
    }
}

/// With the start at `b` and the end at `e`, the span is the text between them.
pub proof fn lemma_balanced_span_is(s: Seq<char>, b: int, e: int)
    requires
        is_span_start(s, b),
        is_span_end(s, e),
    ensures
        balanced_span(s) == Some(s.subrange(b, e + 1)),
{
    assert(closes_at(s, e));
    let start = choose|b: int| is_span_start(s, b);
    let end = choose|e: int| is_span_end(s, e);
    lemma_span_bounds_unique(s, b, start, e, end);
}

/// No character of `s` is a bracket.
pub open spec fn bracket_free(s: Seq<char>) -> bool {
    forall|j: int| 0 <= j < s.len() ==> bracket_weight(#[trigger] s[j]) == 0
}

/// `span` opens with a bracket, keeps the counter above zero up to its last
/// character, and brings it to zero there.
pub open spec fn is_balanced(span: Seq<char>) -> bool {
    &&& span.len() >= 2
    &&& is_opening(span[0])
    &&& forall|k: int| 0 < k < span.len() ==> #[trigger] depth(span, k) > 0
    &&& depth(span, span.len() as int) == 0
}

/// Behind a bracket-free prefix the counter of `t` runs as it does in `span`.
proof fn lemma_depth_behind_prefix(pre: Seq<char>, span: Seq<char>, post: Seq<char>, k: int)
    requires
        bracket_free(pre),
        0 <= k <= span.len(),
    ensures
        depth(pre + span + post, pre.len() + k) == depth(span, k),
    decreases k,
{
    let t = pre + span + post;
    if k > 0 {
        lemma_depth_behind_prefix(pre, span, post, k - 1);
        assert(t[pre.len() + k - 1] == span[k - 1]);
    } else {
        lemma_depth_prefix_only(pre, span, post, pre.len() as int);
    }
}

/// Inside a bracket-free prefix the counter of `t` stays at zero.
proof fn lemma_depth_prefix_only(pre: Seq<char>, span: Seq<char>, post: Seq<char>, n: int)
    requires
        bracket_free(pre),
        0 <= n <= pre.len(),
    ensures
        depth(pre + span + post, n) == 0,
    decreases n,
{
    let t = pre + span + post;
    if n > 0 {
        lemma_depth_prefix_only(pre, span, post, n - 1);
        assert(t[n - 1] == pre[n - 1]);
    }
}

/// A text that holds one balanced span behind a bracket-free lead yields
/// exactly that span, both delimiters included, whatever follows it.
pub proof fn lemma_single_span_extracted(pre: Seq<char>, span: Seq<char>, post: Seq<char>)
    requires
        bracket_free(pre),
        is_balanced(span),
    ensures
        balanced_span(pre + span + post) == Some(span),
{
    let t = pre + span + post;
    let b = pre.len() as int;
    let e = pre.len() + span.len() - 1;
    assert(t[b] == span[0]);
    assert forall|j: int| 0 <= j < b implies !is_opening(#[trigger] t[j]) by {
        assert(t[j] == pre[j]);
    }
    assert(is_span_start(t, b));
    lemma_depth_behind_prefix(pre, span, post, span.len() as int);
    lemma_depth_behind_prefix(pre, span, post, span.len() - 1);
    assert(depth(span, span.len() - 1) > 0);
    assert(depth(t, e + 1) == depth(t, e) + bracket_weight(t[e]));
    assert(closes_at(t, e));
    assert forall|j: int| 0 <= j < e implies !#[trigger] closes_at(t, j) by {
        if j < b {
            assert(t[j] == pre[j]);
        } else {
            lemma_depth_behind_prefix(pre, span, post, j + 1 - b);
            assert(depth(span, j + 1 - b) > 0);
        }
    }
    assert(is_span_end(t, e));
    lemma_balanced_span_is(t, b, e);
    assert(t.subrange(b, e + 1) =~= span);
}

/// A text without any bracket has no span.
pub proof fn lemma_no_bracket_no_span(s: Seq<char>)
    requires
        bracket_free(s),
    ensures
        balanced_span(s) is None,
{
    assert forall|e: int| !closes_at(s, e) by {
        if 0 <= e < s.len() {
            assert(bracket_weight(s[e]) == 0);
        }
    }
}

/// The first balanced bracketed span of `input`, brackets included.
///
/// Fails with `ResponseError::Extraction` exactly when no closing bracket
/// brings the counter back to zero, which covers a text without brackets.
pub fn extract_json_object(input: &str) -> (result: Result<String, ResponseError>)
    ensures
        match balanced_span(input@) {
            Some(span) => result is Ok && result->Ok_0@ == span,
            None => result == Err::<String, ResponseError>(ResponseError::Extraction),
        },
        (forall|i: int| 0 <= i < input@.len() ==> !is_opening(#[trigger] input@[i]))
            ==> result is Err,
{
    let total: usize = input.unicode_len();
    let mut count: i128 = 0;
    let mut start: Option<usize> = None;
    let mut end: Option<usize> = None;
    let mut i: usize = 0;
    let mut chars = input.chars();
    let ghost s = input@;
    loop
        invariant_except_break
            end is None,
            chars.remaining() == s.subrange(i as int, s.len() as int),
            count == depth(s, i as int),
            -(i as int) <= count <= i as int,
        invariant
            s == input@,
            total == s.len(),
            0 <= i <= total,
            chars.obeys_prophetic_iter_laws(),
            chars.decrease() is Some,
            forall|j: int| 0 <= j < i ==> !#[trigger] closes_at(s, j),
            match start {
                Some(b) => is_span_start(s, b as int) && b < i,
                None => forall|j: int| 0 <= j < i ==> !is_opening(#[trigger] s[j]),
            },
        ensures
            match end {
                Some(e) => is_span_end(s, e as int) && start is Some,
                None => forall|j: int| 0 <= j < s.len() ==> !#[trigger] closes_at(s, j),
            },
        decreases chars.decrease()->0,
    {
        let next = chars.next();
        match next {
            None => {
                break ;
            },
            Some(c) => {
                assert(c == s[i as int]);
                assert(depth(s, i + 1) == depth(s, i as int) + bracket_weight(c));
                if c == '{' || c == '[' {
                    if start.is_none() {
                        start = Some(i);
                    }
                    count = count + 1;
                } else if c == '}' || c == ']' {
                    count = count - 1;
                    if count == 0 {
                        proof {
                            if start is None {
                                lemma_depth_without_opening(s, i as int);
                            }
                        }
                        end = Some(i);
                        break ;
                    }
                }
                i = i + 1;
            },
        }
    }
    proof {
        if forall|j: int| 0 <= j < s.len() ==> !is_opening(#[trigger] s[j]) {
            if end is Some {
                lemma_span_start_before_end(s, end->Some_0 as int);
            }
        }
    }
    match (start, end) {
        (Some(b), Some(e)) => {
            proof {
                lemma_balanced_span_is(s, b as int, e as int);
            }
            let part = char_substring(input, b, e + 1);
            Ok(part.to_owned())
        },
        _ => {
            Err(ResponseError::Extraction)
        },
    }
}

} // verus!
