//! Small operations on text, by characters.

use substring::Substring;
use vstd::prelude::*;
use vstd::std_specs::iter::IteratorSpec;
use vstd::string::*;

verus! {

/// The characters of `s` from `start` up to `end`, both cut down to the
/// length of `s`; nothing where `end` does not lie behind `start`.
pub open spec fn clamped_range(s: Seq<char>, start: int, end: int) -> Seq<char> {
    if end <= start {
        Seq::empty()
    } else {
        let from = if start < s.len() { start } else { s.len() as int };
        let to = if end < s.len() { end } else { s.len() as int };
        s.subrange(from, to)
    }
}

/// Calls `substring::Substring::substring` on a `str`. That method counts in
/// characters, gives the empty string unless `start < end`, and treats an
/// index past the end as the end; the contract says just that.
#[verifier::external_body]
pub(crate) fn char_substring(s: &str, start: usize, end: usize) -> (part: &str)
    ensures
        part@ == clamped_range(s@, start as int, end as int),
{
    s.substring(start, end)
}

/// How many characters are kept on each side of a reported position.
pub const CONTEXT_RADIUS: usize = 30;

/// The window of `s` around `offset`: up to thirty characters before it and
/// up to thirty from it on.
pub open spec fn context_window(s: Seq<char>, offset: int) -> Seq<char> {
    clamped_range(
        s,
        if offset >= CONTEXT_RADIUS {
            offset - CONTEXT_RADIUS
        } else {
            0
        },
        offset + CONTEXT_RADIUS,
    )
}

/// The characters of `text` around `offset`, for a diagnostic.
pub fn error_context(text: &str, offset: usize) -> (context: String)
    ensures
        context@ == context_window(text@, offset as int),
{
    let start: usize = if offset >= CONTEXT_RADIUS {
        offset - CONTEXT_RADIUS
    } else {
        0
    };
    if offset <= usize::MAX - CONTEXT_RADIUS {
        char_substring(text, start, offset + CONTEXT_RADIUS).to_owned()
    } else {
        // The length fits a `usize`, so the window ends with the text.
        let total: usize = text.unicode_len();
        assert(clamped_range(text@, start as int, usize::MAX as int) =~= clamped_range(
            text@,
            start as int,
            offset + CONTEXT_RADIUS,
        ));
        char_substring(text, start, usize::MAX).to_owned()
    }
}

/// `s` without the copies of `prefix` that it begins with.
pub open spec fn without_leading(s: Seq<char>, prefix: Seq<char>) -> Seq<char>
    decreases s.len(),
{
    if prefix.len() > 0 && prefix.is_prefix_of(s) {
        without_leading(s.skip(prefix.len() as int), prefix)
    } else {
        s
    }
}

/// Removes every copy of `prefix` that `text` begins with. An empty prefix
/// removes nothing.
pub fn trim_leading(text: &str, prefix: &str) -> (rest: String)
    ensures
        rest@ == without_leading(text@, prefix@),
{
    let total: usize = text.unicode_len();
    let width: usize = prefix.unicode_len();
    let wanted = String::from_str(prefix);
    let mut from: usize = 0;
    assert(text@.skip(0) =~= text@);
    if width > 0 {
        while width <= total - from
            invariant
                0 <= from <= total,
                total == text@.len(),
                width == prefix@.len(),
                width > 0,
                wanted@ == prefix@,
                without_leading(text@, prefix@) == without_leading(text@.skip(from as int), prefix@),
            ensures
                0 <= from <= total,
                without_leading(text@, prefix@) == text@.skip(from as int),
            decreases total - from,
        {
            let head = char_substring(text, from, from + width).to_owned();
            assert(head@ =~= text@.skip(from as int).subrange(0, width as int));
            if head != wanted {
                break ;
            }
            assert(text@.skip(from as int).skip(width as int) =~= text@.skip(from + width));
            from = from + width;
        }
    }
    let rest = char_substring(text, from, total).to_owned();
    assert(rest@ =~= text@.skip(from as int));
    rest
}

/// The lowercase form that `str::to_lowercase` gives a text.
pub uninterp spec fn lowercase_of(s: Seq<char>) -> Seq<char>;

/// Whether `char::is_whitespace` counts a character as white space.
pub uninterp spec fn is_whitespace_char(c: char) -> bool;

/// `str::to_lowercase` of std: the lowercase equivalent of the text, by the
/// Unicode tables. The contract only gives that result its name.
pub assume_specification[ str::to_lowercase ](s: &str) -> (lower: String)
    ensures
        lower@ == lowercase_of(s@),
;

/// `char::is_whitespace` of std: whether the character has the Unicode
/// property White_Space. The contract only gives that answer its name.
pub assume_specification[ char::is_whitespace ](c: char) -> (white: bool)
    ensures
        white == is_whitespace_char(c),
;

/// `String::push` of std: appends one character to the end of the string.
pub assume_specification[ String::push ](s: &mut String, c: char)
    ensures
        final(s)@ == old(s)@.push(c),
;

/// `s` without its white space.
pub open spec fn without_whitespace(s: Seq<char>) -> Seq<char>
    decreases s.len(),
{
    if s.len() == 0 {
        Seq::empty()
    } else if is_whitespace_char(s.last()) {
        without_whitespace(s.drop_last())
    } else {
        without_whitespace(s.drop_last()).push(s.last())
    }
}

/// The comparison key of a label: lowercase, white space removed.
pub open spec fn normalized(s: Seq<char>) -> Seq<char> {
    without_whitespace(lowercase_of(s))
}

/// Folds a label to its comparison key, so that two labels that differ only
/// in case or white space get the same key.
pub fn normalize_string(label: &str) -> (key: String)
    ensures
        key@ == normalized(label@),
{
    let lower = label.to_lowercase();
    let ghost s = lower@;
    let mut key = String::new();
    let mut chars = lower.as_str().chars();
    let ghost mut i: int = 0;
    loop
        invariant_except_break
            chars.remaining() == s.subrange(i, s.len() as int),
        invariant
            s == lower@,
            s == lowercase_of(label@),
            0 <= i <= s.len(),
            chars.obeys_prophetic_iter_laws(),
            chars.decrease() is Some,
            key@ == without_whitespace(s.take(i)),
        ensures
            i == s.len(),
        decreases chars.decrease()->0,
    {
        let next = chars.next();
        match next {
            None => {
                break ;
            },
            Some(c) => {
                assert(c == s[i]);
                assert(s.take(i + 1).drop_last() =~= s.take(i));
                if !c.is_whitespace() {
                    key.push(c);
                }
                proof {
                    i = i + 1;
                }
            },
        }
    }
    assert(s.take(i) =~= s);
    key
}

/// `i` is the first place at which `keys` holds `key`.
pub open spec fn is_first_match(keys: Seq<Seq<char>>, key: Seq<char>, i: int) -> bool {
    &&& 0 <= i < keys.len()
    &&& keys[i] == key
    &&& forall|j: int| 0 <= j < i ==> #[trigger] keys[j] != key
}

/// The first place at which `keys` holds `key`, if it holds it at all.
pub open spec fn first_match(keys: Seq<Seq<char>>, key: Seq<char>) -> Option<int> {
    if exists|i: int| is_first_match(keys, key, i) {
        Some(choose|i: int| is_first_match(keys, key, i))
    } else {
        None
    }
}

/// The first place of a key is the value of `first_match`.
pub proof fn lemma_first_match_found(keys: Seq<Seq<char>>, key: Seq<char>, i: int)
    requires
        is_first_match(keys, key, i),
    ensures
        first_match(keys, key) == Some(i),
{
    let c = choose|c: int| is_first_match(keys, key, c);
    if c < i {
        assert(keys[c] != key);
    }
    if i < c {
        assert(keys[i] != key);
    }
}

/// A key that stands nowhere in `keys` has no first place.
pub proof fn lemma_first_match_absent(keys: Seq<Seq<char>>, key: Seq<char>)
    requires
        forall|j: int| 0 <= j < keys.len() ==> #[trigger] keys[j] != key,
    ensures
        first_match(keys, key) is None,
{
}

} // verus!
