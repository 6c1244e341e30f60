//! Reading a version out of what a browser prints or keeps on disk.

use crate::text::{
    char_is_ascii_digit, char_is_whitespace, chars_of, is_ascii_digit, is_whitespace, matches_at,
    occurs_at, slice_of, text_option_model,
};
use vstd::prelude::*;

verus! {

/// Whether `text[from..to]` is a token: a longest run of characters that
/// are not whitespace.
pub open spec fn is_token(text: Seq<char>, from: int, to: int) -> bool {
    &&& 0 <= from < to <= text.len()
    &&& forall|k: int| from <= k < to ==> !is_whitespace(#[trigger] text[k])
    &&& (from == 0 || is_whitespace(text[from - 1]))
    &&& (to == text.len() || is_whitespace(text[to]))
}

/// Whether `text[from..to]` has the look of a version: it begins with an
/// ASCII digit and holds a dot.
pub open spec fn is_version_like(text: Seq<char>, from: int, to: int) -> bool {
    &&& is_ascii_digit(text[from])
    &&& exists|k: int| from <= k < to && #[trigger] text[k] == '.'
}

/// Whether `text[from..to]` is the first token of `text` that has the look
/// of a version.
pub open spec fn is_first_version_token(text: Seq<char>, from: int, to: int) -> bool {
    &&& is_token(text, from, to)
    &&& is_version_like(text, from, to)
    &&& forall|f: int, t: int|
        f < from && #[trigger] is_token(text, f, t) ==> !is_version_like(text, f, t)
}

/// The first token of `text` that has the look of a version, if there is
/// one.
pub open spec fn version_token(text: Seq<char>) -> Option<Seq<char>> {
    if exists|from: int, to: int| is_first_version_token(text, from, to) {
        let (from, to) = choose|from: int, to: int| is_first_version_token(text, from, to);
        Some(text.subrange(from, to))
    } else {
        None
    }
}

/// Whether a text has the look of a version: it begins with an ASCII digit
/// and holds a dot.
pub open spec fn looks_like_version(text: Seq<char>) -> bool {
    &&& text.len() > 0
    &&& is_ascii_digit(text[0])
    &&& text.contains('.')
}

/// The version token of a text has the look of a version.
pub proof fn lemma_version_token_looks_like_version(text: Seq<char>)
    ensures
        version_token(text) matches Some(version) ==> looks_like_version(version),
{
    if exists|from: int, to: int| is_first_version_token(text, from, to) {
        let (from, to) = choose|from: int, to: int| is_first_version_token(text, from, to);
        let version = text.subrange(from, to);
        let k = choose|k: int| from <= k < to && #[trigger] text[k] == '.';
        assert(version[0] == text[from]);
        assert(version[k - from] == '.');
    }
}

/// Whether a text has the look of a version: see [`looks_like_version`].
pub fn has_version_look(text: &str) -> (r: bool)
    ensures
        r == looks_like_version(text@),
{
    let chars = chars_of(text);
    if chars.len() == 0 || !char_is_ascii_digit(chars[0]) {
        return false;
    }
    let mut at: usize = 0;
    while at < chars.len()
        invariant
            chars@ == text@,
            at <= chars.len(),
            chars.len() > 0,
            is_ascii_digit(chars@[0]),
            forall|k: int| 0 <= k < at ==> chars@[k] != '.',
        decreases chars.len() - at,
    {
        if chars[at] == '.' {
            assert(chars@[at as int] == '.');
            assert(chars@.contains('.'));
            return true;
        }
        at += 1;
    }
    false
}

/// A token that begins at a given place ends at one place only.
pub proof fn lemma_token_end_unique(text: Seq<char>, from: int, a: int, b: int)
    requires
        is_token(text, from, a),
        is_token(text, from, b),
    ensures
        a == b,
{
    if a < b {
        assert(!is_whitespace(text[a]));
    }
    if b < a {
        assert(!is_whitespace(text[b]));
    }
}

/// There is one first version token at most.
pub proof fn lemma_first_version_token_unique(text: Seq<char>, f1: int, t1: int, f2: int, t2: int)
    requires
        is_first_version_token(text, f1, t1),
        is_first_version_token(text, f2, t2),
    ensures
        f1 == f2,
        t1 == t2,
{
    if f1 < f2 {
        assert(is_token(text, f1, t1));
    }
    if f2 < f1 {
        assert(is_token(text, f2, t2));
    }
    lemma_token_end_unique(text, f1, t1, t2);
}

/// Finds the first whitespace-separated token of `text` that begins with
/// an ASCII digit and holds a dot: see [`version_token`].
pub fn find_version_token(text: &str) -> (r: Option<String>)
    ensures
        text_option_model(r) == version_token(text@),
        r matches Some(version) ==> looks_like_version(version@),
{
    let chars = chars_of(text);
    let n: usize = chars.len();
    let mut at: usize = 0;
    while at < n
        invariant
            chars@ == text@,
            n == chars.len(),
            at <= n,
            at == 0 || at == n || is_whitespace(chars@[at - 1]) || is_whitespace(chars@[at as int]),
            forall|f: int, t: int|
                f < at && #[trigger] is_token(chars@, f, t) ==> !is_version_like(chars@, f, t),
        decreases n - at,
    {
        if char_is_whitespace(chars[at]) {
            at += 1;
            continue ;
        }
        let mut end: usize = at;
        let mut has_dot = false;
        while end < n && !char_is_whitespace(chars[end])
            invariant
                n == chars.len(),
                at <= end <= n,
                forall|k: int| at <= k < end ==> !is_whitespace(#[trigger] chars@[k]),
                has_dot <==> exists|k: int| at <= k < end && #[trigger] chars@[k] == '.',
            decreases n - end,
        {
            if chars[end] == '.' {
                has_dot = true;
            }
            end += 1;
        }
        assert(is_token(chars@, at as int, end as int));
        if has_dot && char_is_ascii_digit(chars[at]) {
            proof {
                assert(is_first_version_token(chars@, at as int, end as int));
                let (from, to) = choose|from: int, to: int|
                    is_first_version_token(chars@, from, to);
                lemma_first_version_token_unique(chars@, from, to, at as int, end as int);
                lemma_version_token_looks_like_version(chars@);
            }
            return Some(slice_of(text, at, end));
        }
        assert forall|f: int, t: int|
            f < end && #[trigger] is_token(chars@, f, t) implies !is_version_like(chars@, f, t) by {
            if at < f {
                assert(!is_whitespace(chars@[f - 1]));
            } else if f == at {
                lemma_token_end_unique(chars@, f, t, end as int);
            }
        }
        at = end;
    }
    assert forall|from: int, to: int| !is_first_version_token(chars@, from, to) by {
        if is_token(chars@, from, to) {
            assert(!is_version_like(chars@, from, to));
        }
    }
    None
}

/// Whether `text[from..to]` is a line of `text`: it begins at the start of
/// the text or behind a newline, and runs up to the next newline or the end
/// of the text. Behind the last newline of a text there is no line unless
/// characters follow.
pub open spec fn is_line(text: Seq<char>, from: int, to: int) -> bool {
    &&& 0 <= from <= to <= text.len()
    &&& from < text.len()
    &&& (from == 0 || text[from - 1] == '\n')
    &&& (to == text.len() || text[to] == '\n')
    &&& forall|k: int| from <= k < to ==> #[trigger] text[k] != '\n'
}

/// Where the content of the line `text[from..to]` ends: a carriage return
/// that stands before the line's newline is not part of the content.
pub open spec fn content_end(text: Seq<char>, from: int, to: int) -> int {
    if from < to < text.len() && text[to - 1] == '\r' {
        to - 1
    } else {
        to
    }
}

/// Whether `text[from..to]` is a line whose content begins with `key`.
pub open spec fn is_key_line(text: Seq<char>, key: Seq<char>, from: int, to: int) -> bool {
    &&& is_line(text, from, to)
    &&& occurs_at(text, key, from)
    &&& from + key.len() <= content_end(text, from, to)
}

/// Whether `text[from..to]` is the first line of `text` whose content
/// begins with `key`.
pub open spec fn is_first_key_line(text: Seq<char>, key: Seq<char>, from: int, to: int) -> bool {
    &&& is_key_line(text, key, from, to)
    &&& forall|f: int, t: int|
        f < from && #[trigger] is_line(text, f, t) ==> !is_key_line(text, key, f, t)
}

/// Whether a value that begins at `start`, in content that ends at
/// `limit`, ends at `end`: at the first `=` or, without one, at `limit`.
pub open spec fn is_value_end(text: Seq<char>, start: int, limit: int, end: int) -> bool {
    &&& start <= end <= limit
    &&& (end == limit || text[end] == '=')
    &&& forall|k: int| start <= k < end ==> #[trigger] text[k] != '='
}

/// The value of the first line of `text` that begins with `key`: what
/// stands behind the key, up to the next `=` or the end of the line's
/// content. `None` where no line begins with `key`.
pub open spec fn keyed_value(text: Seq<char>, key: Seq<char>) -> Option<Seq<char>> {
    if exists|from: int, to: int| is_first_key_line(text, key, from, to) {
        let (from, to) = choose|from: int, to: int| is_first_key_line(text, key, from, to);
        let start = from + key.len();
        let limit = content_end(text, from, to);
        Some(text.subrange(start, choose|end: int| is_value_end(text, start, limit, end)))
    } else {
        None
    }
}

/// The version that a browser's metadata file records: the value of its
/// first line that begins with `Version=`, where that value has the look of
/// a version.
pub open spec fn metadata_version(text: Seq<char>) -> Option<Seq<char>> {
    match keyed_value(text, "Version="@) {
        Some(value) => if looks_like_version(value) {
            Some(value)
        } else {
            None
        },
        None => None,
    }
}

/// A line that begins at a given place ends at one place only.
pub proof fn lemma_line_end_unique(text: Seq<char>, from: int, a: int, b: int)
    requires
        is_line(text, from, a),
        is_line(text, from, b),
    ensures
        a == b,
{
    if a < b {
        assert(text[a] != '\n');
    }
    if b < a {
        assert(text[b] != '\n');
    }
}

/// There is one first line with a given key at most.
pub proof fn lemma_first_key_line_unique(
    text: Seq<char>,
    key: Seq<char>,
    f1: int,
    t1: int,
    f2: int,
    t2: int,
)
    requires
        is_first_key_line(text, key, f1, t1),
        is_first_key_line(text, key, f2, t2),
    ensures
        f1 == f2,
        t1 == t2,
{
    if f1 < f2 {
        assert(is_line(text, f1, t1));
    }
    if f2 < f1 {
        assert(is_line(text, f2, t2));
    }
    lemma_line_end_unique(text, f1, t1, t2);
}

/// A value ends at one place only.
pub proof fn lemma_value_end_unique(text: Seq<char>, start: int, limit: int, a: int, b: int)
    requires
        is_value_end(text, start, limit, a),
        is_value_end(text, start, limit, b),
    ensures
        a == b,
{
    if a < b {
        assert(text[a] != '=');
    }
    if b < a {
        assert(text[b] != '=');
    }
}

/// Finds the value of the first line of `text` that begins with `key`: see
/// [`keyed_value`].
pub fn find_keyed_value(text: &str, key: &str) -> (r: Option<String>)
    ensures
        text_option_model(r) == keyed_value(text@, key@),
{
    let chars = chars_of(text);
    let pattern = chars_of(key);
    let n: usize = chars.len();
    let mut at: usize = 0;
    while at < n
        invariant
            chars@ == text@,
            pattern@ == key@,
            n == chars.len(),
            at <= n,
            at == 0 || chars@[at - 1] == '\n',
            forall|f: int, t: int|
                f < at && #[trigger] is_line(chars@, f, t) ==> !is_key_line(chars@, pattern@, f, t),
        decreases n - at,
    {
        let mut to: usize = at;
        while to < n && chars[to] != '\n'
            invariant
                n == chars.len(),
                at <= to <= n,
                forall|k: int| at <= k < to ==> #[trigger] chars@[k] != '\n',
            decreases n - to,
        {
            to += 1;
        }
        assert(is_line(chars@, at as int, to as int));
        let limit: usize = if at < to && to < n && chars[to - 1] == '\r' {
            to - 1
        } else {
            to
        };
        assert(limit == content_end(chars@, at as int, to as int));
        if matches_at(&chars, &pattern, at) && pattern.len() <= limit - at {
            let start: usize = at + pattern.len();
            let mut end: usize = start;
            while end < limit && chars[end] != '='
                invariant
                    start <= end <= limit <= n,
                    n == chars.len(),
                    forall|k: int| start <= k < end ==> #[trigger] chars@[k] != '=',
                decreases limit - end,
            {
                end += 1;
            }
            proof {
                assert(is_first_key_line(chars@, pattern@, at as int, to as int));
                let (f, t) = choose|f: int, t: int| is_first_key_line(chars@, pattern@, f, t);
                lemma_first_key_line_unique(chars@, pattern@, f, t, at as int, to as int);
                assert(is_value_end(chars@, start as int, limit as int, end as int));
                let e = choose|e: int| is_value_end(chars@, start as int, limit as int, e);
                lemma_value_end_unique(chars@, start as int, limit as int, e, end as int);
            }
            return Some(slice_of(text, start, end));
        }
        assert forall|f: int, t: int|
            f <= to && #[trigger] is_line(chars@, f, t) implies !is_key_line(
            chars@,
            pattern@,
            f,
            t,
        ) by {
            if at < f {
                assert(chars@[f - 1] != '\n');
            } else if f == at {
                lemma_line_end_unique(chars@, f, t, to as int);
            }
        }
        if to == n {
            assert forall|from: int, t: int| !is_first_key_line(chars@, pattern@, from, t) by {
                if is_line(chars@, from, t) {
                    assert(!is_key_line(chars@, pattern@, from, t));
                }
            }
            return None;
        }
        at = to + 1;
    }
    assert forall|from: int, t: int| !is_first_key_line(chars@, pattern@, from, t) by {
        if is_line(chars@, from, t) {
            assert(!is_key_line(chars@, pattern@, from, t));
        }
    }
    None
}

/// Finds the version that a browser's metadata file records: see
/// [`metadata_version`].
pub fn find_metadata_version(text: &str) -> (r: Option<String>)
    ensures
        text_option_model(r) == metadata_version(text@),
        r matches Some(version) ==> looks_like_version(version@),
{
    match find_keyed_value(text, "Version=") {
        Some(value) => if has_version_look(value.as_str()) {
            Some(value)
        } else {
            None
        },
        None => None,
    }
}

} // verus!
