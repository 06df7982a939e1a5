//! Small formatting and commit-message utilities.

use vstd::prelude::*;
use crate::text::{
    char_break, char_vec, dec_str, find_char, lemma_char_break_is, push_char, str_eq,
    string_of_range, trim, trim_of, u128_to_string,
};

verus! {

/// How many times `bytes` is divided by 1024 before display, capped at the
/// gigabyte unit.
pub open spec fn size_unit_index(bytes: nat) -> nat {
    if bytes < 1024 {
        0
    } else if bytes < 1048576 {
        1
    } else if bytes < 1073741824 {
        2
    } else {
        3
    }
}

/// The divisor belonging to a unit index.
pub open spec fn size_divisor(unit: nat) -> nat {
    if unit == 0 {
        1
    } else if unit == 1 {
        1024
    } else if unit == 2 {
        1048576
    } else {
        1073741824
    }
}

/// The unit suffix belonging to a unit index.
pub open spec fn size_unit_name(unit: nat) -> Seq<char> {
    if unit == 0 {
        seq!['B']
    } else if unit == 1 {
        seq!['K', 'B']
    } else if unit == 2 {
        seq!['M', 'B']
    } else {
        seq!['G', 'B']
    }
}

/// The display of `bytes` in its unit, with one decimal digit rounded half
/// up: the whole part, a point, the tenths digit, a space, the unit name.
pub open spec fn size_rendering(bytes: nat) -> Seq<char> {
    let div = size_divisor(size_unit_index(bytes));
    let whole = bytes / div;
    let tenths = (bytes % div * 10 + div / 2) / div;
    if tenths == 10 {
        dec_str(whole + 1) + seq!['.', '0', ' '] + size_unit_name(size_unit_index(bytes))
    } else {
        dec_str(whole) + seq!['.'] + dec_str(tenths) + seq![' '] + size_unit_name(
            size_unit_index(bytes),
        )
    }
}

/// Render a byte count for display, scaled to the largest unit under which
/// it is at least one, gigabytes at most.
pub fn format_file_size(bytes: u64) -> (r: String)
    ensures
        r@ == size_rendering(bytes as nat),
{
    let (div, c0, c1): (u64, char, char) = if bytes < 1024 {
        (1, 'B', ' ')
    } else if bytes < 1048576 {
        (1024, 'K', 'B')
    } else if bytes < 1073741824 {
        (1048576, 'M', 'B')
    } else {
        (1073741824, 'G', 'B')
    };
    let whole: u128 = bytes as u128 / div as u128;
    let frac: u128 = bytes as u128 % div as u128;
    let tenths: u128 = (frac * 10 + div as u128 / 2) / div as u128;
    let mut r = if tenths == 10 {
        let mut s = u128_to_string(whole + 1);
        push_char(&mut s, '.');
        push_char(&mut s, '0');
        push_char(&mut s, ' ');
        s
    } else {
        let mut s = u128_to_string(whole);
        push_char(&mut s, '.');
        let t = u128_to_string(tenths);
        s.append(t.as_str());
        push_char(&mut s, ' ');
        s
    };
    push_char(&mut r, c0);
    if div > 1 {
        push_char(&mut r, c1);
    }
    proof {
        assert(r@ =~= size_rendering(bytes as nat));
    }
    r
}

/// `s` unchanged while it fits in `max_len` characters; otherwise its first
/// `max_len - 3` characters with an ellipsis of three dots.
pub open spec fn truncated(s: Seq<char>, max_len: nat) -> Seq<char> {
    if s.len() <= max_len {
        s
    } else {
        s.take(max_len - 3) + seq!['.', '.', '.']
    }
}

/// Shorten `s` for display.  A string longer than `max_len` is cut so that
/// the result, ellipsis included, is exactly `max_len` characters.
pub fn truncate_string(s: &str, max_len: usize) -> (r: String)
    requires
        s@.len() > max_len ==> max_len >= 3,
    ensures
        r@ == truncated(s@, max_len as nat),
{
    let v = char_vec(s);
    if v.len() <= max_len {
        let r = string_of_range(&v, 0, v.len());
        proof {
            assert(r@ =~= s@);
        }
        r
    } else {
        let mut r = string_of_range(&v, 0, max_len - 3);
        push_char(&mut r, '.');
        push_char(&mut r, '.');
        push_char(&mut r, '.');
        proof {
            assert(r@ =~= truncated(s@, max_len as nat));
        }
        r
    }
}

/// A character allowed in a conventional-commit type: a lowercase ASCII
/// letter or a hyphen.
pub open spec fn is_type_char(c: char) -> bool {
    (97 <= c as u32 <= 122) || c == '-'
}

/// The conventional-commit type of a message: what stands before the first
/// colon of the trimmed message, provided it is at most 20 characters of
/// lowercase ASCII letters and hyphens.  `None` when there is no colon or
/// the prefix fails the shape.
pub open spec fn commit_type_of(message: Seq<char>) -> Option<Seq<char>> {
    let t = trim_of(message);
    let k = char_break(t, ':');
    if k < t.len() {
        let prefix = t.take(k);
        if prefix.len() <= 20 && (forall|i: int| 0 <= i < prefix.len() ==> is_type_char(
            prefix[i],
        )) {
            Some(prefix)
        } else {
            None
        }
    } else {
        None
    }
}

/// Extract the conventional-commit type of a message, if it has one.
pub fn extract_commit_type(message: &str) -> (r: Option<String>)
    ensures
        r is None ==> commit_type_of(message@) is None,
        r matches Some(s) ==> commit_type_of(message@) == Some(s@),
{
    let t = trim(message);
    let tv = char_vec(t.as_str());
    let k = find_char(&tv, 0, ':');
    proof {
        lemma_char_break_is(tv@, ':', k as int);
    }
    if k < tv.len() {
        if k <= 20 {
            let mut i: usize = 0;
            while i < k
                invariant
                    i <= k,
                    k <= 20,
                    k < tv@.len(),
                    tv@ == trim_of(message@),
                    char_break(tv@, ':') == k,
                    forall|j: int| 0 <= j < i ==> is_type_char(tv@[j]),
                decreases k - i,
            {
                let c = tv[i];
                if !((97 <= c as u32 && c as u32 <= 122) || c == '-') {
                    proof {
                        assert(!is_type_char(trim_of(message@).take(k as int)[i as int]));
                    }
                    return None;
                }
                i = i + 1;
            }
            let p = string_of_range(&tv, 0, k);
            proof {
                assert(p@ =~= trim_of(message@).take(k as int));
                assert forall|j: int| 0 <= j < p@.len() implies is_type_char(p@[j]) by {
                    assert(p@[j] == tv@[j]);
                }
            }
            Some(p)
        } else {
            proof {
                assert(trim_of(message@).take(k as int).len() > 20);
            }
            None
        }
    } else {
        None
    }
}

/// Whether a message carries a conventional-commit type.
pub fn is_conventional_commit(message: &str) -> (r: bool)
    ensures
        r == (commit_type_of(message@) is Some),
{
    let t = extract_commit_type(message);
    t.is_some()
}

/// The emoji shown beside a conventional-commit type.
pub open spec fn emoji_of(t: Seq<char>) -> Seq<char> {
    if t == "feat"@ {
        "\u{2728}"@
    } else if t == "fix"@ {
        "\u{1F41B}"@
    } else if t == "docs"@ {
        "\u{1F4DA}"@
    } else if t == "style"@ {
        "\u{1F484}"@
    } else if t == "refactor"@ {
        "\u{267B}\u{FE0F}"@
    } else if t == "test"@ {
        "\u{1F9EA}"@
    } else if t == "chore"@ {
        "\u{1F527}"@
    } else if t == "perf"@ {
        "\u{26A1}"@
    } else if t == "ci"@ {
        "\u{1F477}"@
    } else if t == "build"@ {
        "\u{1F4E6}"@
    } else if t == "revert"@ {
        "\u{23EA}"@
    } else {
        "\u{1F4DD}"@
    }
}

/// The emoji shown beside a conventional-commit type.
pub fn get_commit_emoji(commit_type: &str) -> (r: &str)
    ensures
        r@ == emoji_of(commit_type@),
{
    if str_eq(commit_type, "feat") {
        "\u{2728}"
    } else if str_eq(commit_type, "fix") {
        "\u{1F41B}"
    } else if str_eq(commit_type, "docs") {
        "\u{1F4DA}"
    } else if str_eq(commit_type, "style") {
        "\u{1F484}"
    } else if str_eq(commit_type, "refactor") {
        "\u{267B}\u{FE0F}"
    } else if str_eq(commit_type, "test") {
        "\u{1F9EA}"
    } else if str_eq(commit_type, "chore") {
        "\u{1F527}"
    } else if str_eq(commit_type, "perf") {
        "\u{26A1}"
    } else if str_eq(commit_type, "ci") {
        "\u{1F477}"
    } else if str_eq(commit_type, "build") {
        "\u{1F4E6}"
    } else if str_eq(commit_type, "revert") {
        "\u{23EA}"
    } else {
        "\u{1F4DD}"
    }
}

} // verus!
