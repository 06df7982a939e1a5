//! Character-level text helpers shared by the status and patch parsers.
//!
//! Specifications speak over `Seq<char>`, the view of `&str` and `String`.
//! The executable helpers work on a `Vec<char>` copy of the input, so the
//! parsers can index characters directly.

use vstd::prelude::*;

verus! {

/// ASCII whitespace, the only kind the parsers ever meet.
pub open spec fn is_space(c: char) -> bool {
    c == ' ' || c == '\t' || c == '\n' || c == '\r' || c == '\u{B}' || c == '\u{C}'
}

/// `p` is a prefix of `s`.
pub open spec fn spec_starts_with(s: Seq<char>, p: Seq<char>) -> bool {
    p.len() <= s.len() && s.subrange(0, p.len() as int) == p
}

/// Index of the first occurrence of `c` in `s`, or `s.len()` if there is
/// none.
pub open spec fn char_break(s: Seq<char>, c: char) -> int
    decreases s.len(),
{
    if s.len() == 0 {
        0
    } else if s[0] == c {
        0
    } else {
        1 + char_break(s.drop_first(), c)
    }
}

/// The first occurrence of a character is where it is found: the index is
/// pinned down by what stands before and at it.
pub proof fn lemma_char_break_is(s: Seq<char>, c: char, k: int)
    requires
        0 <= k <= s.len(),
        forall|i: int| 0 <= i < k ==> s[i] != c,
        k < s.len() ==> s[k] == c,
    ensures
        char_break(s, c) == k,
    decreases s.len(),
{
    if s.len() > 0 && s[0] != c {
        assert forall|i: int| 0 <= i < k - 1 implies s.drop_first()[i] != c by {
            assert(s[i + 1] != c);
        }
        lemma_char_break_is(s.drop_first(), c, k - 1);
    }
}

/// Index of the first line feed in `text`, or `text.len()` if there is none.
pub open spec fn line_break(text: Seq<char>) -> int {
    char_break(text, '\n')
}

/// The first line feed is where the first line feed is found.
pub proof fn lemma_line_break_is(text: Seq<char>, k: int)
    requires
        0 <= k <= text.len(),
        forall|i: int| 0 <= i < k ==> text[i] != '\n',
        k < text.len() ==> text[k] == '\n',
    ensures
        line_break(text) == k,
{
    lemma_char_break_is(text, '\n', k);
}

/// A carriage return left at the end of a line by a CRLF line ending.
pub open spec fn strip_cr(line: Seq<char>) -> Seq<char> {
    if line.len() > 0 && line.last() == '\r' {
        line.drop_last()
    } else {
        line
    }
}

/// The lines of `text`, split at line feeds, with a carriage return dropped
/// from the end of every terminated line.  A final line without a terminator
/// is kept as it stands; a trailing terminator adds no empty line.
pub open spec fn lines_of(text: Seq<char>) -> Seq<Seq<char>>
    decreases text.len(),
{
    if text.len() == 0 {
        seq![]
    } else {
        let k = line_break(text);
        if 0 <= k < text.len() {
            seq![strip_cr(text.subrange(0, k))] + lines_of(
                text.subrange(k + 1, text.len() as int),
            )
        } else {
            seq![text]
        }
    }
}

/// `text` with leading ASCII whitespace dropped.
pub open spec fn trim_start_of(text: Seq<char>) -> Seq<char>
    decreases text.len(),
{
    if text.len() > 0 && is_space(text[0]) {
        trim_start_of(text.drop_first())
    } else {
        text
    }
}

/// `text` with trailing ASCII whitespace dropped.
pub open spec fn trim_end_of(text: Seq<char>) -> Seq<char>
    decreases text.len(),
{
    if text.len() > 0 && is_space(text.last()) {
        trim_end_of(text.drop_last())
    } else {
        text
    }
}

/// `text` with whitespace dropped at both ends.
pub open spec fn trim_of(text: Seq<char>) -> Seq<char> {
    trim_end_of(trim_start_of(text))
}

/// The decimal digit `d` as a character; meaningful for `0 <= d <= 9`.
pub open spec fn dec_digit_char(d: int) -> char {
    ((48 + d) as u8) as char
}

/// The decimal rendering of `n`, most significant digit first.
pub open spec fn dec_str(n: nat) -> Seq<char>
    decreases n,
{
    if n < 10 {
        seq![dec_digit_char(n as int)]
    } else {
        dec_str(n / 10) + seq![dec_digit_char((n % 10) as int)]
    }
}

/// The character sequences behind a sequence of strings.
pub open spec fn views_of(v: Seq<String>) -> Seq<Seq<char>> {
    v.map_values(|l: String| l@)
}

/// Relies on `String::push`: appends one character to the string.
#[verifier::external_body]
pub fn push_char(s: &mut String, c: char)
    ensures
        final(s)@ == old(s)@.push(c),
{
    s.push(c);
}

/// The characters of `s` as a vector, for direct indexing.
pub fn char_vec(s: &str) -> (r: Vec<char>)
    ensures
        r@ == s@,
{
    let n = s.unicode_len();
    let mut r: Vec<char> = Vec::new();
    let mut i: usize = 0;
    while i < n
        invariant
            i <= n,
            n == s@.len(),
            r@ == s@.take(i as int),
        decreases n - i,
    {
        let c = s.get_char(i);
        r.push(c);
        proof {
            assert(r@ =~= s@.take(i + 1 as int));
        }
        i = i + 1;
    }
    proof {
        assert(r@ =~= s@);
    }
    r
}

/// The characters `v[from..to]` as a fresh string.
pub fn string_of_range(v: &Vec<char>, from: usize, to: usize) -> (r: String)
    requires
        from <= to <= v@.len(),
    ensures
        r@ == v@.subrange(from as int, to as int),
{
    let mut r = String::new();
    let mut i: usize = from;
    while i < to
        invariant
            from <= i <= to <= v@.len(),
            r@ == v@.subrange(from as int, i as int),
        decreases to - i,
    {
        push_char(&mut r, v[i]);
        proof {
            assert(r@ =~= v@.subrange(from as int, i + 1 as int));
        }
        i = i + 1;
    }
    r
}

/// Index of the first occurrence of `c` in `v` at or after `from`, or
/// `v.len()` if there is none.
pub fn find_char(v: &Vec<char>, from: usize, c: char) -> (k: usize)
    requires
        from <= v@.len(),
    ensures
        from <= k <= v@.len(),
        forall|i: int| from <= i < k ==> v@[i] != c,
        k < v@.len() ==> v@[k as int] == c,
{
    let mut k: usize = from;
    while k < v.len()
        invariant
            from <= k <= v@.len(),
            forall|i: int| from <= i < k ==> v@[i] != c,
        decreases v@.len() - k,
    {
        if v[k] == c {
            return k;
        }
        k = k + 1;
    }
    k
}

/// Whether the characters of `p` stand in `v` at position `from`.
pub fn starts_with_at(v: &Vec<char>, from: usize, p: &str) -> (r: bool)
    requires
        from <= v@.len(),
    ensures
        r == spec_starts_with(v@.skip(from as int), p@),
{
    let n = p.unicode_len();
    let vn = v.len();
    if vn - from < n {
        proof {
            assert(!spec_starts_with(v@.skip(from as int), p@));
        }
        return false;
    }
    let mut i: usize = 0;
    while i < n
        invariant
            i <= n,
            n == p@.len(),
            from + n <= vn,
            vn == v@.len(),
            forall|j: int| 0 <= j < i ==> v@[from + j] == p@[j],
        decreases n - i,
    {
        if v[from + i] != p.get_char(i) {
            proof {
                assert(v@.skip(from as int)[i as int] != p@[i as int]);
            }
            return false;
        }
        i = i + 1;
    }
    proof {
        assert(v@.skip(from as int).subrange(0, p@.len() as int) =~= p@);
    }
    true
}

/// Whether two strings hold the same characters.
pub fn str_eq(a: &str, b: &str) -> (r: bool)
    ensures
        r == (a@ == b@),
{
    let na = a.unicode_len();
    let nb = b.unicode_len();
    if na != nb {
        return false;
    }
    let mut i: usize = 0;
    while i < na
        invariant
            i <= na,
            na == a@.len(),
            na == b@.len(),
            forall|j: int| 0 <= j < i ==> a@[j] == b@[j],
        decreases na - i,
    {
        if a.get_char(i) != b.get_char(i) {
            return false;
        }
        i = i + 1;
    }
    proof {
        assert(a@ =~= b@);
    }
    true
}

/// `s` with whitespace dropped at both ends, as a fresh string.
pub fn trim(s: &str) -> (r: String)
    ensures
        r@ == trim_of(s@),
{
    let v = char_vec(s);
    let n = v.len();
    let mut start: usize = 0;
    while start < n && is_space_exec(v[start])
        invariant
            start <= n,
            n == v@.len(),
            v@ == s@,
            forall|i: int| 0 <= i < start ==> is_space(v@[i]),
        decreases n - start,
    {
        start = start + 1;
    }
    let mut end: usize = n;
    while end > start && is_space_exec(v[end - 1])
        invariant
            start <= end <= n,
            n == v@.len(),
            v@ == s@,
            forall|i: int| 0 <= i < start ==> is_space(v@[i]),
            forall|i: int| end <= i < n ==> is_space(v@[i]),
        decreases end,
    {
        end = end - 1;
    }
    let r = string_of_range(&v, start, end);
    proof {
        lemma_trim_start_at(s@, start as int);
        if start < n {
            lemma_trim_end_at(s@.subrange(start as int, n as int), end - start);
            assert(s@.subrange(start as int, n as int).subrange(0, end - start) =~= s@.subrange(
                start as int,
                end as int,
            ));
        } else {
            assert(trim_start_of(s@) =~= Seq::<char>::empty());
            assert(r@ =~= Seq::<char>::empty());
        }
    }
    r
}

/// Whether `c` is ASCII whitespace.
pub fn is_space_exec(c: char) -> (r: bool)
    ensures
        r == is_space(c),
{
    c == ' ' || c == '\t' || c == '\n' || c == '\r' || c == '\u{B}' || c == '\u{C}'
}

/// Dropping leading whitespace keeps exactly the tail from the first
/// non-space character on.
proof fn lemma_trim_start_at(text: Seq<char>, k: int)
    requires
        0 <= k <= text.len(),
        forall|i: int| 0 <= i < k ==> is_space(text[i]),
        k < text.len() ==> !is_space(text[k]),
    ensures
        trim_start_of(text) == text.subrange(k, text.len() as int),
    decreases text.len(),
{
    if text.len() == 0 {
        assert(trim_start_of(text) =~= text.subrange(k, text.len() as int));
    } else if k == 0 {
        assert(trim_start_of(text) =~= text.subrange(0, text.len() as int));
    } else {
        assert forall|i: int| 0 <= i < k - 1 implies is_space(text.drop_first()[i]) by {
            assert(is_space(text[i + 1]));
        }
        lemma_trim_start_at(text.drop_first(), k - 1);
        assert(text.drop_first().subrange(k - 1, text.drop_first().len() as int) =~= text.subrange(
            k,
            text.len() as int,
        ));
    }
}

/// Dropping trailing whitespace keeps exactly the head up to the last
/// non-space character.
proof fn lemma_trim_end_at(text: Seq<char>, k: int)
    requires
        0 <= k <= text.len(),
        forall|i: int| k <= i < text.len() ==> is_space(text[i]),
        k > 0 ==> !is_space(text[k - 1]),
    ensures
        trim_end_of(text) == text.subrange(0, k),
    decreases text.len(),
{
    if text.len() == 0 {
        assert(trim_end_of(text) =~= text.subrange(0, k));
    } else if k == text.len() {
        assert(trim_end_of(text) =~= text.subrange(0, text.len() as int));
    } else {
        lemma_trim_end_at(text.drop_last(), k);
        assert(text.drop_last().subrange(0, k) =~= text.subrange(0, k));
    }
}

/// The lines of `s`, exactly as `lines_of` describes them.
pub fn split_lines(s: &str) -> (r: Vec<String>)
    ensures
        views_of(r@) == lines_of(s@),
{
    let v = char_vec(s);
    let n = v.len();
    let mut r: Vec<String> = Vec::new();
    let mut pos: usize = 0;
    proof {
        assert(s@.skip(0) =~= s@);
        assert(views_of(r@) + lines_of(s@) =~= lines_of(s@));
    }
    while pos < n
        invariant
            pos <= n,
            n == v@.len(),
            v@ == s@,
            lines_of(s@) == views_of(r@) + lines_of(s@.skip(pos as int)),
        decreases n - pos,
    {
        let ghost prev = r@;
        let k = find_char(&v, pos, '\n');
        let ghost suf = s@.skip(pos as int);
        proof {
            lemma_line_break_is(suf, k - pos);
        }
        if k < n {
            let end = if k > pos && v[k - 1] == '\r' {
                k - 1
            } else {
                k
            };
            let line = string_of_range(&v, pos, end);
            r.push(line);
            proof {
                assert(suf.subrange(0, k - pos) =~= s@.subrange(pos as int, k as int));
                assert(strip_cr(s@.subrange(pos as int, k as int)) =~= s@.subrange(
                    pos as int,
                    end as int,
                ));
                assert(suf.subrange(k - pos + 1, suf.len() as int) =~= s@.skip(k + 1 as int));
                assert(views_of(r@) =~= views_of(prev) + seq![line@]);
                assert(lines_of(s@) =~= views_of(r@) + lines_of(s@.skip(k + 1 as int)));
            }
            pos = k + 1;
        } else {
            let line = string_of_range(&v, pos, n);
            r.push(line);
            proof {
                assert(suf =~= s@.subrange(pos as int, n as int));
                assert(lines_of(suf) =~= seq![suf]);
                assert(views_of(r@) =~= views_of(prev) + seq![line@]);
                assert(lines_of(s@) =~= views_of(r@) + lines_of(s@.skip(n as int)));
            }
            pos = n;
        }
    }
    proof {
        assert(s@.skip(pos as int) =~= Seq::<char>::empty());
        assert(lines_of(s@) =~= views_of(r@));
    }
    r
}

/// The decimal rendering of `n`.
pub fn u128_to_string(n: u128) -> (r: String)
    ensures
        r@ == dec_str(n as nat),
    decreases n,
{
    if n < 10 {
        let mut r = String::new();
        let d: u8 = 48 + (n as u8);
        push_char(&mut r, d as char);
        proof {
            assert(r@ =~= dec_str(n as nat));
        }
        r
    } else {
        let mut r = u128_to_string(n / 10);
        let d: u8 = 48 + ((n % 10) as u8);
        push_char(&mut r, d as char);
        proof {
            assert(r@ =~= dec_str(n as nat));
        }
        r
    }
}

/// The decimal rendering of `n`.
pub fn u64_to_string(n: u64) -> (r: String)
    ensures
        r@ == dec_str(n as nat),
{
    u128_to_string(n as u128)
}

/// The decimal rendering of `n`.
pub fn usize_to_string(n: usize) -> (r: String)
    ensures
        r@ == dec_str(n as nat),
{
    u128_to_string(n as u128)
}

} // verus!
