//! Per-commit diff records and touched-file extraction from patch text.
//!
//! A patch names the files it touches on its `diff --git`, `+++` and `---`
//! lines.  Extraction collects those paths as a set: duplicates across the
//! three line forms collapse, and the `/dev/null` marker of a created or
//! deleted file contributes nothing.

use vstd::prelude::*;
use crate::text::{
    char_vec, is_space, is_space_exec, lines_of, spec_starts_with, split_lines, starts_with_at,
    str_eq, string_of_range, views_of,
};

verus! {

/// One commit, or the synthetic `STAGED` record standing for the index.
pub struct CommitInfo {
    pub hash: String,
    pub message: String,
    pub author: String,
    pub date: String,
    pub files_changed: Vec<String>,
    pub diff: String,
}

/// An ordered sequence of change records with the count of distinct files
/// they touch between them.  Addition and deletion counters are not
/// computed and stay zero.
pub struct DiffInfo {
    pub commits: Vec<CommitInfo>,
    pub total_files_changed: usize,
    pub total_additions: i32,
    pub total_deletions: i32,
}

/// Index of the first whitespace character, or `s.len()` if there is none.
pub open spec fn space_break(s: Seq<char>) -> int
    decreases s.len(),
{
    if s.len() == 0 {
        0
    } else if is_space(s[0]) {
        0
    } else {
        1 + space_break(s.drop_first())
    }
}

/// The first whitespace is where the first whitespace is found.
pub proof fn lemma_space_break_is(s: Seq<char>, k: int)
    requires
        0 <= k <= s.len(),
        forall|i: int| 0 <= i < k ==> !is_space(s[i]),
        k < s.len() ==> is_space(s[k]),
    ensures
        space_break(s) == k,
    decreases s.len(),
{
    if s.len() > 0 && !is_space(s[0]) {
        assert forall|i: int| 0 <= i < k - 1 implies !is_space(s.drop_first()[i]) by {
            assert(!is_space(s[i + 1]));
        }
        lemma_space_break_is(s.drop_first(), k - 1);
    }
}

/// The whitespace-separated tokens of a line, in order.
pub open spec fn tokens_of(s: Seq<char>) -> Seq<Seq<char>>
    decreases s.len(),
{
    if s.len() == 0 {
        seq![]
    } else if is_space(s[0]) {
        tokens_of(s.drop_first())
    } else {
        let k = space_break(s);
        if 0 < k <= s.len() {
            seq![s.subrange(0, k)] + tokens_of(s.subrange(k, s.len() as int))
        } else {
            seq![s]
        }
    }
}

/// `p` with one leading `a/` dropped, if it carries one.
pub open spec fn strip_a(p: Seq<char>) -> Seq<char> {
    if spec_starts_with(p, "a/"@) {
        p.skip(2)
    } else {
        p
    }
}

/// `p` with one leading `b/` dropped, if it carries one.
pub open spec fn strip_b(p: Seq<char>) -> Seq<char> {
    if spec_starts_with(p, "b/"@) {
        p.skip(2)
    } else {
        p
    }
}

/// A `+++` or `---` line with its four-character marker dropped.
pub open spec fn strip_marker(line: Seq<char>) -> Seq<char> {
    if spec_starts_with(line, "+++ "@) || spec_starts_with(line, "--- "@) {
        line.skip(4)
    } else {
        line
    }
}

/// The path a single patch line contributes, if any.
///
/// A `diff --git` line contributes its third whitespace-separated token with
/// a leading `a/` dropped.  A `+++` or `---` line contributes what follows
/// its marker, with a leading `a/` then a leading `b/` dropped, unless that
/// remainder starts with `/dev/null`.  Every other line contributes nothing.
pub open spec fn extract_path(line: Seq<char>) -> Option<Seq<char>> {
    if spec_starts_with(line, "diff --git"@) {
        let toks = tokens_of(line);
        if toks.len() >= 3 {
            Some(strip_a(toks[2]))
        } else {
            None
        }
    } else if spec_starts_with(line, "+++"@) || spec_starts_with(line, "---"@) {
        let rest = strip_marker(line);
        if spec_starts_with(rest, "/dev/null"@) {
            None
        } else {
            Some(strip_b(strip_a(rest)))
        }
    } else {
        None
    }
}

/// The set of paths contributed by a sequence of patch lines.
pub open spec fn paths_of_lines(lines: Seq<Seq<char>>) -> Set<Seq<char>>
    decreases lines.len(),
{
    if lines.len() == 0 {
        Set::empty()
    } else {
        match extract_path(lines.last()) {
            Some(p) => paths_of_lines(lines.drop_last()).insert(p),
            None => paths_of_lines(lines.drop_last()),
        }
    }
}

/// The set of paths a whole patch touches.
pub open spec fn extracted_paths(text: Seq<char>) -> Set<Seq<char>> {
    paths_of_lines(lines_of(text))
}

/// The paths contributed by a sequence of patch lines, each kept once, in
/// the order first contributed.
pub open spec fn distinct_paths_of_lines(lines: Seq<Seq<char>>) -> Seq<Seq<char>>
    decreases lines.len(),
{
    if lines.len() == 0 {
        seq![]
    } else {
        let pre = distinct_paths_of_lines(lines.drop_last());
        match extract_path(lines.last()) {
            Some(p) => if pre.contains(p) {
                pre
            } else {
                pre.push(p)
            },
            None => pre,
        }
    }
}

/// The distinct paths a whole patch touches, in the order first met.
pub open spec fn distinct_extracted_paths(text: Seq<char>) -> Seq<Seq<char>> {
    distinct_paths_of_lines(lines_of(text))
}

/// The union of the changed-file sets of a sequence of commits.
pub open spec fn union_files(commits: Seq<CommitInfo>) -> Set<Seq<char>>
    decreases commits.len(),
{
    if commits.len() == 0 {
        Set::empty()
    } else {
        union_files(commits.drop_last()) + views_of(commits.last().files_changed@).to_set()
    }
}

/// Law: a marker line naming `/dev/null` contributes no path.
pub proof fn lemma_dev_null_excluded(line: Seq<char>)
    requires
        spec_starts_with(line, "+++ /dev/null"@) || spec_starts_with(line, "--- /dev/null"@),
    ensures
        extract_path(line) is None,
{
    reveal_strlit("+++ /dev/null");
    reveal_strlit("--- /dev/null");
    reveal_strlit("+++ ");
    reveal_strlit("--- ");
    reveal_strlit("+++");
    reveal_strlit("---");
    reveal_strlit("/dev/null");
    reveal_strlit("diff --git");
    let lit = if spec_starts_with(line, "+++ /dev/null"@) {
        "+++ /dev/null"@
    } else {
        "--- /dev/null"@
    };
    assert(line.subrange(0, 13) == lit);
    assert forall|i: int| 0 <= i < 13 implies line[i] == lit[i] by {
        assert(line.subrange(0, 13)[i] == line[i]);
    }
    if spec_starts_with(line, "+++ /dev/null"@) {
        assert(line.subrange(0, 4) =~= "+++ "@);
        assert(line.subrange(0, 3) =~= "+++"@);
    } else {
        assert(line.subrange(0, 4) =~= "--- "@);
        assert(line.subrange(0, 3) =~= "---"@);
    }
    assert(line.skip(4).subrange(0, 9) =~= "/dev/null"@);
    if spec_starts_with(line, "diff --git"@) {
        assert(line.subrange(0, 10)[0] == "diff --git"@[0]);
        assert(false);
    }
    assert(spec_starts_with(strip_marker(line), "/dev/null"@));
}

/// Index of the first whitespace character in `v` at or after `from`, or
/// `v.len()` if there is none.
fn find_space(v: &Vec<char>, from: usize) -> (k: usize)
    requires
        from <= v@.len(),
    ensures
        from <= k <= v@.len(),
        forall|i: int| from <= i < k ==> !is_space(v@[i]),
        k < v@.len() ==> is_space(v@[k as int]),
{
    let mut k: usize = from;
    while k < v.len()
        invariant
            from <= k <= v@.len(),
            forall|i: int| from <= i < k ==> !is_space(v@[i]),
        decreases v@.len() - k,
    {
        if is_space_exec(v[k]) {
            return k;
        }
        k = k + 1;
    }
    k
}

/// The whitespace-separated tokens of `v`, exactly as `tokens_of` lists them.
pub fn tokens(v: &Vec<char>) -> (r: Vec<String>)
    ensures
        views_of(r@) == tokens_of(v@),
{
    let n = v.len();
    let mut r: Vec<String> = Vec::new();
    let mut pos: usize = 0;
    proof {
        assert(v@.skip(0) =~= v@);
        assert(views_of(r@) + tokens_of(v@) =~= tokens_of(v@));
    }
    while pos < n
        invariant
            pos <= n,
            n == v@.len(),
            tokens_of(v@) == views_of(r@) + tokens_of(v@.skip(pos as int)),
        decreases n - pos,
    {
        if is_space_exec(v[pos]) {
            proof {
                assert(v@.skip(pos as int).drop_first() =~= v@.skip(pos + 1));
            }
            pos = pos + 1;
        } else {
            let k = find_space(v, pos);
            let tok = string_of_range(v, pos, k);
            let ghost prev = r@;
            r.push(tok);
            proof {
                let suf = v@.skip(pos as int);
                lemma_space_break_is(suf, k - pos);
                assert(suf.subrange(0, k - pos) =~= v@.subrange(pos as int, k as int));
                assert(suf.subrange(k - pos, suf.len() as int) =~= v@.skip(k as int));
                assert(views_of(r@) =~= views_of(prev) + seq![tok@]);
                assert(tokens_of(v@) =~= views_of(r@) + tokens_of(v@.skip(k as int)));
            }
            pos = k;
        }
    }
    proof {
        assert(v@.skip(pos as int) =~= Seq::<char>::empty());
        assert(tokens_of(v@) =~= views_of(r@));
    }
    r
}

/// The path one patch line contributes, if any.
pub fn extract_path_line(lv: &Vec<char>) -> (r: Option<String>)
    ensures
        r is None ==> extract_path(lv@) is None,
        r matches Some(s) ==> extract_path(lv@) == Some(s@),
{
    proof {
        reveal_strlit("diff --git");
        reveal_strlit("a/");
        reveal_strlit("b/");
        reveal_strlit("+++");
        reveal_strlit("---");
        reveal_strlit("+++ ");
        reveal_strlit("--- ");
        reveal_strlit("/dev/null");
        assert(lv@.skip(0) =~= lv@);
    }
    if starts_with_at(lv, 0, "diff --git") {
        let toks = tokens(lv);
        if toks.len() >= 3 {
            let t: &String = &toks[2];
            let tv = char_vec(t.as_str());
            proof {
                assert(tv@ == tokens_of(lv@)[2]);
                assert(tv@.skip(0) =~= tv@);
            }
            if starts_with_at(&tv, 0, "a/") {
                let p = string_of_range(&tv, 2, tv.len());
                proof {
                    assert(p@ =~= strip_a(tv@));
                }
                Some(p)
            } else {
                let p = t.clone();
                Some(p)
            }
        } else {
            None
        }
    } else if starts_with_at(lv, 0, "+++") || starts_with_at(lv, 0, "---") {
        let start: usize = if starts_with_at(lv, 0, "+++ ") || starts_with_at(lv, 0, "--- ") {
            4
        } else {
            0
        };
        proof {
            assert(lv@.skip(0) =~= lv@);
            assert(strip_marker(lv@) =~= lv@.skip(start as int));
        }
        if starts_with_at(lv, start, "/dev/null") {
            None
        } else {
            let mut s2: usize = start;
            if starts_with_at(lv, s2, "a/") {
                s2 = s2 + 2;
                proof {
                    assert(lv@.skip(start as int).skip(2) =~= lv@.skip(s2 as int));
                    assert(strip_a(lv@.skip(start as int)) =~= lv@.skip(s2 as int));
                }
            } else {
                proof {
                    assert(strip_a(lv@.skip(start as int)) =~= lv@.skip(s2 as int));
                }
            }
            if starts_with_at(lv, s2, "b/") {
                let p = string_of_range(lv, s2 + 2, lv.len());
                proof {
                    assert(lv@.skip(s2 as int).skip(2) =~= lv@.subrange(s2 + 2, lv@.len() as int));
                    assert(strip_b(lv@.skip(s2 as int)) =~= p@);
                }
                Some(p)
            } else {
                let p = string_of_range(lv, s2, lv.len());
                proof {
                    assert(lv@.skip(s2 as int) =~= p@);
                    assert(strip_b(lv@.skip(s2 as int)) =~= p@);
                }
                Some(p)
            }
        }
    } else {
        None
    }
}

/// Whether some string in `v` holds the characters of `s`.
pub fn contains_str(v: &Vec<String>, s: &str) -> (r: bool)
    ensures
        r == views_of(v@).contains(s@),
{
    let mut i: usize = 0;
    while i < v.len()
        invariant
            i <= v@.len(),
            forall|j: int| 0 <= j < i ==> views_of(v@)[j] != s@,
        decreases v@.len() - i,
    {
        if str_eq(v[i].as_str(), s) {
            assert(views_of(v@)[i as int] == s@);
            return true;
        }
        i = i + 1;
    }
    false
}

/// The distinct paths the patch `diff` touches, each once, in the order
/// first encountered.
pub fn get_files_changed(diff: &str) -> (r: Vec<String>)
    ensures
        views_of(r@) == distinct_extracted_paths(diff@),
        views_of(r@).to_set() == extracted_paths(diff@),
        views_of(r@).no_duplicates(),
{
    let lines = split_lines(diff);
    let ghost lviews = views_of(lines@);
    let mut r: Vec<String> = Vec::new();
    let mut i: usize = 0;
    proof {
        assert(lviews.take(0) =~= Seq::<Seq<char>>::empty());
        assert(views_of(r@) =~= distinct_paths_of_lines(lviews.take(0)));
        assert(views_of(r@).to_set() =~= paths_of_lines(lviews.take(0)));
    }
    while i < lines.len()
        invariant
            i <= lines@.len(),
            lviews == views_of(lines@),
            views_of(r@) == distinct_paths_of_lines(lviews.take(i as int)),
            views_of(r@).to_set() == paths_of_lines(lviews.take(i as int)),
            views_of(r@).no_duplicates(),
        decreases lines@.len() - i,
    {
        let line: &String = &lines[i];
        let lv = char_vec(line.as_str());
        proof {
            assert(lv@ == lviews[i as int]);
            assert(lviews.take(i + 1).drop_last() =~= lviews.take(i as int));
            assert(lviews.take(i + 1).last() == lv@);
        }
        let extracted = extract_path_line(&lv);
        match extracted {
            Some(p) => {
                let ghost prev = r@;
                if !contains_str(&r, p.as_str()) {
                    r.push(p);
                    proof {
                        assert(views_of(r@) =~= views_of(prev).push(views_of(r@).last()));
                        views_of(prev).lemma_push_to_set_commute(views_of(r@).last());
                        assert(views_of(r@) =~= distinct_paths_of_lines(lviews.take(i + 1)));
                        assert(views_of(r@).to_set() =~= paths_of_lines(lviews.take(i + 1)));
                    }
                } else {
                    proof {
                        assert(views_of(r@).to_set().contains(p@));
                        assert(views_of(r@) =~= distinct_paths_of_lines(lviews.take(i + 1)));
                        assert(views_of(r@).to_set() =~= paths_of_lines(lviews.take(i + 1)));
                    }
                }
            },
            None => {
                proof {
                    assert(views_of(r@) =~= distinct_paths_of_lines(lviews.take(i + 1)));
                    assert(views_of(r@).to_set() =~= paths_of_lines(lviews.take(i + 1)));
                }
            },
        }
        i = i + 1;
    }
    proof {
        assert(lviews.take(lines@.len() as int) =~= lviews);
    }
    r
}

impl CommitInfo {
    /// Assemble one change record from raw commit data, extracting the
    /// touched files from its patch text.
    pub fn new(hash: String, message: String, author: String, date: String, diff: String) -> (r:
        CommitInfo)
        ensures
            r.hash == hash,
            r.message == message,
            r.author == author,
            r.date == date,
            r.diff == diff,
            views_of(r.files_changed@) == distinct_extracted_paths(diff@),
            views_of(r.files_changed@).to_set() == extracted_paths(diff@),
            views_of(r.files_changed@).no_duplicates(),
    {
        let files_changed = get_files_changed(diff.as_str());
        CommitInfo { hash, message, author, date, files_changed, diff }
    }
}

impl DiffInfo {
    /// Assemble a change set over the given records.
    ///
    /// Law: the distinct-file count equals the cardinality of the union of
    /// the records' changed-file sets, computed once over the whole list.
    pub fn from_commits(commits: Vec<CommitInfo>) -> (r: DiffInfo)
        ensures
            r.commits@ == commits@,
            r.total_files_changed as nat == union_files(commits@).len(),
            r.total_additions == 0,
            r.total_deletions == 0,
    {
        let mut distinct: Vec<String> = Vec::new();
        let mut i: usize = 0;
        proof {
            assert(commits@.take(0) =~= Seq::<CommitInfo>::empty());
            assert(views_of(distinct@).to_set() =~= union_files(commits@.take(0)));
        }
        while i < commits.len()
            invariant
                i <= commits@.len(),
                views_of(distinct@).to_set() == union_files(commits@.take(i as int)),
                views_of(distinct@).no_duplicates(),
            decreases commits@.len() - i,
        {
            let files: &Vec<String> = &commits[i].files_changed;
            let ghost fviews = views_of(files@);
            let mut j: usize = 0;
            proof {
                assert(fviews.take(0) =~= Seq::<Seq<char>>::empty());
                assert(fviews.take(0).to_set() =~= Set::<Seq<char>>::empty());
                assert(views_of(distinct@).to_set() =~= union_files(commits@.take(i as int))
                    + fviews.take(0).to_set());
            }
            while j < files.len()
                invariant
                    j <= files@.len(),
                    fviews == views_of(files@),
                    files@ == commits@[i as int].files_changed@,
                    i < commits@.len(),
                    views_of(distinct@).to_set() == union_files(commits@.take(i as int))
                        + fviews.take(j as int).to_set(),
                    views_of(distinct@).no_duplicates(),
                decreases files@.len() - j,
            {
                let f: &String = &files[j];
                let ghost prev = distinct@;
                proof {
                    assert(fviews.take(j + 1) =~= fviews.take(j as int).push(f@));
                    fviews.take(j as int).lemma_push_to_set_commute(f@);
                }
                if !contains_str(&distinct, f.as_str()) {
                    let fc = f.clone();
                    distinct.push(fc);
                    proof {
                        assert(views_of(distinct@) =~= views_of(prev).push(f@));
                        views_of(prev).lemma_push_to_set_commute(f@);
                        assert(views_of(distinct@).to_set() =~= union_files(
                            commits@.take(i as int),
                        ) + fviews.take(j + 1).to_set());
                    }
                } else {
                    proof {
                        assert(views_of(distinct@).to_set().contains(f@));
                        assert(views_of(distinct@).to_set() =~= union_files(
                            commits@.take(i as int),
                        ) + fviews.take(j + 1).to_set());
                    }
                }
                j = j + 1;
            }
            proof {
                assert(fviews.take(files@.len() as int) =~= fviews);
                assert(commits@.take(i + 1).drop_last() =~= commits@.take(i as int));
                assert(commits@.take(i + 1).last() == commits@[i as int]);
                assert(views_of(distinct@).to_set() =~= union_files(commits@.take(i + 1)));
            }
            i = i + 1;
        }
        proof {
            assert(commits@.take(commits@.len() as int) =~= commits@);
            views_of(distinct@).unique_seq_to_set();
        }
        let total = distinct.len();
        DiffInfo { commits, total_files_changed: total, total_additions: 0, total_deletions: 0 }
    }

    /// Assemble the change set standing for the staged changes: at most one
    /// synthetic record with id `STAGED`, omitted entirely when the staged
    /// diff touches no files.  `date` is the caller's timestamp text.
    pub fn staged_from_diff(diff_text: String, date: String) -> (r: DiffInfo)
        ensures
            r.total_files_changed as nat == union_files(r.commits@).len(),
            r.total_additions == 0,
            r.total_deletions == 0,
            extracted_paths(diff_text@).len() == 0 ==> r.commits@.len() == 0,
            extracted_paths(diff_text@).len() != 0 ==> r.commits@.len() == 1,
            extracted_paths(diff_text@).len() != 0 ==> r.commits@[0].hash@ == "STAGED"@,
            extracted_paths(diff_text@).len() != 0 ==> r.commits@[0].message@
                == "Staged changes"@,
            extracted_paths(diff_text@).len() != 0 ==> r.commits@[0].author@ == "Current user"@,
            extracted_paths(diff_text@).len() != 0 ==> r.commits@[0].date@ == date@,
            extracted_paths(diff_text@).len() != 0 ==> r.commits@[0].diff@ == diff_text@,
            extracted_paths(diff_text@).len() != 0 ==> views_of(r.commits@[0].files_changed@)
                == distinct_extracted_paths(diff_text@),
            extracted_paths(diff_text@).len() != 0 ==> views_of(
                r.commits@[0].files_changed@,
            ).to_set() == extracted_paths(diff_text@),
    {
        let probe = get_files_changed(diff_text.as_str());
        proof {
            views_of(probe@).unique_seq_to_set();
        }
        if probe.len() == 0 {
            let commits: Vec<CommitInfo> = Vec::new();
            DiffInfo::from_commits(commits)
        } else {
            let record = CommitInfo::new(
                String::from_str("STAGED"),
                String::from_str("Staged changes"),
                String::from_str("Current user"),
                date,
                diff_text,
            );
            let mut commits: Vec<CommitInfo> = Vec::new();
            commits.push(record);
            DiffInfo::from_commits(commits)
        }
    }
}

} // verus!
