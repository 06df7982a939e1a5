//! Working-tree status scanning.
//!
//! Raw porcelain status text is classified line by line: a two-character
//! code, one separator column, then the path.  Staged, unstaged and
//! untracked paths are collected in the order encountered; a file whose
//! code marks both index and worktree changes appears in both the staged
//! and the unstaged list.

use vstd::prelude::*;
use crate::text::{
    char_vec, dec_str, lines_of, split_lines, string_of_range, trim, trim_of, views_of,
};

verus! {

/// The two-character status code of a line.
pub open spec fn code_pair(line: Seq<char>, c0: char, c1: char) -> bool {
    line.len() >= 3 && line[0] == c0 && line[1] == c1
}

/// Lines whose code places the path in the staged list: `A `, `M `, `D `,
/// and the mixed codes `AM`, `MM`, which are staged and unstaged at once.
pub open spec fn in_staged(line: Seq<char>) -> bool {
    code_pair(line, 'A', ' ') || code_pair(line, 'M', ' ') || code_pair(line, 'D', ' ')
        || code_pair(line, 'A', 'M') || code_pair(line, 'M', 'M')
}

/// Lines whose code places the path in the unstaged list: ` M`, ` D`,
/// and the mixed codes `AM`, `MM`.
pub open spec fn in_unstaged(line: Seq<char>) -> bool {
    code_pair(line, ' ', 'M') || code_pair(line, ' ', 'D') || code_pair(line, 'A', 'M')
        || code_pair(line, 'M', 'M')
}

/// Lines whose code places the path in the untracked list: `??`.
pub open spec fn in_untracked(line: Seq<char>) -> bool {
    code_pair(line, '?', '?')
}

/// The path of a status line: everything after the three-column prefix.
pub open spec fn path_of(line: Seq<char>) -> Seq<char> {
    line.subrange(3, line.len() as int)
}

/// The staged paths of a sequence of status lines, in the order encountered.
pub open spec fn staged_paths_of(lines: Seq<Seq<char>>) -> Seq<Seq<char>>
    decreases lines.len(),
{
    if lines.len() == 0 {
        seq![]
    } else {
        staged_paths_of(lines.drop_last()) + if in_staged(lines.last()) {
            seq![path_of(lines.last())]
        } else {
            seq![]
        }
    }
}

/// The unstaged paths of a sequence of status lines, in the order encountered.
pub open spec fn unstaged_paths_of(lines: Seq<Seq<char>>) -> Seq<Seq<char>>
    decreases lines.len(),
{
    if lines.len() == 0 {
        seq![]
    } else {
        unstaged_paths_of(lines.drop_last()) + if in_unstaged(lines.last()) {
            seq![path_of(lines.last())]
        } else {
            seq![]
        }
    }
}

/// The untracked paths of a sequence of status lines, in the order encountered.
pub open spec fn untracked_paths_of(lines: Seq<Seq<char>>) -> Seq<Seq<char>>
    decreases lines.len(),
{
    if lines.len() == 0 {
        seq![]
    } else {
        untracked_paths_of(lines.drop_last()) + if in_untracked(lines.last()) {
            seq![path_of(lines.last())]
        } else {
            seq![]
        }
    }
}

/// The staged paths of raw status text.
pub open spec fn staged_of(text: Seq<char>) -> Seq<Seq<char>> {
    staged_paths_of(lines_of(text))
}

/// The unstaged paths of raw status text.
pub open spec fn unstaged_of(text: Seq<char>) -> Seq<Seq<char>> {
    unstaged_paths_of(lines_of(text))
}

/// The untracked paths of raw status text.
pub open spec fn untracked_of(text: Seq<char>) -> Seq<Seq<char>> {
    untracked_paths_of(lines_of(text))
}

/// The one-line summary shown for a snapshot with `total` listed files.
pub open spec fn summary_of(total: nat) -> Seq<char> {
    if total == 0 {
        "Clean working directory"@
    } else {
        dec_str(total) + " files changed"@
    }
}

/// Law, first half of the rebuild claim: after a full rebuild, the path of
/// every line whose code stages it stands in the staged list.
pub proof fn lemma_staged_line_listed(lines: Seq<Seq<char>>, i: int)
    requires
        0 <= i < lines.len(),
        in_staged(lines[i]),
    ensures
        staged_paths_of(lines).contains(path_of(lines[i])),
    decreases lines.len(),
{
    let p = path_of(lines[i]);
    if i == lines.len() - 1 {
        let pre = staged_paths_of(lines.drop_last());
        assert(staged_paths_of(lines)[pre.len() as int] == p);
    } else {
        lemma_staged_line_listed(lines.drop_last(), i);
        let pre = staged_paths_of(lines.drop_last());
        let k = choose|k: int| 0 <= k < pre.len() && pre[k] == p;
        assert(staged_paths_of(lines)[k] == p);
    }
}

/// Law, second half of the rebuild claim: the unstaged list holds only
/// paths of lines whose code marks a worktree change, so a path whose
/// lines all carry staged codes is out of the unstaged list.
pub proof fn lemma_unstaged_only_listed(lines: Seq<Seq<char>>, p: Seq<char>)
    requires
        unstaged_paths_of(lines).contains(p),
    ensures
        exists|i: int| 0 <= i < lines.len() && in_unstaged(#[trigger] lines[i]) && path_of(lines[i]) == p,
    decreases lines.len(),
{
    let pre = unstaged_paths_of(lines.drop_last());
    if lines.len() > 0 && in_unstaged(lines.last()) && p == path_of(lines.last()) {
        assert(in_unstaged(lines[lines.len() - 1]));
    } else {
        assert(lines.len() > 0);
        let k = choose|k: int| 0 <= k < unstaged_paths_of(lines).len() && unstaged_paths_of(
            lines,
        )[k] == p;
        assert(pre.contains(p)) by {
            assert(k < pre.len());
            assert(pre[k] == p);
        }
        lemma_unstaged_only_listed(lines.drop_last(), p);
        let i = choose|i: int|
            0 <= i < lines.drop_last().len() && in_unstaged(#[trigger] lines.drop_last()[i])
                && path_of(lines.drop_last()[i]) == p;
        assert(in_unstaged(lines[i]));
    }
}

/// A snapshot of the working tree: current branch, a one-line summary, and
/// the staged, unstaged and untracked paths.  Rebuilt wholesale on every
/// refresh, never patched incrementally.
pub struct GitStatus {
    pub branch: String,
    pub status: String,
    pub staged_files: Vec<String>,
    pub unstaged_files: Vec<String>,
    pub untracked_files: Vec<String>,
}

impl GitStatus {
    /// Every list is empty and the texts read as not yet known.
    pub fn unknown() -> (r: GitStatus)
        ensures
            r.branch@ == "unknown"@,
            r.status@ == "unknown"@,
            r.staged_files@.len() == 0,
            r.unstaged_files@.len() == 0,
            r.untracked_files@.len() == 0,
    {
        GitStatus {
            branch: String::from_str("unknown"),
            status: String::from_str("unknown"),
            staged_files: Vec::new(),
            unstaged_files: Vec::new(),
            untracked_files: Vec::new(),
        }
    }

    /// Scan raw branch and status text into a snapshot.
    ///
    /// Every status line of three or more characters is classified by its
    /// first two characters, exactly per the code table; any other code,
    /// and any shorter line, contributes nothing.  Paths keep the order
    /// encountered.  The branch is the branch text trimmed.
    pub fn scan(branch_text: &str, status_text: &str) -> (r: GitStatus)
        ensures
            r.branch@ == trim_of(branch_text@),
            views_of(r.staged_files@) == staged_of(status_text@),
            views_of(r.unstaged_files@) == unstaged_of(status_text@),
            views_of(r.untracked_files@) == untracked_of(status_text@),
            r.status@ == summary_of(
                (staged_of(status_text@).len() + unstaged_of(status_text@).len() + untracked_of(
                    status_text@,
                ).len()) as nat,
            ),
    {
        let branch = trim(branch_text);
        let lines = split_lines(status_text);
        let ghost lviews = views_of(lines@);
        let mut staged: Vec<String> = Vec::new();
        let mut unstaged: Vec<String> = Vec::new();
        let mut untracked: Vec<String> = Vec::new();
        let mut i: usize = 0;
        proof {
            assert(lviews.take(0) =~= Seq::<Seq<char>>::empty());
            assert(views_of(staged@) =~= staged_paths_of(lviews.take(0)));
            assert(views_of(unstaged@) =~= unstaged_paths_of(lviews.take(0)));
            assert(views_of(untracked@) =~= untracked_paths_of(lviews.take(0)));
        }
        while i < lines.len()
            invariant
                i <= lines@.len(),
                lviews == views_of(lines@),
                views_of(staged@) == staged_paths_of(lviews.take(i as int)),
                views_of(unstaged@) == unstaged_paths_of(lviews.take(i as int)),
                views_of(untracked@) == untracked_paths_of(lviews.take(i as int)),
            decreases lines@.len() - i,
        {
            let ghost prev_staged = staged@;
            let ghost prev_unstaged = unstaged@;
            let ghost prev_untracked = untracked@;
            let line: &String = &lines[i];
            let lv = char_vec(line.as_str());
            proof {
                assert(lv@ == lviews[i as int]);
            }
            if lv.len() >= 3 {
                let c0 = lv[0];
                let c1 = lv[1];
                let is_staged = (c0 == 'A' && c1 == ' ') || (c0 == 'M' && c1 == ' ') || (c0 == 'D'
                    && c1 == ' ') || (c0 == 'A' && c1 == 'M') || (c0 == 'M' && c1 == 'M');
                let is_unstaged = (c0 == ' ' && c1 == 'M') || (c0 == ' ' && c1 == 'D') || (c0 == 'A'
                    && c1 == 'M') || (c0 == 'M' && c1 == 'M');
                let is_untracked = c0 == '?' && c1 == '?';
                if is_staged {
                    let path = string_of_range(&lv, 3, lv.len());
                    staged.push(path);
                    proof {
                        assert(views_of(staged@) =~= views_of(prev_staged) + seq![
                            path_of(lv@),
                        ]);
                    }
                }
                if is_unstaged {
                    let path = string_of_range(&lv, 3, lv.len());
                    unstaged.push(path);
                    proof {
                        assert(views_of(unstaged@) =~= views_of(prev_unstaged) + seq![
                            path_of(lv@),
                        ]);
                    }
                }
                if is_untracked {
                    let path = string_of_range(&lv, 3, lv.len());
                    untracked.push(path);
                    proof {
                        assert(views_of(untracked@) =~= views_of(prev_untracked) + seq![
                            path_of(lv@),
                        ]);
                    }
                }
            }
            proof {
                assert(lviews.take(i + 1).drop_last() =~= lviews.take(i as int));
                assert(lviews.take(i + 1).last() == lv@);
                if !in_staged(lv@) {
                    assert(views_of(staged@) =~= staged_paths_of(lviews.take(i + 1)));
                }
                if !in_unstaged(lv@) {
                    assert(views_of(unstaged@) =~= unstaged_paths_of(lviews.take(i + 1)));
                }
                if !in_untracked(lv@) {
                    assert(views_of(untracked@) =~= untracked_paths_of(lviews.take(i + 1)));
                }
            }
            i = i + 1;
        }
        proof {
            assert(lviews.take(lines@.len() as int) =~= lviews);
        }
        let total: u128 = staged.len() as u128 + unstaged.len() as u128 + untracked.len() as u128;
        let status = if total == 0 {
            String::from_str("Clean working directory")
        } else {
            let mut s = crate::text::u128_to_string(total);
            s.append(" files changed");
            s
        };
        proof {
            assert(views_of(staged@).len() == staged@.len());
            assert(views_of(unstaged@).len() == unstaged@.len());
            assert(views_of(untracked@).len() == untracked@.len());
        }
        GitStatus { branch, status, staged_files: staged, unstaged_files: unstaged, untracked_files: untracked }
    }
}

} // verus!
