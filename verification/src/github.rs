//! Remote-repository data and the parsing of a remote URL into owner and
//! repository name.
//!
//! The network calls that create pull requests and fetch repository
//! metadata live outside the library; they consume and produce these
//! plain values.

use vstd::prelude::*;
use crate::text::{
    char_break, char_vec, find_char, lemma_char_break_is, push_char, spec_starts_with,
    starts_with_at, string_of_range, trim, trim_of,
};

verus! {

pub struct GitHubConfig {
    pub token: String,
    pub owner: String,
    pub repo: String,
}

pub struct PullRequest {
    pub title: String,
    pub body: String,
    pub head: String,
    pub base: String,
}

pub struct RepositoryInfo {
    pub name: String,
    pub description: String,
    pub language: String,
    pub stars: u32,
    pub forks: u32,
    pub open_issues: u32,
}

/// The owner and name of a repository, read off its remote URL.
pub struct GitRepoInfo {
    pub owner: String,
    pub name: String,
}

/// `s` ends with `p`.
pub open spec fn spec_ends_with(s: Seq<char>, p: Seq<char>) -> bool {
    p.len() <= s.len() && s.subrange(s.len() - p.len(), s.len() as int) == p
}

/// `s` with one trailing `.git` dropped, if it carries one.
pub open spec fn strip_git_suffix(s: Seq<char>) -> Seq<char> {
    if spec_ends_with(s, ".git"@) {
        s.take(s.len() - 4)
    } else {
        s
    }
}

/// Owner and name from a `owner/name[/...]` path: the segment before the
/// first slash and the segment after it.  `None` without a slash.
pub open spec fn repo_of_path(path: Seq<char>) -> Option<(Seq<char>, Seq<char>)> {
    let k = char_break(path, '/');
    if k < path.len() {
        let rest = path.skip(k + 1);
        Some((path.take(k), rest.take(char_break(rest, '/'))))
    } else {
        None
    }
}

/// Owner and repository name of a remote URL, in its HTTPS or SSH form,
/// with a trailing `.git` dropped.  `None` for any other shape.
pub open spec fn parse_remote(url: Seq<char>) -> Option<(Seq<char>, Seq<char>)> {
    let u = trim_of(url);
    if spec_starts_with(u, "https://github.com/"@) {
        repo_of_path(strip_git_suffix(u.skip("https://github.com/"@.len() as int)))
    } else if spec_starts_with(u, "git@github.com:"@) {
        repo_of_path(strip_git_suffix(u.skip("git@github.com:"@.len() as int)))
    } else {
        None
    }
}

/// Read owner and repository name off a remote URL.
pub fn parse_github_remote(url: &str) -> (r: Option<GitRepoInfo>)
    ensures
        r is None ==> parse_remote(url@) is None,
        r matches Some(g) ==> parse_remote(url@) == Some((g.owner@, g.name@)),
{
    proof {
        reveal_strlit("https://github.com/");
        reveal_strlit("git@github.com:");
        reveal_strlit(".git");
    }
    let t = trim(url);
    let v = char_vec(t.as_str());
    proof {
        assert(v@.skip(0) =~= v@);
    }
    let start: usize = if starts_with_at(&v, 0, "https://github.com/") {
        19
    } else if starts_with_at(&v, 0, "git@github.com:") {
        15
    } else {
        return None;
    };
    // Path part, with one trailing `.git` dropped.
    let n = v.len();
    let has_git_tail = n >= start + 4 && starts_with_at(&v, n - 4, ".git");
    let pend: usize = if has_git_tail {
        n - 4
    } else {
        n
    };
    let ghost path = strip_git_suffix(v@.skip(start as int));
    proof {
        if n >= start + 4 {
            assert(v@.skip(start as int).subrange(
                n - start - 4,
                n - start,
            ) =~= v@.skip(n - 4).subrange(0, 4));
        }
        assert(spec_ends_with(v@.skip(start as int), ".git"@) == has_git_tail);
        assert(path =~= v@.subrange(start as int, pend as int));
    }
    let k = find_char(&v, start, '/');
    if k < pend {
        let owner = string_of_range(&v, start, k);
        let k2 = find_char(&v, k + 1, '/');
        let nend = if k2 < pend {
            k2
        } else {
            pend
        };
        let name = string_of_range(&v, k + 1, nend);
        proof {
            lemma_char_break_is(path, '/', k - start);
            let rest = path.skip(k - start + 1);
            assert(rest =~= v@.subrange(k + 1, pend as int));
            if k2 < pend {
                lemma_char_break_is(rest, '/', k2 - k - 1);
            } else {
                lemma_char_break_is(rest, '/', rest.len() as int);
            }
            assert(owner@ =~= path.take(k - start));
            assert(name@ =~= rest.take(char_break(rest, '/')));
        }
        Some(GitRepoInfo { owner, name })
    } else {
        proof {
            lemma_char_break_is(path, '/', path.len() as int);
        }
        None
    }
}

/// A branch name with dashes and underscores read as word breaks.
pub open spec fn branch_words(branch: Seq<char>) -> Seq<char> {
    branch.map_values(
        |c: char|
            if c == '-' || c == '_' {
                ' '
            } else {
                c
            },
    )
}

/// The title of a pull request created from a branch: a `feat: ` prefix
/// and the branch name with dashes and underscores as spaces.
pub fn pr_title_for_branch(branch: &str) -> (r: String)
    ensures
        r@ == "feat: "@ + branch_words(branch@),
{
    let mut r = String::from_str("feat: ");
    let v = char_vec(branch);
    let mut i: usize = 0;
    proof {
        assert(r@ =~= "feat: "@ + branch_words(branch@).take(0));
    }
    while i < v.len()
        invariant
            i <= v@.len(),
            v@ == branch@,
            r@ == "feat: "@ + branch_words(branch@).take(i as int),
        decreases v@.len() - i,
    {
        let c = v[i];
        let oc: char = if c == '-' || c == '_' {
            ' '
        } else {
            c
        };
        push_char(&mut r, oc);
        proof {
            assert(r@ =~= "feat: "@ + branch_words(branch@).take(i + 1 as int));
        }
        i = i + 1;
    }
    proof {
        assert(branch_words(branch@).take(v@.len() as int) =~= branch_words(branch@));
    }
    r
}

} // verus!
