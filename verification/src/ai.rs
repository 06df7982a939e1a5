//! The decisions behind the AI features: the fallback response shown when
//! no API key is configured, and project-type detection over a change set.
//!
//! Prompt construction and the network call itself live outside the
//! library; they hand plain text in and out.

use vstd::prelude::*;
use crate::git::{CommitInfo, DiffInfo};
use crate::text::{char_vec, push_char, str_eq};

verus! {

/// The response returned in place of an AI call when no API key is set:
/// a banner, the user prompt, and a note naming the missing variable.
pub fn unavailable_response(user_prompt: &str) -> (r: String)
    ensures
        r@ == "\u{1F916} AI Feature Unavailable\n\n"@ + user_prompt@
            + "\n\n*Note: Set OPENAI_API_KEY environment variable to enable AI features.*"@,
{
    let mut s = String::from_str("\u{1F916} AI Feature Unavailable\n\n");
    s.append(user_prompt);
    s.append("\n\n*Note: Set OPENAI_API_KEY environment variable to enable AI features.*");
    s
}

/// What kind of project a change set belongs to, and where its tests go.
pub struct ProjectInfo {
    pub project_type: String,
    pub test_framework: String,
    pub test_directory: String,
}

/// The index just after the last dot of `s`, or 0 if `s` has no dot.
pub open spec fn after_last_dot(s: Seq<char>) -> int
    decreases s.len(),
{
    if s.len() == 0 {
        0
    } else if s.last() == '.' {
        s.len() as int
    } else {
        after_last_dot(s.drop_last())
    }
}

/// The position after the last dot is pinned down by what stands at and
/// after it.
pub proof fn lemma_after_last_dot_is(s: Seq<char>, k: int)
    requires
        0 <= k <= s.len(),
        forall|i: int| k <= i < s.len() ==> s[i] != '.',
        k > 0 ==> s[k - 1] == '.',
    ensures
        after_last_dot(s) == k,
    decreases s.len(),
{
    if s.len() == 0 {
    } else if s.last() == '.' {
        assert(k == s.len());
    } else {
        assert(k < s.len());
        lemma_after_last_dot_is(s.drop_last(), k);
    }
}

/// An ASCII uppercase letter lowered; every other character unchanged.
pub open spec fn lower_char(c: char) -> char {
    if 65 <= c as u32 <= 90 {
        (((c as u32) + 32) as u8) as char
    } else {
        c
    }
}

/// The lowercased file extension: what follows the last dot, or the whole
/// name when there is no dot.
pub open spec fn ext_of(f: Seq<char>) -> Seq<char> {
    f.skip(after_last_dot(f)).map_values(|c: char| lower_char(c))
}

/// `p` occurs contiguously somewhere in `s`.
pub open spec fn contains_sub(s: Seq<char>, p: Seq<char>) -> bool {
    exists|k: int| 0 <= k <= s.len() - p.len() && #[trigger] s.subrange(k, k + p.len() as int) == p
}

/// Some file changed by some commit has extension `e`.
pub open spec fn has_ext(commits: Seq<CommitInfo>, e: Seq<char>) -> bool {
    exists|i: int, j: int|
        0 <= i < commits.len() && 0 <= j < commits[i].files_changed@.len() && ext_of(
            commits[i].files_changed@[j]@,
        ) == e
}

/// Some file changed by some commit has `p` in its name.
pub open spec fn any_file_contains(commits: Seq<CommitInfo>, p: Seq<char>) -> bool {
    exists|i: int, j: int|
        0 <= i < commits.len() && 0 <= j < commits[i].files_changed@.len() && contains_sub(
            commits[i].files_changed@[j]@,
            p,
        )
}

pub open spec fn is_rust_project(commits: Seq<CommitInfo>) -> bool {
    has_ext(commits, "rs"@) || any_file_contains(commits, "Cargo.toml"@)
}

pub open spec fn is_python_project(commits: Seq<CommitInfo>) -> bool {
    has_ext(commits, "py"@) || any_file_contains(commits, "requirements.txt"@)
        || any_file_contains(commits, "setup.py"@) || any_file_contains(commits, "pyproject.toml"@)
}

pub open spec fn is_js_project(commits: Seq<CommitInfo>) -> bool {
    has_ext(commits, "js"@) || has_ext(commits, "ts"@) || any_file_contains(
        commits,
        "package.json"@,
    )
}

pub open spec fn is_java_project(commits: Seq<CommitInfo>) -> bool {
    has_ext(commits, "java"@) || any_file_contains(commits, "pom.xml"@) || any_file_contains(
        commits,
        "build.gradle"@,
    )
}

pub open spec fn is_go_project(commits: Seq<CommitInfo>) -> bool {
    has_ext(commits, "go"@) || any_file_contains(commits, "go.mod"@)
}

pub open spec fn is_c_cpp_project(commits: Seq<CommitInfo>) -> bool {
    has_ext(commits, "c"@) || has_ext(commits, "cpp"@) || has_ext(commits, "h"@) || has_ext(
        commits,
        "hpp"@,
    )
}

pub open spec fn is_csharp_project(commits: Seq<CommitInfo>) -> bool {
    has_ext(commits, "cs"@) || any_file_contains(commits, ".csproj"@) || any_file_contains(
        commits,
        ".sln"@,
    )
}

/// The lowercased extension of `f`, per `ext_of`.
fn ext_of_exec(f: &str) -> (r: String)
    ensures
        r@ == ext_of(f@),
{
    let v = char_vec(f);
    let n = v.len();
    let mut k: usize = n;
    while k > 0 && v[k - 1] != '.'
        invariant
            k <= n,
            n == v@.len(),
            forall|i: int| k <= i < n ==> v@[i] != '.',
        decreases k,
    {
        k = k - 1;
    }
    proof {
        lemma_after_last_dot_is(v@, k as int);
    }
    let mut r = String::new();
    let mut i: usize = k;
    proof {
        assert(r@ =~= v@.subrange(k as int, i as int).map_values(|c: char| lower_char(c)));
    }
    while i < n
        invariant
            k <= i <= n,
            n == v@.len(),
            r@ == v@.subrange(k as int, i as int).map_values(|c: char| lower_char(c)),
        decreases n - i,
    {
        let c = v[i];
        let lc: char = if 65 <= c as u32 && c as u32 <= 90 {
            (((c as u32) + 32) as u8) as char
        } else {
            c
        };
        push_char(&mut r, lc);
        proof {
            assert(r@ =~= v@.subrange(k as int, i + 1 as int).map_values(
                |c: char| lower_char(c),
            ));
        }
        i = i + 1;
    }
    proof {
        assert(v@.subrange(k as int, n as int) =~= v@.skip(after_last_dot(v@)));
    }
    r
}

/// Whether the characters of `pv` stand in `v` at position `k`.
fn match_at(v: &Vec<char>, k: usize, pv: &Vec<char>) -> (r: bool)
    requires
        k + pv@.len() <= v@.len(),
    ensures
        r == (v@.subrange(k as int, k + pv@.len()) == pv@),
{
    let m = pv.len();
    let vn = v.len();
    let mut j: usize = 0;
    while j < m
        invariant
            j <= m,
            m == pv@.len(),
            k + m <= vn,
            vn == v@.len(),
            forall|j2: int| 0 <= j2 < j ==> v@[k + j2] == pv@[j2],
        decreases m - j,
    {
        if v[k + j] != pv[j] {
            proof {
                assert(v@.subrange(k as int, k + pv@.len())[j as int] != pv@[j as int]);
            }
            return false;
        }
        j = j + 1;
    }
    proof {
        assert(v@.subrange(k as int, k + pv@.len()) =~= pv@);
    }
    true
}

/// Whether `p` occurs contiguously in `f`.
fn contains_sub_exec(f: &str, p: &str) -> (r: bool)
    ensures
        r == contains_sub(f@, p@),
{
    let v = char_vec(f);
    let pv = char_vec(p);
    let n = v.len();
    let m = pv.len();
    if m > n {
        proof {
            assert(!contains_sub(f@, p@));
        }
        return false;
    }
    let limit = n - m;
    let mut k: usize = 0;
    loop
        invariant
            m <= n,
            n == v@.len(),
            m == p@.len(),
            v@ == f@,
            pv@ == p@,
            limit == n - m,
            k <= limit,
            forall|k2: int| 0 <= k2 < k ==> #[trigger] v@.subrange(k2, k2 + m) != p@,
        decreases limit - k,
    {
        if match_at(&v, k, &pv) {
            return true;
        }
        if k == limit {
            proof {
                assert(forall|k2: int|
                    0 <= k2 <= limit ==> #[trigger] v@.subrange(k2, k2 + m) != p@);
                assert(!contains_sub(f@, p@));
            }
            return false;
        }
        k = k + 1;
    }
}

/// Whether some changed file has extension `e`.
fn any_has_ext(commits: &Vec<CommitInfo>, e: &str) -> (r: bool)
    ensures
        r == has_ext(commits@, e@),
{
    let mut i: usize = 0;
    while i < commits.len()
        invariant
            i <= commits@.len(),
            forall|i2: int, j2: int|
                0 <= i2 < i && 0 <= j2 < commits@[i2].files_changed@.len() ==> ext_of(
                    commits@[i2].files_changed@[j2]@,
                ) != e@,
        decreases commits@.len() - i,
    {
        let files: &Vec<String> = &commits[i].files_changed;
        let mut j: usize = 0;
        while j < files.len()
            invariant
                i < commits@.len(),
                j <= files@.len(),
                files@ == commits@[i as int].files_changed@,
                forall|i2: int, j2: int|
                    0 <= i2 < i && 0 <= j2 < commits@[i2].files_changed@.len() ==> ext_of(
                        commits@[i2].files_changed@[j2]@,
                    ) != e@,
                forall|j2: int|
                    0 <= j2 < j ==> ext_of(commits@[i as int].files_changed@[j2]@) != e@,
            decreases files@.len() - j,
        {
            let ex = ext_of_exec(files[j].as_str());
            if str_eq(ex.as_str(), e) {
                proof {
                    assert(ext_of(commits@[i as int].files_changed@[j as int]@) == e@);
                }
                return true;
            }
            j = j + 1;
        }
        i = i + 1;
    }
    proof {
        assert(!has_ext(commits@, e@));
    }
    false
}

/// Whether some changed file has `p` in its name.
fn any_contains(commits: &Vec<CommitInfo>, p: &str) -> (r: bool)
    ensures
        r == any_file_contains(commits@, p@),
{
    let mut i: usize = 0;
    while i < commits.len()
        invariant
            i <= commits@.len(),
            forall|i2: int, j2: int|
                0 <= i2 < i && 0 <= j2 < commits@[i2].files_changed@.len() ==> !contains_sub(
                    commits@[i2].files_changed@[j2]@,
                    p@,
                ),
        decreases commits@.len() - i,
    {
        let files: &Vec<String> = &commits[i].files_changed;
        let mut j: usize = 0;
        while j < files.len()
            invariant
                i < commits@.len(),
                j <= files@.len(),
                files@ == commits@[i as int].files_changed@,
                forall|i2: int, j2: int|
                    0 <= i2 < i && 0 <= j2 < commits@[i2].files_changed@.len() ==> !contains_sub(
                        commits@[i2].files_changed@[j2]@,
                        p@,
                    ),
                forall|j2: int|
                    0 <= j2 < j ==> !contains_sub(commits@[i as int].files_changed@[j2]@, p@),
            decreases files@.len() - j,
        {
            if contains_sub_exec(files[j].as_str(), p) {
                proof {
                    assert(contains_sub(commits@[i as int].files_changed@[j as int]@, p@));
                }
                return true;
            }
            j = j + 1;
        }
        i = i + 1;
    }
    proof {
        assert(!any_file_contains(commits@, p@));
    }
    false
}

/// Classify the change set by the files it touches, first match wins:
/// Rust, Python, JavaScript/TypeScript, Java, Go, C/C++, C#, else unknown.
/// Each class fixes the test framework and test directory reported.
pub fn detect_project_type(diff_info: &DiffInfo) -> (r: ProjectInfo)
    ensures
        is_rust_project(diff_info.commits@) ==> r.project_type@ == "Rust"@
            && r.test_framework@ == "cargo test"@ && r.test_directory@ == "tests/"@,
        !is_rust_project(diff_info.commits@) && is_python_project(diff_info.commits@)
            ==> r.project_type@ == "Python"@ && r.test_framework@ == "pytest"@
            && r.test_directory@ == "tests/"@,
        !is_rust_project(diff_info.commits@) && !is_python_project(diff_info.commits@)
            && is_js_project(diff_info.commits@) ==> r.project_type@ == "JavaScript/TypeScript"@
            && r.test_framework@ == "jest"@ && r.test_directory@ == "__tests__/ or tests/"@,
        !is_rust_project(diff_info.commits@) && !is_python_project(diff_info.commits@)
            && !is_js_project(diff_info.commits@) && is_java_project(diff_info.commits@)
            ==> r.project_type@ == "Java"@ && r.test_framework@ == "JUnit"@
            && r.test_directory@ == "src/test/java/"@,
        !is_rust_project(diff_info.commits@) && !is_python_project(diff_info.commits@)
            && !is_js_project(diff_info.commits@) && !is_java_project(diff_info.commits@)
            && is_go_project(diff_info.commits@) ==> r.project_type@ == "Go"@
            && r.test_framework@ == "go test"@ && r.test_directory@
            == "same package as source files"@,
        !is_rust_project(diff_info.commits@) && !is_python_project(diff_info.commits@)
            && !is_js_project(diff_info.commits@) && !is_java_project(diff_info.commits@)
            && !is_go_project(diff_info.commits@) && is_c_cpp_project(diff_info.commits@)
            ==> r.project_type@ == "C/C++"@ && r.test_framework@ == "Google Test or Catch2"@
            && r.test_directory@ == "tests/"@,
        !is_rust_project(diff_info.commits@) && !is_python_project(diff_info.commits@)
            && !is_js_project(diff_info.commits@) && !is_java_project(diff_info.commits@)
            && !is_go_project(diff_info.commits@) && !is_c_cpp_project(diff_info.commits@)
            && is_csharp_project(diff_info.commits@) ==> r.project_type@ == "C#"@
            && r.test_framework@ == "NUnit or xUnit"@ && r.test_directory@ == "Tests/"@,
        !is_rust_project(diff_info.commits@) && !is_python_project(diff_info.commits@)
            && !is_js_project(diff_info.commits@) && !is_java_project(diff_info.commits@)
            && !is_go_project(diff_info.commits@) && !is_c_cpp_project(diff_info.commits@)
            && !is_csharp_project(diff_info.commits@) ==> r.project_type@ == "Unknown"@
            && r.test_framework@ == "generic"@ && r.test_directory@ == "tests/"@,
{
    let c = &diff_info.commits;
    if any_has_ext(c, "rs") || any_contains(c, "Cargo.toml") {
        ProjectInfo {
            project_type: String::from_str("Rust"),
            test_framework: String::from_str("cargo test"),
            test_directory: String::from_str("tests/"),
        }
    } else if any_has_ext(c, "py") || any_contains(c, "requirements.txt") || any_contains(
        c,
        "setup.py",
    ) || any_contains(c, "pyproject.toml") {
        ProjectInfo {
            project_type: String::from_str("Python"),
            test_framework: String::from_str("pytest"),
            test_directory: String::from_str("tests/"),
        }
    } else if any_has_ext(c, "js") || any_has_ext(c, "ts") || any_contains(c, "package.json") {
        ProjectInfo {
            project_type: String::from_str("JavaScript/TypeScript"),
            test_framework: String::from_str("jest"),
            test_directory: String::from_str("__tests__/ or tests/"),
        }
    } else if any_has_ext(c, "java") || any_contains(c, "pom.xml") || any_contains(
        c,
        "build.gradle",
    ) {
        ProjectInfo {
            project_type: String::from_str("Java"),
            test_framework: String::from_str("JUnit"),
            test_directory: String::from_str("src/test/java/"),
        }
    } else if any_has_ext(c, "go") || any_contains(c, "go.mod") {
        ProjectInfo {
            project_type: String::from_str("Go"),
            test_framework: String::from_str("go test"),
            test_directory: String::from_str("same package as source files"),
        }
    } else if any_has_ext(c, "c") || any_has_ext(c, "cpp") || any_has_ext(c, "h") || any_has_ext(
        c,
        "hpp",
    ) {
        ProjectInfo {
            project_type: String::from_str("C/C++"),
            test_framework: String::from_str("Google Test or Catch2"),
            test_directory: String::from_str("tests/"),
        }
    } else if any_has_ext(c, "cs") || any_contains(c, ".csproj") || any_contains(c, ".sln") {
        ProjectInfo {
            project_type: String::from_str("C#"),
            test_framework: String::from_str("NUnit or xUnit"),
            test_directory: String::from_str("Tests/"),
        }
    } else {
        ProjectInfo {
            project_type: String::from_str("Unknown"),
            test_framework: String::from_str("generic"),
            test_directory: String::from_str("tests/"),
        }
    }
}

} // verus!
