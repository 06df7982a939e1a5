use commit_buddy::status::GitStatus;

#[test]
fn scan_classifies_every_code_in_the_table() {
    let text = "A  a\nM  b\nD  c\n M d\n D e\n?? f\nAM g\nMM h\nXX i\nno";
    let st = GitStatus::scan("main\n", text);
    assert_eq!(st.staged_files, vec!["a", "b", "c", "g", "h"]);
    assert_eq!(st.unstaged_files, vec!["d", "e", "g", "h"]);
    assert_eq!(st.untracked_files, vec!["f"]);
    assert_eq!(st.branch, "main");
}

#[test]
fn scan_three_char_codes_scenario() {
    let st = GitStatus::scan("main", "M  a.txt\n?? b.txt\nAM c.txt");
    assert_eq!(st.staged_files, vec!["a.txt", "c.txt"]);
    assert_eq!(st.unstaged_files, vec!["c.txt"]);
    assert_eq!(st.untracked_files, vec!["b.txt"]);
    assert_eq!(st.status, "4 files changed");
}

#[test]
fn scan_skips_unknown_codes_and_short_lines() {
    let st = GitStatus::scan("", "XY some/file\nZZ other\nM\n??\n\n");
    assert!(st.staged_files.is_empty());
    assert!(st.unstaged_files.is_empty());
    assert!(st.untracked_files.is_empty());
    assert_eq!(st.status, "Clean working directory");
}

#[test]
fn scan_keeps_duplicates_and_order() {
    let st = GitStatus::scan("dev", "M  a\nM  a\nA  b");
    assert_eq!(st.staged_files, vec!["a", "a", "b"]);
}

#[test]
fn scan_trims_branch_text() {
    let st = GitStatus::scan("  feature/x \n", "");
    assert_eq!(st.branch, "feature/x");
}

#[test]
fn scan_strips_carriage_returns() {
    let st = GitStatus::scan("main", "M  a.txt\r\n?? b.txt\r\n");
    assert_eq!(st.staged_files, vec!["a.txt"]);
    assert_eq!(st.untracked_files, vec!["b.txt"]);
}

#[test]
fn scan_clean_tree_summary() {
    let st = GitStatus::scan("main", "");
    assert_eq!(st.status, "Clean working directory");
    assert_eq!(st.branch, "main");
}

#[test]
fn unknown_snapshot_is_empty() {
    let st = GitStatus::unknown();
    assert_eq!(st.branch, "unknown");
    assert_eq!(st.status, "unknown");
    assert!(st.staged_files.is_empty());
}
