use commit_buddy::git::{get_files_changed, CommitInfo, DiffInfo};

fn commit_with_files(hash: &str, files: Vec<&str>) -> CommitInfo {
    CommitInfo {
        hash: hash.to_string(),
        message: "m".to_string(),
        author: "a".to_string(),
        date: "0".to_string(),
        files_changed: files.into_iter().map(|f| f.to_string()).collect(),
        diff: String::new(),
    }
}

#[test]
fn path_extraction_deduplicates_across_line_forms() {
    let patch = "diff --git a/src/x.rs b/src/x.rs\n--- a/src/x.rs\n+++ b/src/x.rs";
    let files = get_files_changed(patch);
    assert_eq!(files, vec!["src/x.rs"]);
}

#[test]
fn dev_null_marker_contributes_no_path() {
    assert!(get_files_changed("+++ /dev/null").is_empty());
    assert!(get_files_changed("--- /dev/null").is_empty());
}

#[test]
fn deletion_patch_keeps_only_the_real_path() {
    let patch = "diff --git a/gone.txt b/gone.txt\n--- a/gone.txt\n+++ /dev/null";
    let files = get_files_changed(patch);
    assert_eq!(files, vec!["gone.txt"]);
}

#[test]
fn extraction_ignores_body_lines() {
    let patch = "diff --git a/f b/f\n--- a/f\n+++ b/f\n@@ -1 +1 @@\n-old line\n+new line";
    let files = get_files_changed(patch);
    assert_eq!(files, vec!["f"]);
}

#[test]
fn extraction_collects_paths_of_several_files() {
    let patch = "diff --git a/one b/one\ndiff --git a/two b/two\n+++ b/one";
    let files = get_files_changed(patch);
    assert_eq!(files, vec!["one", "two"]);
}

#[test]
fn distinct_file_count_is_union_cardinality() {
    let commits = vec![
        commit_with_files("c1", vec!["a", "b"]),
        commit_with_files("c2", vec!["b", "c"]),
    ];
    let info = DiffInfo::from_commits(commits);
    assert_eq!(info.total_files_changed, 3);
    assert_eq!(info.total_additions, 0);
    assert_eq!(info.total_deletions, 0);
}

#[test]
fn distinct_file_count_of_empty_change_set_is_zero() {
    let info = DiffInfo::from_commits(Vec::new());
    assert_eq!(info.total_files_changed, 0);
    assert!(info.commits.is_empty());
}

#[test]
fn staged_change_set_carries_one_synthetic_record() {
    let diff = "diff --git a/f b/f\n--- a/f\n+++ b/f".to_string();
    let info = DiffInfo::staged_from_diff(diff, "2024-01-01T00:00:00Z".to_string());
    assert_eq!(info.commits.len(), 1);
    assert_eq!(info.commits[0].hash, "STAGED");
    assert_eq!(info.commits[0].message, "Staged changes");
    assert_eq!(info.commits[0].author, "Current user");
    assert_eq!(info.commits[0].date, "2024-01-01T00:00:00Z");
    assert_eq!(info.commits[0].files_changed, vec!["f"]);
    assert_eq!(info.total_files_changed, 1);
}

#[test]
fn staged_change_set_is_omitted_when_diff_touches_nothing() {
    let info = DiffInfo::staged_from_diff(String::new(), "now".to_string());
    assert!(info.commits.is_empty());
    assert_eq!(info.total_files_changed, 0);
}

#[test]
fn commit_record_extracts_its_files() {
    let c = CommitInfo::new(
        "abc123".to_string(),
        "fix things".to_string(),
        "dev".to_string(),
        "1700000000".to_string(),
        "diff --git a/src/lib.rs b/src/lib.rs".to_string(),
    );
    assert_eq!(c.files_changed, vec!["src/lib.rs"]);
    assert_eq!(c.hash, "abc123");
}
