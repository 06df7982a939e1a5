use commit_buddy::ai::{detect_project_type, unavailable_response};
use commit_buddy::config::Config;
use commit_buddy::git::{CommitInfo, DiffInfo};
use commit_buddy::github::{parse_github_remote, pr_title_for_branch};
use commit_buddy::utils::{
    extract_commit_type, format_file_size, get_commit_emoji, is_conventional_commit,
    truncate_string,
};

fn change_set_touching(files: Vec<&str>) -> DiffInfo {
    let commit = CommitInfo {
        hash: "c".to_string(),
        message: "m".to_string(),
        author: "a".to_string(),
        date: "0".to_string(),
        files_changed: files.into_iter().map(|f| f.to_string()).collect(),
        diff: String::new(),
    };
    DiffInfo::from_commits(vec![commit])
}

#[test]
fn file_sizes_scale_through_the_units() {
    assert_eq!(format_file_size(0), "0.0 B");
    assert_eq!(format_file_size(1023), "1023.0 B");
    assert_eq!(format_file_size(1024), "1.0 KB");
    assert_eq!(format_file_size(1536), "1.5 KB");
    assert_eq!(format_file_size(8151), "8.0 KB");
    assert_eq!(format_file_size(1048576), "1.0 MB");
    assert_eq!(format_file_size(1073741824), "1.0 GB");
    assert_eq!(format_file_size(1610612736), "1.5 GB");
}

#[test]
fn truncation_keeps_short_strings_and_cuts_long_ones() {
    assert_eq!(truncate_string("hello", 10), "hello");
    assert_eq!(truncate_string("hello world", 8), "hello...");
    assert_eq!(truncate_string("abc", 3), "abc");
}

#[test]
fn commit_types_are_read_off_the_prefix() {
    assert_eq!(extract_commit_type("feat: add things"), Some("feat".to_string()));
    assert_eq!(extract_commit_type("  fix: trimmed  "), Some("fix".to_string()));
    assert_eq!(
        extract_commit_type("some-custom-type: x"),
        Some("some-custom-type".to_string()),
    );
    assert_eq!(extract_commit_type("no colon here"), None);
    assert_eq!(extract_commit_type("Feat: uppercase"), None);
    assert_eq!(extract_commit_type("feat(scope): parens"), None);
    assert_eq!(
        extract_commit_type("a-very-long-prefix-over-twenty: x"),
        None,
    );
    assert!(is_conventional_commit("chore: tidy"));
    assert!(!is_conventional_commit("just words"));
}

#[test]
fn emoji_table_matches_the_types() {
    assert_eq!(get_commit_emoji("feat"), "\u{2728}");
    assert_eq!(get_commit_emoji("fix"), "\u{1F41B}");
    assert_eq!(get_commit_emoji("docs"), "\u{1F4DA}");
    assert_eq!(get_commit_emoji("revert"), "\u{23EA}");
    assert_eq!(get_commit_emoji("something else"), "\u{1F4DD}");
}

#[test]
fn fallback_response_names_the_missing_key() {
    let r = unavailable_response("test");
    assert!(r.contains("\u{1F916} AI Feature Unavailable"));
    assert!(r.contains("test"));
    assert!(r.contains("OPENAI_API_KEY"));
}

#[test]
fn project_detection_prefers_rust() {
    let info = detect_project_type(&change_set_touching(vec!["src/main.rs", "notes.md"]));
    assert_eq!(info.project_type, "Rust");
    assert_eq!(info.test_framework, "cargo test");
    assert_eq!(info.test_directory, "tests/");
    let info = detect_project_type(&change_set_touching(vec!["Cargo.toml"]));
    assert_eq!(info.project_type, "Rust");
}

#[test]
fn project_detection_by_extension_and_manifest() {
    let info = detect_project_type(&change_set_touching(vec!["app/models.py"]));
    assert_eq!(info.project_type, "Python");
    assert_eq!(info.test_framework, "pytest");
    let info = detect_project_type(&change_set_touching(vec!["index.TS"]));
    assert_eq!(info.project_type, "JavaScript/TypeScript");
    let info = detect_project_type(&change_set_touching(vec!["pom.xml"]));
    assert_eq!(info.project_type, "Java");
    let info = detect_project_type(&change_set_touching(vec!["go.mod"]));
    assert_eq!(info.project_type, "Go");
    let info = detect_project_type(&change_set_touching(vec!["lib.cpp"]));
    assert_eq!(info.project_type, "C/C++");
    let info = detect_project_type(&change_set_touching(vec!["App.sln"]));
    assert_eq!(info.project_type, "C#");
    let info = detect_project_type(&change_set_touching(vec!["README.md"]));
    assert_eq!(info.project_type, "Unknown");
    assert_eq!(info.test_framework, "generic");
}

#[test]
fn remote_urls_parse_in_both_forms() {
    let g = parse_github_remote("https://github.com/owner/repo.git\n").unwrap();
    assert_eq!(g.owner, "owner");
    assert_eq!(g.name, "repo");
    let g = parse_github_remote("git@github.com:someone/project.git").unwrap();
    assert_eq!(g.owner, "someone");
    assert_eq!(g.name, "project");
    let g = parse_github_remote("https://github.com/a/b").unwrap();
    assert_eq!(g.owner, "a");
    assert_eq!(g.name, "b");
    assert!(parse_github_remote("https://gitlab.com/a/b.git").is_none());
    assert!(parse_github_remote("https://github.com/only-owner").is_none());
    assert!(parse_github_remote("not a url").is_none());
}

#[test]
fn pr_titles_read_the_branch_as_words() {
    assert_eq!(pr_title_for_branch("my-feature_branch"), "feat: my feature branch");
    assert_eq!(pr_title_for_branch("plain"), "feat: plain");
}

#[test]
fn config_merge_prefers_the_primary_token() {
    let c = Config::from_env_values(
        Some("develop".to_string()),
        Some("key".to_string()),
        Some("primary".to_string()),
        Some("alternative".to_string()),
    );
    assert_eq!(c.get_default_branch(), "develop");
    assert!(c.has_openai_key());
    assert_eq!(c.github_token, Some("primary".to_string()));
    let c = Config::from_env_values(None, None, None, Some("alternative".to_string()));
    assert_eq!(c.get_default_branch(), "master");
    assert!(!c.has_openai_key());
    assert_eq!(c.github_token, Some("alternative".to_string()));
}
