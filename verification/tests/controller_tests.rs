use commit_buddy::config::Config;
use commit_buddy::cursor::SelectionCursor;
use commit_buddy::interactive::{
    centered_rect, menu_items, spinner_glyph, tab_titles, Action, FileStatus, InteractiveCli,
    KeyInput, Mode, Rect, ViewMode, AiReportKind,
};

fn fresh_cli() -> InteractiveCli {
    InteractiveCli::new(Config::default())
}

#[test]
fn cursor_stays_in_bounds_under_any_steps() {
    let mut c = SelectionCursor::new();
    let n: usize = 5;
    let steps = [true, true, false, true, false, false, false, true, true, false];
    for up in steps {
        if up {
            c.up(n);
        } else {
            c.down(n);
        }
        let i = c.selected.expect("cursor set on non-empty list");
        assert!(i < n);
    }
}

#[test]
fn cursor_down_undoes_up_from_any_start() {
    let n: usize = 4;
    for start in 0..n {
        let mut c = SelectionCursor { selected: Some(start) };
        c.up(n);
        c.down(n);
        assert_eq!(c.selected, Some(start));
        c.down(n);
        c.up(n);
        assert_eq!(c.selected, Some(start));
    }
}

#[test]
fn cursor_wraps_at_both_ends() {
    let mut c = SelectionCursor { selected: Some(0) };
    c.up(3);
    assert_eq!(c.selected, Some(2));
    c.down(3);
    assert_eq!(c.selected, Some(0));
}

#[test]
fn cursor_is_safe_on_an_empty_list() {
    let mut c = SelectionCursor { selected: Some(7) };
    c.up(0);
    assert_eq!(c.selected, None);
    c.down(0);
    assert_eq!(c.selected, None);
}

#[test]
fn menu_tables_have_the_documented_shape() {
    assert_eq!(menu_items(0).len(), 8);
    assert_eq!(menu_items(1).len(), 7);
    assert_eq!(menu_items(2).len(), 3);
    assert_eq!(tab_titles(), vec!["Git Operations", "AI Features", "Utilities"]);
    assert!(menu_items(0)[0].contains("Manage files"));
    assert!(menu_items(2)[2].contains("Exit"));
}

#[test]
fn quit_key_sets_the_flag_everywhere() {
    let mut cli = fresh_cli();
    assert!(!cli.should_quit);
    let r = cli.handle_key(KeyInput::Char('q'));
    assert!(r.is_none());
    assert!(cli.should_quit);
}

#[test]
fn tab_cycling_resets_the_cursor() {
    let mut cli = fresh_cli();
    cli.handle_key(KeyInput::Down);
    cli.handle_key(KeyInput::Down);
    assert_eq!(cli.menu_cursor.selected, Some(2));
    cli.handle_key(KeyInput::Tab);
    assert_eq!(cli.current_tab, 1);
    assert_eq!(cli.menu_cursor.selected, Some(0));
    cli.handle_key(KeyInput::Tab);
    cli.handle_key(KeyInput::Tab);
    assert_eq!(cli.current_tab, 0);
    cli.handle_key(KeyInput::BackTab);
    assert_eq!(cli.current_tab, 2);
}

#[test]
fn refresh_key_demands_a_status_refresh() {
    let mut cli = fresh_cli();
    let r = cli.handle_key(KeyInput::Char('r'));
    assert!(matches!(r, Some(Action::RefreshStatus)));
    assert_eq!(cli.mode, Mode::View(ViewMode::Main));
}

#[test]
fn file_key_demands_the_file_list() {
    let mut cli = fresh_cli();
    let r = cli.handle_key(KeyInput::Char('f'));
    assert!(matches!(r, Some(Action::LoadFileList)));
}

#[test]
fn entering_file_mode_builds_the_entries() {
    let mut cli = fresh_cli();
    cli.enter_file_mode(" M a.txt\n?? b.txt\nM  c.txt");
    assert_eq!(cli.mode, Mode::View(ViewMode::FileStaging));
    assert_eq!(cli.file_items.len(), 3);
    assert_eq!(cli.file_items[0].path, "a.txt");
    assert_eq!(cli.file_items[0].status, FileStatus::Modified);
    assert_eq!(cli.file_items[1].status, FileStatus::Untracked);
    assert_eq!(cli.file_items[2].status, FileStatus::Staged);
    assert_eq!(cli.file_cursor.selected, Some(0));
}

#[test]
fn mixed_code_surfaces_once_as_staged_in_file_view() {
    let mut cli = fresh_cli();
    cli.enter_file_mode("AM mixed.txt");
    assert_eq!(cli.file_items.len(), 1);
    assert_eq!(cli.file_items[0].status, FileStatus::Staged);
}

#[test]
fn toggling_a_modified_entry_then_rebuilding_moves_it_to_staged() {
    let mut cli = fresh_cli();
    cli.enter_file_mode(" M a.txt\n?? b.txt");
    let r = cli.handle_key(KeyInput::Char(' '));
    assert!(matches!(r, Some(Action::StagePath(p)) if p == "a.txt"));
    // The collaborator stages the path; both read models are rebuilt whole.
    cli.finish_refresh("main", "M  a.txt\n?? b.txt");
    assert_eq!(cli.git_status.staged_files, vec!["a.txt"]);
    assert!(cli.git_status.unstaged_files.is_empty());
    cli.enter_file_mode("M  a.txt\n?? b.txt");
    assert_eq!(cli.file_items[0].status, FileStatus::Staged);
}

#[test]
fn toggle_actions_follow_the_classification() {
    let mut cli = fresh_cli();
    cli.enter_file_mode("M  s.txt\n M m.txt\n?? u.txt");
    let r = cli.handle_key(KeyInput::Char(' '));
    assert!(matches!(r, Some(Action::UnstagePath(p)) if p == "s.txt"));
    cli.handle_key(KeyInput::Down);
    let r = cli.handle_key(KeyInput::Char(' '));
    assert!(matches!(r, Some(Action::StagePath(p)) if p == "m.txt"));
    cli.handle_key(KeyInput::Down);
    let r = cli.handle_key(KeyInput::Char(' '));
    assert!(matches!(r, Some(Action::StagePath(p)) if p == "u.txt"));
}

#[test]
fn stage_all_and_unstage_all_keys() {
    let mut cli = fresh_cli();
    cli.enter_file_mode(" M a.txt");
    assert!(matches!(cli.handle_key(KeyInput::Char('a')), Some(Action::StageAll)));
    assert!(matches!(cli.handle_key(KeyInput::Char('u')), Some(Action::UnstageAll)));
}

#[test]
fn leaving_file_mode_clears_entries_and_refreshes() {
    let mut cli = fresh_cli();
    cli.enter_file_mode(" M a.txt");
    let r = cli.handle_key(KeyInput::Esc);
    assert!(matches!(r, Some(Action::RefreshStatus)));
    assert_eq!(cli.mode, Mode::View(ViewMode::Main));
    assert!(cli.file_items.is_empty());
    assert_eq!(cli.file_cursor.selected, None);
}

#[test]
fn commit_entry_opens_the_loading_overlay() {
    let mut cli = fresh_cli();
    cli.handle_key(KeyInput::Down);
    cli.handle_key(KeyInput::Down);
    let r = cli.handle_key(KeyInput::Enter);
    assert!(matches!(r, Some(Action::GenerateCommitSuggestions)));
    assert_eq!(cli.mode, Mode::Loading(ViewMode::Main));
    assert_eq!(cli.loading_message, "Generating commit suggestions...");
}

#[test]
fn loading_discards_everything_but_quit() {
    let mut cli = fresh_cli();
    cli.start_loading("working".to_string());
    assert!(cli.handle_key(KeyInput::Enter).is_none());
    assert!(cli.handle_key(KeyInput::Esc).is_none());
    assert!(cli.handle_key(KeyInput::Char('a')).is_none());
    assert_eq!(cli.mode, Mode::Loading(ViewMode::Main));
    assert!(!cli.should_quit);
    cli.handle_key(KeyInput::Char('q'));
    assert!(cli.should_quit);
}

#[test]
fn loading_resumes_exactly_the_captured_mode() {
    let mut cli = fresh_cli();
    cli.enter_file_mode(" M a.txt");
    assert_eq!(cli.mode, Mode::View(ViewMode::FileStaging));
    cli.start_loading("staging work".to_string());
    assert_eq!(cli.mode, Mode::Loading(ViewMode::FileStaging));
    cli.stop_loading();
    assert_eq!(cli.mode, Mode::View(ViewMode::FileStaging));
}

#[test]
fn suggestion_completion_enters_commit_selection() {
    let mut cli = fresh_cli();
    cli.handle_key(KeyInput::Down);
    cli.handle_key(KeyInput::Down);
    cli.handle_key(KeyInput::Enter);
    let suggestions = vec!["feat: first".to_string(), "fix: second".to_string()];
    cli.finish_commit_suggestions(true, Some(suggestions));
    assert_eq!(cli.mode, Mode::View(ViewMode::CommitSelection));
    assert_eq!(cli.commit_suggestions.len(), 2);
    assert_eq!(cli.commit_cursor.selected, Some(0));
}

#[test]
fn failed_suggestion_call_installs_the_placeholder_set() {
    let mut cli = fresh_cli();
    cli.start_loading("suggesting".to_string());
    cli.finish_commit_suggestions(true, None);
    assert_eq!(
        cli.commit_suggestions,
        vec!["feat: add new functionality", "fix: resolve issue", "chore: update code"],
    );
    assert_eq!(cli.mode, Mode::View(ViewMode::CommitSelection));
}

#[test]
fn no_staged_changes_resumes_the_captured_mode() {
    let mut cli = fresh_cli();
    cli.start_loading("suggesting".to_string());
    cli.finish_commit_suggestions(false, None);
    assert_eq!(cli.mode, Mode::View(ViewMode::Main));
    assert!(cli.commit_suggestions.is_empty());
}

#[test]
fn selecting_a_suggestion_commits_it_and_returns_to_main() {
    let mut cli = fresh_cli();
    cli.start_loading("suggesting".to_string());
    cli.finish_commit_suggestions(
        true,
        Some(vec!["feat: one".to_string(), "fix: two".to_string()]),
    );
    cli.handle_key(KeyInput::Down);
    let r = cli.handle_key(KeyInput::Enter);
    assert!(matches!(r, Some(Action::Commit(m)) if m == "fix: two"));
    assert_eq!(cli.mode, Mode::View(ViewMode::Main));
    assert!(cli.commit_suggestions.is_empty());
}

#[test]
fn escape_discards_suggestions_without_committing() {
    let mut cli = fresh_cli();
    cli.start_loading("suggesting".to_string());
    cli.finish_commit_suggestions(true, Some(vec!["feat: one".to_string()]));
    let r = cli.handle_key(KeyInput::Esc);
    assert!(r.is_none());
    assert_eq!(cli.mode, Mode::View(ViewMode::Main));
    assert!(cli.commit_suggestions.is_empty());
}

#[test]
fn report_completion_shows_content_and_escape_returns() {
    let mut cli = fresh_cli();
    cli.handle_key(KeyInput::Tab);
    let r = cli.handle_key(KeyInput::Enter);
    assert!(matches!(r, Some(Action::GeneratePrDescription)));
    assert_eq!(cli.loading_message, "Generating PR description...");
    cli.finish_report(AiReportKind::PrDescription, Some("## Summary".to_string()));
    assert_eq!(cli.mode, Mode::View(ViewMode::ContentDisplay));
    assert!(cli.display_title.contains("AI-Generated PR Description"));
    assert_eq!(cli.display_content, "## Summary");
    cli.handle_key(KeyInput::Esc);
    assert_eq!(cli.mode, Mode::View(ViewMode::Main));
    assert!(cli.display_content.is_empty());
}

#[test]
fn failed_report_falls_back_to_empty_content() {
    let mut cli = fresh_cli();
    cli.start_loading("reviewing".to_string());
    cli.finish_report(AiReportKind::CodeReview, None);
    assert_eq!(cli.mode, Mode::View(ViewMode::ContentDisplay));
    assert!(cli.display_title.contains("AI Code Review"));
    assert!(cli.display_content.is_empty());
}

#[test]
fn create_pr_without_token_does_not_open_the_overlay() {
    let mut cli = fresh_cli();
    cli.handle_key(KeyInput::Tab);
    cli.handle_key(KeyInput::Down);
    let r = cli.handle_key(KeyInput::Enter);
    assert!(matches!(r, Some(Action::RefreshStatus)));
    assert_eq!(cli.mode, Mode::View(ViewMode::Main));
}

#[test]
fn create_pr_with_token_opens_the_overlay() {
    let config = Config {
        default_branch: "master".to_string(),
        openai_api_key: None,
        github_token: Some("some-token".to_string()),
    };
    let mut cli = InteractiveCli::new(config);
    cli.handle_key(KeyInput::Tab);
    cli.handle_key(KeyInput::Down);
    let r = cli.handle_key(KeyInput::Enter);
    assert!(matches!(r, Some(Action::CreatePrWithAiDescription)));
    assert_eq!(cli.mode, Mode::Loading(ViewMode::Main));
}

#[test]
fn spinner_cycles_through_ten_phases() {
    let mut cli = fresh_cli();
    cli.start_loading("working".to_string());
    for _ in 0..10 {
        cli.advance_spinner();
    }
    assert_eq!(cli.loading_spinner, 0);
    cli.advance_spinner();
    assert_eq!(cli.loading_spinner, 1);
    assert_eq!(spinner_glyph(3), "\u{2838}");
    assert_eq!(spinner_glyph(13), "\u{2838}");
}

#[test]
fn overlay_rectangle_is_centered_by_percentages() {
    let area = Rect { x: 0, y: 0, width: 100, height: 50 };
    let popup = centered_rect(60, 25, area);
    assert_eq!(popup, Rect { x: 20, y: 18, width: 60, height: 12 });
    let offset_area = Rect { x: 10, y: 5, width: 80, height: 40 };
    let popup = centered_rect(50, 50, offset_area);
    assert_eq!(popup, Rect { x: 30, y: 15, width: 40, height: 20 });
}
