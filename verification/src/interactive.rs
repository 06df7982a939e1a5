//! The interactive mode controller: which mode is active, the key-driven
//! transitions between modes, and the list state each mode navigates.
//!
//! The controller is a pure state machine.  It consumes one key at a time
//! and answers with the collaborator action the key demands, if any; the
//! surrounding event loop performs the action and hands the outcome back
//! through the completion methods.

use vstd::prelude::*;
use crate::config::Config;
use crate::cursor::{spec_down, spec_up, SelectionCursor};
use crate::status::{
    in_staged, in_unstaged, in_untracked, path_of, staged_of, summary_of, unstaged_of,
    untracked_of, GitStatus,
};
use crate::text::{char_vec, lines_of, split_lines, string_of_range, trim_of, views_of};

verus! {

/// Classification of one selectable file entry.
#[derive(Debug, Clone, Copy, PartialEq, Eq, Structural)]
pub enum FileStatus {
    Staged,
    Modified,
    Untracked,
    Deleted,
}

/// One selectable file entry of the staging view.
#[derive(Debug, Clone)]
pub struct FileItem {
    pub path: String,
    pub status: FileStatus,
    pub selected: bool,
}

/// The four screens the user can be on.
#[derive(Debug, Clone, Copy, PartialEq, Eq, Structural)]
pub enum ViewMode {
    Main,
    FileStaging,
    CommitSelection,
    ContentDisplay,
}

/// The active mode: a screen, or the loading overlay carrying the screen
/// it must resume when the outstanding call completes.
#[derive(Debug, Clone, Copy, PartialEq, Eq, Structural)]
pub enum Mode {
    View(ViewMode),
    Loading(ViewMode),
}

/// One keyboard event, as the event loop hands it in.
#[derive(Debug, Clone, Copy, PartialEq, Eq, Structural)]
pub enum KeyInput {
    Up,
    Down,
    Tab,
    BackTab,
    Enter,
    Esc,
    Char(char),
}

/// The kinds of AI-generated report shown in the content display.
#[derive(Debug, Clone, Copy, PartialEq, Eq, Structural)]
pub enum AiReportKind {
    PrDescription,
    GeneratedTests,
    ImprovedCommitMessage,
    Changelog,
    CodeReview,
}

/// A collaborator action the event loop must perform for the controller.
#[derive(Debug, Clone)]
pub enum Action {
    RefreshStatus,
    LoadFileList,
    StageAll,
    UnstageAll,
    StagePath(String),
    UnstagePath(String),
    RemovePath(String),
    Commit(String),
    Push,
    Pull,
    CheckoutNewBranch,
    Merge,
    GenerateCommitSuggestions,
    GeneratePrDescription,
    CreatePrWithAiDescription,
    GenerateTests,
    ImproveCommitMessage,
    GenerateChangelog,
    CodeReview,
}

/// The mathematical face of an `Action`: paths and messages as sequences.
pub enum ActionSpec {
    RefreshStatus,
    LoadFileList,
    StageAll,
    UnstageAll,
    StagePath(Seq<char>),
    UnstagePath(Seq<char>),
    RemovePath(Seq<char>),
    Commit(Seq<char>),
    Push,
    Pull,
    CheckoutNewBranch,
    Merge,
    GenerateCommitSuggestions,
    GeneratePrDescription,
    CreatePrWithAiDescription,
    GenerateTests,
    ImproveCommitMessage,
    GenerateChangelog,
    CodeReview,
}

pub open spec fn action_model(a: Action) -> ActionSpec {
    match a {
        Action::RefreshStatus => ActionSpec::RefreshStatus,
        Action::LoadFileList => ActionSpec::LoadFileList,
        Action::StageAll => ActionSpec::StageAll,
        Action::UnstageAll => ActionSpec::UnstageAll,
        Action::StagePath(p) => ActionSpec::StagePath(p@),
        Action::UnstagePath(p) => ActionSpec::UnstagePath(p@),
        Action::RemovePath(p) => ActionSpec::RemovePath(p@),
        Action::Commit(m) => ActionSpec::Commit(m@),
        Action::Push => ActionSpec::Push,
        Action::Pull => ActionSpec::Pull,
        Action::CheckoutNewBranch => ActionSpec::CheckoutNewBranch,
        Action::Merge => ActionSpec::Merge,
        Action::GenerateCommitSuggestions => ActionSpec::GenerateCommitSuggestions,
        Action::GeneratePrDescription => ActionSpec::GeneratePrDescription,
        Action::CreatePrWithAiDescription => ActionSpec::CreatePrWithAiDescription,
        Action::GenerateTests => ActionSpec::GenerateTests,
        Action::ImproveCommitMessage => ActionSpec::ImproveCommitMessage,
        Action::GenerateChangelog => ActionSpec::GenerateChangelog,
        Action::CodeReview => ActionSpec::CodeReview,
    }
}

pub open spec fn opt_action_model(a: Option<Action>) -> Option<ActionSpec> {
    match a {
        Some(x) => Some(action_model(x)),
        None => None,
    }
}

/// The classification a status line gives its file entry, if any.  A code
/// staged on either side counts as staged here: mixed-state files surface
/// once in this view, in deliberate contrast to the dual listing of the
/// working-tree snapshot.
pub open spec fn file_class(line: Seq<char>) -> Option<FileStatus> {
    if in_staged(line) {
        Some(FileStatus::Staged)
    } else if in_unstaged(line) {
        Some(FileStatus::Modified)
    } else if in_untracked(line) {
        Some(FileStatus::Untracked)
    } else {
        None
    }
}

/// The entries a sequence of status lines yields, in order.
pub open spec fn file_items_of_lines(lines: Seq<Seq<char>>) -> Seq<(Seq<char>, FileStatus)>
    decreases lines.len(),
{
    if lines.len() == 0 {
        seq![]
    } else {
        file_items_of_lines(lines.drop_last()) + match file_class(lines.last()) {
            Some(st) => seq![(path_of(lines.last()), st)],
            None => seq![],
        }
    }
}

/// The entries raw status text yields.
pub open spec fn file_items_of(text: Seq<char>) -> Seq<(Seq<char>, FileStatus)> {
    file_items_of_lines(lines_of(text))
}

/// The path and classification of each entry.
pub open spec fn item_views(items: Seq<FileItem>) -> Seq<(Seq<char>, FileStatus)> {
    items.map_values(|it: FileItem| (it.path@, it.status))
}

/// Rebuild the selectable file list from raw status text.
pub fn file_items_from_status(status_text: &str) -> (r: Vec<FileItem>)
    ensures
        item_views(r@) == file_items_of(status_text@),
        forall|i: int| 0 <= i < r@.len() ==> !r@[i].selected,
{
    let lines = split_lines(status_text);
    let ghost lviews = views_of(lines@);
    let mut r: Vec<FileItem> = Vec::new();
    let mut i: usize = 0;
    proof {
        assert(lviews.take(0) =~= Seq::<Seq<char>>::empty());
        assert(item_views(r@) =~= file_items_of_lines(lviews.take(0)));
    }
    while i < lines.len()
        invariant
            i <= lines@.len(),
            lviews == views_of(lines@),
            item_views(r@) == file_items_of_lines(lviews.take(i as int)),
            forall|j: int| 0 <= j < r@.len() ==> !r@[j].selected,
        decreases lines@.len() - i,
    {
        let ghost prev = r@;
        let line: &String = &lines[i];
        let lv = char_vec(line.as_str());
        proof {
            assert(lv@ == lviews[i as int]);
            assert(lviews.take(i + 1).drop_last() =~= lviews.take(i as int));
            assert(lviews.take(i + 1).last() == lv@);
        }
        if lv.len() >= 3 {
            let c0 = lv[0];
            let c1 = lv[1];
            let class: Option<FileStatus> = if (c0 == 'A' && c1 == ' ') || (c0 == 'M' && c1 == ' ')
                || (c0 == 'D' && c1 == ' ') || (c0 == 'A' && c1 == 'M') || (c0 == 'M' && c1 == 'M') {
                Some(FileStatus::Staged)
            } else if (c0 == ' ' && c1 == 'M') || (c0 == ' ' && c1 == 'D') {
                Some(FileStatus::Modified)
            } else if c0 == '?' && c1 == '?' {
                Some(FileStatus::Untracked)
            } else {
                None
            };
            match class {
                Some(st) => {
                    let path = string_of_range(&lv, 3, lv.len());
                    r.push(FileItem { path, status: st, selected: false });
                    proof {
                        assert(item_views(r@) =~= item_views(prev) + seq![(path_of(lv@), st)]);
                        assert(item_views(r@) =~= file_items_of_lines(lviews.take(i + 1)));
                    }
                },
                None => {
                    proof {
                        assert(item_views(r@) =~= file_items_of_lines(lviews.take(i + 1)));
                    }
                },
            }
        } else {
            proof {
                assert(item_views(r@) =~= file_items_of_lines(lviews.take(i + 1)));
            }
        }
        i = i + 1;
    }
    proof {
        assert(lviews.take(lines@.len() as int) =~= lviews);
    }
    r
}

/// The number of menu entries on each tab.
pub open spec fn menu_len(tab: int) -> int {
    if tab == 0 {
        8
    } else if tab == 1 {
        7
    } else if tab == 2 {
        3
    } else {
        0
    }
}

/// The menu labels of each tab: one ordered table, consumed by both the
/// renderer and the key dispatcher so the two can never drift apart.
pub open spec fn menu_labels(tab: int) -> Seq<Seq<char>> {
    if tab == 0 {
        seq![
            "\u{1F4C1} Manage files (f)"@,
            "\u{1F4DD} Add files to staging"@,
            "\u{1F4BE} Commit changes"@,
            "\u{1F680} Push to remote"@,
            "\u{1F4E5} Pull from remote"@,
            "\u{1F33F} Switch branch"@,
            "\u{1F500} Merge branch"@,
            "\u{1F4CB} View status"@,
        ]
    } else if tab == 1 {
        seq![
            "\u{2728} Generate PR description"@,
            "\u{1F680} Create PR with AI description"@,
            "\u{1F9EA} Generate unit tests"@,
            "\u{1F4AC} Improve commit message"@,
            "\u{1F4DD} Interactive commit"@,
            "\u{1F4CB} Generate changelog"@,
            "\u{1F50D} Code review"@,
        ]
    } else if tab == 2 {
        seq!["\u{1F504} Refresh status"@, "\u{2699}\u{FE0F} Configuration"@, "\u{274C} Exit"@]
    } else {
        seq![]
    }
}

/// The titles of the three tabs.
pub open spec fn tab_labels() -> Seq<Seq<char>> {
    seq!["Git Operations"@, "AI Features"@, "Utilities"@]
}

/// The menu entries of one tab, for rendering and dispatch alike.
pub fn menu_items(tab: usize) -> (r: Vec<String>)
    ensures
        views_of(r@) == menu_labels(tab as int),
{
    let mut r: Vec<String> = Vec::new();
    if tab == 0 {
        r.push(String::from_str("\u{1F4C1} Manage files (f)"));
        r.push(String::from_str("\u{1F4DD} Add files to staging"));
        r.push(String::from_str("\u{1F4BE} Commit changes"));
        r.push(String::from_str("\u{1F680} Push to remote"));
        r.push(String::from_str("\u{1F4E5} Pull from remote"));
        r.push(String::from_str("\u{1F33F} Switch branch"));
        r.push(String::from_str("\u{1F500} Merge branch"));
        r.push(String::from_str("\u{1F4CB} View status"));
    } else if tab == 1 {
        r.push(String::from_str("\u{2728} Generate PR description"));
        r.push(String::from_str("\u{1F680} Create PR with AI description"));
        r.push(String::from_str("\u{1F9EA} Generate unit tests"));
        r.push(String::from_str("\u{1F4AC} Improve commit message"));
        r.push(String::from_str("\u{1F4DD} Interactive commit"));
        r.push(String::from_str("\u{1F4CB} Generate changelog"));
        r.push(String::from_str("\u{1F50D} Code review"));
    } else if tab == 2 {
        r.push(String::from_str("\u{1F504} Refresh status"));
        r.push(String::from_str("\u{2699}\u{FE0F} Configuration"));
        r.push(String::from_str("\u{274C} Exit"));
    }
    proof {
        assert(views_of(r@) =~= menu_labels(tab as int));
    }
    r
}

/// The titles of the three tabs.
pub fn tab_titles() -> (r: Vec<String>)
    ensures
        views_of(r@) == tab_labels(),
{
    let mut r: Vec<String> = Vec::new();
    r.push(String::from_str("Git Operations"));
    r.push(String::from_str("AI Features"));
    r.push(String::from_str("Utilities"));
    proof {
        assert(views_of(r@) =~= tab_labels());
    }
    r
}

/// The ten spinner glyphs of the loading overlay, by phase.
pub open spec fn spinner_glyphs() -> Seq<Seq<char>> {
    seq![
        "\u{280B}"@,
        "\u{2819}"@,
        "\u{2839}"@,
        "\u{2838}"@,
        "\u{283C}"@,
        "\u{2834}"@,
        "\u{2826}"@,
        "\u{2827}"@,
        "\u{2807}"@,
        "\u{280F}"@,
    ]
}

/// The spinner glyph shown at a phase.
pub fn spinner_glyph(phase: usize) -> (r: &'static str)
    ensures
        r@ == spinner_glyphs()[phase as int % 10],
{
    let p = phase % 10;
    if p == 0 {
        "\u{280B}"
    } else if p == 1 {
        "\u{2819}"
    } else if p == 2 {
        "\u{2839}"
    } else if p == 3 {
        "\u{2838}"
    } else if p == 4 {
        "\u{283C}"
    } else if p == 5 {
        "\u{2834}"
    } else if p == 6 {
        "\u{2826}"
    } else if p == 7 {
        "\u{2827}"
    } else if p == 8 {
        "\u{2807}"
    } else {
        "\u{280F}"
    }
}

/// A rectangle of terminal cells.
#[derive(Debug, Clone, Copy, PartialEq, Eq, Structural)]
pub struct Rect {
    pub x: u16,
    pub y: u16,
    pub width: u16,
    pub height: u16,
}

/// The length of one outer segment when `total` is split
/// `(100-percent)/2, percent, (100-percent)/2`.
pub open spec fn margin_len(total: int, percent: int) -> int {
    total * ((100 - percent) / 2) / 100
}

/// The length of the middle segment of that split.
pub open spec fn middle_len(total: int, percent: int) -> int {
    total * percent / 100
}

/// The centered overlay rectangle: a vertical percentage split, then a
/// horizontal one, each keeping the middle segment.
pub fn centered_rect(percent_x: u16, percent_y: u16, r: Rect) -> (out: Rect)
    requires
        percent_x <= 100,
        percent_y <= 100,
        r.x + r.width <= u16::MAX,
        r.y + r.height <= u16::MAX,
    ensures
        out.x == r.x + margin_len(r.width as int, percent_x as int),
        out.y == r.y + margin_len(r.height as int, percent_y as int),
        out.width == middle_len(r.width as int, percent_x as int),
        out.height == middle_len(r.height as int, percent_y as int),
{
    let fx: u16 = (100 - percent_x) / 2;
    let fy: u16 = (100 - percent_y) / 2;
    proof {
        assert forall|a: int, b: int| 0 <= a <= 65535 && 0 <= b <= 100 implies #[trigger] (a * b)
            <= 6553500 by {
            vstd::arithmetic::mul::lemma_mul_upper_bound(a, 65535, b, 100);
        }
        assert((r.width as int) * (fx as int) / 100 <= r.width) by (nonlinear_arith)
            requires
                fx <= 100,
        ;
        assert((r.height as int) * (fy as int) / 100 <= r.height) by (nonlinear_arith)
            requires
                fy <= 100,
        ;
        assert((r.width as int) * (percent_x as int) / 100 <= r.width) by (nonlinear_arith)
            requires
                percent_x <= 100,
        ;
        assert((r.height as int) * (percent_y as int) / 100 <= r.height) by (nonlinear_arith)
            requires
                percent_y <= 100,
        ;
    }
    let mx: u64 = (r.width as u64) * (fx as u64) / 100;
    let my: u64 = (r.height as u64) * (fy as u64) / 100;
    let w: u64 = (r.width as u64) * (percent_x as u64) / 100;
    let h: u64 = (r.height as u64) * (percent_y as u64) / 100;
    Rect {
        x: r.x + (mx as u16),
        y: r.y + (my as u16),
        width: w as u16,
        height: h as u16,
    }
}

/// The controller state as mathematics: every list a sequence of views,
/// every cursor an optional index.
#[verifier::ext_equal]
pub struct ModelState {
    pub mode: Mode,
    pub current_tab: int,
    pub menu_cursor: Option<int>,
    pub should_quit: bool,
    pub commit_suggestions: Seq<Seq<char>>,
    pub commit_cursor: Option<int>,
    pub file_items: Seq<(Seq<char>, FileStatus)>,
    pub file_cursor: Option<int>,
    pub display_title: Seq<char>,
    pub display_content: Seq<char>,
    pub loading_message: Seq<char>,
    pub loading_spinner: int,
}

pub open spec fn cursor_model(c: SelectionCursor) -> Option<int> {
    match c.selected {
        Some(i) => Some(i as int),
        None => None,
    }
}

/// The index a step or a selection starts from: the cursor when it is
/// valid, the top of the list otherwise.
pub open spec fn cursor_base(c: Option<int>, count: int) -> int {
    match c {
        Some(i) => if 0 <= i < count {
            i
        } else {
            0
        },
        None => 0,
    }
}

/// Where the cursor stands after one step up over `count` items.
pub open spec fn nav_up(c: Option<int>, count: int) -> Option<int> {
    if count > 0 {
        Some(spec_up(cursor_base(c, count), count))
    } else {
        None
    }
}

/// Where the cursor stands after one step down over `count` items.
pub open spec fn nav_down(c: Option<int>, count: int) -> Option<int> {
    if count > 0 {
        Some(spec_down(cursor_base(c, count), count))
    } else {
        None
    }
}

/// The screen a mode shows or will resume.
pub open spec fn resume_of(m: Mode) -> ViewMode {
    match m {
        Mode::View(v) => v,
        Mode::Loading(v) => v,
    }
}

/// The state after the loading overlay opens over the current screen.
pub open spec fn with_loading(s: ModelState, msg: Seq<char>) -> ModelState {
    ModelState {
        mode: Mode::Loading(resume_of(s.mode)),
        loading_message: msg,
        loading_spinner: 0,
        ..s
    }
}

/// The state after the loading overlay closes: exactly the screen captured
/// at entry is active again.
pub open spec fn with_stopped_loading(s: ModelState) -> ModelState {
    ModelState {
        mode: Mode::View(resume_of(s.mode)),
        loading_message: Seq::empty(),
        loading_spinner: 0,
        ..s
    }
}

/// The collaborator call that toggling an entry demands: unstage a staged
/// entry, stage a modified or untracked one, remove a deleted one.
pub open spec fn toggle_action_spec(item: (Seq<char>, FileStatus)) -> ActionSpec {
    match item.1 {
        FileStatus::Staged => ActionSpec::UnstagePath(item.0),
        FileStatus::Modified => ActionSpec::StagePath(item.0),
        FileStatus::Untracked => ActionSpec::StagePath(item.0),
        FileStatus::Deleted => ActionSpec::RemovePath(item.0),
    }
}

/// What confirming the highlighted main-menu entry does: the state it
/// leaves and the action it demands, by tab and entry.
pub open spec fn main_enter_transition(
    pre: ModelState,
    post: ModelState,
    r: Option<ActionSpec>,
    has_github_token: bool,
) -> bool {
    let sel = cursor_base(pre.menu_cursor, menu_len(pre.current_tab));
    if pre.current_tab == 0 {
        if sel == 0 {
            post == pre && r == Some(ActionSpec::LoadFileList)
        } else if sel == 1 {
            post == pre && r == Some(ActionSpec::StageAll)
        } else if sel == 2 {
            post == with_loading(pre, "Generating commit suggestions..."@) && r == Some(
                ActionSpec::GenerateCommitSuggestions,
            )
        } else if sel == 3 {
            post == pre && r == Some(ActionSpec::Push)
        } else if sel == 4 {
            post == pre && r == Some(ActionSpec::Pull)
        } else if sel == 5 {
            post == pre && r == Some(ActionSpec::CheckoutNewBranch)
        } else if sel == 6 {
            post == pre && r == Some(ActionSpec::Merge)
        } else {
            post == pre && r == Some(ActionSpec::RefreshStatus)
        }
    } else if pre.current_tab == 1 {
        if sel == 0 {
            post == with_loading(pre, "Generating PR description..."@) && r == Some(
                ActionSpec::GeneratePrDescription,
            )
        } else if sel == 1 {
            if has_github_token {
                post == with_loading(pre, "Creating PR with AI description..."@) && r == Some(
                    ActionSpec::CreatePrWithAiDescription,
                )
            } else {
                post == pre && r == Some(ActionSpec::RefreshStatus)
            }
        } else if sel == 2 {
            post == with_loading(pre, "Generating unit tests..."@) && r == Some(
                ActionSpec::GenerateTests,
            )
        } else if sel == 3 {
            post == with_loading(pre, "Improving commit message..."@) && r == Some(
                ActionSpec::ImproveCommitMessage,
            )
        } else if sel == 4 {
            post == with_loading(pre, "Generating commit suggestions..."@) && r == Some(
                ActionSpec::GenerateCommitSuggestions,
            )
        } else if sel == 5 {
            post == with_loading(pre, "Generating changelog..."@) && r == Some(
                ActionSpec::GenerateChangelog,
            )
        } else if sel == 6 {
            post == with_loading(pre, "Performing code review..."@) && r == Some(
                ActionSpec::CodeReview,
            )
        } else {
            post == pre && r == Some(ActionSpec::RefreshStatus)
        }
    } else {
        if sel == 0 {
            post == pre && r == Some(ActionSpec::RefreshStatus)
        } else if sel == 2 {
            post == ModelState { should_quit: true, ..pre } && r is None
        } else {
            post == pre && r == Some(ActionSpec::RefreshStatus)
        }
    }
}

/// The transition table of the mode state machine: for the state before a
/// key and the state after it, whether the pair is the table's row for that
/// key, together with the action handed to the event loop.
pub open spec fn key_transition(
    pre: ModelState,
    post: ModelState,
    k: KeyInput,
    r: Option<ActionSpec>,
    has_github_token: bool,
) -> bool {
    match pre.mode {
        Mode::Loading(_) => {
            r is None && if k == KeyInput::Char('q') {
                post == ModelState { should_quit: true, ..pre }
            } else {
                post == pre
            }
        },
        Mode::View(ViewMode::Main) => {
            match k {
                KeyInput::Char(c) => {
                    if c == 'q' {
                        post == ModelState { should_quit: true, ..pre } && r is None
                    } else if c == 'r' {
                        post == pre && r == Some(ActionSpec::RefreshStatus)
                    } else if c == 'f' {
                        post == pre && r == Some(ActionSpec::LoadFileList)
                    } else {
                        post == pre && r is None
                    }
                },
                KeyInput::Up => post == ModelState {
                    menu_cursor: nav_up(pre.menu_cursor, menu_len(pre.current_tab)),
                    ..pre
                } && r is None,
                KeyInput::Down => post == ModelState {
                    menu_cursor: nav_down(pre.menu_cursor, menu_len(pre.current_tab)),
                    ..pre
                } && r is None,
                KeyInput::Tab => post == ModelState {
                    current_tab: (pre.current_tab + 1) % 3,
                    menu_cursor: Some(0),
                    ..pre
                } && r is None,
                KeyInput::BackTab => post == ModelState {
                    current_tab: if pre.current_tab > 0 {
                        pre.current_tab - 1
                    } else {
                        2
                    },
                    menu_cursor: Some(0),
                    ..pre
                } && r is None,
                KeyInput::Enter => main_enter_transition(pre, post, r, has_github_token),
                KeyInput::Esc => post == pre && r is None,
            }
        },
        Mode::View(ViewMode::CommitSelection) => {
            match k {
                KeyInput::Up => post == ModelState {
                    commit_cursor: nav_up(pre.commit_cursor, pre.commit_suggestions.len() as int),
                    ..pre
                } && r is None,
                KeyInput::Down => post == ModelState {
                    commit_cursor: nav_down(pre.commit_cursor, pre.commit_suggestions.len() as int),
                    ..pre
                } && r is None,
                KeyInput::Enter => {
                    let sel = cursor_base(pre.commit_cursor, pre.commit_suggestions.len() as int);
                    if 0 <= sel < pre.commit_suggestions.len() {
                        post == ModelState {
                            mode: Mode::View(ViewMode::Main),
                            commit_suggestions: Seq::empty(),
                            commit_cursor: None,
                            ..pre
                        } && r == Some(ActionSpec::Commit(pre.commit_suggestions[sel]))
                    } else {
                        post == pre && r is None
                    }
                },
                KeyInput::Esc => post == ModelState {
                    mode: Mode::View(ViewMode::Main),
                    commit_suggestions: Seq::empty(),
                    commit_cursor: None,
                    ..pre
                } && r is None,
                _ => post == pre && r is None,
            }
        },
        Mode::View(ViewMode::FileStaging) => {
            match k {
                KeyInput::Up => post == ModelState {
                    file_cursor: nav_up(pre.file_cursor, pre.file_items.len() as int),
                    ..pre
                } && r is None,
                KeyInput::Down => post == ModelState {
                    file_cursor: nav_down(pre.file_cursor, pre.file_items.len() as int),
                    ..pre
                } && r is None,
                KeyInput::Char(c) => {
                    if c == ' ' {
                        let sel = cursor_base(pre.file_cursor, pre.file_items.len() as int);
                        if 0 <= sel < pre.file_items.len() {
                            post == pre && r == Some(toggle_action_spec(pre.file_items[sel]))
                        } else {
                            post == pre && r is None
                        }
                    } else if c == 'a' {
                        post == pre && r == Some(ActionSpec::StageAll)
                    } else if c == 'u' {
                        post == pre && r == Some(ActionSpec::UnstageAll)
                    } else {
                        post == pre && r is None
                    }
                },
                KeyInput::Esc => post == ModelState {
                    mode: Mode::View(ViewMode::Main),
                    file_items: Seq::empty(),
                    file_cursor: None,
                    ..pre
                } && r == Some(ActionSpec::RefreshStatus),
                _ => post == pre && r is None,
            }
        },
        Mode::View(ViewMode::ContentDisplay) => {
            match k {
                KeyInput::Esc => post == ModelState {
                    mode: Mode::View(ViewMode::Main),
                    display_title: Seq::empty(),
                    display_content: Seq::empty(),
                    ..pre
                } && r is None,
                KeyInput::Char(c) => {
                    if c == 'q' {
                        post == ModelState { should_quit: true, ..pre } && r is None
                    } else {
                        post == pre && r is None
                    }
                },
                _ => post == pre && r is None,
            }
        },
    }
}

/// The controller state before any status has been read.
pub open spec fn initial_model() -> ModelState {
    ModelState {
        mode: Mode::View(ViewMode::Main),
        current_tab: 0,
        menu_cursor: None,
        should_quit: false,
        commit_suggestions: Seq::empty(),
        commit_cursor: None,
        file_items: Seq::empty(),
        file_cursor: None,
        display_title: Seq::empty(),
        display_content: Seq::empty(),
        loading_message: Seq::empty(),
        loading_spinner: 0,
    }
}

/// The placeholder suggestions installed when the AI call yields nothing.
pub open spec fn placeholder_suggestions() -> Seq<Seq<char>> {
    seq!["feat: add new functionality"@, "fix: resolve issue"@, "chore: update code"@]
}

/// The suggestions installed on completion: what the call produced if it
/// produced any, the placeholder set otherwise.
pub open spec fn suggestions_model(s: Option<Vec<String>>) -> Seq<Seq<char>> {
    match s {
        Some(v) => if v@.len() > 0 {
            views_of(v@)
        } else {
            placeholder_suggestions()
        },
        None => placeholder_suggestions(),
    }
}

/// The heading shown over each kind of AI report.
pub open spec fn title_of(kind: AiReportKind) -> Seq<char> {
    match kind {
        AiReportKind::PrDescription => "\u{1F4CB} AI-Generated PR Description"@,
        AiReportKind::GeneratedTests => "\u{1F9EA} AI-Generated Unit Tests"@,
        AiReportKind::ImprovedCommitMessage => "\u{1F4AC} AI-Improved Commit Message"@,
        AiReportKind::Changelog => "\u{1F4CB} AI-Generated Changelog"@,
        AiReportKind::CodeReview => "\u{1F50D} AI Code Review"@,
    }
}

/// The content shown on completion: what the call produced, or nothing
/// when it failed.
pub open spec fn report_content_model(content: Option<String>) -> Seq<char> {
    match content {
        Some(c) => c@,
        None => Seq::empty(),
    }
}

/// The interactive controller: the active mode, the three navigable lists,
/// the loading overlay state, and the latest working-tree snapshot.
pub struct InteractiveCli {
    pub config: Config,
    pub git_status: GitStatus,
    pub mode: Mode,
    pub current_tab: usize,
    pub should_quit: bool,
    pub menu_cursor: SelectionCursor,
    pub commit_suggestions: Vec<String>,
    pub commit_cursor: SelectionCursor,
    pub file_items: Vec<FileItem>,
    pub file_cursor: SelectionCursor,
    pub display_title: String,
    pub display_content: String,
    pub loading_message: String,
    pub loading_spinner: usize,
}

impl InteractiveCli {
    /// The mathematical state this controller is in.
    pub open spec fn model(&self) -> ModelState {
        ModelState {
            mode: self.mode,
            current_tab: self.current_tab as int,
            menu_cursor: cursor_model(self.menu_cursor),
            should_quit: self.should_quit,
            commit_suggestions: views_of(self.commit_suggestions@),
            commit_cursor: cursor_model(self.commit_cursor),
            file_items: item_views(self.file_items@),
            file_cursor: cursor_model(self.file_cursor),
            display_title: self.display_title@,
            display_content: self.display_content@,
            loading_message: self.loading_message@,
            loading_spinner: self.loading_spinner as int,
        }
    }

    /// Structural soundness: the tab and spinner are in range and every
    /// cursor is within the list it navigates.
    pub open spec fn wf(&self) -> bool {
        &&& self.current_tab < 3
        &&& self.loading_spinner < 10
        &&& self.menu_cursor.in_bounds(menu_len(self.current_tab as int) as nat)
        &&& self.commit_cursor.in_bounds(self.commit_suggestions@.len())
        &&& self.file_cursor.in_bounds(self.file_items@.len())
    }

    /// A fresh controller on the main screen, before any status refresh.
    pub fn new(config: Config) -> (r: InteractiveCli)
        ensures
            r.wf(),
            r.model() == initial_model(),
            r.config == config,
            r.git_status.branch@ == "unknown"@,
            r.git_status.status@ == "unknown"@,
            r.git_status.staged_files@.len() == 0,
            r.git_status.unstaged_files@.len() == 0,
            r.git_status.untracked_files@.len() == 0,
    {
        let r = InteractiveCli {
            config,
            git_status: GitStatus::unknown(),
            mode: Mode::View(ViewMode::Main),
            current_tab: 0,
            should_quit: false,
            menu_cursor: SelectionCursor::new(),
            commit_suggestions: Vec::new(),
            commit_cursor: SelectionCursor::new(),
            file_items: Vec::new(),
            file_cursor: SelectionCursor::new(),
            display_title: String::new(),
            display_content: String::new(),
            loading_message: String::new(),
            loading_spinner: 0,
        };
        proof {
            assert(r.model() =~= initial_model());
        }
        r
    }

    /// Open the loading overlay over the current screen.
    pub fn start_loading(&mut self, message: String)
        requires
            old(self).wf(),
        ensures
            final(self).wf(),
            final(self).model() == with_loading(old(self).model(), message@),
            final(self).git_status == old(self).git_status,
            final(self).config == old(self).config,
    {
        let resume = match self.mode {
            Mode::View(v) => v,
            Mode::Loading(v) => v,
        };
        self.mode = Mode::Loading(resume);
        self.loading_message = message;
        self.loading_spinner = 0;
        proof {
            assert(self.model() =~= with_loading(old(self).model(), self.loading_message@));
        }
    }

    /// Close the loading overlay and resume exactly the screen captured at
    /// entry.
    pub fn stop_loading(&mut self)
        requires
            old(self).wf(),
        ensures
            final(self).wf(),
            final(self).model() == with_stopped_loading(old(self).model()),
            final(self).git_status == old(self).git_status,
            final(self).config == old(self).config,
    {
        let resume = match self.mode {
            Mode::View(v) => v,
            Mode::Loading(v) => v,
        };
        self.mode = Mode::View(resume);
        self.loading_message = String::new();
        self.loading_spinner = 0;
        proof {
            assert(self.model() =~= with_stopped_loading(old(self).model()));
        }
    }

    /// Advance the spinner one phase; it cycles through ten glyphs.
    pub fn advance_spinner(&mut self)
        requires
            old(self).wf(),
        ensures
            final(self).wf(),
            final(self).model() == (ModelState {
                loading_spinner: (old(self).model().loading_spinner + 1) % 10,
                ..old(self).model()
            }),
            final(self).git_status == old(self).git_status,
            final(self).config == old(self).config,
    {
        self.loading_spinner = (self.loading_spinner + 1) % 10;
        proof {
            assert(self.model() =~= ModelState {
                loading_spinner: (old(self).model().loading_spinner + 1) % 10,
                ..old(self).model()
            });
        }
    }

    /// Install a fresh working-tree snapshot scanned from raw branch and
    /// status text.  The mode state is untouched.
    pub fn finish_refresh(&mut self, branch_text: &str, status_text: &str)
        requires
            old(self).wf(),
        ensures
            final(self).wf(),
            final(self).model() == old(self).model(),
            final(self).config == old(self).config,
            final(self).git_status.branch@ == trim_of(branch_text@),
            views_of(final(self).git_status.staged_files@) == staged_of(status_text@),
            views_of(final(self).git_status.unstaged_files@) == unstaged_of(status_text@),
            views_of(final(self).git_status.untracked_files@) == untracked_of(status_text@),
            final(self).git_status.status@ == summary_of(
                (staged_of(status_text@).len() + unstaged_of(status_text@).len() + untracked_of(
                    status_text@,
                ).len()) as nat,
            ),
    {
        self.git_status = GitStatus::scan(branch_text, status_text);
    }

    /// Enter the file-staging screen with entries rebuilt from raw status
    /// text; the first entry is highlighted when there is one.
    pub fn enter_file_mode(&mut self, status_text: &str)
        requires
            old(self).wf(),
        ensures
            final(self).wf(),
            final(self).model() == (ModelState {
                mode: Mode::View(ViewMode::FileStaging),
                file_items: file_items_of(status_text@),
                file_cursor: if file_items_of(status_text@).len() > 0 {
                    Some(0int)
                } else {
                    None
                },
                ..old(self).model()
            }),
            final(self).git_status == old(self).git_status,
            final(self).config == old(self).config,
    {
        let items = file_items_from_status(status_text);
        let n = items.len();
        self.file_items = items;
        self.file_cursor.select_first(n);
        self.mode = Mode::View(ViewMode::FileStaging);
        proof {
            assert(item_views(self.file_items@).len() == self.file_items@.len());
            assert(self.model() =~= ModelState {
                mode: Mode::View(ViewMode::FileStaging),
                file_items: file_items_of(status_text@),
                file_cursor: if file_items_of(status_text@).len() > 0 {
                    Some(0int)
                } else {
                    None
                },
                ..old(self).model()
            });
        }
    }

    /// Complete a commit-suggestion call: close the overlay, and when there
    /// were staged changes enter commit selection with the produced
    /// suggestions, or with the placeholder set when the call produced
    /// none.  Without staged changes the captured screen simply resumes.
    pub fn finish_commit_suggestions(&mut self, has_staged: bool, suggestions: Option<Vec<String>>)
        requires
            old(self).wf(),
        ensures
            final(self).wf(),
            final(self).git_status == old(self).git_status,
            final(self).config == old(self).config,
            !has_staged ==> final(self).model() == with_stopped_loading(old(self).model()),
            has_staged ==> final(self).model() == (ModelState {
                mode: Mode::View(ViewMode::CommitSelection),
                commit_suggestions: suggestions_model(suggestions),
                commit_cursor: Some(0int),
                loading_message: Seq::empty(),
                loading_spinner: 0,
                ..old(self).model()
            }),
    {
        self.stop_loading();
        if has_staged {
            let sugg: Vec<String> = match suggestions {
                Some(v) => {
                    if v.len() > 0 {
                        v
                    } else {
                        placeholder_suggestion_list()
                    }
                },
                None => placeholder_suggestion_list(),
            };
            self.commit_suggestions = sugg;
            self.commit_cursor.selected = Some(0);
            self.mode = Mode::View(ViewMode::CommitSelection);
            proof {
                assert(views_of(self.commit_suggestions@).len()
                    == self.commit_suggestions@.len());
                assert(self.model() =~= ModelState {
                    mode: Mode::View(ViewMode::CommitSelection),
                    commit_suggestions: suggestions_model(suggestions),
                    commit_cursor: Some(0int),
                    loading_message: Seq::empty(),
                    loading_spinner: 0,
                    ..old(self).model()
                });
            }
        }
    }

    /// Complete an AI report call: close the overlay and show the content
    /// under the heading of its kind; a failed call shows empty content
    /// rather than disturbing the session.
    pub fn finish_report(&mut self, kind: AiReportKind, content: Option<String>)
        requires
            old(self).wf(),
        ensures
            final(self).wf(),
            final(self).git_status == old(self).git_status,
            final(self).config == old(self).config,
            final(self).model() == (ModelState {
                mode: Mode::View(ViewMode::ContentDisplay),
                display_title: title_of(kind),
                display_content: report_content_model(content),
                loading_message: Seq::empty(),
                loading_spinner: 0,
                ..old(self).model()
            }),
    {
        self.stop_loading();
        self.display_title = match kind {
            AiReportKind::PrDescription => String::from_str(
                "\u{1F4CB} AI-Generated PR Description",
            ),
            AiReportKind::GeneratedTests => String::from_str("\u{1F9EA} AI-Generated Unit Tests"),
            AiReportKind::ImprovedCommitMessage => String::from_str(
                "\u{1F4AC} AI-Improved Commit Message",
            ),
            AiReportKind::Changelog => String::from_str("\u{1F4CB} AI-Generated Changelog"),
            AiReportKind::CodeReview => String::from_str("\u{1F50D} AI Code Review"),
        };
        self.display_content = match content {
            Some(c) => c,
            None => String::new(),
        };
        self.mode = Mode::View(ViewMode::ContentDisplay);
        proof {
            assert(self.model() =~= ModelState {
                mode: Mode::View(ViewMode::ContentDisplay),
                display_title: title_of(kind),
                display_content: report_content_model(content),
                loading_message: Seq::empty(),
                loading_spinner: 0,
                ..old(self).model()
            });
        }
    }
    /// Apply one key to the active mode, per the transition table, and
    /// answer with the collaborator action the event loop must perform,
    /// if the key demands one.
    pub fn handle_key(&mut self, k: KeyInput) -> (r: Option<Action>)
        requires
            old(self).wf(),
        ensures
            final(self).wf(),
            key_transition(
                old(self).model(),
                final(self).model(),
                k,
                opt_action_model(r),
                old(self).config.github_token is Some,
            ),
            final(self).git_status == old(self).git_status,
            final(self).config == old(self).config,
    {
        let ghost pre = self.model();
        let mode = self.mode;
        match mode {
            Mode::Loading(_) => {
                match k {
                    KeyInput::Char(c) => {
                        if c == 'q' {
                            self.should_quit = true;
                            proof {
                                assert(self.model() =~= (ModelState { should_quit: true, ..pre }));
                            }
                        }
                    },
                    _ => {},
                }
                None
            },
            Mode::View(ViewMode::Main) => self.handle_main_key(k),
            Mode::View(ViewMode::CommitSelection) => self.handle_commit_key(k),
            Mode::View(ViewMode::FileStaging) => self.handle_file_key(k),
            Mode::View(ViewMode::ContentDisplay) => self.handle_display_key(k),
        }
    }

    /// The number of entries on the active tab's menu.
    fn active_menu_len(&self) -> (count: usize)
        requires
            self.wf(),
        ensures
            count as int == menu_len(self.current_tab as int),
    {
        if self.current_tab == 0 {
            8
        } else if self.current_tab == 1 {
            7
        } else {
            3
        }
    }

    /// One key on the main screen.
    fn handle_main_key(&mut self, k: KeyInput) -> (r: Option<Action>)
        requires
            old(self).wf(),
            old(self).mode == Mode::View(ViewMode::Main),
        ensures
            final(self).wf(),
            key_transition(
                old(self).model(),
                final(self).model(),
                k,
                opt_action_model(r),
                old(self).config.github_token is Some,
            ),
            final(self).git_status == old(self).git_status,
            final(self).config == old(self).config,
    {
        let ghost pre = self.model();
        match k {
            KeyInput::Char(c) => {
                if c == 'q' {
                    self.should_quit = true;
                    proof {
                        assert(self.model() =~= (ModelState { should_quit: true, ..pre }));
                    }
                    None
                } else if c == 'r' {
                    Some(Action::RefreshStatus)
                } else if c == 'f' {
                    Some(Action::LoadFileList)
                } else {
                    None
                }
            },
            KeyInput::Up => {
                let count = self.active_menu_len();
                self.menu_cursor.up(count);
                proof {
                    assert(self.model() =~= (ModelState {
                        menu_cursor: nav_up(pre.menu_cursor, menu_len(pre.current_tab)),
                        ..pre
                    }));
                }
                None
            },
            KeyInput::Down => {
                let count = self.active_menu_len();
                self.menu_cursor.down(count);
                proof {
                    assert(self.model() =~= (ModelState {
                        menu_cursor: nav_down(pre.menu_cursor, menu_len(pre.current_tab)),
                        ..pre
                    }));
                }
                None
            },
            KeyInput::Tab => {
                self.current_tab = (self.current_tab + 1) % 3;
                self.menu_cursor.selected = Some(0);
                proof {
                    assert(self.model() =~= (ModelState {
                        current_tab: (pre.current_tab + 1) % 3,
                        menu_cursor: Some(0int),
                        ..pre
                    }));
                }
                None
            },
            KeyInput::BackTab => {
                self.current_tab = if self.current_tab > 0 {
                    self.current_tab - 1
                } else {
                    2
                };
                self.menu_cursor.selected = Some(0);
                proof {
                    assert(self.model() =~= (ModelState {
                        current_tab: if pre.current_tab > 0 {
                            pre.current_tab - 1
                        } else {
                            2
                        },
                        menu_cursor: Some(0int),
                        ..pre
                    }));
                }
                None
            },
            KeyInput::Enter => self.handle_main_enter(),
            KeyInput::Esc => None,
        }
    }

    /// Confirming the highlighted main-menu entry.
    fn handle_main_enter(&mut self) -> (r: Option<Action>)
        requires
            old(self).wf(),
            old(self).mode == Mode::View(ViewMode::Main),
        ensures
            final(self).wf(),
            main_enter_transition(
                old(self).model(),
                final(self).model(),
                opt_action_model(r),
                old(self).config.github_token is Some,
            ),
            final(self).git_status == old(self).git_status,
            final(self).config == old(self).config,
    {
        let ghost pre = self.model();
        let count = self.active_menu_len();
        let sel: usize = match self.menu_cursor.selected {
            Some(i) => if i < count {
                i
            } else {
                0
            },
            None => 0,
        };
        proof {
            assert(sel as int == cursor_base(pre.menu_cursor, menu_len(pre.current_tab)));
        }
        if self.current_tab == 0 {
            if sel == 0 {
                Some(Action::LoadFileList)
            } else if sel == 1 {
                Some(Action::StageAll)
            } else if sel == 2 {
                self.start_loading(String::from_str("Generating commit suggestions..."));
                Some(Action::GenerateCommitSuggestions)
            } else if sel == 3 {
                Some(Action::Push)
            } else if sel == 4 {
                Some(Action::Pull)
            } else if sel == 5 {
                Some(Action::CheckoutNewBranch)
            } else if sel == 6 {
                Some(Action::Merge)
            } else {
                Some(Action::RefreshStatus)
            }
        } else if self.current_tab == 1 {
            if sel == 0 {
                self.start_loading(String::from_str("Generating PR description..."));
                Some(Action::GeneratePrDescription)
            } else if sel == 1 {
                if self.config.has_github_token() {
                    self.start_loading(String::from_str("Creating PR with AI description..."));
                    Some(Action::CreatePrWithAiDescription)
                } else {
                    Some(Action::RefreshStatus)
                }
            } else if sel == 2 {
                self.start_loading(String::from_str("Generating unit tests..."));
                Some(Action::GenerateTests)
            } else if sel == 3 {
                self.start_loading(String::from_str("Improving commit message..."));
                Some(Action::ImproveCommitMessage)
            } else if sel == 4 {
                self.start_loading(String::from_str("Generating commit suggestions..."));
                Some(Action::GenerateCommitSuggestions)
            } else if sel == 5 {
                self.start_loading(String::from_str("Generating changelog..."));
                Some(Action::GenerateChangelog)
            } else if sel == 6 {
                self.start_loading(String::from_str("Performing code review..."));
                Some(Action::CodeReview)
            } else {
                Some(Action::RefreshStatus)
            }
        } else {
            if sel == 0 {
                Some(Action::RefreshStatus)
            } else if sel == 2 {
                self.should_quit = true;
                proof {
                    assert(self.model() =~= (ModelState { should_quit: true, ..pre }));
                }
                None
            } else {
                Some(Action::RefreshStatus)
            }
        }
    }

    /// One key on the commit-selection screen.
    fn handle_commit_key(&mut self, k: KeyInput) -> (r: Option<Action>)
        requires
            old(self).wf(),
            old(self).mode == Mode::View(ViewMode::CommitSelection),
        ensures
            final(self).wf(),
            key_transition(
                old(self).model(),
                final(self).model(),
                k,
                opt_action_model(r),
                old(self).config.github_token is Some,
            ),
            final(self).git_status == old(self).git_status,
            final(self).config == old(self).config,
    {
        let ghost pre = self.model();
        let count = self.commit_suggestions.len();
        proof {
            assert(count as int == pre.commit_suggestions.len() as int);
        }
        match k {
            KeyInput::Up => {
                self.commit_cursor.up(count);
                proof {
                    assert(self.model() =~= (ModelState {
                        commit_cursor: nav_up(
                            pre.commit_cursor,
                            pre.commit_suggestions.len() as int,
                        ),
                        ..pre
                    }));
                }
                None
            },
            KeyInput::Down => {
                self.commit_cursor.down(count);
                proof {
                    assert(self.model() =~= (ModelState {
                        commit_cursor: nav_down(
                            pre.commit_cursor,
                            pre.commit_suggestions.len() as int,
                        ),
                        ..pre
                    }));
                }
                None
            },
            KeyInput::Enter => {
                let sel: usize = match self.commit_cursor.selected {
                    Some(i) => if i < count {
                        i
                    } else {
                        0
                    },
                    None => 0,
                };
                proof {
                    assert(sel as int == cursor_base(
                        pre.commit_cursor,
                        pre.commit_suggestions.len() as int,
                    ));
                }
                if sel < count {
                    let msg = self.commit_suggestions[sel].clone();
                    self.commit_suggestions = Vec::new();
                    self.commit_cursor.clear();
                    self.mode = Mode::View(ViewMode::Main);
                    proof {
                        assert(views_of(self.commit_suggestions@)
                            =~= Seq::<Seq<char>>::empty());
                        assert(self.model() =~= (ModelState {
                            mode: Mode::View(ViewMode::Main),
                            commit_suggestions: Seq::empty(),
                            commit_cursor: None,
                            ..pre
                        }));
                        assert(msg@ == pre.commit_suggestions[sel as int]);
                    }
                    Some(Action::Commit(msg))
                } else {
                    None
                }
            },
            KeyInput::Esc => {
                self.commit_suggestions = Vec::new();
                self.commit_cursor.clear();
                self.mode = Mode::View(ViewMode::Main);
                proof {
                    assert(views_of(self.commit_suggestions@) =~= Seq::<Seq<char>>::empty());
                    assert(self.model() =~= (ModelState {
                        mode: Mode::View(ViewMode::Main),
                        commit_suggestions: Seq::empty(),
                        commit_cursor: None,
                        ..pre
                    }));
                }
                None
            },
            _ => None,
        }
    }

    /// One key on the file-staging screen.
    fn handle_file_key(&mut self, k: KeyInput) -> (r: Option<Action>)
        requires
            old(self).wf(),
            old(self).mode == Mode::View(ViewMode::FileStaging),
        ensures
            final(self).wf(),
            key_transition(
                old(self).model(),
                final(self).model(),
                k,
                opt_action_model(r),
                old(self).config.github_token is Some,
            ),
            final(self).git_status == old(self).git_status,
            final(self).config == old(self).config,
    {
        let ghost pre = self.model();
        let count = self.file_items.len();
        proof {
            assert(count as int == pre.file_items.len() as int);
        }
        match k {
            KeyInput::Up => {
                self.file_cursor.up(count);
                proof {
                    assert(self.model() =~= (ModelState {
                        file_cursor: nav_up(pre.file_cursor, pre.file_items.len() as int),
                        ..pre
                    }));
                }
                None
            },
            KeyInput::Down => {
                self.file_cursor.down(count);
                proof {
                    assert(self.model() =~= (ModelState {
                        file_cursor: nav_down(pre.file_cursor, pre.file_items.len() as int),
                        ..pre
                    }));
                }
                None
            },
            KeyInput::Char(c) => {
                if c == ' ' {
                    let sel: usize = match self.file_cursor.selected {
                        Some(i) => if i < count {
                            i
                        } else {
                            0
                        },
                        None => 0,
                    };
                    proof {
                        assert(sel as int == cursor_base(
                            pre.file_cursor,
                            pre.file_items.len() as int,
                        ));
                    }
                    if sel < count {
                        let item: &FileItem = &self.file_items[sel];
                        let st = item.status;
                        let path = item.path.clone();
                        proof {
                            assert(pre.file_items[sel as int] == (
                                self.file_items@[sel as int].path@,
                                self.file_items@[sel as int].status,
                            ));
                        }
                        let act = match st {
                            FileStatus::Staged => Action::UnstagePath(path),
                            FileStatus::Modified => Action::StagePath(path),
                            FileStatus::Untracked => Action::StagePath(path),
                            FileStatus::Deleted => Action::RemovePath(path),
                        };
                        proof {
                            assert(action_model(act) == toggle_action_spec(
                                pre.file_items[sel as int],
                            ));
                        }
                        Some(act)
                    } else {
                        None
                    }
                } else if c == 'a' {
                    Some(Action::StageAll)
                } else if c == 'u' {
                    Some(Action::UnstageAll)
                } else {
                    None
                }
            },
            KeyInput::Esc => {
                self.file_items = Vec::new();
                self.file_cursor.clear();
                self.mode = Mode::View(ViewMode::Main);
                proof {
                    assert(item_views(self.file_items@) =~= Seq::<(
                        Seq<char>,
                        FileStatus,
                    )>::empty());
                    assert(self.model() =~= (ModelState {
                        mode: Mode::View(ViewMode::Main),
                        file_items: Seq::empty(),
                        file_cursor: None,
                        ..pre
                    }));
                }
                Some(Action::RefreshStatus)
            },
            _ => None,
        }
    }

    /// One key on the content-display screen.
    fn handle_display_key(&mut self, k: KeyInput) -> (r: Option<Action>)
        requires
            old(self).wf(),
            old(self).mode == Mode::View(ViewMode::ContentDisplay),
        ensures
            final(self).wf(),
            key_transition(
                old(self).model(),
                final(self).model(),
                k,
                opt_action_model(r),
                old(self).config.github_token is Some,
            ),
            final(self).git_status == old(self).git_status,
            final(self).config == old(self).config,
    {
        let ghost pre = self.model();
        match k {
            KeyInput::Esc => {
                self.display_title = String::new();
                self.display_content = String::new();
                self.mode = Mode::View(ViewMode::Main);
                proof {
                    assert(self.model() =~= (ModelState {
                        mode: Mode::View(ViewMode::Main),
                        display_title: Seq::empty(),
                        display_content: Seq::empty(),
                        ..pre
                    }));
                }
                None
            },
            KeyInput::Char(c) => {
                if c == 'q' {
                    self.should_quit = true;
                    proof {
                        assert(self.model() =~= (ModelState { should_quit: true, ..pre }));
                    }
                }
                None
            },
            _ => None,
        }
    }
}

/// The placeholder commit suggestions shown when the AI yields nothing.
pub fn placeholder_suggestion_list() -> (r: Vec<String>)
    ensures
        views_of(r@) == placeholder_suggestions(),
{
    let mut r: Vec<String> = Vec::new();
    r.push(String::from_str("feat: add new functionality"));
    r.push(String::from_str("fix: resolve issue"));
    r.push(String::from_str("chore: update code"));
    proof {
        assert(views_of(r@) =~= placeholder_suggestions());
    }
    r
}

/// Law: opening the loading overlay from any screen and closing it resumes
/// exactly that screen, never a default.
pub proof fn lemma_loading_resumes(s: ModelState, msg: Seq<char>, v: ViewMode)
    requires
        s.mode == Mode::View(v),
    ensures
        with_stopped_loading(with_loading(s, msg)).mode == Mode::View(v),
{
}

/// Law: toggling an entry acts on exactly that entry's path, and the kind
/// of act follows its classification: staging for a modified or untracked
/// entry, unstaging for a staged one, removal for a deleted one.
pub proof fn lemma_toggle_targets_entry(item: (Seq<char>, FileStatus))
    ensures
        item.1 == FileStatus::Modified ==> toggle_action_spec(item) == ActionSpec::StagePath(
            item.0,
        ),
        item.1 == FileStatus::Untracked ==> toggle_action_spec(item) == ActionSpec::StagePath(
            item.0,
        ),
        item.1 == FileStatus::Staged ==> toggle_action_spec(item) == ActionSpec::UnstagePath(
            item.0,
        ),
        item.1 == FileStatus::Deleted ==> toggle_action_spec(item) == ActionSpec::RemovePath(
            item.0,
        ),
{
}

} // verus!
