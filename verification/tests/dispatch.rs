use dualpane::action::{Action, Key};
use dualpane::app::{App, Effect, InputMode, Overlay};
use dualpane::config::Config;
use dualpane::dir::{Entry, Job};

fn entry(name: &str, dir: &str, is_dir: bool) -> Entry {
    let path = format!("{}/{}", dir, name);
    Entry::new(name.to_string(), path, is_dir)
}

fn tmp_a_listing() -> Vec<Entry> {
    vec![entry("sub", "/tmp/a", true), entry("file.txt", "/tmp/a", false)]
}

fn fresh_app() -> App {
    App::new(Config::empty(), "/tmp/a".to_string(), tmp_a_listing())
}

/// An app whose source pane lists /tmp/a and whose destination pane lists
/// /tmp/b (empty).
fn two_pane_app() -> App {
    let mut app = fresh_app();
    assert!(app.on_dispatch(&Action::SwitchSrc).is_empty());
    assert_eq!(app.src_index, 1);
    app.set_src_dir("/tmp/b".to_string(), Vec::new());
    assert!(app.on_dispatch(&Action::SwitchSrc).is_empty());
    assert_eq!(app.src_index, 0);
    app
}

#[test]
fn new_app_lists_both_panes() {
    let app = fresh_app();
    assert_eq!(app.src_index, 0);
    assert_eq!(app.message, "Welcome.");
    assert!(matches!(app.overlay, Overlay::Inactive));
    assert_eq!(app.dirs.0.path, "/tmp/a");
    assert_eq!(app.dirs.1.path, "/tmp/a");
    assert_eq!(app.dirs.0.entries.len(), 2);
    assert_eq!(app.dirs.1.entries.len(), 2);
}

#[test]
fn global_table_answers_when_pane_declines() {
    let mut app = fresh_app();
    assert!(matches!(app.on_event(&Key::Char('q')), Some(Action::Quit)));
    assert!(matches!(app.on_event(&Key::Tab), Some(Action::SwitchSrc)));
    assert!(matches!(app.on_event(&Key::Char('o')), Some(Action::DuplicateDir)));
    assert!(matches!(app.on_event(&Key::Char('/')), Some(Action::StartSearch)));
    assert!(matches!(app.on_event(&Key::Char('c')), Some(Action::Copy)));
    assert!(matches!(app.on_event(&Key::Char('m')), Some(Action::Move)));
    assert!(matches!(app.on_event(&Key::Char('d')), Some(Action::Delete)));
    assert!(matches!(app.on_event(&Key::Char('i')), Some(Action::StartCreateDir)));
    assert!(matches!(app.on_event(&Key::Char('b')), Some(Action::OpenBookmarks)));
    assert!(app.on_event(&Key::Char('z')).is_none());
}

#[test]
fn pane_bindings_take_priority_over_global_table() {
    let mut app = fresh_app();
    // 'd' belongs to the global table, 'j' to the pane.
    assert!(matches!(app.on_event(&Key::Char('j')), Some(Action::CursorDown)));
}

#[test]
fn text_input_overlay_consumes_every_key() {
    let mut app = fresh_app();
    let effects = app.on_dispatch(&Action::StartCreateDir);
    assert!(effects.is_empty());
    assert!(matches!(app.overlay, Overlay::Input { mode: InputMode::CreateDir, .. }));
    // Typing mutates the input, not the pane; 'q' must not quit.
    assert!(matches!(app.on_event(&Key::Char('q')), Some(Action::Refresh)));
    assert!(matches!(app.on_event(&Key::Char('x')), Some(Action::Refresh)));
    assert!(matches!(app.on_event(&Key::Backspace), Some(Action::Refresh)));
    match app.on_event(&Key::Enter) {
        Some(Action::EndInputText(Some(text))) => assert_eq!(text, "q"),
        _ => panic!("Enter finalizes the typed text"),
    }
    match &app.overlay {
        Overlay::Input { input, .. } => {
            assert_eq!(input.prefix, "Dir: ");
            assert_eq!(input.value, "q");
        },
        _ => panic!("the overlay closes only on EndInputText dispatch"),
    }
}

#[test]
fn search_overlay_emits_incremental_patterns() {
    let mut app = fresh_app();
    app.on_dispatch(&Action::StartSearch);
    assert!(matches!(app.overlay, Overlay::Search(_)));
    match app.on_event(&Key::Char('f')) {
        Some(Action::Search(p)) => assert_eq!(p, "f"),
        _ => panic!("typing searches"),
    }
    match app.on_event(&Key::Char('i')) {
        Some(Action::Search(p)) => assert_eq!(p, "fi"),
        _ => panic!("typing searches"),
    }
    match app.on_event(&Key::Backspace) {
        Some(Action::Search(p)) => assert_eq!(p, "f"),
        _ => panic!("backspace searches with the shorter pattern"),
    }
    assert!(matches!(app.on_event(&Key::Enter), Some(Action::EndSearch)));
    app.on_dispatch(&Action::EndSearch);
    assert!(matches!(app.overlay, Overlay::Inactive));
}

#[test]
fn search_dispatch_moves_selection() {
    let mut app = fresh_app();
    let effects = app.on_dispatch(&Action::Search("file".to_string()));
    assert!(effects.is_empty());
    assert_eq!(app.dirs.0.selection, 2);
    assert_eq!(app.dirs.1.selection, 0);
}

#[test]
fn switch_src_flips_the_active_pane() {
    let mut app = fresh_app();
    app.on_dispatch(&Action::SwitchSrc);
    assert_eq!(app.src_index, 1);
    app.on_dispatch(&Action::SwitchSrc);
    assert_eq!(app.src_index, 0);
}

#[test]
fn refresh_asks_for_both_panes() {
    let mut app = fresh_app();
    let effects = app.on_dispatch(&Action::Refresh);
    assert_eq!(effects.len(), 2);
    assert!(matches!(effects[0], Effect::Refresh { pane: 0 }));
    assert!(matches!(effects[1], Effect::Refresh { pane: 1 }));
    app.refresh_pane(0, vec![entry("file.txt", "/tmp/a", false)]);
    assert_eq!(app.dirs.0.entries.len(), 1);
    assert_eq!(app.dirs.1.entries.len(), 2);
}

#[test]
fn change_dir_asks_for_a_listing() {
    let mut app = fresh_app();
    let effects = app.on_dispatch(&Action::ChangeDir("/tmp/b".to_string()));
    assert_eq!(effects.len(), 1);
    assert!(matches!(&effects[0], Effect::OpenDir { path } if path == "/tmp/b"));
    // On listing success the caller replaces the source pane.
    app.set_src_dir("/tmp/b".to_string(), Vec::new());
    assert_eq!(app.dirs.0.path, "/tmp/b");
    assert_eq!(app.dirs.1.path, "/tmp/a");
}

#[test]
fn duplicate_dir_takes_the_destination_path() {
    let mut app = two_pane_app();
    let effects = app.on_dispatch(&Action::DuplicateDir);
    assert_eq!(effects.len(), 1);
    assert!(matches!(&effects[0], Effect::OpenDir { path } if path == "/tmp/b"));
}

#[test]
fn change_dir_to_parent_preselects_the_old_directory() {
    // Scenario: going up from /a/b pre-selects the /a/b row of /a.
    let mut app = fresh_app();
    let effects = app.on_dispatch(&Action::ChangeDirToParent("/a/b".to_string()));
    assert_eq!(effects.len(), 1);
    match &effects[0] {
        Effect::OpenDirWithIndex { path, index_path } => {
            assert_eq!(path, "/a");
            assert_eq!(index_path, "/a/b");
        },
        _ => panic!("going up lists the parent with a remembered row"),
    }
    let listing = vec![entry("b", "/a", true), entry("c", "/a", true)];
    app.set_src_dir_with_index("/a".to_string(), listing, "/a/b");
    assert_eq!(app.dirs.0.path, "/a");
    assert_eq!(app.dirs.0.selection, 1);
    // A listing without the old directory falls back to the parent row.
    let listing2 = vec![entry("c", "/a", true)];
    app.set_src_dir_with_index("/a".to_string(), listing2, "/a/b");
    assert_eq!(app.dirs.0.selection, 0);
}

#[test]
fn change_dir_to_parent_at_root_is_a_no_op() {
    let mut app = fresh_app();
    let effects = app.on_dispatch(&Action::ChangeDirToParent("/".to_string()));
    assert!(effects.is_empty());
}

#[test]
fn copy_dispatch_plans_jobs_and_clears_marks_at_submission() {
    // Scenario: mark file.txt, copy toward /tmp/b; the job's target is
    // /tmp/b/file.txt and the mark is already clear right after dispatch.
    let mut app = two_pane_app();
    app.on_dispatch(&Action::CursorToLast);
    app.on_dispatch(&Action::ToggleMark);
    assert!(app.dirs.0.entries[1].mark);
    let effects = app.on_dispatch(&Action::Copy);
    assert!(!app.dirs.0.entries[1].mark);
    assert_eq!(effects.len(), 2);
    match &effects[0] {
        Effect::Jobs(jobs) => {
            assert_eq!(jobs.len(), 1);
            match &jobs[0] {
                Job::CopyFile { src, dest } => {
                    assert_eq!(src, "/tmp/a/file.txt");
                    assert_eq!(dest, "/tmp/b/file.txt");
                },
                _ => panic!("a marked file copies to dest/name"),
            }
        },
        _ => panic!("copy submits background jobs"),
    }
    assert!(matches!(effects[1], Effect::Refresh { pane: 0 }));
}

#[test]
fn move_dispatch_refreshes_both_panes() {
    let mut app = two_pane_app();
    app.on_dispatch(&Action::CursorToLast);
    app.on_dispatch(&Action::ToggleMark);
    let effects = app.on_dispatch(&Action::Move);
    assert_eq!(effects.len(), 3);
    match &effects[0] {
        Effect::Jobs(jobs) => {
            assert!(matches!(&jobs[0], Job::Rename { src, dest }
                if src == "/tmp/a/file.txt" && dest == "/tmp/b/file.txt"));
        },
        _ => panic!("move submits background jobs"),
    }
    assert!(matches!(effects[1], Effect::Refresh { pane: 0 }));
    assert!(matches!(effects[2], Effect::Refresh { pane: 1 }));
}

#[test]
fn delete_dispatch_plans_removals() {
    let mut app = fresh_app();
    app.on_dispatch(&Action::CursorDown);
    app.on_dispatch(&Action::ToggleMark);
    let effects = app.on_dispatch(&Action::Delete);
    assert_eq!(effects.len(), 2);
    match &effects[0] {
        Effect::Jobs(jobs) => {
            assert!(matches!(&jobs[0], Job::DeleteDir { src } if src == "/tmp/a/sub"));
        },
        _ => panic!("delete submits background jobs"),
    }
    assert!(matches!(effects[1], Effect::Refresh { pane: 0 }));
}

#[test]
fn empty_input_text_never_creates_or_renames() {
    // Scenario: finishing a text input with an empty text changes nothing
    // on disk, and the overlay still closes.
    let mut app = fresh_app();
    app.on_dispatch(&Action::StartCreateDir);
    let effects = app.on_dispatch(&Action::EndInputText(Some(String::new())));
    assert!(effects.is_empty());
    assert!(matches!(app.overlay, Overlay::Inactive));

    app.on_dispatch(&Action::StartRename("sub".to_string()));
    let effects = app.on_dispatch(&Action::EndInputText(Some(String::new())));
    assert!(effects.is_empty());
    assert!(matches!(app.overlay, Overlay::Inactive));

    app.on_dispatch(&Action::StartCreateDir);
    let effects = app.on_dispatch(&Action::EndInputText(None));
    assert!(effects.is_empty());
    assert!(matches!(app.overlay, Overlay::Inactive));
}

#[test]
fn create_dir_text_yields_target_and_refresh() {
    let mut app = fresh_app();
    app.on_dispatch(&Action::StartCreateDir);
    let effects = app.on_dispatch(&Action::EndInputText(Some("newdir".to_string())));
    assert_eq!(effects.len(), 2);
    assert!(matches!(&effects[0], Effect::CreateDir { path } if path == "/tmp/a/newdir"));
    assert!(matches!(effects[1], Effect::Refresh { pane: 0 }));
    assert!(matches!(app.overlay, Overlay::Inactive));
}

#[test]
fn rename_text_yields_rename_and_refresh() {
    let mut app = fresh_app();
    app.on_dispatch(&Action::CursorToLast);
    app.on_dispatch(&Action::StartRename("file.txt".to_string()));
    let effects = app.on_dispatch(&Action::EndInputText(Some("new.txt".to_string())));
    assert_eq!(effects.len(), 2);
    match &effects[0] {
        Effect::RenameEntry { from, to } => {
            assert_eq!(from, "/tmp/a/file.txt");
            assert_eq!(to, "/tmp/a/new.txt");
        },
        _ => panic!("a non-empty rename text renames the selected entry"),
    }
    assert!(matches!(effects[1], Effect::Refresh { pane: 0 }));
}

#[test]
fn rename_text_on_parent_row_only_refreshes() {
    let mut app = fresh_app();
    app.on_dispatch(&Action::StartRename("sub".to_string()));
    assert_eq!(app.dirs.0.selection, 0);
    let effects = app.on_dispatch(&Action::EndInputText(Some("new".to_string())));
    assert_eq!(effects.len(), 1);
    assert!(matches!(effects[0], Effect::Refresh { pane: 0 }));
}

#[test]
fn end_input_text_without_overlay_is_ignored() {
    let mut app = fresh_app();
    let effects = app.on_dispatch(&Action::EndInputText(Some("x".to_string())));
    assert!(effects.is_empty());
    assert!(matches!(app.overlay, Overlay::Inactive));
}

#[test]
fn bookmarks_select_by_letter() {
    let config = Config {
        exec_command: None,
        edit_command: None,
        bookmarks: Some(vec!["/home/me".to_string(), "/srv".to_string()]),
    };
    let mut app = App::new(config, "/tmp/a".to_string(), tmp_a_listing());
    app.on_dispatch(&Action::OpenBookmarks);
    assert!(matches!(app.overlay, Overlay::Bookmarks(_)));
    match app.on_event(&Key::Char('b')) {
        Some(Action::CloseBookmarks(Some(p))) => assert_eq!(p, "/srv"),
        _ => panic!("a letter within range picks its bookmark"),
    }
    match app.on_event(&Key::Char('c')) {
        Some(Action::CloseBookmarks(None)) => {},
        _ => panic!("a letter out of range closes with nothing"),
    }
    match app.on_event(&Key::Enter) {
        Some(Action::CloseBookmarks(None)) => {},
        _ => panic!("any other key closes with nothing"),
    }
    let effects = app.on_dispatch(&Action::CloseBookmarks(Some("/srv".to_string())));
    assert!(matches!(app.overlay, Overlay::Inactive));
    assert_eq!(effects.len(), 1);
    assert!(matches!(&effects[0], Effect::OpenDir { path } if path == "/srv"));
}

#[test]
fn bookmarks_without_configuration_close_immediately() {
    let mut app = fresh_app();
    app.on_dispatch(&Action::OpenBookmarks);
    match app.on_event(&Key::Char('a')) {
        Some(Action::CloseBookmarks(None)) => {},
        _ => panic!("an absent list closes with nothing"),
    }
    let effects = app.on_dispatch(&Action::CloseBookmarks(None));
    assert!(effects.is_empty());
    assert!(matches!(app.overlay, Overlay::Inactive));
}

#[test]
fn quit_yields_the_quit_effect() {
    let mut app = fresh_app();
    let effects = app.on_dispatch(&Action::Quit);
    assert_eq!(effects.len(), 1);
    assert!(matches!(effects[0], Effect::Quit));
}

#[test]
fn execute_without_configuration_is_a_no_op() {
    let mut app = fresh_app();
    let effects = app.on_dispatch(&Action::Execute("/tmp/a/file.txt".to_string()));
    assert!(effects.is_empty());
}

#[test]
fn execute_with_configuration_resolves_a_run() {
    let config = Config {
        exec_command: Some(dualpane::config::ExecCommand {
            program: "xdg-open".to_string(),
            args: "%p".to_string(),
        }),
        edit_command: None,
        bookmarks: None,
    };
    let mut app = App::new(config, "/tmp/a".to_string(), tmp_a_listing());
    let effects = app.on_dispatch(&Action::Execute("/tmp/a/file.txt".to_string()));
    assert_eq!(effects.len(), 1);
    match &effects[0] {
        Effect::Run(rc) => {
            assert_eq!(rc.program, "xdg-open");
            assert_eq!(rc.arg, "/tmp/a/file.txt");
            assert_eq!(rc.current_dir, "/tmp/a");
        },
        _ => panic!("an activation resolves to a run"),
    }
}

#[test]
fn selection_stays_in_bounds_through_cursor_and_refresh() {
    let mut app = fresh_app();
    let actions = [
        Action::CursorDown,
        Action::CursorDown,
        Action::CursorDown,
        Action::CursorUp,
        Action::CursorToLast,
        Action::ToggleMark,
        Action::CursorToFirst,
        Action::CursorUp,
    ];
    for a in actions {
        app.on_dispatch(&a);
        assert!(app.dirs.0.selection <= app.dirs.0.entries.len());
    }
    app.refresh_pane(0, Vec::new());
    assert!(app.dirs.0.selection <= app.dirs.0.entries.len());
}

#[test]
fn push_message_replaces_the_status() {
    let mut app = fresh_app();
    app.push_message("Err: boom".to_string());
    assert_eq!(app.message, "Err: boom");
}

#[test]
fn alphabet_helpers_are_inverse() {
    assert_eq!(dualpane::bookmark::index_to_alphabet(0), 'a');
    assert_eq!(dualpane::bookmark::index_to_alphabet(25), 'z');
    assert_eq!(dualpane::bookmark::alphabet_to_index('a'), Some(0));
    assert_eq!(dualpane::bookmark::alphabet_to_index('z'), Some(25));
    assert_eq!(dualpane::bookmark::alphabet_to_index('A'), None);
    assert_eq!(dualpane::bookmark::alphabet_to_index('0'), None);
}
