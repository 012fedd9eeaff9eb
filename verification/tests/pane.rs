use dualpane::action::{Action, Key};
use dualpane::config::Config;
use dualpane::dir::{Dir, Entry, Job};

fn entry(name: &str, dir: &str, is_dir: bool) -> Entry {
    let path = format!("{}/{}", dir, name);
    Entry::new(name.to_string(), path, is_dir)
}

fn tmp_a_listing() -> Vec<Entry> {
    vec![entry("file.txt", "/tmp/a", false), entry("sub", "/tmp/a", true)]
}

#[test]
fn listing_sorts_directories_first() {
    // Scenario: /tmp/a holds sub/ and file.txt; the listing puts sub first
    // regardless of creation order.
    let d = Dir::new("/tmp/a".to_string(), tmp_a_listing());
    assert_eq!(d.entries.len(), 2);
    assert_eq!(d.entries[0].name, "sub");
    assert_eq!(d.entries[1].name, "file.txt");

    let reversed = vec![entry("sub", "/tmp/a", true), entry("file.txt", "/tmp/a", false)];
    let d2 = Dir::new("/tmp/a".to_string(), reversed);
    assert_eq!(d2.entries[0].name, "sub");
    assert_eq!(d2.entries[1].name, "file.txt");
}

#[test]
fn listing_sorts_same_kind_by_path() {
    let listing = vec![
        entry("b.txt", "/d", false),
        entry("a.txt", "/d", false),
        entry("zeta", "/d", true),
        entry("alpha", "/d", true),
    ];
    let d = Dir::new("/d".to_string(), listing);
    let names: Vec<&str> = d.entries.iter().map(|e| e.name.as_str()).collect();
    assert_eq!(names, vec!["alpha", "zeta", "a.txt", "b.txt"]);
}

#[test]
fn display_names_mark_directories() {
    let d = Dir::new("/tmp/a".to_string(), tmp_a_listing());
    assert_eq!(d.entries[0].display_name(), "sub/");
    assert_eq!(d.entries[1].display_name(), "file.txt");
}

#[test]
fn new_pane_selects_parent_row() {
    let d = Dir::new("/tmp/a".to_string(), tmp_a_listing());
    assert_eq!(d.selection, 0);
}

#[test]
fn cursor_saturates_at_both_ends() {
    let mut d = Dir::new("/tmp/a".to_string(), tmp_a_listing());
    d.cursor_up();
    assert_eq!(d.selection, 0);
    d.cursor_down();
    d.cursor_down();
    assert_eq!(d.selection, 2);
    d.cursor_down();
    assert_eq!(d.selection, 2);
    d.cursor_to_first();
    assert_eq!(d.selection, 0);
    d.cursor_to_last();
    assert_eq!(d.selection, 2);
}

#[test]
fn toggle_on_parent_row_only_advances() {
    // Scenario: at row 0 a toggle marks nothing and moves to row 1.
    let mut d = Dir::new("/tmp/a".to_string(), tmp_a_listing());
    d.toggle_mark();
    assert_eq!(d.selection, 1);
    assert!(d.entries.iter().all(|e| !e.mark));
}

#[test]
fn toggle_on_parent_row_of_empty_pane_stays() {
    let mut d = Dir::new("/tmp/empty".to_string(), Vec::new());
    d.toggle_mark();
    assert_eq!(d.selection, 0);
}

#[test]
fn toggle_marks_row_and_advances() {
    let mut d = Dir::new("/tmp/a".to_string(), tmp_a_listing());
    d.cursor_down();
    d.toggle_mark();
    assert!(d.entries[0].mark);
    assert!(!d.entries[1].mark);
    assert_eq!(d.selection, 2);
}

#[test]
fn toggle_same_row_twice_restores_mark() {
    // On the last row the cursor clamps, so two toggles hit the same row.
    let mut d = Dir::new("/tmp/a".to_string(), tmp_a_listing());
    d.cursor_to_last();
    d.toggle_mark();
    assert!(d.entries[1].mark);
    d.toggle_mark();
    assert!(!d.entries[1].mark);
    assert_eq!(d.selection, 2);
}

#[test]
fn refresh_clamps_selection() {
    // Refresh reconciliation: new selection = min(old selection, new count).
    let mut d = Dir::new("/tmp/a".to_string(), tmp_a_listing());
    d.cursor_to_last();
    assert_eq!(d.selection, 2);
    d.refresh(vec![entry("file.txt", "/tmp/a", false)]);
    assert_eq!(d.selection, 1);
    d.refresh(tmp_a_listing());
    assert_eq!(d.selection, 1);
    d.refresh(Vec::new());
    assert_eq!(d.selection, 0);
}

#[test]
fn refresh_drops_marks() {
    let mut d = Dir::new("/tmp/a".to_string(), tmp_a_listing());
    d.cursor_down();
    d.toggle_mark();
    assert!(d.entries[0].mark);
    d.refresh(tmp_a_listing());
    assert!(d.entries.iter().all(|e| !e.mark));
}

#[test]
fn search_empty_pattern_selects_first_entry() {
    let mut d = Dir::new("/tmp/a".to_string(), tmp_a_listing());
    d.cursor_to_last();
    d.search(&String::new());
    assert_eq!(d.selection, 1);
}

#[test]
fn search_without_match_keeps_selection() {
    let mut d = Dir::new("/tmp/a".to_string(), tmp_a_listing());
    d.cursor_down();
    d.search(&"zzz".to_string());
    assert_eq!(d.selection, 1);
}

#[test]
fn search_is_case_insensitive_prefix_match() {
    // Would fail if case folding handed its argument back unchanged.
    let mut d = Dir::new("/tmp/a".to_string(), tmp_a_listing());
    d.search(&"FILE".to_string());
    assert_eq!(d.selection, 2);
    d.search(&"Su".to_string());
    assert_eq!(d.selection, 1);
}

#[test]
fn search_first_match_in_sorted_order_wins() {
    let listing = vec![
        entry("abc.txt", "/d", false),
        entry("abd.txt", "/d", false),
        entry("abde", "/d", true),
    ];
    let mut d = Dir::new("/d".to_string(), listing);
    d.search(&"ab".to_string());
    // Sorted order is [abde/, abc.txt, abd.txt]; the directory wins.
    assert_eq!(d.selection, 1);
    d.search(&"abd.".to_string());
    assert_eq!(d.selection, 3);
}

#[test]
fn new_with_index_preselects_remembered_path() {
    // Scenario: coming up from /a/b, the /a listing pre-selects row /a/b.
    let listing = vec![entry("a.txt", "/a", false), entry("b", "/a", true), entry("c", "/a", true)];
    let d = Dir::new_with_index("/a".to_string(), listing, "/a/b");
    // Sorted order: [b/, c/, a.txt]; /a/b sits at row 1.
    assert_eq!(d.selection, 1);
}

#[test]
fn new_with_index_falls_back_to_parent_row() {
    let listing = vec![entry("a.txt", "/a", false)];
    let d = Dir::new_with_index("/a".to_string(), listing, "/a/b");
    assert_eq!(d.selection, 0);
}

#[test]
fn copy_marks_plans_jobs_and_clears_marks() {
    let mut d = Dir::new("/tmp/a".to_string(), tmp_a_listing());
    d.cursor_down();
    d.toggle_mark();
    d.toggle_mark();
    assert!(d.entries[0].mark && d.entries[1].mark);
    let jobs = d.copy_marks("/tmp/b");
    assert!(d.entries.iter().all(|e| !e.mark));
    assert_eq!(jobs.len(), 2);
    match &jobs[0] {
        Job::CopyDir { src, dest } => {
            assert_eq!(src, "/tmp/a/sub");
            assert_eq!(dest, "/tmp/b");
        },
        _ => panic!("a marked directory copies as a subtree"),
    }
    match &jobs[1] {
        Job::CopyFile { src, dest } => {
            assert_eq!(src, "/tmp/a/file.txt");
            assert_eq!(dest, "/tmp/b/file.txt");
        },
        _ => panic!("a marked file copies to dest/name"),
    }
}

#[test]
fn copy_without_marks_plans_nothing() {
    let mut d = Dir::new("/tmp/a".to_string(), tmp_a_listing());
    let jobs = d.copy_marks("/tmp/b");
    assert!(jobs.is_empty());
}

#[test]
fn move_marks_plans_renames() {
    let mut d = Dir::new("/tmp/a".to_string(), tmp_a_listing());
    d.cursor_down();
    d.cursor_down();
    d.toggle_mark();
    let jobs = d.move_marks("/tmp/b");
    assert_eq!(jobs.len(), 1);
    match &jobs[0] {
        Job::Rename { src, dest } => {
            assert_eq!(src, "/tmp/a/file.txt");
            assert_eq!(dest, "/tmp/b/file.txt");
        },
        _ => panic!("a move renames to dest/name"),
    }
    assert!(d.entries.iter().all(|e| !e.mark));
}

#[test]
fn delete_marks_distinguishes_files_and_directories() {
    let mut d = Dir::new("/tmp/a".to_string(), tmp_a_listing());
    d.cursor_down();
    d.toggle_mark();
    d.toggle_mark();
    let jobs = d.delete_marks();
    assert_eq!(jobs.len(), 2);
    assert!(matches!(&jobs[0], Job::DeleteDir { src } if src == "/tmp/a/sub"));
    assert!(matches!(&jobs[1], Job::DeleteFile { src } if src == "/tmp/a/file.txt"));
}

#[test]
fn create_dir_targets_pane_path() {
    let d = Dir::new("/tmp/a".to_string(), tmp_a_listing());
    assert_eq!(d.create_dir(&"newdir".to_string()), "/tmp/a/newdir");
}

#[test]
fn rename_is_illegal_on_parent_row() {
    let d = Dir::new("/tmp/a".to_string(), tmp_a_listing());
    assert!(d.rename(&"x".to_string()).is_none());
}

#[test]
fn rename_targets_selected_entry() {
    let mut d = Dir::new("/tmp/a".to_string(), tmp_a_listing());
    d.cursor_to_last();
    match d.rename(&"renamed.txt".to_string()) {
        Some(Job::Rename { src, dest }) => {
            assert_eq!(src, "/tmp/a/file.txt");
            assert_eq!(dest, "/tmp/a/renamed.txt");
        },
        _ => panic!("renaming a selected entry yields its rename"),
    }
}

#[test]
fn pane_keys_map_to_actions() {
    let mut d = Dir::new("/tmp/a".to_string(), tmp_a_listing());
    assert!(matches!(d.on_event(&Key::Char('j')), Some(Action::CursorDown)));
    assert!(matches!(d.on_event(&Key::Char('k')), Some(Action::CursorUp)));
    assert!(matches!(d.on_event(&Key::Char('g')), Some(Action::CursorToFirst)));
    assert!(matches!(d.on_event(&Key::Char('G')), Some(Action::CursorToLast)));
    assert!(matches!(d.on_event(&Key::Char(' ')), Some(Action::ToggleMark)));
    assert!(matches!(d.on_event(&Key::Char('x')), None));
    match d.on_event(&Key::Char('h')) {
        Some(Action::ChangeDirToParent(p)) => assert_eq!(p, "/tmp/a"),
        _ => panic!("up-to-parent is always legal"),
    }
    // Row 0: Enter goes to the parent, descend and rename decline.
    assert!(matches!(d.on_event(&Key::Enter), Some(Action::ChangeDirToParent(_))));
    assert!(d.on_event(&Key::Char('l')).is_none());
    assert!(d.on_event(&Key::Char('r')).is_none());
    match d.on_event(&Key::Char('e')) {
        Some(Action::Edit(p)) => assert_eq!(p, "/tmp/a"),
        _ => panic!("row 0 edits the pane's own path"),
    }
    // Row 1 selects the sub directory.
    d.cursor_down();
    match d.on_event(&Key::Char('l')) {
        Some(Action::ChangeDir(p)) => assert_eq!(p, "/tmp/a/sub"),
        _ => panic!("descending into a directory row is legal"),
    }
    match d.on_event(&Key::Char('r')) {
        Some(Action::StartRename(name)) => assert_eq!(name, "sub"),
        _ => panic!("rename seeds the current name"),
    }
    // Row 2 is a file: descend declines, Enter executes.
    d.cursor_down();
    assert!(d.on_event(&Key::Char('l')).is_none());
    match d.on_event(&Key::Enter) {
        Some(Action::Execute(p)) => assert_eq!(p, "/tmp/a/file.txt"),
        _ => panic!("activating a file executes it"),
    }
}

#[test]
fn dispatch_execute_resolves_configured_command() {
    let config = Config {
        exec_command: Some(dualpane::config::ExecCommand {
            program: "opener".to_string(),
            args: "--path %p".to_string(),
        }),
        edit_command: None,
        bookmarks: None,
    };
    let mut d = Dir::new("/tmp/a".to_string(), tmp_a_listing());
    let run = d.on_dispatch(&Action::Execute("/tmp/a/file.txt".to_string()), &config);
    let rc = run.expect("a configured command resolves");
    assert_eq!(rc.program, "opener");
    assert_eq!(rc.arg, "--path /tmp/a/file.txt");
    assert_eq!(rc.current_dir, "/tmp/a");
    // Without an edit command, editing is a no-op.
    assert!(d.on_dispatch(&Action::Edit("/tmp/a/file.txt".to_string()), &config).is_none());
}
