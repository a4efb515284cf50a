use workspace_browser::listing::filter_visible;
use workspace_browser::nav::{map_key, parent_path, Action, Command, Entry, Key, NavState};
use workspace_browser::stats::memory_percent_tenths;
use workspace_browser::view::{entry_row, header_titles, help_lines, table_rows};

fn entry(name: &str, is_dir: bool, path: &str) -> Entry {
    Entry { name: name.to_string(), is_dir, path: path.to_string() }
}

fn two_entry_root() -> NavState {
    let root = "/home/user/workspace";
    NavState {
        root: root.to_string(),
        current_directory: root.to_string(),
        entries: vec![
            entry("docs", true, "/home/user/workspace/docs"),
            entry("readme.txt", false, "/home/user/workspace/readme.txt"),
        ],
        selected_index: 0,
    }
}

#[test]
fn move_down_steps_and_wraps() {
    let mut s = two_entry_root();
    s.move_down();
    assert_eq!(s.selected_index, 1);
    s.move_down();
    assert_eq!(s.selected_index, 0);
}

#[test]
fn move_up_wraps_from_first_to_last() {
    let mut s = two_entry_root();
    s.move_up();
    assert_eq!(s.selected_index, 1);
    s.move_up();
    assert_eq!(s.selected_index, 0);
}

#[test]
fn any_move_sequence_stays_in_bounds() {
    let mut s = two_entry_root();
    s.entries.push(entry("src", true, "/home/user/workspace/src"));
    let moves = [
        Command::MoveDown,
        Command::MoveDown,
        Command::MoveUp,
        Command::MoveDown,
        Command::MoveDown,
        Command::MoveDown,
        Command::MoveUp,
        Command::MoveUp,
        Command::MoveUp,
        Command::MoveUp,
    ];
    for m in moves {
        let a = s.apply(m);
        assert!(matches!(a, Action::Stay));
        assert!(s.selected_index < s.entries.len());
    }
}

#[test]
fn go_back_at_root_is_a_no_op() {
    let mut s = two_entry_root();
    let a = s.apply(Command::GoBack);
    assert!(matches!(a, Action::Stay));
    assert_eq!(s.current_directory, "/home/user/workspace");
    assert_eq!(s.entries.len(), 2);
    assert_eq!(s.entries[0].name, "docs");
    assert_eq!(s.entries[1].name, "readme.txt");
    assert_eq!(s.selected_index, 0);
}

#[test]
fn go_back_below_root_names_the_parent() {
    let mut s = two_entry_root();
    s.current_directory = "/home/user/workspace/docs".to_string();
    let a = s.apply(Command::GoBack);
    match a {
        Action::Load(dir) => assert_eq!(dir, "/home/user/workspace"),
        _ => panic!("expected a load action"),
    }
}

#[test]
fn enter_on_a_file_is_a_no_op() {
    let mut s = two_entry_root();
    s.selected_index = 1;
    let a = s.apply(Command::Enter);
    assert!(matches!(a, Action::Stay));
    assert_eq!(s.current_directory, "/home/user/workspace");
    assert_eq!(s.selected_index, 1);
    assert_eq!(s.entries.len(), 2);
}

#[test]
fn enter_on_a_directory_descends_and_resets() {
    let mut s = two_entry_root();
    let a = s.apply(Command::Enter);
    let dir = match a {
        Action::Load(dir) => dir,
        _ => panic!("expected a load action"),
    };
    assert_eq!(dir, "/home/user/workspace/docs");
    let listed = vec![entry("notes.md", false, "/home/user/workspace/docs/notes.md")];
    s.navigate(dir, listed);
    assert_eq!(s.current_directory, "/home/user/workspace/docs");
    assert_eq!(s.selected_index, 0);
    assert_eq!(s.entries.len(), 1);
    assert_eq!(s.entries[0].name, "notes.md");
}

#[test]
fn quit_leaves_the_state_untouched() {
    let mut s = two_entry_root();
    let a = s.apply(Command::Quit);
    assert!(matches!(a, Action::Quit));
    assert_eq!(s.current_directory, "/home/user/workspace");
    assert_eq!(s.selected_index, 0);
    assert_eq!(s.entries.len(), 2);
}

#[test]
fn scenario_browse_docs_and_back() {
    let mut s = two_entry_root();
    s.move_down();
    assert_eq!(s.selected_index, 1);
    assert_eq!(s.entries[s.selected_index].name, "readme.txt");
    s.move_down();
    assert_eq!(s.selected_index, 0);
    assert_eq!(s.entries[s.selected_index].name, "docs");

    let a = s.apply(Command::Enter);
    let dir = match a {
        Action::Load(dir) => dir,
        _ => panic!("expected a load action"),
    };
    let docs_children = vec![entry("notes.md", false, "/home/user/workspace/docs/notes.md")];
    s.navigate(dir, docs_children);
    assert_eq!(s.current_directory, "/home/user/workspace/docs");
    assert_eq!(s.selected_index, 0);
    assert_eq!(s.entries.len(), 1);

    let a = s.apply(Command::GoBack);
    let dir = match a {
        Action::Load(dir) => dir,
        _ => panic!("expected a load action"),
    };
    assert_eq!(dir, "/home/user/workspace");
    let root_listing = vec![
        entry("docs", true, "/home/user/workspace/docs"),
        entry("readme.txt", false, "/home/user/workspace/readme.txt"),
    ];
    s.navigate(dir, root_listing);
    assert_eq!(s.current_directory, "/home/user/workspace");
    assert_eq!(s.selected_index, 0);
    assert_eq!(s.entries.len(), 2);
    assert_eq!(s.entries[0].name, "docs");
    assert_eq!(s.entries[1].name, "readme.txt");
}

#[test]
fn scenario_empty_directory_never_fails() {
    let root = "/home/user/workspace";
    let mut s = NavState {
        root: root.to_string(),
        current_directory: root.to_string(),
        entries: Vec::new(),
        selected_index: 0,
    };
    assert!(matches!(s.apply(Command::MoveDown), Action::Stay));
    assert_eq!(s.selected_index, 0);
    assert!(matches!(s.apply(Command::MoveUp), Action::Stay));
    assert_eq!(s.selected_index, 0);
    assert!(matches!(s.apply(Command::Enter), Action::Stay));
    assert_eq!(s.current_directory, root);
    assert_eq!(s.entries.len(), 0);
}

#[test]
fn new_state_starts_at_the_root() {
    let listed = vec![entry("docs", true, "/r/docs")];
    let s = NavState::new("/r".to_string(), listed);
    assert_eq!(s.root, "/r");
    assert_eq!(s.current_directory, "/r");
    assert_eq!(s.selected_index, 0);
    assert_eq!(s.entries.len(), 1);
}

#[test]
fn keymap_matches_the_legend() {
    assert!(matches!(map_key(Key::Char('q')), Some(Command::Quit)));
    assert!(matches!(map_key(Key::Char('h')), Some(Command::GoBack)));
    assert!(matches!(map_key(Key::Esc), Some(Command::GoBack)));
    assert!(matches!(map_key(Key::Enter), Some(Command::Enter)));
    assert!(matches!(map_key(Key::Down), Some(Command::MoveDown)));
    assert!(matches!(map_key(Key::Up), Some(Command::MoveUp)));
    assert!(matches!(map_key(Key::Char('x')), None));
    assert!(matches!(map_key(Key::Other), None));
}

#[test]
fn parent_path_drops_the_last_component() {
    assert_eq!(parent_path(&"/home/user/workspace/docs".to_string()), "/home/user/workspace");
    assert_eq!(parent_path(&"/home".to_string()), "");
    assert_eq!(parent_path(&"docs".to_string()), "");
    assert_eq!(parent_path(&"".to_string()), "");
    assert_eq!(parent_path(&"/a/b/".to_string()), "/a/b");
}

#[test]
fn filter_excludes_exactly_the_metadata_name() {
    let raw = vec![
        entry("docs", true, "/r/docs"),
        entry(".DS_Store", false, "/r/.DS_Store"),
        entry("readme.txt", false, "/r/readme.txt"),
    ];
    let kept = filter_visible(&raw);
    assert_eq!(kept.len(), 2);
    assert_eq!(kept[0].name, "docs");
    assert_eq!(kept[1].name, "readme.txt");
}

#[test]
fn filter_keeps_a_clean_listing_whole() {
    let raw = vec![entry("a", false, "/r/a"), entry("b", true, "/r/b")];
    let kept = filter_visible(&raw);
    assert_eq!(kept.len(), 2);
    assert_eq!(kept[0].name, "a");
    assert!(kept[1].is_dir);
    assert_eq!(kept[1].path, "/r/b");
}

#[test]
fn filter_on_similar_names_keeps_them() {
    let raw = vec![entry(".DS_Store2", false, "/r/.DS_Store2"), entry("ds_store", false, "/r/ds_store")];
    let kept = filter_visible(&raw);
    assert_eq!(kept.len(), 2);
}

#[test]
fn memory_percent_exact_values() {
    assert_eq!(memory_percent_tenths(1, 8), 125);
    assert_eq!(memory_percent_tenths(0, 8), 0);
    assert_eq!(memory_percent_tenths(8, 8), 1000);
    assert_eq!(memory_percent_tenths(473, 1000), 473);
    assert_eq!(memory_percent_tenths(1, 3), 333);
}

#[test]
fn memory_percent_zero_total_reports_zero() {
    assert_eq!(memory_percent_tenths(0, 0), 0);
}

#[test]
fn memory_percent_on_large_counters() {
    assert_eq!(memory_percent_tenths(u64::MAX / 2, u64::MAX), 499);
    assert_eq!(memory_percent_tenths(u64::MAX, u64::MAX), 1000);
}

#[test]
fn rows_show_name_kind_and_path() {
    let r = entry_row(&entry("docs", true, "/r/docs"));
    assert_eq!(r.name, "docs");
    assert_eq!(r.kind, "Directory");
    assert_eq!(r.path, "/r/docs");
    let r = entry_row(&entry("readme.txt", false, "/r/readme.txt"));
    assert_eq!(r.kind, "File");
}

#[test]
fn table_rows_follow_the_listing_order() {
    let s = two_entry_root();
    let rows = table_rows(&s);
    assert_eq!(rows.len(), 2);
    assert_eq!(rows[0].name, "docs");
    assert_eq!(rows[0].kind, "Directory");
    assert_eq!(rows[1].name, "readme.txt");
    assert_eq!(rows[1].kind, "File");
    assert_eq!(rows[1].path, "/home/user/workspace/readme.txt");
}

#[test]
fn header_and_legend_are_fixed() {
    let h = header_titles();
    assert_eq!(h, vec!["Name", "Type", "Path"]);
    let lines = help_lines();
    assert_eq!(lines.len(), 3);
    assert_eq!(lines[0].0, "Open folder :");
    assert_eq!(lines[0].1, "Enter");
    assert_eq!(lines[1].1, "Esc OR h");
    assert_eq!(lines[2].1, "q");
}
