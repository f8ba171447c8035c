use felipe::listing::DirEntry;
use felipe::path::DirPath;
use felipe::state::{DirectoryState, NavKey, VimMode};

fn loaded_state(components: &[&str], raw: Vec<DirEntry>) -> DirectoryState {
    let path = DirPath { components: components.iter().map(|c| c.to_string()).collect() };
    let mut state = DirectoryState::new(path);
    state.load_listing(raw);
    state
}

fn entry(name: &str, is_dir: bool) -> DirEntry {
    DirEntry {
        name: name.to_string(),
        path: DirPath { components: vec![name.to_string()] },
        is_dir,
        size: 0,
    }
}

#[test]
fn selection_clamps_at_both_ends() {
    let mut state = loaded_state(&[], vec![entry("a", false), entry("b", false)]);
    let mut mode = VimMode::Normal;
    assert_eq!(state.selected_index, 0);
    state.handle_key(&mut mode, NavKey::Prev);
    assert_eq!(state.selected_index, 0);
    state.handle_key(&mut mode, NavKey::Next);
    assert_eq!(state.selected_index, 1);
    state.handle_key(&mut mode, NavKey::Next);
    assert_eq!(state.selected_index, 1);
    state.handle_key(&mut mode, NavKey::Prev);
    assert_eq!(state.selected_index, 0);
}

#[test]
fn top_and_bottom_jump() {
    let raw = vec![entry("a", false), entry("b", false), entry("c", false)];
    let mut state = loaded_state(&[], raw);
    let mut mode = VimMode::Normal;
    state.handle_key(&mut mode, NavKey::Bottom);
    assert_eq!(state.selected_index, 2);
    state.handle_key(&mut mode, NavKey::Top);
    assert_eq!(state.selected_index, 0);
}

#[test]
fn opening_a_directory_changes_path_and_marks_reload() {
    let mut state = loaded_state(&[], vec![entry("music", true), entry("song.mp3", false)]);
    let mut mode = VimMode::Normal;
    assert!(!state.needs_reload);
    state.handle_key(&mut mode, NavKey::Open);
    assert_eq!(state.path.components, vec!["music".to_string()]);
    assert!(state.needs_reload);
}

#[test]
fn opening_a_file_is_a_no_op() {
    let mut state = loaded_state(&[], vec![entry("music", true), entry("song.mp3", false)]);
    let mut mode = VimMode::Normal;
    state.handle_key(&mut mode, NavKey::Next);
    assert_eq!(state.selected_index, 1);
    state.handle_key(&mut mode, NavKey::Open);
    assert!(state.path.components.is_empty());
    assert!(!state.needs_reload);
    assert_eq!(state.selected_index, 1);
}

#[test]
fn opening_the_parent_row_goes_up() {
    let mut state = loaded_state(&["home", "user"], vec![entry("song.mp3", false)]);
    let mut mode = VimMode::Normal;
    assert_eq!(state.entries[0].name, "..");
    state.handle_key(&mut mode, NavKey::Open);
    assert_eq!(state.path.components, vec!["home".to_string()]);
    assert!(state.needs_reload);
}

#[test]
fn back_goes_to_the_parent() {
    let mut state = loaded_state(&["home", "user"], vec![entry("a", false)]);
    let mut mode = VimMode::Normal;
    state.handle_key(&mut mode, NavKey::Back);
    assert_eq!(state.path.components, vec!["home".to_string()]);
    assert!(state.needs_reload);
}

#[test]
fn back_at_the_root_is_a_no_op() {
    let mut state = loaded_state(&[], vec![entry("a", false)]);
    let mut mode = VimMode::Normal;
    state.handle_key(&mut mode, NavKey::Back);
    assert!(state.path.components.is_empty());
    assert!(!state.needs_reload);
}

#[test]
fn visual_mode_ignores_navigation_until_cancelled() {
    let mut state = loaded_state(&[], vec![entry("a", false), entry("b", false)]);
    let mut mode = VimMode::Normal;
    state.handle_key(&mut mode, NavKey::ToVisual);
    assert_eq!(mode, VimMode::Visual);
    state.handle_key(&mut mode, NavKey::Next);
    assert_eq!(state.selected_index, 0);
    assert_eq!(mode, VimMode::Visual);
    state.handle_key(&mut mode, NavKey::Open);
    assert!(!state.needs_reload);
    state.handle_key(&mut mode, NavKey::Cancel);
    assert_eq!(mode, VimMode::Normal);
    state.handle_key(&mut mode, NavKey::Next);
    assert_eq!(state.selected_index, 1);
}

#[test]
fn command_mode_only_cancels() {
    let mut state = loaded_state(&[], vec![entry("a", false)]);
    let mut mode = VimMode::Command;
    state.handle_key(&mut mode, NavKey::Next);
    assert_eq!(mode, VimMode::Command);
    assert_eq!(state.selected_index, 0);
    state.handle_key(&mut mode, NavKey::Cancel);
    assert_eq!(mode, VimMode::Normal);
}

#[test]
fn empty_listing_ignores_every_key() {
    let mut state = DirectoryState::new(DirPath::root());
    state.load_listing(Vec::new());
    let mut mode = VimMode::Normal;
    for key in [
        NavKey::Next,
        NavKey::Prev,
        NavKey::Open,
        NavKey::Back,
        NavKey::Top,
        NavKey::Bottom,
        NavKey::ToVisual,
        NavKey::Cancel,
    ] {
        state.handle_key(&mut mode, key);
        assert_eq!(state.selected_index, 0);
        assert!(state.path.components.is_empty());
        assert!(!state.needs_reload);
        assert_eq!(mode, VimMode::Normal);
    }
}

#[test]
fn selected_entry_follows_the_selection() {
    let mut state = loaded_state(&[], vec![entry("a", false), entry("b", true)]);
    let mut mode = VimMode::Normal;
    // the directory "b" sorts before the file "a"
    assert_eq!(state.selected_entry().unwrap().name, "b");
    state.handle_key(&mut mode, NavKey::Next);
    assert_eq!(state.selected_entry().unwrap().name, "a");
    let mut empty = DirectoryState::new(DirPath::root());
    empty.load_listing(Vec::new());
    assert!(empty.selected_entry().is_none());
}
