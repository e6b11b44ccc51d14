use stagetree::index::{
    update_file_states, ChangeKind, ChangeRecord, FileEntry, RepositoryIndex, SectionKind,
    StatusEntry, StatusFlags,
};
use stagetree::input::{action_for_key, Action, KeyPress, Reaction};
use stagetree::render::{change_line, section_title};
use stagetree::view::{FileToggle, ViewModel};

fn entry(path: &str, staged: bool, unstaged: bool) -> StatusEntry {
    StatusEntry { path: Some(path.to_string()), staged, unstaged, untracked: false }
}

fn paths(idx: &RepositoryIndex, kind: SectionKind) -> Vec<String> {
    idx.section(kind).files.iter().map(|f| f.path.clone()).collect()
}

fn view_on(idx: &RepositoryIndex, kind: SectionKind) -> ViewModel {
    let mut v = ViewModel::new();
    while v.focused_section != kind {
        v.focus_next_section(idx);
    }
    v
}

#[test]
fn classify_staged_and_unstaged() {
    let idx = RepositoryIndex::from_statuses(&vec![entry("a.txt", true, false), entry("b.txt", false, true)]);
    let staged = &idx.section(SectionKind::Staged).files;
    assert_eq!(staged.len(), 1);
    assert_eq!(staged[0].path, "a.txt");
    assert!(!staged[0].expanded);
    assert!(staged[0].changes.is_empty());
    assert_eq!(paths(&idx, SectionKind::Unstaged), vec!["b.txt".to_string()]);
    let b = &idx.section(SectionKind::Unstaged).files[0];
    assert!(!b.expanded && b.changes.is_empty());
    assert!(idx.section(SectionKind::Untracked).files.is_empty());
    assert_eq!(idx.section(SectionKind::Staged).kind, SectionKind::Staged);
}

#[test]
fn classify_repeated_paths_once_per_section() {
    let entries = vec![
        entry("a.txt", true, true),
        entry("b.txt", true, false),
        entry("a.txt", true, true),
        StatusEntry { path: None, staged: true, unstaged: true, untracked: true },
        entry("b.txt", true, true),
    ];
    let idx = RepositoryIndex::from_statuses(&entries);
    assert_eq!(paths(&idx, SectionKind::Staged), vec!["a.txt".to_string(), "b.txt".to_string()]);
    assert_eq!(paths(&idx, SectionKind::Unstaged), vec!["a.txt".to_string(), "b.txt".to_string()]);
    assert!(paths(&idx, SectionKind::Untracked).is_empty());
}

#[test]
fn classify_empty_input() {
    let idx = RepositoryIndex::from_statuses(&vec![]);
    assert!(idx.untracked.files.is_empty() && idx.unstaged.files.is_empty() && idx.staged.files.is_empty());
    assert!(!idx.untracked.expanded && !idx.unstaged.expanded && !idx.staged.expanded);
}

#[test]
fn update_keeps_existing_entry() {
    let mut files = vec![FileEntry::new("x".to_string())];
    files[0].expanded = true;
    update_file_states(&mut files, "x".to_string());
    assert_eq!(files.len(), 1);
    assert!(files[0].expanded);
    update_file_states(&mut files, "y".to_string());
    assert_eq!(files.len(), 2);
    assert_eq!(files[1].path, "y");
    assert!(!files[1].expanded);
}

#[test]
fn flags_classify_sections() {
    let none = StatusFlags {
        index_new: false,
        index_modified: false,
        index_deleted: false,
        index_renamed: false,
        index_typechange: false,
        wt_new: false,
        wt_modified: false,
        wt_deleted: false,
        wt_renamed: false,
        wt_typechange: false,
    };
    let e = StatusEntry::from_flags(Some("n".to_string()), &StatusFlags { wt_new: true, ..none });
    assert!(e.untracked && !e.unstaged && !e.staged);
    let e = StatusEntry::from_flags(Some("m".to_string()), &StatusFlags { index_renamed: true, wt_deleted: true, ..none });
    assert!(!e.untracked && e.unstaged && e.staged);
    let e = StatusEntry::from_flags(None, &none);
    assert!(e.path.is_none() && !e.untracked && !e.unstaged && !e.staged);
}

#[test]
fn toggle_empty_staged_section_has_no_focus() {
    let idx = RepositoryIndex::from_statuses(&vec![entry("b.txt", false, true)]);
    let mut v = view_on(&idx, SectionKind::Staged);
    v.toggle_focused_section(&idx);
    assert!(v.staged_expanded);
    assert_eq!(v.focused_file_index, None);
}

#[test]
fn toggle_staged_section_with_two_files_focuses_first() {
    let idx = RepositoryIndex::from_statuses(&vec![entry("a.txt", true, false), entry("c.txt", true, false)]);
    let mut v = view_on(&idx, SectionKind::Staged);
    v.toggle_focused_section(&idx);
    assert_eq!(v.focused_file_index, Some(0));
    v.toggle_focused_section(&idx);
    assert!(!v.staged_expanded);
    assert_eq!(v.focused_file_index, None);
}

#[test]
fn section_cycle_wraps_both_ways() {
    let idx = RepositoryIndex::from_statuses(&vec![]);
    let mut v = ViewModel::new();
    assert_eq!(v.focused_section, SectionKind::Untracked);
    v.focus_next_section(&idx);
    assert_eq!(v.focused_section, SectionKind::Unstaged);
    v.focus_next_section(&idx);
    assert_eq!(v.focused_section, SectionKind::Staged);
    v.focus_next_section(&idx);
    assert_eq!(v.focused_section, SectionKind::Untracked);
    v.focus_previous_section(&idx);
    assert_eq!(v.focused_section, SectionKind::Staged);
}

#[test]
fn focus_moves_clamp_at_bounds() {
    let idx = RepositoryIndex::from_statuses(&vec![entry("a", true, false), entry("b", true, false), entry("c", true, false)]);
    let mut v = view_on(&idx, SectionKind::Staged);
    v.toggle_focused_section(&idx);
    v.move_focus_up(&idx);
    assert_eq!(v.focused_file_index, Some(0));
    v.move_focus_down(&idx);
    v.move_focus_down(&idx);
    assert_eq!(v.focused_file_index, Some(2));
    v.move_focus_down(&idx);
    assert_eq!(v.focused_file_index, Some(2));
    v.move_focus_up(&idx);
    assert_eq!(v.focused_file_index, Some(1));
}

#[test]
fn focus_moves_in_collapsed_section_do_nothing() {
    let idx = RepositoryIndex::from_statuses(&vec![entry("a", true, false)]);
    let mut v = view_on(&idx, SectionKind::Staged);
    v.move_focus_down(&idx);
    assert_eq!(v.focused_file_index, None);
    v.move_focus_up(&idx);
    assert_eq!(v.focused_file_index, None);
}

#[test]
fn expand_collapse_twice_restores_state() {
    let mut v = ViewModel::new();
    let p = "a.txt".to_string();
    for _ in 0..2 {
        v.set_file_expanded(SectionKind::Staged, &p, true);
        assert!(v.is_file_expanded(SectionKind::Staged, &p));
        v.set_file_expanded(SectionKind::Staged, &p, false);
    }
    assert!(!v.is_file_expanded(SectionKind::Staged, &p));
    assert!(v.expanded_files.is_empty());
}

#[test]
fn rebuild_with_same_status_keeps_flags() {
    let entries = vec![entry("a.txt", true, true), entry("b.txt", false, true)];
    let idx = RepositoryIndex::from_statuses(&entries);
    let mut v = view_on(&idx, SectionKind::Unstaged);
    v.toggle_focused_section(&idx);
    v.move_focus_down(&idx);
    assert_eq!(v.toggle_focused_file(&idx), FileToggle::Expanded { load: true });
    let mut again = RepositoryIndex::from_statuses(&entries);
    v.prune(&again);
    assert!(v.is_file_expanded(SectionKind::Unstaged, &"b.txt".to_string()));
    assert!(!v.is_file_expanded(SectionKind::Unstaged, &"a.txt".to_string()));
    assert!(!v.is_file_expanded(SectionKind::Staged, &"b.txt".to_string()));
    assert_eq!(v.focused_file_index, Some(1));
    v.apply_to(&mut again);
    assert!(again.unstaged.expanded);
    assert!(again.unstaged.files[1].expanded);
    assert!(!again.unstaged.files[0].expanded);
    assert!(!again.staged.files[0].expanded);
}

#[test]
fn removed_path_is_forgotten_and_returns_collapsed() {
    let with_a = vec![entry("a.txt", true, false), entry("z.txt", true, false)];
    let idx = RepositoryIndex::from_statuses(&with_a);
    let mut v = view_on(&idx, SectionKind::Staged);
    v.toggle_focused_section(&idx);
    v.toggle_focused_file(&idx);
    assert!(v.is_file_expanded(SectionKind::Staged, &"a.txt".to_string()));
    let without = RepositoryIndex::from_statuses(&vec![entry("z.txt", true, false)]);
    v.prune(&without);
    assert!(!v.is_file_expanded(SectionKind::Staged, &"a.txt".to_string()));
    assert!(v.expanded_files.is_empty());
    assert_eq!(v.focused_file_index, Some(0));
    let mut back = RepositoryIndex::from_statuses(&with_a);
    v.prune(&back);
    v.apply_to(&mut back);
    assert!(!back.staged.files[0].expanded);
}

#[test]
fn prune_repairs_focus_past_end() {
    let idx = RepositoryIndex::from_statuses(&vec![entry("a", true, false), entry("b", true, false)]);
    let mut v = view_on(&idx, SectionKind::Staged);
    v.toggle_focused_section(&idx);
    v.move_focus_down(&idx);
    assert_eq!(v.focused_file_index, Some(1));
    let smaller = RepositoryIndex::from_statuses(&vec![entry("a", true, false)]);
    v.prune(&smaller);
    assert_eq!(v.focused_file_index, Some(0));
    let empty = RepositoryIndex::from_statuses(&vec![]);
    v.prune(&empty);
    assert_eq!(v.focused_file_index, None);
}

#[test]
fn expanded_file_flattens_fetched_changes() {
    let mut idx = RepositoryIndex::from_statuses(&vec![entry("a.txt", true, false)]);
    let mut v = view_on(&idx, SectionKind::Staged);
    v.toggle_focused_section(&idx);
    assert_eq!(v.handle(&idx, Action::ToggleFile), Reaction::Load { kind: SectionKind::Staged, file: 0 });
    let fetched = vec![ChangeRecord { line_number: 10, content: "+x".to_string(), kind: ChangeKind::Addition }];
    v.finish_load(&mut idx, SectionKind::Staged, 0, Some(fetched));
    v.apply_to(&mut idx);
    assert_eq!(idx.staged.files[0].flatten(), vec!["10: +x".to_string()]);
    assert_eq!(idx.staged.files[0].flatten(), idx.staged.files[0].flatten());
}

#[test]
fn collapsed_file_flattens_to_path() {
    let f = FileEntry::new("dir/file.rs".to_string());
    assert_eq!(f.flatten(), vec!["dir/file.rs".to_string()]);
}

#[test]
fn expanded_file_keeps_change_order() {
    let mut f = FileEntry::new("f".to_string());
    f.expanded = true;
    f.changes = vec![
        ChangeRecord { line_number: 3, content: "-old".to_string(), kind: ChangeKind::Deletion },
        ChangeRecord { line_number: 3, content: "+new".to_string(), kind: ChangeKind::Addition },
        ChangeRecord { line_number: 120, content: "".to_string(), kind: ChangeKind::Addition },
    ];
    assert_eq!(f.flatten(), vec!["3: -old".to_string(), "3: +new".to_string(), "120: ".to_string()]);
    f.changes.clear();
    assert!(f.flatten().is_empty());
}

#[test]
fn change_line_formats_number_and_content() {
    let c = ChangeRecord { line_number: 0, content: "a b".to_string(), kind: ChangeKind::Deletion };
    assert_eq!(change_line(&c), "0: a b");
    let c = ChangeRecord { line_number: usize::MAX, content: "z".to_string(), kind: ChangeKind::Addition };
    assert_eq!(change_line(&c), format!("{}: z", usize::MAX));
}

#[test]
fn failed_load_collapses_and_marks() {
    let mut idx = RepositoryIndex::from_statuses(&vec![entry("a.txt", true, false)]);
    let mut v = view_on(&idx, SectionKind::Staged);
    v.toggle_focused_section(&idx);
    v.toggle_focused_file(&idx);
    v.finish_load(&mut idx, SectionKind::Staged, 0, None);
    assert!(idx.staged.files[0].load_failed);
    assert!(!v.is_file_expanded(SectionKind::Staged, &"a.txt".to_string()));
    v.apply_to(&mut idx);
    assert_eq!(idx.staged.files[0].flatten(), vec!["a.txt".to_string()]);
}

#[test]
fn loaded_file_toggles_without_new_load() {
    let mut idx = RepositoryIndex::from_statuses(&vec![entry("a.txt", false, true)]);
    let mut v = view_on(&idx, SectionKind::Unstaged);
    v.toggle_focused_section(&idx);
    v.toggle_focused_file(&idx);
    let fetched = vec![ChangeRecord { line_number: 1, content: "+y".to_string(), kind: ChangeKind::Addition }];
    v.finish_load(&mut idx, SectionKind::Unstaged, 0, Some(fetched));
    assert_eq!(v.handle(&idx, Action::ToggleFile), Reaction::Redraw);
    assert!(!v.is_file_expanded(SectionKind::Unstaged, &"a.txt".to_string()));
    assert_eq!(v.toggle_focused_file(&idx), FileToggle::Expanded { load: false });
}

#[test]
fn toggle_file_without_focus_is_unchanged() {
    let idx = RepositoryIndex::from_statuses(&vec![entry("a.txt", true, false)]);
    let mut v = ViewModel::new();
    assert_eq!(v.toggle_focused_file(&idx), FileToggle::Unchanged);
    assert_eq!(v.handle(&idx, Action::Quit), Reaction::Quit);
}

#[test]
fn section_titles() {
    assert_eq!(section_title(SectionKind::Staged, false), "\u{25b6} staged files");
    assert_eq!(section_title(SectionKind::Untracked, true), "\u{25bc} untracked files");
    let idx = RepositoryIndex::from_statuses(&vec![]);
    let mut s = idx.unstaged.clone();
    assert_eq!(s.construct_title(), "\u{25b6} unstaged files");
    s.toggle_section();
    assert_eq!(s.construct_title(), "\u{25bc} unstaged files");
}

#[test]
fn key_bindings() {
    assert_eq!(action_for_key(KeyPress::Char('q'), true), Some(Action::Quit));
    assert_eq!(action_for_key(KeyPress::Esc, true), Some(Action::Quit));
    assert_eq!(action_for_key(KeyPress::Tab, true), Some(Action::NextSection));
    assert_eq!(action_for_key(KeyPress::BackTab, true), Some(Action::PreviousSection));
    assert_eq!(action_for_key(KeyPress::Down, true), Some(Action::MoveDown));
    assert_eq!(action_for_key(KeyPress::Char('k'), true), Some(Action::MoveUp));
    assert_eq!(action_for_key(KeyPress::Char('e'), true), Some(Action::ToggleSection));
    assert_eq!(action_for_key(KeyPress::Enter, true), Some(Action::ToggleFile));
    assert_eq!(action_for_key(KeyPress::Char('x'), true), None);
    assert_eq!(action_for_key(KeyPress::Char('q'), false), None);
    assert_eq!(action_for_key(KeyPress::Other, true), None);
}
