use devjournal::events::{Key, KeyCode, Modifiers};
use devjournal::layout::{bulleted_lines, subproject_widths, unfocused_width_percent};
use devjournal::list::SelectionList;
use devjournal::project::{Project, SubProject};
use devjournal::widgets::{
    center_rect, deleted_file_message, newest_first, order_by_age, prompt_key, FileListState,
    FileListStep, Focus, PromptKey, Rect,
};

fn key(code: KeyCode) -> Key {
    Key { code, modifiers: Modifiers::Plain }
}

fn files(names: &[&str]) -> Vec<String> {
    names.iter().map(|s| s.to_string()).collect()
}

#[test]
fn center_rect_centres_within_margin() {
    let chunk = Rect { x: 10, y: 5, width: 100, height: 40 };
    let r = center_rect(40, 20, chunk, 1);
    assert_eq!(r, Rect { x: 40, y: 15, width: 40, height: 20 });
    let r = center_rect(200, 100, chunk, 2);
    assert_eq!(r, Rect { x: 12, y: 7, width: 96, height: 36 });
    let tiny = Rect { x: 0, y: 0, width: 1, height: 1 };
    assert_eq!(center_rect(5, 5, tiny, 1), Rect { x: 1, y: 1, width: 0, height: 0 });
}

#[test]
fn unfocused_widths() {
    assert_eq!(unfocused_width_percent(40, 1), 100);
    assert_eq!(unfocused_width_percent(40, 0), 100);
    assert_eq!(unfocused_width_percent(40, 3), 30);
    assert_eq!(unfocused_width_percent(50, 4), 16);
    assert_eq!(unfocused_width_percent(120, 4), 0);
}

#[test]
fn widths_of_subprojects() {
    let mut p = Project::default();
    p.subprojects.push_item(SubProject::new("b"));
    p.subprojects.push_item(SubProject::new("c"));
    p.subprojects.select(1).unwrap();
    assert_eq!(subproject_widths(&p), vec![30, 40, 30]);
}

#[test]
fn bullets_mark_highlighted_line() {
    let lines = bulleted_lines(&files(&["a", "b"]), Some(1));
    assert_eq!(lines, vec!["• a".to_string(), "► b".to_string()]);
    assert_eq!(bulleted_lines(&files(&["a"]), None), vec!["• a".to_string()]);
}

#[test]
fn file_list_navigation_and_choice() {
    let mut state = FileListState::new(files(&["x", "y", "z"]));
    assert_eq!(state.files.selection(), Some(0));
    assert!(matches!(state.handle_key(key(KeyCode::Char('j'))), FileListStep::Await));
    assert_eq!(state.files.selection(), Some(1));
    assert!(matches!(state.handle_key(key(KeyCode::Char('k'))), FileListStep::Await));
    assert!(matches!(state.handle_key(key(KeyCode::Char('k'))), FileListStep::Await));
    assert_eq!(state.files.selection(), Some(2));
    match state.handle_key(key(KeyCode::Enter)) {
        FileListStep::Choose(name) => assert_eq!(name, "z"),
        other => panic!("unexpected {:?}", other),
    }
    match state.handle_key(key(KeyCode::Char('d'))) {
        FileListStep::Delete(name) => assert_eq!(name, "z"),
        other => panic!("unexpected {:?}", other),
    }
    assert_eq!(state.files.len(), 2);
    assert_eq!(state.files.selection(), Some(1));
    assert!(matches!(state.handle_key(key(KeyCode::Esc)), FileListStep::Cancel));
    assert!(matches!(state.handle_key(key(KeyCode::F(5))), FileListStep::Refresh));
    assert!(matches!(state.handle_key(Key { code: KeyCode::Char('j'), modifiers: Modifiers::Alt }), FileListStep::Await));
    assert_eq!(state.files.selection(), Some(1));
}

#[test]
fn file_list_prompt_focus() {
    let mut state = FileListState::new(files(&["x"]));
    state.handle_key(key(KeyCode::Tab));
    assert_eq!(state.focus, Focus::Prompt);
    assert!(matches!(state.handle_key(key(KeyCode::Char('j'))), FileListStep::EditPrompt));
    assert_eq!(state.files.selection(), Some(0));
    assert!(matches!(state.handle_key(key(KeyCode::Enter)), FileListStep::SubmitPrompt));
    state.handle_key(key(KeyCode::Tab));
    assert_eq!(state.focus, Focus::FileList);
}

#[test]
fn refresh_keeps_selection_past_the_end() {
    let mut state = FileListState::new(files(&["x", "y", "z"]));
    state.handle_key(key(KeyCode::Char('k')));
    assert_eq!(state.files.selection(), Some(2));
    state.refresh(files(&["a"]));
    assert_eq!(state.files.items().to_vec(), files(&["a"]));
    assert_eq!(state.files.selection(), Some(2));
    assert_eq!(state.focus, Focus::FileList);
    assert!(state.can_take(key(KeyCode::Char('j'))));
    assert!(!state.can_take(key(KeyCode::Char('d'))));
    match state.handle_key(key(KeyCode::Enter)) {
        FileListStep::Await => {}
        other => panic!("unexpected {:?}", other),
    }
    assert!(matches!(state.handle_key(key(KeyCode::Char('j'))), FileListStep::Await));
    assert_eq!(state.files.selection(), Some(0));
    state.refresh(Vec::new());
    assert!(!state.can_take(key(KeyCode::Char('k'))));
}

#[test]
fn empty_file_list_waits() {
    let mut state = FileListState::new(Vec::new());
    assert_eq!(state.files.selection(), None);
    assert!(matches!(state.handle_key(key(KeyCode::Enter)), FileListStep::Await));
    assert!(matches!(state.handle_key(key(KeyCode::Char('d'))), FileListStep::Await));
    let _unused: SelectionList<String> = SelectionList::default();
}

#[test]
fn files_ordered_youngest_first() {
    let entries = vec![
        ("old".to_string(), 300u128),
        ("new".to_string(), 10u128),
        ("mid".to_string(), 100u128),
        ("mid2".to_string(), 100u128),
    ];
    assert_eq!(newest_first(entries.clone()), files(&["new", "mid", "mid2", "old"]));
    let ordered = order_by_age(entries);
    let ages: Vec<u128> = ordered.iter().map(|e| e.1).collect();
    assert_eq!(ages, vec![10, 100, 100, 300]);
    assert_eq!(newest_first(Vec::new()), Vec::<String>::new());
}

#[test]
fn prompt_keys_and_messages() {
    assert_eq!(prompt_key(KeyCode::Esc), PromptKey::Cancel);
    assert_eq!(prompt_key(KeyCode::Enter), PromptKey::Confirm);
    assert_eq!(prompt_key(KeyCode::Char('a')), PromptKey::Edit);
    assert_eq!(deleted_file_message("notes"), "Deleted project file: notes");
}

#[test]
fn widths_never_exceed_whole() {
    for count in 1..=30u16 {
        for focused in [5u16, 20, 40, 95, 100] {
            let unfocused = unfocused_width_percent(focused, count) as u32;
            if count > 1 {
                assert!(focused as u32 + (count as u32 - 1) * unfocused <= 100);
            }
        }
    }
}

#[test]
fn equal_ages_keep_their_order() {
    let entries = vec![
        ("b".to_string(), 5u128),
        ("a".to_string(), 5u128),
        ("c".to_string(), 1u128),
        ("d".to_string(), 5u128),
    ];
    assert_eq!(newest_first(entries), files(&["c", "b", "a", "d"]));
}
