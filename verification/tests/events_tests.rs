use devjournal::data::FeedbackKind;
use devjournal::data::{AppPrompt, FileRequest, JournalPrompt};
use devjournal::events::{
    app_prompt_action, apply_command, bind_focus_size, file_choice, file_list_texts, finish_file_work,
    new_journal_prompt, FileWork,
    global_command, handle_journal_event, handle_journal_prompt_event, journal_command,
    journal_file_message, move_task, reset_ui, route_event, set_project_prompt, AppPromptAction,
    FileChoice, GlobalCommand, JournalAction, JournalCommand, Key, KeyCode, Modifiers, Route,
};
use devjournal::journal::Journal;
use devjournal::list::ListOp;
use devjournal::project::{Project, SubProject, Task};
use devjournal::prompt::PromptEvent;

fn key(code: KeyCode, modifiers: Modifiers) -> Key {
    Key { code, modifiers }
}

fn ch(c: char, modifiers: Modifiers) -> Key {
    key(KeyCode::Char(c), modifiers)
}

/// A journal whose one project has subprojects `A` (tasks a1, a2; a2 selected) and `B`
/// (task b1, selected), `A` selected.
fn sample_journal() -> Journal {
    let mut journal = Journal::new("work");
    let project = journal.project().unwrap();
    {
        let a = project.subproject().unwrap();
        a.name = "A".to_string();
        a.tasks.push_item(Task::new("a1"));
        a.tasks.push_item(Task::new("a2"));
        a.tasks.select(1).unwrap();
    }
    let mut b = SubProject::new("B");
    b.tasks.push_item(Task::new("b1"));
    b.tasks.select(0).unwrap();
    project.subprojects.push_item(b);
    journal
}

fn task_names(journal: &Journal, sub: usize) -> Vec<String> {
    journal.projects.selected().unwrap().subprojects.get_item(Some(sub)).unwrap().tasks.as_strings()
}

#[test]
fn key_table_examples() {
    assert_eq!(journal_command(ch('n', Modifiers::Alt)), Some(JournalCommand::Ask(JournalPrompt::AddProject)));
    assert_eq!(journal_command(ch('d', Modifiers::Plain)), Some(JournalCommand::OnTasks(ListOp::PopSelected)));
    assert_eq!(journal_command(key(KeyCode::BackTab, Modifiers::Shift)), Some(JournalCommand::OnProjects(ListOp::SelectPrev)));
    assert_eq!(journal_command(ch('l', Modifiers::Control)), Some(JournalCommand::MoveTask(false)));
    assert_eq!(journal_command(ch('s', Modifiers::Control)), Some(JournalCommand::Save));
    assert_eq!(journal_command(ch('3', Modifiers::Plain)), Some(JournalCommand::SelectProject(3)));
    assert_eq!(journal_command(ch('x', Modifiers::Plain)), None);
    assert_eq!(journal_command(key(KeyCode::Enter, Modifiers::Plain)), None);
}

#[test]
fn global_keys() {
    assert_eq!(global_command(ch('o', Modifiers::Alt)), Some(GlobalCommand::OpenDataDir));
    assert_eq!(global_command(ch('n', Modifiers::Control)), Some(GlobalCommand::NewJournal));
    assert_eq!(global_command(ch('n', Modifiers::Alt)), None);
}

#[test]
fn routing_order() {
    let mut journal = Journal::new("j");
    assert_eq!(route_event(ch('n', Modifiers::Control), true, true, &journal), Route::Global(GlobalCommand::NewJournal));
    assert_eq!(route_event(ch('x', Modifiers::Plain), true, true, &journal), Route::AppPrompt);
    assert_eq!(route_event(ch('x', Modifiers::Plain), false, true, &journal), Route::FileList);
    assert_eq!(route_event(ch('x', Modifiers::Plain), false, false, &journal), Route::Journal);
    journal.project().unwrap().prompt_request = Some(JournalPrompt::AddTask);
    assert_eq!(route_event(ch('x', Modifiers::Plain), false, false, &journal), Route::JournalPrompt);
}

#[test]
fn delete_task_key() {
    let mut journal = sample_journal();
    assert_eq!(handle_journal_event(ch('d', Modifiers::Plain), &mut journal), JournalAction::Nothing);
    assert_eq!(task_names(&journal, 0), vec!["a1".to_string()]);
    assert!(journal.check_wf());
}

#[test]
fn navigation_keys() {
    let mut journal = sample_journal();
    handle_journal_event(ch('l', Modifiers::Plain), &mut journal);
    assert_eq!(journal.projects.selected().unwrap().subprojects.selection(), Some(1));
    handle_journal_event(ch('h', Modifiers::Plain), &mut journal);
    assert_eq!(journal.projects.selected().unwrap().subprojects.selection(), Some(0));
    handle_journal_event(ch('j', Modifiers::Plain), &mut journal);
    assert_eq!(journal.projects.selected().unwrap().subprojects.selected().unwrap().tasks.selection(), Some(0));
    handle_journal_event(key(KeyCode::Esc, Modifiers::Plain), &mut journal);
    assert_eq!(journal.projects.selected().unwrap().subprojects.selected().unwrap().tasks.selection(), None);
}

#[test]
fn shift_task_key() {
    let mut journal = sample_journal();
    handle_journal_event(ch('k', Modifiers::Control), &mut journal);
    assert_eq!(task_names(&journal, 0), vec!["a2".to_string(), "a1".to_string()]);
    handle_journal_event(ch('j', Modifiers::Control), &mut journal);
    assert_eq!(task_names(&journal, 0), vec!["a1".to_string(), "a2".to_string()]);
}

#[test]
fn move_task_to_next_subproject() {
    let mut journal = sample_journal();
    move_task(&mut journal, false);
    assert_eq!(task_names(&journal, 0), vec!["a1".to_string()]);
    assert_eq!(task_names(&journal, 1), vec!["a2".to_string(), "b1".to_string()]);
    let project = journal.projects.selected().unwrap();
    assert_eq!(project.subprojects.selection(), Some(1));
    assert_eq!(project.subprojects.selected().unwrap().tasks.selection(), Some(0));
    assert!(journal.check_wf());
}

#[test]
fn move_task_back_wraps_round() {
    let mut journal = sample_journal();
    handle_journal_event(ch('h', Modifiers::Control), &mut journal);
    assert_eq!(task_names(&journal, 0), vec!["a1".to_string()]);
    assert_eq!(task_names(&journal, 1), vec!["a2".to_string(), "b1".to_string()]);
    assert_eq!(journal.projects.selected().unwrap().subprojects.selection(), Some(1));
}

#[test]
fn move_task_keeps_count() {
    let mut journal = sample_journal();
    let count = |j: &Journal| {
        j.projects.selected().unwrap().subprojects.iter().map(|s| s.tasks.len()).sum::<usize>()
    };
    let before = count(&journal);
    move_task(&mut journal, true);
    move_task(&mut journal, false);
    move_task(&mut journal, false);
    assert_eq!(count(&journal), before);
}

#[test]
fn move_task_without_selection_changes_nothing() {
    let mut journal = sample_journal();
    journal.project().unwrap().subproject().unwrap().tasks.deselect();
    move_task(&mut journal, false);
    assert_eq!(task_names(&journal, 0), vec!["a1".to_string(), "a2".to_string()]);
    assert_eq!(journal.projects.selected().unwrap().subprojects.selection(), Some(0));
}

#[test]
fn focus_width_keys() {
    let mut journal = sample_journal();
    handle_journal_event(ch('=', Modifiers::Plain), &mut journal);
    assert_eq!(journal.projects.selected().unwrap().focused_width_percent, 50);
    for _ in 0..20 {
        handle_journal_event(ch('=', Modifiers::Plain), &mut journal);
    }
    assert_eq!(journal.projects.selected().unwrap().focused_width_percent, 95);
    for _ in 0..30 {
        handle_journal_event(ch('-', Modifiers::Plain), &mut journal);
    }
    assert_eq!(journal.projects.selected().unwrap().focused_width_percent, 50);
    handle_journal_event(ch('\\', Modifiers::Plain), &mut journal);
    assert!(journal.projects.selected().unwrap().split_vertical);
}

#[test]
fn bind_focus_size_bounds() {
    let mut p = Project::default();
    p.focused_width_percent = 3;
    bind_focus_size(&mut p);
    assert_eq!(p.focused_width_percent, 100);
    for _ in 0..24 {
        p.subprojects.push_item(SubProject::new("s"));
    }
    p.focused_width_percent = 3;
    bind_focus_size(&mut p);
    assert_eq!(p.focused_width_percent, 5);
    p.focused_width_percent = 300;
    bind_focus_size(&mut p);
    assert_eq!(p.focused_width_percent, 95);
    p.subprojects.clear_items();
    bind_focus_size(&mut p);
    assert_eq!(p.focused_width_percent, u16::MAX);
}

#[test]
fn reset_ui_restores_default_width() {
    let mut p = Project::default();
    p.subprojects.push_item(SubProject::new("s"));
    p.focused_width_percent = 90;
    reset_ui(&mut p);
    assert_eq!(p.focused_width_percent, 50);
    p.subprojects.push_item(SubProject::new("t"));
    reset_ui(&mut p);
    assert_eq!(p.focused_width_percent, 40);
}

#[test]
fn prompt_keys_set_up_prompt() {
    let mut journal = sample_journal();
    handle_journal_event(ch('r', Modifiers::Plain), &mut journal);
    let project = journal.projects.selected().unwrap();
    assert_eq!(project.prompt_request, Some(JournalPrompt::RenameTask));
    assert_eq!(project.prompt.prompt_text, "Rename Task:");
    assert_eq!(project.prompt.text, "a2");
    assert!(!project.prompt.password);

    let mut journal = sample_journal();
    handle_journal_event(ch('p', Modifiers::Control), &mut journal);
    let project = journal.projects.selected().unwrap();
    assert_eq!(project.prompt_request, Some(JournalPrompt::SetPassword));
    assert_eq!(project.prompt.prompt_text, "Set new password for `work`:");
    assert_eq!(project.prompt.text, "");
    assert!(project.prompt.password);

    let mut journal = sample_journal();
    handle_journal_event(ch('R', Modifiers::Shift), &mut journal);
    let project = journal.projects.selected().unwrap();
    assert_eq!(project.prompt.prompt_text, "Subproject Name:");
    assert_eq!(project.prompt.text, "A");

    let mut journal = sample_journal();
    handle_journal_event(ch('r', Modifiers::Control), &mut journal);
    assert_eq!(journal.projects.selected().unwrap().prompt.text, "work");
}

#[test]
fn rename_task_prompt_needs_a_task() {
    let mut journal = sample_journal();
    journal.project().unwrap().subproject().unwrap().tasks.deselect();
    handle_journal_event(ch('r', Modifiers::Plain), &mut journal);
    assert_eq!(journal.projects.selected().unwrap().prompt_request, None);
}

#[test]
fn set_project_prompt_fields() {
    let mut p = Project::default();
    set_project_prompt(&mut p, JournalPrompt::AddTask, "New Task:", "pre", true);
    assert_eq!(p.prompt_request, Some(JournalPrompt::AddTask));
    assert_eq!(p.prompt.prompt_text, "New Task:");
    assert_eq!(p.prompt.text, "pre");
    assert!(p.prompt.password);
}

#[test]
fn file_keys_leave_actions() {
    let mut journal = sample_journal();
    assert_eq!(handle_journal_event(ch('o', Modifiers::Control), &mut journal), JournalAction::OpenFileList(FileRequest::Load));
    assert_eq!(handle_journal_event(ch('O', Modifiers::Shift), &mut journal), JournalAction::OpenFileList(FileRequest::LoadMerge));
    assert_eq!(handle_journal_event(ch('s', Modifiers::Alt), &mut journal), JournalAction::OpenFileList(FileRequest::Save));
    assert_eq!(handle_journal_event(ch('s', Modifiers::Control), &mut journal), JournalAction::Save);
}

#[test]
fn project_keys() {
    let mut journal = sample_journal();
    journal.projects.push_item(Project::new("Second"));
    handle_journal_event(key(KeyCode::Tab, Modifiers::Plain), &mut journal);
    assert_eq!(journal.projects.selection(), Some(1));
    handle_journal_event(ch('1', Modifiers::Plain), &mut journal);
    assert_eq!(journal.projects.selection(), Some(0));
    handle_journal_event(ch('9', Modifiers::Plain), &mut journal);
    assert_eq!(journal.projects.selection(), Some(0));
    handle_journal_event(key(KeyCode::PageDown, Modifiers::Alt), &mut journal);
    assert_eq!(journal.projects.get_item(Some(0)).unwrap().name, "Second");
    assert_eq!(journal.projects.selection(), Some(1));
    handle_journal_event(ch('d', Modifiers::Alt), &mut journal);
    assert_eq!(journal.projects.len(), 1);
    assert_eq!(journal.projects.selection(), Some(0));
    apply_command(&mut journal, JournalCommand::OnSubProjects(ListOp::PopSelected));
    assert_eq!(journal.projects.selected().unwrap().len(), 0);
}

#[test]
fn prompt_result_adds_task() {
    let mut journal = sample_journal();
    handle_journal_event(ch('n', Modifiers::Plain), &mut journal);
    let message = handle_journal_prompt_event(PromptEvent::Result("a3".to_string()), &mut journal);
    assert_eq!(message, None);
    assert_eq!(task_names(&journal, 0), vec!["a1".to_string(), "a2".to_string(), "a3".to_string()]);
    let project = journal.projects.selected().unwrap();
    assert_eq!(project.prompt_request, None);
    assert_eq!(project.prompt.prompt_text, "");
    assert_eq!(project.subprojects.selected().unwrap().tasks.selection(), Some(2));
}

#[test]
fn prompt_result_adds_subproject_and_project() {
    let mut journal = sample_journal();
    handle_journal_event(ch('N', Modifiers::Shift), &mut journal);
    handle_journal_prompt_event(PromptEvent::Result("Mid".to_string()), &mut journal);
    let project = journal.projects.selected().unwrap();
    assert_eq!(project.subprojects.as_strings(), vec!["A".to_string(), "Mid".to_string(), "B".to_string()]);
    assert_eq!(project.subprojects.selection(), Some(1));
    assert_eq!(project.focused_width_percent, 40);

    handle_journal_event(ch('n', Modifiers::Alt), &mut journal);
    handle_journal_prompt_event(PromptEvent::Result("P2".to_string()), &mut journal);
    assert_eq!(journal.projects.len(), 2);
    assert_eq!(journal.projects.selection(), Some(1));
    assert_eq!(journal.projects.selected().unwrap().name, "P2");
    assert!(journal.check_wf());
}

#[test]
fn prompt_result_renames_and_reports() {
    let mut journal = sample_journal();
    handle_journal_event(ch('r', Modifiers::Control), &mut journal);
    let m = handle_journal_prompt_event(PromptEvent::Result("home".to_string()), &mut journal);
    assert_eq!(m.as_deref(), Some("Renamed journal: home"));
    assert_eq!(journal.name, "home");

    handle_journal_event(ch('r', Modifiers::Alt), &mut journal);
    let m = handle_journal_prompt_event(PromptEvent::Result("Proj".to_string()), &mut journal);
    assert_eq!(m.as_deref(), Some("Renamed project: Proj"));
    assert_eq!(journal.projects.selected().unwrap().name, "Proj");

    handle_journal_event(ch('r', Modifiers::Plain), &mut journal);
    handle_journal_prompt_event(PromptEvent::Result("a2!".to_string()), &mut journal);
    assert_eq!(task_names(&journal, 0), vec!["a1".to_string(), "a2!".to_string()]);

    handle_journal_event(ch('p', Modifiers::Control), &mut journal);
    let m = handle_journal_prompt_event(PromptEvent::Result("pw".to_string()), &mut journal);
    assert_eq!(m.as_deref(), Some("Set encryption password"));
    assert_eq!(journal.password, "pw");
}

#[test]
fn prompt_cancel_and_await() {
    let mut journal = sample_journal();
    handle_journal_event(ch('n', Modifiers::Plain), &mut journal);
    assert_eq!(handle_journal_prompt_event(PromptEvent::AwaitingResult("x".to_string()), &mut journal), None);
    assert_eq!(journal.projects.selected().unwrap().prompt_request, Some(JournalPrompt::AddTask));
    assert_eq!(handle_journal_prompt_event(PromptEvent::Cancelled, &mut journal), None);
    assert_eq!(journal.projects.selected().unwrap().prompt_request, None);
    assert_eq!(task_names(&journal, 0).len(), 2);
}

#[test]
fn file_choice_and_texts() {
    match file_choice(FileRequest::Load, "notes".to_string()) {
        FileChoice::AskPassword(AppPrompt::LoadFile(name), setup) => {
            assert_eq!(name, "notes");
            assert_eq!(setup.prompt_text, "Password for `notes`:");
            assert_eq!(setup.text, "");
            assert!(setup.password);
        }
        other => panic!("unexpected {:?}", other),
    }
    match file_choice(FileRequest::LoadMerge, "n".to_string()) {
        FileChoice::AskPassword(AppPrompt::MergeFile(name), setup) => {
            assert_eq!(name, "n");
            assert_eq!(setup.prompt_text, "Password for `n`:");
            assert!(setup.password);
        }
        other => panic!("unexpected {:?}", other),
    }
    match file_choice(FileRequest::Save, "n".to_string()) {
        FileChoice::SaveAs(name) => assert_eq!(name, "n"),
        other => panic!("unexpected {:?}", other),
    }
    assert_eq!(file_list_texts(FileRequest::Load), ("Open Journal:", "Create New File:"));
    assert_eq!(file_list_texts(FileRequest::LoadMerge), ("Merge Journal:", ""));
    assert_eq!(file_list_texts(FileRequest::Save), ("Save Journal:", "Save File As:"));
}

#[test]
fn new_journal_prompt_text() {
    let setup = new_journal_prompt();
    assert_eq!(setup.prompt_text, "New file name:");
    assert_eq!(setup.text, "");
    assert!(!setup.password);
}

#[test]
fn app_prompt_actions() {
    match app_prompt_action(AppPrompt::NewJournal, "j".to_string()) {
        AppPromptAction::CreateJournal(name) => assert_eq!(name, "j"),
        other => panic!("unexpected {:?}", other),
    }
    match app_prompt_action(AppPrompt::MergeFile("f".to_string()), "pw".to_string()) {
        AppPromptAction::Load { name, key, merge } => {
            assert_eq!(name, "f");
            assert_eq!(key, "pw");
            assert!(merge);
        }
        other => panic!("unexpected {:?}", other),
    }
    match app_prompt_action(AppPrompt::LoadFile("f".to_string()), "pw".to_string()) {
        AppPromptAction::Load { merge, .. } => assert!(!merge),
        other => panic!("unexpected {:?}", other),
    }
    assert_eq!(journal_file_message("Saved", "notes"), "Saved journal `notes`");
}

#[test]
fn finishing_file_work_reports_it() {
    let mut journal = sample_journal();
    journal.project().unwrap().focused_width_percent = 70;
    let before = journal.projects.selected().unwrap().focused_width_percent;
    let f = finish_file_work(&mut journal, FileWork::Save, Ok("/data/work".to_string()));
    assert_eq!(f.message, "Saved journal `work`");
    assert_eq!(f.kind, FeedbackKind::Nominal);
    assert_eq!(journal.projects.selected().unwrap().focused_width_percent, before);

    let f = finish_file_work(&mut journal, FileWork::Create, Ok("/data/fresh".to_string()));
    assert_eq!(f.message, "Created journal `fresh`");
    assert_eq!(journal.projects.selected().unwrap().focused_width_percent, 50);

    let f = finish_file_work(&mut journal, FileWork::Load, Err("bad".to_string()));
    assert_eq!(f.message, "Failed to load file [bad]");
    assert_eq!(f.kind, FeedbackKind::Error);
    let f = finish_file_work(&mut journal, FileWork::loading(true), Err("x".to_string()));
    assert_eq!(f.message, "Failed to merge file [x]");
    let f = finish_file_work(&mut journal, FileWork::loading(false), Ok("/".to_string()));
    assert_eq!(f.message, "Loaded journal `/missing_filename/`");
    let f = finish_file_work(&mut journal, FileWork::Create, Err("disk full".to_string()));
    assert_eq!(f.message, "Failed to save file [disk full]");
    assert_eq!(journal.projects.selected().unwrap().focused_width_percent, 50);
}
