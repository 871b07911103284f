use devjournal::data::{FileRequest, JournalPrompt};
use devjournal::events::{Key, KeyCode, Modifiers};
use devjournal::list::ListOp;
use devjournal::project::{SubProject, Task};
use devjournal::project_view::{
    apply_view_command, handle_view_event, handle_view_prompt_event, view_command, ProjectView,
    ViewAction, ViewCommand,
};
use devjournal::prompt::PromptEvent;

fn ch(c: char, modifiers: Modifiers) -> Key {
    Key { code: KeyCode::Char(c), modifiers }
}

/// A view whose project has subprojects `A` (tasks a1, a2; a2 selected) and `B` (task b1,
/// selected), `A` selected.
fn sample_view() -> ProjectView {
    let mut view = ProjectView::new();
    {
        let a = view.project.subproject().unwrap();
        a.name = "A".to_string();
        a.tasks.push_item(Task::new("a1"));
        a.tasks.push_item(Task::new("a2"));
        a.tasks.select(1).unwrap();
    }
    let mut b = SubProject::new("B");
    b.tasks.push_item(Task::new("b1"));
    b.tasks.select(0).unwrap();
    view.project.subprojects.push_item(b);
    view
}

fn subproject_names(view: &ProjectView) -> Vec<String> {
    view.project.subprojects.items().iter().map(|s| s.name.clone()).collect()
}

fn task_names(view: &ProjectView, i: usize) -> Vec<String> {
    view.project.subprojects.items()[i].tasks.items().iter().map(|t| t.desc.clone()).collect()
}

#[test]
fn view_key_bindings() {
    assert_eq!(view_command(ch('n', Modifiers::Alt)), Some(ViewCommand::NewProject));
    assert_eq!(view_command(ch('p', Modifiers::Alt)), Some(ViewCommand::Ask(JournalPrompt::SetPassword)));
    assert_eq!(view_command(ch('l', Modifiers::Alt)), Some(ViewCommand::OnSubProjects(ListOp::ShiftNext)));
    assert_eq!(view_command(ch('h', Modifiers::Alt)), Some(ViewCommand::OnSubProjects(ListOp::ShiftPrev)));
    assert_eq!(view_command(ch('D', Modifiers::Shift)), Some(ViewCommand::RemoveSubProject));
    assert_eq!(view_command(ch('o', Modifiers::Control)), Some(ViewCommand::OpenFileList(FileRequest::Load)));
    assert_eq!(view_command(ch('s', Modifiers::Alt)), Some(ViewCommand::OpenFileList(FileRequest::Save)));
    assert_eq!(view_command(ch('s', Modifiers::Control)), Some(ViewCommand::Save));
    assert_eq!(view_command(ch('x', Modifiers::Plain)), None);
}

#[test]
fn alt_n_puts_a_fresh_project_in_place() {
    let mut view = sample_view();
    view.password = "secret".to_string();
    match handle_view_event(ch('n', Modifiers::Alt), &mut view) {
        ViewAction::NewProject(message) => assert_eq!(message, "New project created"),
        other => panic!("unexpected {:?}", other),
    }
    assert_eq!(view.project.name, "New Project");
    assert_eq!(subproject_names(&view), vec!["Tasks".to_string()]);
    assert_eq!(view.project.subprojects.selection(), Some(0));
    assert_eq!(view.password, "secret");
}

#[test]
fn alt_l_and_alt_h_move_the_subproject() {
    let mut view = sample_view();
    assert!(matches!(handle_view_event(ch('l', Modifiers::Alt), &mut view), ViewAction::Nothing));
    assert_eq!(subproject_names(&view), vec!["B".to_string(), "A".to_string()]);
    assert_eq!(view.project.subprojects.selection(), Some(1));
    handle_view_event(ch('l', Modifiers::Alt), &mut view);
    assert_eq!(subproject_names(&view), vec!["A".to_string(), "B".to_string()]);
    assert_eq!(view.project.subprojects.selection(), Some(0));
    handle_view_event(ch('h', Modifiers::Alt), &mut view);
    assert_eq!(subproject_names(&view), vec!["B".to_string(), "A".to_string()]);
    assert_eq!(view.project.subprojects.selection(), Some(1));
}

#[test]
fn alt_p_sets_the_password() {
    let mut view = sample_view();
    handle_view_event(ch('p', Modifiers::Alt), &mut view);
    assert_eq!(view.project.prompt_request, Some(JournalPrompt::SetPassword));
    assert_eq!(view.project.prompt.prompt_text, "Set new password for `New Project`:");
    assert_eq!(view.project.prompt.text, "");
    assert!(view.project.prompt.password);
    let message = handle_view_prompt_event(PromptEvent::Result("hunter2".to_string()), &mut view);
    assert_eq!(message, Some("Reset project password".to_string()));
    assert_eq!(view.password, "hunter2");
    assert_eq!(view.project.prompt_request, None);
    assert_eq!(view.project.prompt.prompt_text, "Input:");
    assert!(!view.project.prompt.password);
}

#[test]
fn rename_prompts_and_results() {
    let mut view = sample_view();
    handle_view_event(ch('r', Modifiers::Alt), &mut view);
    assert_eq!(view.project.prompt.prompt_text, "New Project Name:");
    assert_eq!(view.project.prompt.text, "");
    let message = handle_view_prompt_event(PromptEvent::Result("Work".to_string()), &mut view);
    assert_eq!(message, Some("Renamed project: Work".to_string()));
    assert_eq!(view.project.name, "Work");

    handle_view_event(ch('R', Modifiers::Shift), &mut view);
    assert_eq!(view.project.prompt.prompt_text, "New Subproject Name:");
    assert_eq!(view.project.prompt.text, "A");
    assert_eq!(handle_view_prompt_event(PromptEvent::Result("Z".to_string()), &mut view), None);
    assert_eq!(subproject_names(&view), vec!["Z".to_string(), "B".to_string()]);

    handle_view_event(ch('r', Modifiers::Plain), &mut view);
    assert_eq!(view.project.prompt.prompt_text, "Rename Task:");
    assert_eq!(view.project.prompt.text, "a2");
    handle_view_prompt_event(PromptEvent::Result("a9".to_string()), &mut view);
    assert_eq!(task_names(&view, 0), vec!["a1".to_string(), "a9".to_string()]);
}

#[test]
fn added_subproject_goes_after_the_selection() {
    let mut view = sample_view();
    handle_view_event(ch('N', Modifiers::Shift), &mut view);
    assert_eq!(view.project.prompt.prompt_text, "New Subproject Name:");
    assert_eq!(handle_view_prompt_event(PromptEvent::Result("C".to_string()), &mut view), None);
    assert_eq!(subproject_names(&view), vec!["A".to_string(), "C".to_string(), "B".to_string()]);
    assert_eq!(view.project.subprojects.selection(), Some(1));
    assert_eq!(view.project.focused_width_percent, 40);

    // From the last subproject the next place goes round to the front.
    handle_view_event(ch('l', Modifiers::Plain), &mut view);
    handle_view_event(ch('N', Modifiers::Shift), &mut view);
    handle_view_prompt_event(PromptEvent::Result("D".to_string()), &mut view);
    assert_eq!(
        subproject_names(&view),
        vec!["D".to_string(), "A".to_string(), "C".to_string(), "B".to_string()]
    );
    assert_eq!(view.project.subprojects.selection(), Some(0));
}

#[test]
fn tasks_added_moved_and_removed() {
    let mut view = sample_view();
    handle_view_event(ch('n', Modifiers::Plain), &mut view);
    assert_eq!(view.project.prompt.prompt_text, "New Task:");
    handle_view_prompt_event(PromptEvent::Result("a3".to_string()), &mut view);
    assert_eq!(task_names(&view, 0), vec!["a1".to_string(), "a2".to_string(), "a3".to_string()]);

    handle_view_event(ch('l', Modifiers::Control), &mut view);
    assert_eq!(task_names(&view, 0), vec!["a1".to_string(), "a2".to_string()]);
    assert_eq!(task_names(&view, 1), vec!["a3".to_string(), "b1".to_string()]);
    assert_eq!(view.project.subprojects.selection(), Some(1));

    handle_view_event(ch('d', Modifiers::Plain), &mut view);
    assert_eq!(task_names(&view, 1), vec!["b1".to_string()]);
    handle_view_event(Key { code: KeyCode::Esc, modifiers: Modifiers::Plain }, &mut view);
    assert_eq!(view.project.subprojects.items()[1].tasks.selection(), None);
}

#[test]
fn removing_a_subproject_rebinds_the_width() {
    let mut view = sample_view();
    view.project.focused_width_percent = 30;
    handle_view_event(ch('D', Modifiers::Shift), &mut view);
    assert_eq!(subproject_names(&view), vec!["B".to_string()]);
    assert_eq!(view.project.focused_width_percent, 100);
    handle_view_event(ch('-', Modifiers::Plain), &mut view);
    assert_eq!(view.project.focused_width_percent, 100);
}

#[test]
fn width_keys_and_file_actions() {
    let mut view = sample_view();
    handle_view_event(ch('=', Modifiers::Plain), &mut view);
    assert_eq!(view.project.focused_width_percent, 50);
    handle_view_event(ch('-', Modifiers::Plain), &mut view);
    assert_eq!(view.project.focused_width_percent, 50);
    assert!(matches!(
        handle_view_event(ch('o', Modifiers::Control), &mut view),
        ViewAction::OpenFileList(FileRequest::Load)
    ));
    assert!(matches!(handle_view_event(ch('s', Modifiers::Control), &mut view), ViewAction::Save));
    assert!(matches!(apply_view_command(&mut view, ViewCommand::NarrowFocus), ViewAction::Nothing));
    assert_eq!(view.project.focused_width_percent, 50);
}

#[test]
fn cancelled_prompt_closes() {
    let mut view = sample_view();
    handle_view_event(ch('n', Modifiers::Plain), &mut view);
    assert_eq!(handle_view_prompt_event(PromptEvent::AwaitingResult("x".to_string()), &mut view), None);
    assert_eq!(view.project.prompt_request, Some(JournalPrompt::AddTask));
    assert_eq!(handle_view_prompt_event(PromptEvent::Cancelled, &mut view), None);
    assert_eq!(view.project.prompt_request, None);
    assert_eq!(task_names(&view, 0), vec!["a1".to_string(), "a2".to_string()]);
}
