use devjournal::data::{JournalPrompt, DEFAULT_WIDTH_PERCENT};
use devjournal::journal::Journal;
use devjournal::list::SelectionList;
use devjournal::project::{Project, SubProject, Task};

#[test]
fn task_new_is_open() {
    let task = Task::new("write tests");
    assert_eq!(task.desc, "write tests");
    assert_eq!(task.created_at, "2020-02-02 12:00:00");
    assert_eq!(task.completed_at, None);
    assert_eq!(task.to_string(), "write tests");
}

#[test]
fn subproject_constructors() {
    let d = SubProject::default();
    assert_eq!(d.name, "Tasks");
    assert_eq!(d.tasks.len(), 0);
    assert_eq!(d.tasks.selection(), None);
    let n = SubProject::new("Backlog");
    assert_eq!(n.name, "Backlog");
    assert_eq!(n.tasks.len(), 0);
}

#[test]
fn subproject_task_gives_selected_task() {
    let mut s = SubProject::new("S");
    assert!(s.task().is_none());
    s.tasks.push_item(Task::new("a"));
    s.tasks.push_item(Task::new("b"));
    s.tasks.select(1).unwrap();
    s.task().unwrap().desc = "c".to_string();
    assert_eq!(s.tasks.get_item(Some(1)).unwrap().desc, "c");
}

#[test]
fn project_default_has_one_selected_subproject() {
    let p = Project::default();
    assert_eq!(p.name, "New Project");
    assert_eq!(p.len(), 1);
    assert_eq!(p.subprojects.selection(), Some(0));
    assert_eq!(p.subprojects.selected().unwrap().name, "Tasks");
    assert_eq!(p.prompt_request, None);
    assert_eq!(p.focused_width_percent, DEFAULT_WIDTH_PERCENT);
    assert!(!p.split_vertical);
    assert!(p.check_wf());
    let q = Project::new("Other");
    assert_eq!(q.name, "Other");
    assert_eq!(q.len(), 1);
}

#[test]
fn project_subproject_changes_selected() {
    let mut p = Project::default();
    p.subproject().unwrap().name = "Renamed".to_string();
    assert_eq!(p.subprojects.selected().unwrap().name, "Renamed");
    p.subprojects.deselect();
    assert!(p.subproject().is_none());
}

#[test]
fn reset_selections_selects_first_items() {
    let mut p = Project::default();
    p.subprojects.push_item(SubProject::new("Second"));
    p.subprojects.get_item_mut(Some(0)).unwrap().tasks.push_item(Task::new("a"));
    p.subprojects.get_item_mut(Some(0)).unwrap().tasks.push_item(Task::new("b"));
    p.subprojects.get_item_mut(Some(0)).unwrap().tasks.select(1).unwrap();
    p.subprojects.select(1).unwrap();
    p.reset_selections();
    assert_eq!(p.subprojects.selection(), Some(0));
    assert_eq!(p.subprojects.get_item(Some(0)).unwrap().tasks.selection(), Some(0));
    assert_eq!(p.subprojects.get_item(Some(1)).unwrap().tasks.selection(), None);
    assert!(p.check_wf());
}

#[test]
fn journal_new_has_one_selected_project() {
    let j = Journal::new("work");
    assert_eq!(j.name, "work");
    assert_eq!(j.password, "");
    assert_eq!(j.projects.len(), 1);
    assert_eq!(j.projects.selection(), Some(0));
    assert_eq!(j.projects.selected().unwrap().name, "New Project");
    assert!(j.check_wf());
    let d = Journal::default();
    assert_eq!(d.name, "new_journal");
}

#[test]
fn journal_project_gives_selected_project() {
    let mut j = Journal::new("work");
    j.project().unwrap().prompt_request = Some(JournalPrompt::AddTask);
    assert_eq!(j.projects.selected().unwrap().prompt_request, Some(JournalPrompt::AddTask));
    j.projects.deselect();
    assert!(j.project().is_none());
}

#[test]
fn journals_merge_by_appending_projects() {
    let mut a = Journal::new("a");
    a.password = "pa".to_string();
    let mut b = Journal::new("b");
    b.projects.push_item(Project::new("Extra"));
    let merged = a + b;
    assert_eq!(merged.name, "a");
    assert_eq!(merged.password, "pa");
    assert_eq!(merged.projects.len(), 3);
    assert_eq!(merged.projects.selection(), None);
    assert_eq!(merged.projects.get_item(Some(2)).unwrap().name, "Extra");
}

#[test]
fn after_load_replaces_or_merges() {
    let current = Journal::new("current");
    let loaded = Journal::new("loaded");
    let replaced = current.after_load(loaded, "secret", false);
    assert_eq!(replaced.name, "loaded");
    assert_eq!(replaced.password, "secret");
    assert_eq!(replaced.projects.len(), 1);

    let current = Journal::new("current");
    let loaded = Journal::new("loaded");
    let merged = current.after_load(loaded, "key", true);
    assert_eq!(merged.name, "current");
    assert_eq!(merged.password, "key");
    assert_eq!(merged.projects.len(), 2);
    assert!(merged.check_wf());
}

#[test]
fn check_wf_finds_stale_selection() {
    let mut j = Journal::new("j");
    assert!(j.check_wf());
    j.project().unwrap().subproject().unwrap().tasks.clear_items();
    assert!(j.check_wf());
    j.project().unwrap().subproject().unwrap().tasks.push_item(Task::new("t"));
    j.project().unwrap().subproject().unwrap().tasks.select(0).unwrap();
    j.project().unwrap().subproject().unwrap().tasks.clear_items();
    assert!(!j.check_wf());
    let empty: SelectionList<Project> = SelectionList::default();
    j.projects = empty;
    assert!(j.check_wf());
}
