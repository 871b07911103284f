use vstd::prelude::*;
use crate::data::{FileRequest, JournalPrompt};
use crate::events::{
    bind_focus_size, bound_focus, lemma_move_task_goes_to_neighbour, move_project_task, only_subprojects_differ,
    only_tasks_of_differ, narrowed, prompted, set_project_prompt,
    subproject_changed, subprojects_set, task_moved, tasks_set, width_set, Key, KeyCode, Modifiers,
};
use crate::events::{
    fresh_project, fresh_subproject, fresh_task, is_new_subproject, is_new_task, prompt_opened,
    width_within_bounds,
};
use crate::list::{
    added_after_selection, selected_moved, selected_removed, selected_replaced, selection_stepped, ListOp,
};
use crate::project::{Project, SubProject, Task};
use crate::prompt::PromptEvent;

verus! {

broadcast use crate::list::lemma_list_len_fits;

/// The view of a single project: the project, and the password its file is encrypted with.
pub struct ProjectView {
    pub project: Project,
    pub password: String,
}

impl ProjectView {
    /// Every list of the project has its selection on an item or none.
    pub open spec fn wf(&self) -> bool {
        self.project.wf()
    }

    /// A view of a fresh project called `New Project`, without password.
    pub fn new() -> (r: ProjectView)
        ensures
            r.project.is_fresh("New Project"@),
            r.password@ == Seq::<char>::empty(),
            r.wf(),
    {
        ProjectView { project: Project::default(), password: String::new() }
    }
}

/// What a key press asks of the project view.
#[derive(Clone, Copy, PartialEq, Eq, Structural, Debug)]
pub enum ViewCommand {
    /// Put a fresh project in place of the one shown.
    NewProject,
    /// Open the prompt asking for this.
    Ask(JournalPrompt),
    OnSubProjects(ListOp),
    /// Remove the selected subproject, keeping the focused width within its bounds.
    RemoveSubProject,
    OnTasks(ListOp),
    /// Move the selected task to the previous (`true`) or next subproject.
    MoveTask(bool),
    WidenFocus,
    NarrowFocus,
    OpenFileList(FileRequest),
    Save,
}

/// What is left for the caller to do after a key press in the project view.
#[derive(Clone, Debug)]
pub enum ViewAction {
    Nothing,
    /// A fresh project took the place of the old one: show this message, and save the project
    /// under the default file name from now on.
    NewProject(String),
    OpenFileList(FileRequest),
    Save,
}

/// The key bindings of the project view.
pub open spec fn view_command_of(key: Key) -> Option<ViewCommand> {
    match (key.code, key.modifiers) {
        (KeyCode::Char('n'), Modifiers::Alt) => Some(ViewCommand::NewProject),
        (KeyCode::Char('p'), Modifiers::Alt) => Some(ViewCommand::Ask(JournalPrompt::SetPassword)),
        (KeyCode::Char('r'), Modifiers::Alt) => Some(ViewCommand::Ask(JournalPrompt::RenameProject)),
        (KeyCode::Char('R'), Modifiers::Shift) => Some(ViewCommand::Ask(JournalPrompt::RenameSubProject)),
        (KeyCode::Char('='), Modifiers::Plain) => Some(ViewCommand::WidenFocus),
        (KeyCode::Char('-'), Modifiers::Plain) => Some(ViewCommand::NarrowFocus),
        (KeyCode::Char('N'), Modifiers::Shift) => Some(ViewCommand::Ask(JournalPrompt::AddSubProject)),
        (KeyCode::Char('D'), Modifiers::Shift) => Some(ViewCommand::RemoveSubProject),
        (KeyCode::Char('l'), Modifiers::Plain) => Some(ViewCommand::OnSubProjects(ListOp::SelectNext)),
        (KeyCode::Char('h'), Modifiers::Plain) => Some(ViewCommand::OnSubProjects(ListOp::SelectPrev)),
        (KeyCode::Char('l'), Modifiers::Alt) => Some(ViewCommand::OnSubProjects(ListOp::ShiftNext)),
        (KeyCode::Char('h'), Modifiers::Alt) => Some(ViewCommand::OnSubProjects(ListOp::ShiftPrev)),
        (KeyCode::Char('l'), Modifiers::Control) => Some(ViewCommand::MoveTask(false)),
        (KeyCode::Char('h'), Modifiers::Control) => Some(ViewCommand::MoveTask(true)),
        (KeyCode::Char('n'), Modifiers::Plain) => Some(ViewCommand::Ask(JournalPrompt::AddTask)),
        (KeyCode::Char('d'), Modifiers::Plain) => Some(ViewCommand::OnTasks(ListOp::PopSelected)),
        (KeyCode::Char('r'), Modifiers::Plain) => Some(ViewCommand::Ask(JournalPrompt::RenameTask)),
        (KeyCode::Esc, Modifiers::Plain) => Some(ViewCommand::OnTasks(ListOp::Deselect)),
        (KeyCode::Char('j'), Modifiers::Plain) => Some(ViewCommand::OnTasks(ListOp::SelectNext)),
        (KeyCode::Char('k'), Modifiers::Plain) => Some(ViewCommand::OnTasks(ListOp::SelectPrev)),
        (KeyCode::Char('j'), Modifiers::Control) => Some(ViewCommand::OnTasks(ListOp::ShiftNext)),
        (KeyCode::Char('k'), Modifiers::Control) => Some(ViewCommand::OnTasks(ListOp::ShiftPrev)),
        (KeyCode::Char('o'), Modifiers::Control) => Some(ViewCommand::OpenFileList(FileRequest::Load)),
        (KeyCode::Char('s'), Modifiers::Control) => Some(ViewCommand::Save),
        (KeyCode::Char('s'), Modifiers::Alt) => Some(ViewCommand::OpenFileList(FileRequest::Save)),
        _ => None,
    }
}

/// The command that `key` stands for in the project view, where it stands for one.
pub fn view_command(key: Key) -> (r: Option<ViewCommand>)
    ensures
        r == view_command_of(key),
{
    match (key.code, key.modifiers) {
        (KeyCode::Char('n'), Modifiers::Alt) => Some(ViewCommand::NewProject),
        (KeyCode::Char('p'), Modifiers::Alt) => Some(ViewCommand::Ask(JournalPrompt::SetPassword)),
        (KeyCode::Char('r'), Modifiers::Alt) => Some(ViewCommand::Ask(JournalPrompt::RenameProject)),
        (KeyCode::Char('R'), Modifiers::Shift) => Some(ViewCommand::Ask(JournalPrompt::RenameSubProject)),
        (KeyCode::Char('='), Modifiers::Plain) => Some(ViewCommand::WidenFocus),
        (KeyCode::Char('-'), Modifiers::Plain) => Some(ViewCommand::NarrowFocus),
        (KeyCode::Char('N'), Modifiers::Shift) => Some(ViewCommand::Ask(JournalPrompt::AddSubProject)),
        (KeyCode::Char('D'), Modifiers::Shift) => Some(ViewCommand::RemoveSubProject),
        (KeyCode::Char('l'), Modifiers::Plain) => Some(ViewCommand::OnSubProjects(ListOp::SelectNext)),
        (KeyCode::Char('h'), Modifiers::Plain) => Some(ViewCommand::OnSubProjects(ListOp::SelectPrev)),
        (KeyCode::Char('l'), Modifiers::Alt) => Some(ViewCommand::OnSubProjects(ListOp::ShiftNext)),
        (KeyCode::Char('h'), Modifiers::Alt) => Some(ViewCommand::OnSubProjects(ListOp::ShiftPrev)),
        (KeyCode::Char('l'), Modifiers::Control) => Some(ViewCommand::MoveTask(false)),
        (KeyCode::Char('h'), Modifiers::Control) => Some(ViewCommand::MoveTask(true)),
        (KeyCode::Char('n'), Modifiers::Plain) => Some(ViewCommand::Ask(JournalPrompt::AddTask)),
        (KeyCode::Char('d'), Modifiers::Plain) => Some(ViewCommand::OnTasks(ListOp::PopSelected)),
        (KeyCode::Char('r'), Modifiers::Plain) => Some(ViewCommand::Ask(JournalPrompt::RenameTask)),
        (KeyCode::Esc, Modifiers::Plain) => Some(ViewCommand::OnTasks(ListOp::Deselect)),
        (KeyCode::Char('j'), Modifiers::Plain) => Some(ViewCommand::OnTasks(ListOp::SelectNext)),
        (KeyCode::Char('k'), Modifiers::Plain) => Some(ViewCommand::OnTasks(ListOp::SelectPrev)),
        (KeyCode::Char('j'), Modifiers::Control) => Some(ViewCommand::OnTasks(ListOp::ShiftNext)),
        (KeyCode::Char('k'), Modifiers::Control) => Some(ViewCommand::OnTasks(ListOp::ShiftPrev)),
        (KeyCode::Char('o'), Modifiers::Control) => Some(ViewCommand::OpenFileList(FileRequest::Load)),
        (KeyCode::Char('s'), Modifiers::Control) => Some(ViewCommand::Save),
        (KeyCode::Char('s'), Modifiers::Alt) => Some(ViewCommand::OpenFileList(FileRequest::Save)),
        _ => None,
    }
}

/// The question, the starting text, and whether what is typed is hidden, of the prompt that
/// the project view opens over project `p` to ask for `request`; `None` where there is
/// nothing to rename (no subproject, or no task, selected) or the view never asks for it.
pub open spec fn view_prompt_for(request: JournalPrompt, p: Project) -> Option<(Seq<char>, Seq<char>, bool)> {
    match request {
        JournalPrompt::SetPassword => Some(
            ("Set new password for `"@ + p.name@ + "`:"@, Seq::<char>::empty(), true),
        ),
        JournalPrompt::RenameProject => Some(("New Project Name:"@, Seq::<char>::empty(), false)),
        JournalPrompt::RenameSubProject => match p.subprojects@.position(None) {
            Some(i) => Some(("New Subproject Name:"@, p.subprojects@.items[i as int].name@, false)),
            None => None,
        },
        JournalPrompt::AddSubProject => Some(("New Subproject Name:"@, Seq::<char>::empty(), false)),
        JournalPrompt::AddTask => Some(("New Task:"@, Seq::<char>::empty(), false)),
        JournalPrompt::RenameTask => match p.subprojects@.position(None) {
            Some(i) => match p.subprojects@.items[i as int].tasks@.position(None) {
                Some(t) => Some(
                    ("Rename Task:"@, p.subprojects@.items[i as int].tasks@.items[t as int].desc@, false),
                ),
                None => None,
            },
            None => None,
        },
        _ => None,
    }
}

/// What `cmd` makes of the view `pre` (as `post`).
pub open spec fn view_command_effect(pre: ProjectView, post: ProjectView, cmd: ViewCommand) -> bool {
    let p = pre.project;
    let q = post.project;
    &&& post.password == pre.password
    &&& match cmd {
        ViewCommand::NewProject => q.is_fresh("New Project"@),
        ViewCommand::Ask(request) => match view_prompt_for(request, p) {
            Some(x) => prompted(p, q, request, x.0, x.1, x.2),
            None => q == p,
        },
        ViewCommand::OnSubProjects(op) => subprojects_set(p, q, op.effect(p.subprojects@)),
        ViewCommand::RemoveSubProject => {
            &&& q.name == p.name
            &&& q.prompt == p.prompt
            &&& q.prompt_request == p.prompt_request
            &&& q.split_vertical == p.split_vertical
            &&& q.subprojects@ == p.subprojects@.after_pop()
            &&& q.focused_width_percent == bound_focus(
                p.focused_width_percent,
                p.subprojects@.after_pop().items.len(),
            )
        },
        ViewCommand::OnTasks(op) => subproject_changed(
            p,
            q,
            |s: SubProject, t: SubProject| tasks_set(s, t, op.effect(s.tasks@)),
        ),
        ViewCommand::MoveTask(to_prev) => task_moved(p, q, to_prev),
        ViewCommand::WidenFocus => width_set(
            p,
            q,
            bound_focus((p.focused_width_percent + 5) as u16, p.subprojects@.items.len()),
        ),
        ViewCommand::NarrowFocus => width_set(
            p,
            q,
            bound_focus(narrowed(p.focused_width_percent), p.subprojects@.items.len()),
        ),
        ViewCommand::OpenFileList(_) => q == p,
        ViewCommand::Save => q == p,
    }
}

/// Where `cmd` can be carried out on `pre` without overflow: widening stays within a `u16`.
pub open spec fn view_command_allowed(pre: ProjectView, cmd: ViewCommand) -> bool {
    cmd is WidenFocus ==> pre.project.focused_width_percent + 5 <= u16::MAX
}

/// What is left for the caller to do after `cmd` (`r`).
pub open spec fn view_action_is(cmd: ViewCommand, r: ViewAction) -> bool {
    match cmd {
        ViewCommand::NewProject => r matches ViewAction::NewProject(m) && m@ == "New project created"@,
        ViewCommand::OpenFileList(request) => r matches ViewAction::OpenFileList(x) && x == request,
        ViewCommand::Save => r is Save,
        _ => r is Nothing,
    }
}

/// Opens the prompt of the view asking for `request`.
fn view_ask(view: &mut ProjectView, request: JournalPrompt)
    requires
        old(view).wf(),
    ensures
        final(view).wf(),
        view_command_effect(*old(view), *final(view), ViewCommand::Ask(request)),
{
    proof {
        reveal_strlit("");
        assert(""@ =~= Seq::<char>::empty());
    }
    let project = &mut view.project;
    match request {
        JournalPrompt::SetPassword => {
            let text = String::from_str("Set new password for `").concat(project.name.as_str()).concat("`:");
            set_project_prompt(project, request, text.as_str(), "", true);
        },
        JournalPrompt::RenameProject => set_project_prompt(project, request, "New Project Name:", "", false),
        JournalPrompt::RenameSubProject => {
            let mut name: Option<String> = None;
            if let Some(subproject) = project.subprojects.selected() {
                name = Some(subproject.name.clone());
            }
            if let Some(prefill) = name {
                set_project_prompt(project, request, "New Subproject Name:", prefill.as_str(), false);
            }
        },
        JournalPrompt::AddSubProject => set_project_prompt(project, request, "New Subproject Name:", "", false),
        JournalPrompt::AddTask => set_project_prompt(project, request, "New Task:", "", false),
        JournalPrompt::RenameTask => {
            let mut task_name: Option<String> = None;
            if let Some(subproject) = project.subprojects.selected() {
                if let Some(task) = subproject.tasks.selected() {
                    task_name = Some(task.desc.clone());
                }
            }
            if let Some(prefill) = task_name {
                set_project_prompt(project, request, "Rename Task:", prefill.as_str(), false);
            }
        },
        _ => {},
    }
}

/// Applies `op` to the tasks of the selected subproject of the view.
fn view_on_tasks(view: &mut ProjectView, op: ListOp)
    requires
        old(view).wf(),
    ensures
        final(view).wf(),
        view_command_effect(*old(view), *final(view), ViewCommand::OnTasks(op)),
{
    let ghost p0 = view.project;
    if let Some(subproject) = view.project.subproject() {
        subproject.tasks.apply(op);
    }
    assert(subproject_changed(
        p0,
        view.project,
        |s: SubProject, t: SubProject| tasks_set(s, t, op.effect(s.tasks@)),
    ));
}

/// Carries out `cmd` on the view, and says what is left for the caller to do.
pub fn apply_view_command(view: &mut ProjectView, cmd: ViewCommand) -> (r: ViewAction)
    requires
        old(view).wf(),
        view_command_allowed(*old(view), cmd),
    ensures
        final(view).wf(),
        view_command_effect(*old(view), *final(view), cmd),
        view_action_is(cmd, r),
{
    match cmd {
        ViewCommand::NewProject => {
            view.project = Project::default();
            return ViewAction::NewProject(String::from_str("New project created"));
        },
        ViewCommand::Ask(request) => view_ask(view, request),
        ViewCommand::OnSubProjects(op) => view.project.subprojects.apply(op),
        ViewCommand::RemoveSubProject => {
            let _ = view.project.subprojects.pop_selected();
            bind_focus_size(&mut view.project);
        },
        ViewCommand::OnTasks(op) => view_on_tasks(view, op),
        ViewCommand::MoveTask(to_prev) => move_project_task(&mut view.project, to_prev),
        ViewCommand::WidenFocus => {
            view.project.focused_width_percent = view.project.focused_width_percent + 5;
            bind_focus_size(&mut view.project);
        },
        ViewCommand::NarrowFocus => {
            view.project.focused_width_percent = view.project.focused_width_percent.saturating_sub(5);
            bind_focus_size(&mut view.project);
        },
        ViewCommand::OpenFileList(request) => {
            return ViewAction::OpenFileList(request);
        },
        ViewCommand::Save => {
            return ViewAction::Save;
        },
    }
    ViewAction::Nothing
}

/// Handles a key press in the project view: carries out the command it stands for, where it
/// stands for one, and says what is left for the caller to do.
pub fn handle_view_event(key: Key, view: &mut ProjectView) -> (r: ViewAction)
    requires
        old(view).wf(),
        view_command_of(key) matches Some(cmd) ==> view_command_allowed(*old(view), cmd),
    ensures
        final(view).wf(),
        match view_command_of(key) {
            Some(cmd) => view_command_effect(*old(view), *final(view), cmd) && view_action_is(cmd, r),
            None => *final(view) == *old(view) && r is Nothing,
        },
{
    match view_command(key) {
        Some(cmd) => apply_view_command(view, cmd),
        None => ViewAction::Nothing,
    }
}

/// `q` is `p` with its prompt put back to its first state (asking `Input:`, empty, what is
/// typed shown) and closed; its orientation is kept.
pub open spec fn view_prompt_reset(p: Project, q: Project) -> bool {
    &&& q.prompt_request is None
    &&& q.prompt.prompt_text@ == "Input:"@
    &&& q.prompt.text@ == Seq::<char>::empty()
    &&& !q.prompt.password
    &&& q.split_vertical == p.split_vertical
}

/// What confirming `text` in the prompt of the view `pre`, asking for `request`, makes of it
/// (as `post`), and the message it reports (`r`).
pub open spec fn view_result_effect(
    pre: ProjectView,
    post: ProjectView,
    request: JournalPrompt,
    text: Seq<char>,
    r: Option<String>,
) -> bool {
    let p = pre.project;
    let q = post.project;
    &&& view_prompt_reset(p, q)
    &&& match request {
        JournalPrompt::SetPassword => {
            &&& post.password@ == text
            &&& q.name == p.name
            &&& q.subprojects == p.subprojects
            &&& q.focused_width_percent == p.focused_width_percent
            &&& r matches Some(m) && m@ == "Reset project password"@
        },
        JournalPrompt::RenameProject => {
            &&& post.password == pre.password
            &&& q.name@ == text
            &&& q.subprojects == p.subprojects
            &&& q.focused_width_percent == p.focused_width_percent
            &&& r matches Some(m) && m@ == "Renamed project: "@ + text
        },
        JournalPrompt::RenameSubProject => {
            &&& post.password == pre.password
            &&& q.name == p.name
            &&& q.focused_width_percent == p.focused_width_percent
            &&& p.subprojects@.selected_changed(
                q.subprojects@,
                |s: SubProject, t: SubProject| t.name@ == text && t.tasks == s.tasks,
            )
            &&& r is None
        },
        JournalPrompt::AddSubProject => {
            &&& post.password == pre.password
            &&& q.name == p.name
            &&& exists|s: SubProject|
                #[trigger] is_new_subproject(s, text) && q.subprojects@ == p.subprojects@.after_insert(
                    p.subprojects@.next_index(),
                    s,
                    true,
                )
            &&& q.focused_width_percent == bound_focus(
                p.focused_width_percent,
                p.subprojects@.items.len() + 1,
            )
            &&& r is None
        },
        JournalPrompt::AddTask => {
            &&& post.password == pre.password
            &&& q.name == p.name
            &&& q.focused_width_percent == p.focused_width_percent
            &&& p.subprojects@.selected_changed(
                q.subprojects@,
                |s: SubProject, t: SubProject|
                    exists|task: Task|
                        #[trigger] is_new_task(task, text) && tasks_set(s, t, s.tasks@.after_add(task, true)),
            )
            &&& r is None
        },
        JournalPrompt::RenameTask => {
            &&& post.password == pre.password
            &&& q.name == p.name
            &&& q.focused_width_percent == p.focused_width_percent
            &&& p.subprojects@.selected_changed(
                q.subprojects@,
                |s: SubProject, t: SubProject|
                    t.name == s.name && s.tasks@.selected_changed(
                        t.tasks@,
                        |a: Task, b: Task|
                            b.desc@ == text && b.created_at == a.created_at && b.completed_at
                                == a.completed_at,
                    ),
            )
            &&& r is None
        },
        _ => {
            &&& post.password == pre.password
            &&& q.name == p.name
            &&& q.subprojects == p.subprojects
            &&& q.focused_width_percent == p.focused_width_percent
            &&& r is None
        },
    }
}

/// Handles what the prompt of the view reports: closes it where it was cancelled, and carries
/// out what it asked for where `text` was confirmed. Returns the message to show, where there
/// is one.
pub fn handle_view_prompt_event(event: PromptEvent, view: &mut ProjectView) -> (r: Option<String>)
    requires
        old(view).wf(),
    ensures
        final(view).wf(),
        match old(view).project.prompt_request {
            None => *final(view) == *old(view) && r is None,
            Some(request) => match event {
                PromptEvent::AwaitingResult(_) => *final(view) == *old(view) && r is None,
                PromptEvent::Cancelled => {
                    &&& r is None
                    &&& final(view).password == old(view).password
                    &&& final(view).project == (Project { prompt_request: None, ..old(view).project })
                },
                PromptEvent::Result(text) => view_result_effect(*old(view), *final(view), request, text@, r),
            },
        },
{
    let request = match view.project.prompt_request {
        Some(request) => request,
        None => {
            return None;
        },
    };
    let text = match event {
        PromptEvent::Cancelled => {
            view.project.prompt_request = None;
            return None;
        },
        PromptEvent::AwaitingResult(_) => {
            return None;
        },
        PromptEvent::Result(text) => text,
    };
    let project = &mut view.project;
    project.prompt.set_prompt_text("Input:");
    project.prompt.set_text("");
    project.prompt.set_password(false);
    project.prompt_request = None;
    proof {
        reveal_strlit("");
        assert(""@ =~= Seq::<char>::empty());
    }
    match request {
        JournalPrompt::SetPassword => {
            view.password = text;
            Some(String::from_str("Reset project password"))
        },
        JournalPrompt::RenameProject => {
            project.name = text;
            Some(String::from_str("Renamed project: ").concat(project.name.as_str()))
        },
        JournalPrompt::RenameSubProject => {
            if let Some(subproject) = project.subproject() {
                subproject.name = text;
            }
            None
        },
        JournalPrompt::AddSubProject => {
            let subproject = SubProject::new(text.as_str());
            assert(is_new_subproject(subproject, text@));
            let at = project.subprojects.next_index();
            project.subprojects.insert_item(at, subproject, true);
            bind_focus_size(project);
            None
        },
        JournalPrompt::AddTask => {
            if let Some(subproject) = project.subproject() {
                let task = Task::new(text.as_str());
                assert(is_new_task(task, text@));
                subproject.tasks.add_item(task, true);
            }
            None
        },
        JournalPrompt::RenameTask => {
            if let Some(subproject) = project.subproject() {
                if let Some(task) = subproject.task() {
                    task.desc = text;
                }
            }
            None
        },
        _ => None,
    }
}

/// What the moving keys of the project view do, each to the list it works on:
/// - `l` and `h` step the subproject selection on and back; Alt-l and Alt-h move the
///   selected subproject on and back;
/// - `j` and `k` step the task selection of the selected subproject `si` on and back; Ctrl-j
///   and Ctrl-k move the selected task on and back;
/// - Ctrl-l and Ctrl-h move the selected task into the next and the previous subproject.
/// Each goes round at the ends, and leaves everything else, the password included, as it
/// was.
pub proof fn lemma_view_moving_keys(pre: ProjectView, post: ProjectView, key: Key, si: usize)
    requires
        pre.wf(),
        match view_command_of(key) {
            Some(cmd) => view_command_effect(pre, post, cmd),
            None => post == pre,
        },
    ensures
        ({
            let p = pre.project;
            let q = post.project;
            let plain = key.modifiers == Modifiers::Plain;
            let control = key.modifiers == Modifiers::Control;
            let alt = key.modifiers == Modifiers::Alt;
            &&& post.password == pre.password
            &&& (key.code == KeyCode::Char('l') && plain) ==> only_subprojects_differ(p, q)
                && selection_stepped(p.subprojects@, q.subprojects@, true)
            &&& (key.code == KeyCode::Char('h') && plain) ==> only_subprojects_differ(p, q)
                && selection_stepped(p.subprojects@, q.subprojects@, false)
            &&& (key.code == KeyCode::Char('l') && alt) ==> only_subprojects_differ(p, q)
                && selected_moved(p.subprojects@, q.subprojects@, true)
            &&& (key.code == KeyCode::Char('h') && alt) ==> only_subprojects_differ(p, q)
                && selected_moved(p.subprojects@, q.subprojects@, false)
            &&& p.subprojects@.selection == Some(si) ==> {
                let before = p.subprojects@.items[si as int].tasks@;
                let after = q.subprojects@.items[si as int].tasks@;
                &&& (key.code == KeyCode::Char('j') && plain) ==> only_tasks_of_differ(p, q, si as int)
                    && selection_stepped(before, after, true)
                &&& (key.code == KeyCode::Char('k') && plain) ==> only_tasks_of_differ(p, q, si as int)
                    && selection_stepped(before, after, false)
                &&& (key.code == KeyCode::Char('j') && control) ==> only_tasks_of_differ(p, q, si as int)
                    && selected_moved(before, after, true)
                &&& (key.code == KeyCode::Char('k') && control) ==> only_tasks_of_differ(p, q, si as int)
                    && selected_moved(before, after, false)
                &&& ((key.code == KeyCode::Char('l') || key.code == KeyCode::Char('h')) && control
                    && before.selection is Some) ==> {
                    let n = p.subprojects@.items.len() as int;
                    let t = if key.code == KeyCode::Char('h') { (si + n - 1) % n } else { (si + 1) % n };
                    let task = before.items[before.selection.unwrap() as int];
                    &&& only_subprojects_differ(p, q)
                    &&& q.subprojects@.selection == Some(t as usize)
                    &&& q.subprojects@.items[t].tasks@.selection matches Some(m)
                        && m < q.subprojects@.items[t].tasks@.items.len()
                        && q.subprojects@.items[t].tasks@.items[m as int] == task
                    &&& forall|k: int|
                        0 <= k < n && k != si && k != t ==> #[trigger] q.subprojects@.items[k]
                            == p.subprojects@.items[k]
                }
            }
        }),
{
    let p = pre.project;
    let q = post.project;
    crate::list::lemma_list_steps(p.subprojects@);
    if p.subprojects@.selection == Some(si) {
        let before = p.subprojects@.items[si as int].tasks@;
        assert(before.wf());
        crate::list::lemma_list_steps(before);
        if (key.code == KeyCode::Char('l') || key.code == KeyCode::Char('h')) && key.modifiers == Modifiers::Control
            && before.selection is Some {
            lemma_move_task_goes_to_neighbour(p, q, key.code == KeyCode::Char('h'), si, before.selection.unwrap());
        }
    }
}

/// What confirming `text` in the prompt of the view does, for each thing the prompt can ask
/// for. The prompt goes back to asking `Input:`, empty, input shown, and is closed. Then:
/// - the password becomes `text`, and that is reported;
/// - the project is renamed `text`, and that is reported;
/// - the selected subproject is renamed `text`, keeping its tasks;
/// - a new subproject named `text` is put in the place after the selected one, the first
///   place where that is the last or none is selected, and selected; the focused width is
///   kept within its bounds;
/// - a new task described by `text` is added to the selected subproject only, after its
///   selected task (or at the end), and selected;
/// - the selected task of the selected subproject gets the description `text`, keeping when
///   it was made and completed.
/// Nothing else changes, and nothing else is reported.
pub proof fn lemma_view_prompt_results(
    pre: ProjectView,
    post: ProjectView,
    request: JournalPrompt,
    text: Seq<char>,
    r: Option<String>,
)
    requires
        pre.wf(),
        view_result_effect(pre, post, request, text, r),
    ensures
        ({
            let p = pre.project;
            let q = post.project;
            &&& q.prompt_request is None
            &&& q.prompt.prompt_text@ == "Input:"@
            &&& q.prompt.text@ == Seq::<char>::empty()
            &&& !q.prompt.password
            &&& q.split_vertical == p.split_vertical
            &&& match request {
                JournalPrompt::SetPassword => {
                    &&& post.password@ == text
                    &&& r matches Some(m) && m@ == "Reset project password"@
                    &&& q.name == p.name
                    &&& q.subprojects == p.subprojects
                    &&& q.focused_width_percent == p.focused_width_percent
                },
                JournalPrompt::RenameProject => {
                    &&& post.password == pre.password
                    &&& r matches Some(m) && m@ == "Renamed project: "@ + text
                    &&& q.name@ == text
                    &&& q.subprojects == p.subprojects
                    &&& q.focused_width_percent == p.focused_width_percent
                },
                JournalPrompt::RenameSubProject => {
                    &&& post.password == pre.password
                    &&& r is None
                    &&& q.name == p.name
                    &&& q.focused_width_percent == p.focused_width_percent
                    &&& selected_replaced(
                        p.subprojects@,
                        q.subprojects@,
                        |s: SubProject, t: SubProject| t.name@ == text && t.tasks == s.tasks,
                    )
                },
                JournalPrompt::AddSubProject => {
                    let n = p.subprojects@.items.len() as int;
                    let at = match p.subprojects@.selection {
                        Some(b) => if b + 1 < n { b + 1 } else { 0 },
                        None => 0,
                    };
                    &&& post.password == pre.password
                    &&& r is None
                    &&& q.name == p.name
                    &&& q.subprojects@.items.len() == n + 1
                    &&& q.subprojects@.selection == Some(at as usize)
                    &&& fresh_subproject(text)(q.subprojects@.items[at])
                    &&& q.subprojects@.items.remove(at) == p.subprojects@.items
                    &&& q.focused_width_percent == bound_focus(p.focused_width_percent, (n + 1) as nat)
                },
                JournalPrompt::AddTask => {
                    &&& post.password == pre.password
                    &&& r is None
                    &&& q.name == p.name
                    &&& q.focused_width_percent == p.focused_width_percent
                    &&& selected_replaced(
                        p.subprojects@,
                        q.subprojects@,
                        |s: SubProject, t: SubProject|
                            t.name == s.name && added_after_selection(s.tasks@, t.tasks@, fresh_task(text)),
                    )
                },
                JournalPrompt::RenameTask => {
                    &&& post.password == pre.password
                    &&& r is None
                    &&& q.name == p.name
                    &&& q.focused_width_percent == p.focused_width_percent
                    &&& selected_replaced(
                        p.subprojects@,
                        q.subprojects@,
                        |s: SubProject, t: SubProject|
                            t.name == s.name && selected_replaced(
                                s.tasks@,
                                t.tasks@,
                                |a: Task, b: Task|
                                    b.desc@ == text && b.created_at == a.created_at && b.completed_at
                                        == a.completed_at,
                            ),
                    )
                },
                _ => {
                    &&& post.password == pre.password
                    &&& r is None
                    &&& q.name == p.name
                    &&& q.subprojects == p.subprojects
                    &&& q.focused_width_percent == p.focused_width_percent
                },
            }
        }),
{
    let p = pre.project;
    let q = post.project;
    match request {
        JournalPrompt::AddSubProject => {
            let n = p.subprojects@.items.len() as int;
            let at: int = match p.subprojects@.selection {
                Some(b) => if b + 1 < n { b + 1 } else { 0 },
                None => 0,
            };
            let ns = choose|s: SubProject|
                #[trigger] is_new_subproject(s, text) && q.subprojects@ == p.subprojects@.after_insert(
                    p.subprojects@.next_index(),
                    s,
                    true,
                );
            assert(q.subprojects@.items =~= p.subprojects@.items.insert(at, ns));
            assert(q.subprojects@.items.remove(at) =~= p.subprojects@.items);
        },
        JournalPrompt::AddTask => {
            if let Some(si) = p.subprojects@.selection {
                let s = p.subprojects@.items[si as int];
                let t = q.subprojects@.items[si as int];
                assert(s.tasks@.wf());
                let task = choose|task: Task|
                    #[trigger] is_new_task(task, text) && tasks_set(s, t, s.tasks@.after_add(task, true));
                crate::list::lemma_add_goes_after_selection(s.tasks@, task, fresh_task(text));
            }
        },
        _ => {},
    }
}

/// What the other keys of the project view do:
/// - Alt-n puts a fresh project `New Project` in place of the one shown, keeping the
///   password, and reports it;
/// - Alt-p asks, hidden, for a new password for the project; Alt-r asks for a new project
///   name; Shift-R asks for a new name for the selected subproject, starting from its own;
///   Shift-N and `n` ask for a new subproject and a new task; `r` asks for a new description
///   of the selected task, starting from its own;
/// - Shift-D removes the selected subproject, the focused width being kept within its
///   bounds; `d` removes the selected task; Esc unselects the task;
/// - `=` and `-` widen (where that stays within a `u16`) and narrow the focused subproject by
///   5, within its bounds;
/// - Ctrl-o and Alt-s hand the caller the opening of the file list for loading and saving,
///   and Ctrl-s the saving, changing nothing.
/// The password never changes, and only these keys leave the caller anything to do.
pub proof fn lemma_view_other_keys(pre: ProjectView, post: ProjectView, key: Key, r: ViewAction)
    requires
        pre.wf(),
        match view_command_of(key) {
            Some(cmd) => view_command_effect(pre, post, cmd) && view_action_is(cmd, r),
            None => post == pre && r is Nothing,
        },
    ensures
        ({
            let p = pre.project;
            let q = post.project;
            let n = p.subprojects@.items.len();
            let plain = key.modifiers == Modifiers::Plain;
            let control = key.modifiers == Modifiers::Control;
            let alt = key.modifiers == Modifiers::Alt;
            let shift = key.modifiers == Modifiers::Shift;
            let empty = Seq::<char>::empty();
            let acting = (key.code == KeyCode::Char('n') && alt) || (key.code == KeyCode::Char('o') && control)
                || (key.code == KeyCode::Char('s') && (alt || control));
            &&& post.password == pre.password
            &&& !acting ==> r is Nothing
            &&& (key.code == KeyCode::Char('n') && alt) ==> {
                &&& fresh_project("New Project"@)(q)
                &&& q.prompt_request is None
                &&& r matches ViewAction::NewProject(m) && m@ == "New project created"@
            }
            &&& (key.code == KeyCode::Char('p') && alt) ==> prompt_opened(
                p,
                q,
                JournalPrompt::SetPassword,
                "Set new password for `"@ + p.name@ + "`:"@,
                empty,
                true,
            )
            &&& (key.code == KeyCode::Char('r') && alt) ==> prompt_opened(
                p,
                q,
                JournalPrompt::RenameProject,
                "New Project Name:"@,
                empty,
                false,
            )
            &&& (key.code == KeyCode::Char('R') && shift) ==> match p.subprojects@.selection {
                Some(si) => prompt_opened(
                    p,
                    q,
                    JournalPrompt::RenameSubProject,
                    "New Subproject Name:"@,
                    p.subprojects@.items[si as int].name@,
                    false,
                ),
                None => q == p,
            }
            &&& (key.code == KeyCode::Char('N') && shift) ==> prompt_opened(
                p,
                q,
                JournalPrompt::AddSubProject,
                "New Subproject Name:"@,
                empty,
                false,
            )
            &&& (key.code == KeyCode::Char('n') && plain) ==> prompt_opened(
                p,
                q,
                JournalPrompt::AddTask,
                "New Task:"@,
                empty,
                false,
            )
            &&& (key.code == KeyCode::Char('r') && plain) ==> match p.subprojects@.selection {
                Some(si) => match p.subprojects@.items[si as int].tasks@.selection {
                    Some(ti) => prompt_opened(
                        p,
                        q,
                        JournalPrompt::RenameTask,
                        "Rename Task:"@,
                        p.subprojects@.items[si as int].tasks@.items[ti as int].desc@,
                        false,
                    ),
                    None => q == p,
                },
                None => q == p,
            }
            &&& (key.code == KeyCode::Char('D') && shift) ==> {
                &&& q == (Project { subprojects: q.subprojects, focused_width_percent: q.focused_width_percent, ..p })
                &&& selected_removed(p.subprojects@, q.subprojects@)
                &&& q.focused_width_percent == width_within_bounds(
                    p.focused_width_percent as int,
                    q.subprojects@.items.len(),
                )
            }
            &&& (key.code == KeyCode::Char('d') && plain) ==> match p.subprojects@.selection {
                Some(si) => only_tasks_of_differ(p, q, si as int) && selected_removed(
                    p.subprojects@.items[si as int].tasks@,
                    q.subprojects@.items[si as int].tasks@,
                ),
                None => q == p,
            }
            &&& (key.code == KeyCode::Esc && plain) ==> match p.subprojects@.selection {
                Some(si) => {
                    &&& only_tasks_of_differ(p, q, si as int)
                    &&& q.subprojects@.items[si as int].tasks@.items == p.subprojects@.items[si as int].tasks@.items
                    &&& q.subprojects@.items[si as int].tasks@.selection is None
                },
                None => q == p,
            }
            &&& (key.code == KeyCode::Char('=') && plain && p.focused_width_percent + 5 <= u16::MAX) ==> {
                &&& q == (Project { focused_width_percent: q.focused_width_percent, ..p })
                &&& q.focused_width_percent == width_within_bounds(p.focused_width_percent + 5, n)
            }
            &&& (key.code == KeyCode::Char('-') && plain) ==> {
                &&& q == (Project { focused_width_percent: q.focused_width_percent, ..p })
                &&& q.focused_width_percent == width_within_bounds(
                    if p.focused_width_percent >= 5 { p.focused_width_percent - 5 } else { 0 },
                    n,
                )
            }
            &&& (key.code == KeyCode::Char('o') && control) ==> q == p && (r matches ViewAction::OpenFileList(x) && x == FileRequest::Load)
            &&& (key.code == KeyCode::Char('s') && alt) ==> q == p && (r matches ViewAction::OpenFileList(x) && x == FileRequest::Save)
            &&& (key.code == KeyCode::Char('s') && control) ==> q == p && r is Save
        }),
{
    let p = pre.project;
    crate::list::lemma_pop_removes_selected(p.subprojects@);
    if let Some(si) = p.subprojects@.selection {
        assert(p.subprojects@.items[si as int].tasks@.wf());
        crate::list::lemma_pop_removes_selected(p.subprojects@.items[si as int].tasks@);
    }
}

} // verus!
