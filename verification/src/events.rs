use vstd::prelude::*;
use crate::data::{
    filename, path_file_name, AppPrompt, Feedback, FeedbackKind, FileRequest, JournalPrompt,
    DEFAULT_WIDTH_PERCENT,
};
use crate::error::AppError;
use crate::journal::Journal;
use crate::list::{
    added_after_selection, selected_moved, selected_removed, selected_replaced, selection_stepped, ListOp,
    ListState,
};
use crate::project::{Project, SubProject, Task};
use crate::prompt::{PromptEvent, PromptSetup};

verus! {

broadcast use crate::list::lemma_list_len_fits;

/// A key, as the journal's key bindings tell keys apart.
#[derive(Clone, Copy, PartialEq, Eq, Structural, Debug)]
pub enum KeyCode {
    Char(char),
    Esc,
    Tab,
    BackTab,
    Enter,
    PageUp,
    PageDown,
    F(u8),
    Other,
}

/// The modifier keys held with a key: exactly one of them, none, or some other combination.
#[derive(Clone, Copy, PartialEq, Eq, Structural, Debug)]
pub enum Modifiers {
    Plain,
    Shift,
    Alt,
    Control,
    Other,
}

/// A key press.
#[derive(Clone, Copy, PartialEq, Eq, Structural, Debug)]
pub struct Key {
    pub code: KeyCode,
    pub modifiers: Modifiers,
}

/// The largest share, in percent, that the focused subproject can take.
pub open spec fn max_focus_width() -> u16 {
    95
}

/// The smallest share, in percent, that the focused subproject can take among `n`: its even
/// share of the whole, but no less than 5. With no subprojects the share is unbounded and
/// this is the largest `u16`.
pub open spec fn min_focus_width(n: nat) -> u16 {
    if n == 0 {
        u16::MAX
    } else if 100nat / n >= 5 {
        (100nat / n) as u16
    } else {
        5
    }
}

/// `width` brought within the bounds for `n` subprojects: at most 95, then at least the
/// smallest share.
pub open spec fn bound_focus(width: u16, n: nat) -> u16 {
    let capped = if width <= max_focus_width() { width } else { max_focus_width() };
    if capped >= min_focus_width(n) { capped } else { min_focus_width(n) }
}

/// `q` is `p` with only its layout width changed, to `width`.
pub open spec fn width_set(p: Project, q: Project, width: u16) -> bool {
    &&& q.name == p.name
    &&& q.subprojects == p.subprojects
    &&& q.prompt == p.prompt
    &&& q.prompt_request == p.prompt_request
    &&& q.split_vertical == p.split_vertical
    &&& q.focused_width_percent == width
}

/// Keeps the focused width of `project` within its bounds.
pub fn bind_focus_size(project: &mut Project)
    ensures
        width_set(
            *old(project),
            *final(project),
            bound_focus(old(project).focused_width_percent, old(project).subprojects@.items.len()),
        ),
{
    let n = project.subprojects.len();
    let min_width: u16 = if n == 0 {
        u16::MAX
    } else if 100usize / n >= 5 {
        (100usize / n) as u16
    } else {
        5
    };
    let capped = if project.focused_width_percent <= 95 {
        project.focused_width_percent
    } else {
        95
    };
    project.focused_width_percent = if capped >= min_width {
        capped
    } else {
        min_width
    };
}

/// Puts the focused width of `project` back to its default, within its bounds.
pub fn reset_ui(project: &mut Project)
    ensures
        width_set(
            *old(project),
            *final(project),
            bound_focus(DEFAULT_WIDTH_PERCENT, old(project).subprojects@.items.len()),
        ),
{
    project.focused_width_percent = DEFAULT_WIDTH_PERCENT;
    bind_focus_size(project);
}

/// `q` is `p` with its prompt set up to ask for `request`: the question `prompt_text`, the
/// text `prefill_text`, hidden where `password` holds.
pub open spec fn prompted(
    p: Project,
    q: Project,
    request: JournalPrompt,
    prompt_text: Seq<char>,
    prefill_text: Seq<char>,
    password: bool,
) -> bool {
    &&& q.name == p.name
    &&& q.subprojects == p.subprojects
    &&& q.focused_width_percent == p.focused_width_percent
    &&& q.split_vertical == p.split_vertical
    &&& q.prompt_request == Some(request)
    &&& q.prompt.prompt_text@ == prompt_text
    &&& q.prompt.text@ == prefill_text
    &&& q.prompt.password == password
}

/// Sets up the prompt of `project` to ask for `request`.
pub fn set_project_prompt(
    project: &mut Project,
    request: JournalPrompt,
    prompt_text: &str,
    prefill_text: &str,
    password: bool,
)
    ensures
        prompted(*old(project), *final(project), request, prompt_text@, prefill_text@, password),
{
    project.prompt.set_prompt_text(prompt_text);
    project.prompt.set_text(prefill_text);
    project.prompt_request = Some(request);
    project.prompt.set_password(password);
}


/// `post` is `pre` with its selected project changed as `step` says, or `pre` itself where
/// no project is selected.
pub open spec fn project_changed(
    pre: Journal,
    post: Journal,
    step: spec_fn(Project, Project) -> bool,
) -> bool {
    &&& post.name == pre.name
    &&& post.password == pre.password
    &&& match pre.projects@.position(None) {
        Some(i) => {
            &&& post.projects@ == pre.projects@.with_items(
                pre.projects@.items.update(i as int, post.projects@.items[i as int]),
            )
            &&& step(pre.projects@.items[i as int], post.projects@.items[i as int])
        },
        None => post == pre,
    }
}

/// `q` is `p` with the same name, prompt and layout.
pub open spec fn project_fields_kept(p: Project, q: Project) -> bool {
    &&& q.name == p.name
    &&& q.prompt == p.prompt
    &&& q.prompt_request == p.prompt_request
    &&& q.focused_width_percent == p.focused_width_percent
    &&& q.split_vertical == p.split_vertical
}

/// `q` is `p` with its subprojects now `subprojects`.
pub open spec fn subprojects_set(p: Project, q: Project, subprojects: ListState<SubProject>) -> bool {
    project_fields_kept(p, q) && q.subprojects@ == subprojects
}

/// `q` is `p` with its selected subproject changed as `step` says, or `p` itself where no
/// subproject is selected.
pub open spec fn subproject_changed(
    p: Project,
    q: Project,
    step: spec_fn(SubProject, SubProject) -> bool,
) -> bool {
    match p.subprojects@.position(None) {
        Some(i) => {
            &&& project_fields_kept(p, q)
            &&& q.subprojects@ == p.subprojects@.with_items(
                p.subprojects@.items.update(i as int, q.subprojects@.items[i as int]),
            )
            &&& step(p.subprojects@.items[i as int], q.subprojects@.items[i as int])
        },
        None => q == p,
    }
}

/// `t` is `s` with its tasks now `tasks`.
pub open spec fn tasks_set(s: SubProject, t: SubProject, tasks: ListState<Task>) -> bool {
    t.name == s.name && t.tasks@ == tasks
}

/// `q` is `p` after the selected task of the selected subproject is moved into the
/// subproject before it (`to_prev`) or after it, going round, where it is inserted at that
/// subproject's selection and selected; that subproject becomes the selected one. Where no
/// task is selected nothing changes.
pub open spec fn task_moved(p: Project, q: Project, to_prev: bool) -> bool {
    match p.subprojects@.position(None) {
        None => q == p,
        Some(i) => {
            let s = p.subprojects@.items[i as int];
            match s.tasks@.selection {
                None => project_fields_kept(p, q) && q.subprojects@.selection
                    == p.subprojects@.selection && q.subprojects@.items == p.subprojects@.items.update(
                    i as int,
                    q.subprojects@.items[i as int],
                ) && tasks_set(s, q.subprojects@.items[i as int], s.tasks@),
                Some(ti) => {
                    let task = s.tasks@.items[ti as int];
                    let popped = s.tasks@.after_pop();
                    let t = if to_prev {
                        p.subprojects@.prev_index().unwrap()
                    } else {
                        p.subprojects@.next_index().unwrap()
                    };
                    let target = if t == i {
                        popped
                    } else {
                        p.subprojects@.items[t as int].tasks@
                    };
                    &&& project_fields_kept(p, q)
                    &&& q.subprojects@.selection == Some(t)
                    &&& q.subprojects@.items.len() == p.subprojects@.items.len()
                    &&& forall|k: int|
                        0 <= k < p.subprojects@.items.len() && k != i && k != t
                            ==> #[trigger] q.subprojects@.items[k] == p.subprojects@.items[k]
                    &&& q.subprojects@.items[i as int].name == s.name
                    &&& t != i ==> q.subprojects@.items[i as int].tasks@ == popped
                    &&& q.subprojects@.items[t as int].name == p.subprojects@.items[t as int].name
                    &&& q.subprojects@.items[t as int].tasks@ == target.after_insert(
                        target.selection,
                        task,
                        true,
                    )
                },
            }
        },
    }
}

/// Moves the selected task of `project` into the neighbouring subproject, before
/// (`to_prev`) or after the selected one, going round; that subproject becomes the selected
/// one.
pub fn move_project_task(project: &mut Project, to_prev: bool)
    requires
        old(project).wf(),
    ensures
        final(project).wf(),
        task_moved(*old(project), *final(project), to_prev),
{
    let ghost p0 = *project;
    if let Some(subproject) = project.subproject() {
        if let Some(task) = subproject.tasks.pop_selected() {
            let target = match to_prev {
                true => project.subprojects.get_item_mut(project.subprojects.prev_index()),
                false => project.subprojects.get_item_mut(project.subprojects.next_index()),
            };
            match target {
                Some(target) => {
                    let at = target.tasks.selection();
                    target.tasks.insert_item(at, task, true);
                },
                None => {},
            }
            match to_prev {
                true => project.subprojects.select_prev(),
                false => project.subprojects.select_next(),
            }
        }
    }
    assert(task_moved(p0, *project, to_prev));
}

/// Moves the selected task of the selected project into the neighbouring subproject, before
/// (`to_prev`) or after the selected one, going round; that subproject becomes the selected
/// one.
pub fn move_task(journal: &mut Journal, to_prev: bool)
    requires
        old(journal).wf(),
    ensures
        final(journal).wf(),
        project_changed(
            *old(journal),
            *final(journal),
            |p: Project, q: Project| task_moved(p, q, to_prev),
        ),
{
    if let Some(project) = journal.project() {
        move_project_task(project, to_prev);
    }
}


/// What a key press asks of the journal.
#[derive(Clone, Copy, PartialEq, Eq, Structural, Debug)]
pub enum JournalCommand {
    /// Open the prompt of the selected project asking for this.
    Ask(JournalPrompt),
    OnProjects(ListOp),
    OnSubProjects(ListOp),
    OnTasks(ListOp),
    /// Move the selected task to the previous (`true`) or next subproject.
    MoveTask(bool),
    WidenFocus,
    NarrowFocus,
    ToggleSplit,
    OpenFileList(FileRequest),
    Save,
    /// Select the project with this number, counting from 1.
    SelectProject(u32),
}

/// What is left for the caller to do after a key press.
#[derive(Clone, Copy, PartialEq, Eq, Structural, Debug)]
pub enum JournalAction {
    Nothing,
    OpenFileList(FileRequest),
    Save,
}

/// The digit that `c` writes, where it is one of `0` to `9`.
pub open spec fn decimal_digit(c: char) -> Option<u32> {
    if ('0' as u32) <= (c as u32) && (c as u32) <= ('9' as u32) {
        Some((c as u32 - '0' as u32) as u32)
    } else {
        None
    }
}

/// The key bindings of the journal view.
pub open spec fn journal_command_of(key: Key) -> Option<JournalCommand> {
    match (key.code, key.modifiers) {
        (KeyCode::Char('n'), Modifiers::Alt) => Some(JournalCommand::Ask(JournalPrompt::AddProject)),
        (KeyCode::Char('N'), Modifiers::Shift) => Some(JournalCommand::Ask(JournalPrompt::AddSubProject)),
        (KeyCode::Char('n'), Modifiers::Plain) => Some(JournalCommand::Ask(JournalPrompt::AddTask)),
        (KeyCode::Char('r'), Modifiers::Control) => Some(JournalCommand::Ask(JournalPrompt::RenameJournal)),
        (KeyCode::Char('r'), Modifiers::Alt) => Some(JournalCommand::Ask(JournalPrompt::RenameProject)),
        (KeyCode::Char('R'), Modifiers::Shift) => Some(JournalCommand::Ask(JournalPrompt::RenameSubProject)),
        (KeyCode::Char('r'), Modifiers::Plain) => Some(JournalCommand::Ask(JournalPrompt::RenameTask)),
        (KeyCode::Char('d'), Modifiers::Alt) => Some(JournalCommand::OnProjects(ListOp::PopSelected)),
        (KeyCode::Char('D'), Modifiers::Shift) => Some(JournalCommand::OnSubProjects(ListOp::PopSelected)),
        (KeyCode::Char('d'), Modifiers::Plain) => Some(JournalCommand::OnTasks(ListOp::PopSelected)),
        (KeyCode::Esc, Modifiers::Plain) => Some(JournalCommand::OnTasks(ListOp::Deselect)),
        (KeyCode::Tab, Modifiers::Plain) => Some(JournalCommand::OnProjects(ListOp::SelectNext)),
        (KeyCode::BackTab, _) => Some(JournalCommand::OnProjects(ListOp::SelectPrev)),
        (KeyCode::PageDown, Modifiers::Control) => Some(JournalCommand::OnProjects(ListOp::SelectNext)),
        (KeyCode::PageUp, Modifiers::Control) => Some(JournalCommand::OnProjects(ListOp::SelectPrev)),
        (KeyCode::Char('l'), Modifiers::Plain) => Some(JournalCommand::OnSubProjects(ListOp::SelectNext)),
        (KeyCode::Char('h'), Modifiers::Plain) => Some(JournalCommand::OnSubProjects(ListOp::SelectPrev)),
        (KeyCode::Char('j'), Modifiers::Plain) => Some(JournalCommand::OnTasks(ListOp::SelectNext)),
        (KeyCode::Char('k'), Modifiers::Plain) => Some(JournalCommand::OnTasks(ListOp::SelectPrev)),
        (KeyCode::PageDown, Modifiers::Alt) => Some(JournalCommand::OnProjects(ListOp::ShiftNext)),
        (KeyCode::PageUp, Modifiers::Alt) => Some(JournalCommand::OnProjects(ListOp::ShiftPrev)),
        (KeyCode::Char('L'), Modifiers::Shift) => Some(JournalCommand::OnSubProjects(ListOp::ShiftNext)),
        (KeyCode::Char('H'), Modifiers::Shift) => Some(JournalCommand::OnSubProjects(ListOp::ShiftPrev)),
        (KeyCode::Char('j'), Modifiers::Control) => Some(JournalCommand::OnTasks(ListOp::ShiftNext)),
        (KeyCode::Char('k'), Modifiers::Control) => Some(JournalCommand::OnTasks(ListOp::ShiftPrev)),
        (KeyCode::Char('l'), Modifiers::Control) => Some(JournalCommand::MoveTask(false)),
        (KeyCode::Char('h'), Modifiers::Control) => Some(JournalCommand::MoveTask(true)),
        (KeyCode::Char('='), Modifiers::Plain) => Some(JournalCommand::WidenFocus),
        (KeyCode::Char('-'), Modifiers::Plain) => Some(JournalCommand::NarrowFocus),
        (KeyCode::Char('\\'), Modifiers::Plain) => Some(JournalCommand::ToggleSplit),
        (KeyCode::Char('p'), Modifiers::Control) => Some(JournalCommand::Ask(JournalPrompt::SetPassword)),
        (KeyCode::Char('o'), Modifiers::Control) => Some(JournalCommand::OpenFileList(FileRequest::Load)),
        (KeyCode::Char('O'), Modifiers::Shift) => Some(JournalCommand::OpenFileList(FileRequest::LoadMerge)),
        (KeyCode::Char('s'), Modifiers::Alt) => Some(JournalCommand::OpenFileList(FileRequest::Save)),
        (KeyCode::Char('s'), Modifiers::Control) => Some(JournalCommand::Save),
        (KeyCode::Char(c), _) => match decimal_digit(c) {
            Some(d) => Some(JournalCommand::SelectProject(d)),
            None => None,
        },
        _ => None,
    }
}

/// The command that `key` stands for in the journal view, where it stands for one.
pub fn journal_command(key: Key) -> (r: Option<JournalCommand>)
    ensures
        r == journal_command_of(key),
{
    match (key.code, key.modifiers) {
        (KeyCode::Char('n'), Modifiers::Alt) => Some(JournalCommand::Ask(JournalPrompt::AddProject)),
        (KeyCode::Char('N'), Modifiers::Shift) => Some(JournalCommand::Ask(JournalPrompt::AddSubProject)),
        (KeyCode::Char('n'), Modifiers::Plain) => Some(JournalCommand::Ask(JournalPrompt::AddTask)),
        (KeyCode::Char('r'), Modifiers::Control) => Some(JournalCommand::Ask(JournalPrompt::RenameJournal)),
        (KeyCode::Char('r'), Modifiers::Alt) => Some(JournalCommand::Ask(JournalPrompt::RenameProject)),
        (KeyCode::Char('R'), Modifiers::Shift) => Some(JournalCommand::Ask(JournalPrompt::RenameSubProject)),
        (KeyCode::Char('r'), Modifiers::Plain) => Some(JournalCommand::Ask(JournalPrompt::RenameTask)),
        (KeyCode::Char('d'), Modifiers::Alt) => Some(JournalCommand::OnProjects(ListOp::PopSelected)),
        (KeyCode::Char('D'), Modifiers::Shift) => Some(JournalCommand::OnSubProjects(ListOp::PopSelected)),
        (KeyCode::Char('d'), Modifiers::Plain) => Some(JournalCommand::OnTasks(ListOp::PopSelected)),
        (KeyCode::Esc, Modifiers::Plain) => Some(JournalCommand::OnTasks(ListOp::Deselect)),
        (KeyCode::Tab, Modifiers::Plain) => Some(JournalCommand::OnProjects(ListOp::SelectNext)),
        (KeyCode::BackTab, _) => Some(JournalCommand::OnProjects(ListOp::SelectPrev)),
        (KeyCode::PageDown, Modifiers::Control) => Some(JournalCommand::OnProjects(ListOp::SelectNext)),
        (KeyCode::PageUp, Modifiers::Control) => Some(JournalCommand::OnProjects(ListOp::SelectPrev)),
        (KeyCode::Char('l'), Modifiers::Plain) => Some(JournalCommand::OnSubProjects(ListOp::SelectNext)),
        (KeyCode::Char('h'), Modifiers::Plain) => Some(JournalCommand::OnSubProjects(ListOp::SelectPrev)),
        (KeyCode::Char('j'), Modifiers::Plain) => Some(JournalCommand::OnTasks(ListOp::SelectNext)),
        (KeyCode::Char('k'), Modifiers::Plain) => Some(JournalCommand::OnTasks(ListOp::SelectPrev)),
        (KeyCode::PageDown, Modifiers::Alt) => Some(JournalCommand::OnProjects(ListOp::ShiftNext)),
        (KeyCode::PageUp, Modifiers::Alt) => Some(JournalCommand::OnProjects(ListOp::ShiftPrev)),
        (KeyCode::Char('L'), Modifiers::Shift) => Some(JournalCommand::OnSubProjects(ListOp::ShiftNext)),
        (KeyCode::Char('H'), Modifiers::Shift) => Some(JournalCommand::OnSubProjects(ListOp::ShiftPrev)),
        (KeyCode::Char('j'), Modifiers::Control) => Some(JournalCommand::OnTasks(ListOp::ShiftNext)),
        (KeyCode::Char('k'), Modifiers::Control) => Some(JournalCommand::OnTasks(ListOp::ShiftPrev)),
        (KeyCode::Char('l'), Modifiers::Control) => Some(JournalCommand::MoveTask(false)),
        (KeyCode::Char('h'), Modifiers::Control) => Some(JournalCommand::MoveTask(true)),
        (KeyCode::Char('='), Modifiers::Plain) => Some(JournalCommand::WidenFocus),
        (KeyCode::Char('-'), Modifiers::Plain) => Some(JournalCommand::NarrowFocus),
        (KeyCode::Char('\\'), Modifiers::Plain) => Some(JournalCommand::ToggleSplit),
        (KeyCode::Char('p'), Modifiers::Control) => Some(JournalCommand::Ask(JournalPrompt::SetPassword)),
        (KeyCode::Char('o'), Modifiers::Control) => Some(JournalCommand::OpenFileList(FileRequest::Load)),
        (KeyCode::Char('O'), Modifiers::Shift) => Some(JournalCommand::OpenFileList(FileRequest::LoadMerge)),
        (KeyCode::Char('s'), Modifiers::Alt) => Some(JournalCommand::OpenFileList(FileRequest::Save)),
        (KeyCode::Char('s'), Modifiers::Control) => Some(JournalCommand::Save),
        (KeyCode::Char(c), _) => {
            if '0' <= c && c <= '9' {
                Some(JournalCommand::SelectProject((c as u32) - ('0' as u32)))
            } else {
                None
            }
        },
        _ => None,
    }
}


/// The question, the starting text, and whether what is typed is hidden, of a prompt asking
/// for `request` over project `p` of the journal called `journal_name`; `None` where there is
/// nothing to rename (no subproject, or no task, selected).
pub open spec fn prompt_for(request: JournalPrompt, journal_name: Seq<char>, p: Project) -> Option<
    (Seq<char>, Seq<char>, bool),
> {
    match request {
        JournalPrompt::AddProject => Some(("New project name:"@, Seq::<char>::empty(), false)),
        JournalPrompt::AddSubProject => Some(("New Subproject Name:"@, Seq::<char>::empty(), false)),
        JournalPrompt::AddTask => Some(("New Task:"@, Seq::<char>::empty(), false)),
        JournalPrompt::RenameJournal => Some(("Journal Name:"@, journal_name, false)),
        JournalPrompt::RenameProject => Some(("Project Name:"@, p.name@, false)),
        JournalPrompt::RenameSubProject => match p.subprojects@.position(None) {
            Some(i) => Some(("Subproject Name:"@, p.subprojects@.items[i as int].name@, false)),
            None => None,
        },
        JournalPrompt::RenameTask => match p.subprojects@.position(None) {
            Some(i) => match p.subprojects@.items[i as int].tasks@.position(None) {
                Some(t) => Some(
                    ("Rename Task:"@, p.subprojects@.items[i as int].tasks@.items[t as int].desc@, false),
                ),
                None => None,
            },
            None => None,
        },
        JournalPrompt::SetPassword => Some(
            ("Set new password for `"@ + journal_name + "`:"@, Seq::<char>::empty(), true),
        ),
    }
}

/// `q` is `p` with the orientation of its subprojects flipped.
pub open spec fn split_toggled(p: Project, q: Project) -> bool {
    &&& q.name == p.name
    &&& q.subprojects == p.subprojects
    &&& q.prompt == p.prompt
    &&& q.prompt_request == p.prompt_request
    &&& q.focused_width_percent == p.focused_width_percent
    &&& q.split_vertical == !p.split_vertical
}

/// `width` less 5, stopping at 0.
pub open spec fn narrowed(width: u16) -> u16 {
    if width >= 5 { (width - 5) as u16 } else { 0 }
}

/// What `cmd` makes of journal `pre`.
pub open spec fn command_effect(pre: Journal, post: Journal, cmd: JournalCommand) -> bool {
    match cmd {
        JournalCommand::Ask(request) => project_changed(
            pre,
            post,
            |p: Project, q: Project|
                match prompt_for(request, pre.name@, p) {
                    Some(x) => prompted(p, q, request, x.0, x.1, x.2),
                    None => q == p,
                },
        ),
        JournalCommand::OnProjects(op) => {
            &&& post.name == pre.name
            &&& post.password == pre.password
            &&& post.projects@ == op.effect(pre.projects@)
        },
        JournalCommand::OnSubProjects(op) => project_changed(
            pre,
            post,
            |p: Project, q: Project| subprojects_set(p, q, op.effect(p.subprojects@)),
        ),
        JournalCommand::OnTasks(op) => project_changed(
            pre,
            post,
            |p: Project, q: Project|
                subproject_changed(
                    p,
                    q,
                    |s: SubProject, t: SubProject| tasks_set(s, t, op.effect(s.tasks@)),
                ),
        ),
        JournalCommand::MoveTask(to_prev) => project_changed(
            pre,
            post,
            |p: Project, q: Project| task_moved(p, q, to_prev),
        ),
        JournalCommand::WidenFocus => project_changed(
            pre,
            post,
            |p: Project, q: Project|
                width_set(
                    p,
                    q,
                    bound_focus((p.focused_width_percent + 5) as u16, p.subprojects@.items.len()),
                ),
        ),
        JournalCommand::NarrowFocus => project_changed(
            pre,
            post,
            |p: Project, q: Project|
                width_set(
                    p,
                    q,
                    bound_focus(narrowed(p.focused_width_percent), p.subprojects@.items.len()),
                ),
        ),
        JournalCommand::ToggleSplit => project_changed(
            pre,
            post,
            |p: Project, q: Project| split_toggled(p, q),
        ),
        JournalCommand::OpenFileList(_) => post == pre,
        JournalCommand::Save => post == pre,
        JournalCommand::SelectProject(d) => {
            &&& post.name == pre.name
            &&& post.password == pre.password
            &&& post.projects@ == if d >= 1 && d - 1 < pre.projects@.items.len() {
                pre.projects@.with_selection(Some((d - 1) as usize))
            } else {
                pre.projects@
            }
        },
    }
}

/// Where `cmd` can be carried out on `pre` without overflow: widening stays within a `u16`,
/// and projects are numbered from 1.
pub open spec fn command_allowed(pre: Journal, cmd: JournalCommand) -> bool {
    match cmd {
        JournalCommand::WidenFocus => pre.projects@.position(None) matches Some(i)
            ==> pre.projects@.items[i as int].focused_width_percent + 5 <= u16::MAX,
        JournalCommand::SelectProject(d) => d != 0,
        _ => true,
    }
}

/// What is left for the caller to do after `cmd`.
pub open spec fn action_of(cmd: JournalCommand) -> JournalAction {
    match cmd {
        JournalCommand::OpenFileList(request) => JournalAction::OpenFileList(request),
        JournalCommand::Save => JournalAction::Save,
        _ => JournalAction::Nothing,
    }
}

/// Opens the prompt of the selected project asking for `request`.
fn ask(journal: &mut Journal, request: JournalPrompt)
    requires
        old(journal).wf(),
    ensures
        final(journal).wf(),
        command_effect(*old(journal), *final(journal), JournalCommand::Ask(request)),
{
    let ghost pre = *journal;
    let name = journal.name.clone();
    proof {
        reveal_strlit("");
        assert(""@ =~= Seq::<char>::empty());
    }
    if let Some(project) = journal.project() {
        let ghost p0 = *project;
        match request {
            JournalPrompt::AddProject => set_project_prompt(project, request, "New project name:", "", false),
            JournalPrompt::AddSubProject => set_project_prompt(project, request, "New Subproject Name:", "", false),
            JournalPrompt::AddTask => set_project_prompt(project, request, "New Task:", "", false),
            JournalPrompt::RenameJournal => set_project_prompt(project, request, "Journal Name:", name.as_str(), false),
            JournalPrompt::RenameProject => {
                let prefill = project.name.clone();
                set_project_prompt(project, request, "Project Name:", prefill.as_str(), false);
            },
            JournalPrompt::RenameSubProject => {
                if project.subprojects.selection().is_some() {
                    let prefill = match project.subprojects.selected() {
                        Some(subproject) => subproject.name.clone(),
                        None => String::new(),
                    };
                    set_project_prompt(project, request, "Subproject Name:", prefill.as_str(), false);
                }
            },
            JournalPrompt::RenameTask => {
                let mut task_name: Option<String> = None;
                if let Some(subproject) = project.subprojects.selected() {
                    if let Some(task) = subproject.tasks.selected() {
                        task_name = Some(task.desc.clone());
                    }
                }
                if let Some(prefill) = task_name {
                    set_project_prompt(project, request, "Rename Task:", prefill.as_str(), false);
                }
            },
            JournalPrompt::SetPassword => {
                let text = String::from_str("Set new password for `").concat(name.as_str()).concat("`:");
                set_project_prompt(project, request, text.as_str(), "", true);
            },
        }
        assert(match prompt_for(request, pre.name@, p0) {
            Some(x) => prompted(p0, *project, request, x.0, x.1, x.2),
            None => *project == p0,
        });
    }
}


/// Applies `op` to the subprojects of the selected project.
fn on_subprojects(journal: &mut Journal, op: ListOp)
    requires
        old(journal).wf(),
    ensures
        final(journal).wf(),
        command_effect(*old(journal), *final(journal), JournalCommand::OnSubProjects(op)),
{
    if let Some(project) = journal.project() {
        project.subprojects.apply(op);
    }
}

/// Applies `op` to the tasks of the selected subproject of the selected project.
fn on_tasks(journal: &mut Journal, op: ListOp)
    requires
        old(journal).wf(),
    ensures
        final(journal).wf(),
        command_effect(*old(journal), *final(journal), JournalCommand::OnTasks(op)),
{
    if let Some(project) = journal.project() {
        let ghost p0 = *project;
        if let Some(subproject) = project.subproject() {
            subproject.tasks.apply(op);
        }
        assert(subproject_changed(
            p0,
            *project,
            |s: SubProject, t: SubProject| tasks_set(s, t, op.effect(s.tasks@)),
        ));
    }
}

/// Widens (`widen`) or narrows the focused subproject of the selected project by 5 percent,
/// within its bounds.
fn change_focus(journal: &mut Journal, widen: bool)
    requires
        old(journal).wf(),
        widen ==> command_allowed(*old(journal), JournalCommand::WidenFocus),
    ensures
        final(journal).wf(),
        widen ==> command_effect(*old(journal), *final(journal), JournalCommand::WidenFocus),
        !widen ==> command_effect(*old(journal), *final(journal), JournalCommand::NarrowFocus),
{
    if let Some(project) = journal.project() {
        if widen {
            project.focused_width_percent = project.focused_width_percent + 5;
        } else {
            project.focused_width_percent = project.focused_width_percent.saturating_sub(5);
        }
        bind_focus_size(project);
    }
}

/// Flips the orientation of the subprojects of the selected project.
fn toggle_split(journal: &mut Journal)
    requires
        old(journal).wf(),
    ensures
        final(journal).wf(),
        command_effect(*old(journal), *final(journal), JournalCommand::ToggleSplit),
{
    if let Some(project) = journal.project() {
        project.split_vertical = !project.split_vertical;
    }
}

/// Carries out `cmd` on `journal`, and says what is left for the caller to do.
pub fn apply_command(journal: &mut Journal, cmd: JournalCommand) -> (r: JournalAction)
    requires
        old(journal).wf(),
        command_allowed(*old(journal), cmd),
    ensures
        final(journal).wf(),
        command_effect(*old(journal), *final(journal), cmd),
        r == action_of(cmd),
{
    match cmd {
        JournalCommand::Ask(request) => ask(journal, request),
        JournalCommand::OnProjects(op) => journal.projects.apply(op),
        JournalCommand::OnSubProjects(op) => on_subprojects(journal, op),
        JournalCommand::OnTasks(op) => on_tasks(journal, op),
        JournalCommand::MoveTask(to_prev) => move_task(journal, to_prev),
        JournalCommand::WidenFocus => change_focus(journal, true),
        JournalCommand::NarrowFocus => change_focus(journal, false),
        JournalCommand::ToggleSplit => toggle_split(journal),
        JournalCommand::OpenFileList(request) => {
            return JournalAction::OpenFileList(request);
        },
        JournalCommand::Save => {
            return JournalAction::Save;
        },
        JournalCommand::SelectProject(digit) => {
            let _ = journal.projects.select((digit - 1) as usize);
        },
    }
    JournalAction::Nothing
}

/// Handles a key press in the journal view: carries out the command it stands for, where it
/// stands for one, and says what is left for the caller to do.
pub fn handle_journal_event(key: Key, journal: &mut Journal) -> (r: JournalAction)
    requires
        old(journal).wf(),
        journal_command_of(key) matches Some(cmd) ==> command_allowed(*old(journal), cmd),
    ensures
        final(journal).wf(),
        match journal_command_of(key) {
            Some(cmd) => command_effect(*old(journal), *final(journal), cmd) && r == action_of(cmd),
            None => *final(journal) == *old(journal) && r == JournalAction::Nothing,
        },
{
    match journal_command(key) {
        Some(cmd) => apply_command(journal, cmd),
        None => JournalAction::Nothing,
    }
}


/// `q` is `p` with its prompt emptied and closed; its name and layout are kept.
pub open spec fn prompt_closed(p: Project, q: Project) -> bool {
    &&& q.prompt_request is None
    &&& q.prompt.prompt_text@ == Seq::<char>::empty()
    &&& q.prompt.text@ == Seq::<char>::empty()
    &&& !q.prompt.password
    &&& q.split_vertical == p.split_vertical
}

/// `t` is a new task with description `desc`.
pub open spec fn is_new_task(t: Task, desc: Seq<char>) -> bool {
    &&& t.desc@ == desc
    &&& t.created_at@ == "2020-02-02 12:00:00"@
    &&& t.completed_at is None
}

/// `t` is a new subproject called `name`, with no tasks.
pub open spec fn is_new_subproject(t: SubProject, name: Seq<char>) -> bool {
    &&& t.name@ == name
    &&& t.tasks@.items.len() == 0
    &&& t.tasks@.selection is None
}

/// What confirming `text` in the prompt of project `p`, asking for `request`, makes of `p`
/// (as `q`); the changes to the journal around it are in `prompt_result_effect`.
pub open spec fn project_after_result(p: Project, q: Project, request: JournalPrompt, text: Seq<char>) -> bool {
    &&& prompt_closed(p, q)
    &&& match request {
        JournalPrompt::AddSubProject => {
            &&& q.name == p.name
            &&& exists|s: SubProject|
                #[trigger] is_new_subproject(s, text) && q.subprojects@ == p.subprojects@.after_add(s, true)
            &&& q.focused_width_percent == bound_focus(
                p.focused_width_percent,
                p.subprojects@.items.len() + 1,
            )
        },
        JournalPrompt::AddTask => {
            &&& q.name == p.name
            &&& q.focused_width_percent == p.focused_width_percent
            &&& p.subprojects@.selected_changed(
                q.subprojects@,
                |s: SubProject, t: SubProject|
                    exists|task: Task|
                        #[trigger] is_new_task(task, text) && tasks_set(s, t, s.tasks@.after_add(task, true)),
            )
        },
        JournalPrompt::RenameProject => {
            &&& q.name@ == text
            &&& q.subprojects == p.subprojects
            &&& q.focused_width_percent == p.focused_width_percent
        },
        JournalPrompt::RenameSubProject => {
            &&& q.name == p.name
            &&& q.focused_width_percent == p.focused_width_percent
            &&& p.subprojects@.selected_changed(
                q.subprojects@,
                |s: SubProject, t: SubProject| t.name@ == text && t.tasks == s.tasks,
            )
        },
        JournalPrompt::RenameTask => {
            &&& q.name == p.name
            &&& q.focused_width_percent == p.focused_width_percent
            &&& p.subprojects@.selected_changed(
                q.subprojects@,
                |s: SubProject, t: SubProject|
                    t.name == s.name && s.tasks@.selected_changed(
                        t.tasks@,
                        |a: Task, b: Task|
                            b.desc@ == text && b.created_at == a.created_at && b.completed_at
                                == a.completed_at,
                    ),
            )
        },
        _ => {
            &&& q.name == p.name
            &&& q.subprojects == p.subprojects
            &&& q.focused_width_percent == p.focused_width_percent
        },
    }
}

/// What confirming `text` in the prompt of the selected project, asking for `request`,
/// makes of journal `pre` (as `post`), and the message it reports (`r`).
pub open spec fn prompt_result_effect(
    pre: Journal,
    post: Journal,
    request: JournalPrompt,
    text: Seq<char>,
    r: Option<String>,
) -> bool {
    let i = pre.projects@.selection.unwrap() as int;
    let p = pre.projects@.items[i];
    let updated = pre.projects@.items.update(i, post.projects@.items[i]);
    &&& project_after_result(p, post.projects@.items[i], request, text)
    &&& match request {
        JournalPrompt::AddProject => {
            &&& post.name == pre.name
            &&& post.password == pre.password
            &&& exists|np: Project|
                #[trigger] np.is_fresh(text) && post.projects@ == pre.projects@.with_items(updated).after_add(
                    np,
                    true,
                )
            &&& r is None
        },
        JournalPrompt::RenameJournal => {
            &&& post.name@ == text
            &&& post.password == pre.password
            &&& post.projects@ == pre.projects@.with_items(updated)
            &&& r matches Some(m) && m@ == "Renamed journal: "@ + text
        },
        JournalPrompt::RenameProject => {
            &&& post.name == pre.name
            &&& post.password == pre.password
            &&& post.projects@ == pre.projects@.with_items(updated)
            &&& r matches Some(m) && m@ == "Renamed project: "@ + text
        },
        JournalPrompt::SetPassword => {
            &&& post.name == pre.name
            &&& post.password@ == text
            &&& post.projects@ == pre.projects@.with_items(updated)
            &&& r matches Some(m) && m@ == "Set encryption password"@
        },
        _ => {
            &&& post.name == pre.name
            &&& post.password == pre.password
            &&& post.projects@ == pre.projects@.with_items(updated)
            &&& r is None
        },
    }
}

/// Handles what the prompt of the selected project reports: closes it where it was
/// cancelled, and carries out what it asked for where `text` was confirmed. Returns the
/// message to show, where there is one.
pub fn handle_journal_prompt_event(event: PromptEvent, journal: &mut Journal) -> (r: Option<String>)
    requires
        old(journal).wf(),
    ensures
        final(journal).wf(),
        match old(journal).projects@.position(None) {
            None => *final(journal) == *old(journal) && r is None,
            Some(i) => match old(journal).projects@.items[i as int].prompt_request {
                None => *final(journal) == *old(journal) && r is None,
                Some(request) => match event {
                    PromptEvent::AwaitingResult(_) => *final(journal) == *old(journal) && r is None,
                    PromptEvent::Cancelled => {
                        &&& r is None
                        &&& project_changed(
                            *old(journal),
                            *final(journal),
                            |p: Project, q: Project|
                                q == (Project { prompt_request: None, ..p }),
                        )
                    },
                    PromptEvent::Result(text) => prompt_result_effect(
                        *old(journal),
                        *final(journal),
                        request,
                        text@,
                        r,
                    ),
                },
            },
        },
{
    let request = match journal.projects.selected() {
        Some(project) => project.prompt_request,
        None => {
            return None;
        },
    };
    let request = match request {
        Some(request) => request,
        None => {
            return None;
        },
    };
    let text = match event {
        PromptEvent::Cancelled => {
            if let Some(project) = journal.project() {
                project.prompt_request = None;
            }
            return None;
        },
        PromptEvent::AwaitingResult(_) => {
            return None;
        },
        PromptEvent::Result(text) => text,
    };
    if let Some(project) = journal.project() {
        project.prompt.clear();
        project.prompt_request = None;
        match request {
            JournalPrompt::AddSubProject => {
                let subproject = SubProject::new(text.as_str());
                assert(is_new_subproject(subproject, text@));
                project.subprojects.add_item(subproject, true);
                bind_focus_size(project);
            },
            JournalPrompt::AddTask => {
                if let Some(subproject) = project.subproject() {
                    let task = Task::new(text.as_str());
                    assert(is_new_task(task, text@));
                    subproject.tasks.add_item(task, true);
                }
            },
            JournalPrompt::RenameProject => {
                project.name = text.clone();
            },
            JournalPrompt::RenameSubProject => {
                if let Some(subproject) = project.subproject() {
                    subproject.name = text.clone();
                }
            },
            JournalPrompt::RenameTask => {
                if let Some(subproject) = project.subproject() {
                    if let Some(task) = subproject.task() {
                        task.desc = text.clone();
                    }
                }
            },
            _ => {},
        }
    }
    match request {
        JournalPrompt::AddProject => {
            let project = Project::new(text.as_str());
            assert(project.is_fresh(text@));
            journal.projects.add_item(project, true);
            None
        },
        JournalPrompt::RenameJournal => {
            journal.name = text;
            Some(String::from_str("Renamed journal: ").concat(journal.name.as_str()))
        },
        JournalPrompt::RenameProject => Some(String::from_str("Renamed project: ").concat(text.as_str())),
        JournalPrompt::SetPassword => {
            journal.password = text;
            Some(String::from_str("Set encryption password"))
        },
        _ => None,
    }
}


/// What a key press asks of the application, whatever view is shown.
#[derive(Clone, Copy, PartialEq, Eq, Structural, Debug)]
pub enum GlobalCommand {
    OpenDataDir,
    NewJournal,
}

/// The key bindings that hold in every view.
pub open spec fn global_command_of(key: Key) -> Option<GlobalCommand> {
    match (key.code, key.modifiers) {
        (KeyCode::Char('o'), Modifiers::Alt) => Some(GlobalCommand::OpenDataDir),
        (KeyCode::Char('n'), Modifiers::Control) => Some(GlobalCommand::NewJournal),
        _ => None,
    }
}

/// The command that `key` stands for in every view, where it stands for one.
pub fn global_command(key: Key) -> (r: Option<GlobalCommand>)
    ensures
        r == global_command_of(key),
{
    match (key.code, key.modifiers) {
        (KeyCode::Char('o'), Modifiers::Alt) => Some(GlobalCommand::OpenDataDir),
        (KeyCode::Char('n'), Modifiers::Control) => Some(GlobalCommand::NewJournal),
        _ => None,
    }
}

/// Where a key press goes.
#[derive(Clone, Copy, PartialEq, Eq, Structural, Debug)]
pub enum Route {
    Global(GlobalCommand),
    AppPrompt,
    FileList,
    JournalPrompt,
    Journal,
}

/// Whether the selected project of `journal` has its prompt open.
pub open spec fn journal_prompt_open(journal: Journal) -> bool {
    journal.projects@.position(None) matches Some(i)
        && journal.projects@.items[i as int].prompt_request is Some
}

/// Where a key press goes: to a global command where it is one, else to the application
/// prompt, the file list, or the prompt of the selected project, the first of them that is
/// open, else to the journal view.
pub open spec fn route_of(key: Key, app_prompt_open: bool, file_list_open: bool, journal: Journal) -> Route {
    match global_command_of(key) {
        Some(cmd) => Route::Global(cmd),
        None => if app_prompt_open {
            Route::AppPrompt
        } else if file_list_open {
            Route::FileList
        } else if journal_prompt_open(journal) {
            Route::JournalPrompt
        } else {
            Route::Journal
        },
    }
}

/// Decides where a key press goes.
pub fn route_event(key: Key, app_prompt_open: bool, file_list_open: bool, journal: &Journal) -> (r: Route)
    ensures
        r == route_of(key, app_prompt_open, file_list_open, *journal),
{
    match global_command(key) {
        Some(cmd) => Route::Global(cmd),
        None => {
            let is_prompt = match journal.projects.selected() {
                Some(project) => project.prompt_request.is_some(),
                None => false,
            };
            if app_prompt_open {
                Route::AppPrompt
            } else if file_list_open {
                Route::FileList
            } else if is_prompt {
                Route::JournalPrompt
            } else {
                Route::Journal
            }
        },
    }
}

/// What to do with a file chosen in the file list.
#[derive(Clone, Debug)]
pub enum FileChoice {
    /// Ask for the password of the file, with a prompt set up this way.
    AskPassword(AppPrompt, PromptSetup),
    /// Save the journal under this name.
    SaveAs(String),
}

/// The prompt that asks for the password of the file `name`: the question names the file,
/// it starts empty, and what is typed is hidden.
pub open spec fn password_prompt(setup: PromptSetup, name: Seq<char>) -> bool {
    &&& setup.prompt_text@ == "Password for `"@ + name + "`:"@
    &&& setup.text@ == Seq::<char>::empty()
    &&& setup.password
}

/// Sets up the prompt that asks for the password of the file `name`.
fn ask_password(name: &str) -> (r: PromptSetup)
    ensures
        password_prompt(r, name@),
{
    let question = String::from_str("Password for `").concat(name).concat("`:");
    PromptSetup { prompt_text: question, text: String::new(), password: true }
}

/// Sets up the prompt that asks for the name of a new journal: the question `New file name:`,
/// empty, with what is typed shown.
pub fn new_journal_prompt() -> (r: PromptSetup)
    ensures
        r.prompt_text@ == "New file name:"@,
        r.text@ == Seq::<char>::empty(),
        !r.password,
{
    PromptSetup { prompt_text: "New file name:".to_owned(), text: String::new(), password: false }
}

/// What to do with the file `name` chosen in the file list opened for `request`.
pub fn file_choice(request: FileRequest, name: String) -> (r: FileChoice)
    ensures
        match request {
            FileRequest::Load => r matches FileChoice::AskPassword(AppPrompt::LoadFile(n), q)
                && n@ == name@ && password_prompt(q, name@),
            FileRequest::LoadMerge => r matches FileChoice::AskPassword(AppPrompt::MergeFile(n), q)
                && n@ == name@ && password_prompt(q, name@),
            FileRequest::Save => r matches FileChoice::SaveAs(n) && n@ == name@,
        },
{
    match request {
        FileRequest::Load => {
            let setup = ask_password(name.as_str());
            FileChoice::AskPassword(AppPrompt::LoadFile(name), setup)
        },
        FileRequest::LoadMerge => {
            let setup = ask_password(name.as_str());
            FileChoice::AskPassword(AppPrompt::MergeFile(name), setup)
        },
        FileRequest::Save => FileChoice::SaveAs(name),
    }
}

/// The title of the file list, and the question of its prompt, when it is opened for
/// `request`.
pub fn file_list_texts(request: FileRequest) -> (r: (&'static str, &'static str))
    ensures
        match request {
            FileRequest::Load => r.0@ == "Open Journal:"@ && r.1@ == "Create New File:"@,
            FileRequest::LoadMerge => r.0@ == "Merge Journal:"@ && r.1@ == ""@,
            FileRequest::Save => r.0@ == "Save Journal:"@ && r.1@ == "Save File As:"@,
        },
{
    match request {
        FileRequest::Load => ("Open Journal:", "Create New File:"),
        FileRequest::LoadMerge => ("Merge Journal:", ""),
        FileRequest::Save => ("Save Journal:", "Save File As:"),
    }
}

/// The message that reports what was done with a journal file: `verb journal `file``.
pub fn journal_file_message(verb: &str, file: &str) -> (r: String)
    ensures
        r@ == verb@ + " journal `"@ + file@ + "`"@,
{
    String::from_str(verb).concat(" journal `").concat(file).concat("`")
}

/// The work on a journal file that the application carries out for the user.
#[derive(Clone, Copy, PartialEq, Eq, Structural, Debug)]
pub enum FileWork {
    /// Save a journal just made under a new name.
    Create,
    Load,
    Merge,
    Save,
}

impl FileWork {
    /// Loading a journal file in place of the journal, or, where `merge` holds, merging it
    /// into the journal.
    pub fn loading(merge: bool) -> (r: FileWork)
        ensures
            r == if merge { FileWork::Merge } else { FileWork::Load },
    {
        if merge {
            FileWork::Merge
        } else {
            FileWork::Load
        }
    }
}

/// The verb that reports that `work` was done.
pub open spec fn work_verb(work: FileWork) -> Seq<char> {
    match work {
        FileWork::Create => "Created"@,
        FileWork::Load => "Loaded"@,
        FileWork::Merge => "Merged"@,
        FileWork::Save => "Saved"@,
    }
}

/// The words that head the report that `work` failed.
pub open spec fn work_context(work: FileWork) -> Seq<char> {
    match work {
        FileWork::Load => "Failed to load file"@,
        FileWork::Merge => "Failed to merge file"@,
        _ => "Failed to save file"@,
    }
}

/// How the file of `path` is named in a message: its last component, or
/// `/missing_filename/` where it has none.
pub open spec fn file_label(path: Seq<char>) -> Seq<char> {
    match path_file_name(path) {
        Some(s) => s,
        None => "/missing_filename/"@,
    }
}

/// Finishes `work` once the caller has carried it out on disk: `outcome` is the path of the
/// file on success, and the cause of the failure otherwise. A journal just created and saved
/// gets the focused width of its selected project put back to its default. Returns the
/// message that reports how it went: `verb journal `file`` on success, `context [cause]`, as
/// an error, on failure.
pub fn finish_file_work(
    journal: &mut Journal,
    work: FileWork,
    outcome: core::result::Result<String, String>,
) -> (r: Feedback)
    requires
        old(journal).wf(),
    ensures
        final(journal).wf(),
        match outcome {
            Ok(path) => {
                &&& r.kind == FeedbackKind::Nominal
                &&& r.message@ == work_verb(work) + " journal `"@ + file_label(path@) + "`"@
            },
            Err(cause) => {
                &&& r.kind == FeedbackKind::Error
                &&& r.message@ == work_context(work) + " ["@ + cause@ + "]"@
            },
        },
        (work == FileWork::Create && outcome is Ok) ==> project_changed(
            *old(journal),
            *final(journal),
            |p: Project, q: Project|
                width_set(p, q, bound_focus(DEFAULT_WIDTH_PERCENT, p.subprojects@.items.len())),
        ),
        !(work == FileWork::Create && outcome is Ok) ==> *final(journal) == *old(journal),
{
    proof {
        reveal_strlit("Created");
        reveal_strlit("Loaded");
        reveal_strlit("Merged");
        reveal_strlit("Saved");
        reveal_strlit("Failed to load file");
        reveal_strlit("Failed to merge file");
        reveal_strlit("Failed to save file");
    }
    match outcome {
        Ok(path) => {
            let verb = match work {
                FileWork::Create => "Created",
                FileWork::Load => "Loaded",
                FileWork::Merge => "Merged",
                FileWork::Save => "Saved",
            };
            if work == FileWork::Create {
                if let Some(project) = journal.project() {
                    reset_ui(project);
                }
            }
            let name = filename(path.as_str());
            Feedback::from_string(journal_file_message(verb, name.as_str()))
        },
        Err(cause) => {
            let context = match work {
                FileWork::Load => "Failed to load file",
                FileWork::Merge => "Failed to merge file",
                _ => "Failed to save file",
            };
            let error = AppError::from_cause(context, AppError::from_string(cause));
            Feedback::error(error.message)
        },
    }
}

/// What to do with the text confirmed in the application prompt.
#[derive(Clone, Debug)]
pub enum AppPromptAction {
    /// Start a new journal with this name, saved under it.
    CreateJournal(String),
    /// Load the file `name` with the password `key`, in place of the journal, or merged
    /// into it.
    Load { name: String, key: String, merge: bool },
}

/// What confirming `text` in the application prompt asking for `request` asks for.
pub fn app_prompt_action(request: AppPrompt, text: String) -> (r: AppPromptAction)
    ensures
        match request {
            AppPrompt::NewJournal => r matches AppPromptAction::CreateJournal(n) && n@ == text@,
            AppPrompt::LoadFile(file) => r matches AppPromptAction::Load { name, key, merge }
                && name@ == file@ && key@ == text@ && !merge,
            AppPrompt::MergeFile(file) => r matches AppPromptAction::Load { name, key, merge }
                && name@ == file@ && key@ == text@ && merge,
        },
{
    match request {
        AppPrompt::NewJournal => AppPromptAction::CreateJournal(text),
        AppPrompt::LoadFile(name) => AppPromptAction::Load { name, key: text, merge: false },
        AppPrompt::MergeFile(name) => AppPromptAction::Load { name, key: text, merge: true },
    }
}


/// Binding a width keeps it within its bounds: no less than the smallest share, no more than
/// 95 or that share, whichever is larger; binding again changes nothing.
pub proof fn lemma_bound_focus_in_bounds(width: u16, n: nat)
    ensures
        bound_focus(width, n) >= min_focus_width(n),
        bound_focus(width, n) <= max_focus_width() || bound_focus(width, n) == min_focus_width(n),
        bound_focus(bound_focus(width, n), n) == bound_focus(width, n),
        min_focus_width(n) <= width <= max_focus_width() ==> bound_focus(width, n) == width,
{
}


/// The number of tasks in all of `subprojects`.
pub open spec fn task_count(subprojects: Seq<SubProject>) -> int
    decreases subprojects.len(),
{
    if subprojects.len() == 0 {
        0
    } else {
        task_count(subprojects.drop_last()) + subprojects.last().tasks@.items.len()
    }
}

proof fn lemma_task_count_update(s: Seq<SubProject>, k: int, x: SubProject)
    requires
        0 <= k < s.len(),
    ensures
        task_count(s.update(k, x)) == task_count(s) - s[k].tasks@.items.len() + x.tasks@.items.len(),
    decreases s.len(),
{
    if k == s.len() - 1 {
        assert(s.update(k, x).drop_last() =~= s.drop_last());
    } else {
        lemma_task_count_update(s.drop_last(), k, x);
        assert(s.update(k, x).drop_last() =~= s.drop_last().update(k, x));
    }
}

/// Moving a task from one subproject to another keeps the number of tasks of the project.
pub proof fn lemma_move_task_keeps_task_count(p: Project, q: Project, to_prev: bool)
    requires
        p.wf(),
        task_moved(p, q, to_prev),
    ensures
        task_count(q.subprojects@.items) == task_count(p.subprojects@.items),
{
    if let Some(i) = p.subprojects@.position(None) {
        let s = p.subprojects@.items[i as int];
        if let Some(ti) = s.tasks@.selection {
            let t = if to_prev {
                p.subprojects@.prev_index().unwrap()
            } else {
                p.subprojects@.next_index().unwrap()
            };
            let ps = p.subprojects@.items;
            let qs = q.subprojects@.items;
            if t == i {
                assert(qs =~= ps.update(i as int, qs[i as int]));
                lemma_task_count_update(ps, i as int, qs[i as int]);
            } else {
                let mid = ps.update(i as int, qs[i as int]);
                assert(qs =~= mid.update(t as int, qs[t as int]));
                lemma_task_count_update(ps, i as int, qs[i as int]);
                lemma_task_count_update(mid, t as int, qs[t as int]);
            }
        } else {
            assert(q.subprojects@.items =~= p.subprojects@.items.update(
                i as int,
                q.subprojects@.items[i as int],
            ));
            lemma_task_count_update(p.subprojects@.items, i as int, q.subprojects@.items[i as int]);
        }
    }
}


/// Moving the selected task (Ctrl-h for `to_prev`, Ctrl-l otherwise) takes it from the
/// selected subproject `i` of `n` into subproject `(i - 1) mod n`, or `(i + 1) mod n`; that
/// subproject becomes the selected one, the moved task is the selected task there, and every
/// other subproject is left as it was.
pub proof fn lemma_move_task_goes_to_neighbour(p: Project, q: Project, to_prev: bool, i: usize, ti: usize)
    requires
        p.wf(),
        task_moved(p, q, to_prev),
        p.subprojects@.selection == Some(i),
        p.subprojects@.items[i as int].tasks@.selection == Some(ti),
    ensures
        ({
            let n = p.subprojects@.items.len() as int;
            let t = if to_prev { (i + n - 1) % n } else { (i + 1) % n };
            let task = p.subprojects@.items[i as int].tasks@.items[ti as int];
            &&& 0 <= t < n
            &&& q.subprojects@.selection == Some(t as usize)
            &&& q.subprojects@.items.len() == n
            &&& q.subprojects@.items[t].tasks@.selection matches Some(k) && k < q.subprojects@.items[t].tasks@.items.len()
                && q.subprojects@.items[t].tasks@.items[k as int] == task
            &&& forall|k: int|
                0 <= k < n && k != i && k != t ==> #[trigger] q.subprojects@.items[k] == p.subprojects@.items[k]
        }),
{
    let n = p.subprojects@.items.len() as int;
    crate::list::lemma_round_neighbours(i as int, n);
    let s = p.subprojects@.items[i as int];
    assert(s.tasks@.wf());
    let t = if to_prev { p.subprojects@.prev_index().unwrap() } else { p.subprojects@.next_index().unwrap() };
    let popped = s.tasks@.after_pop();
    let target = if t == i { popped } else { p.subprojects@.items[t as int].tasks@ };
    assert(p.subprojects@.items[t as int].tasks@.wf());
    assert(popped.wf());
    assert(target.wf());
}

/// Confirming `text` in the prompt asking for a new subproject name renames the selected
/// subproject of the selected project to `text` and keeps its tasks. The project keeps its
/// name, every other subproject and every other project stay as they were, the journal keeps
/// its name and password, and nothing is reported.
pub proof fn lemma_rename_subproject_renames_it(
    pre: Journal,
    post: Journal,
    text: Seq<char>,
    r: Option<String>,
    pi: usize,
    si: usize,
)
    requires
        pre.wf(),
        pre.projects@.selection == Some(pi),
        pre.projects@.items[pi as int].subprojects@.selection == Some(si),
        prompt_result_effect(pre, post, JournalPrompt::RenameSubProject, text, r),
    ensures
        ({
            let p = pre.projects@.items[pi as int];
            let q = post.projects@.items[pi as int];
            &&& post.name == pre.name
            &&& post.password == pre.password
            &&& r is None
            &&& post.projects@.selection == Some(pi)
            &&& post.projects@.items.len() == pre.projects@.items.len()
            &&& forall|k: int|
                0 <= k < pre.projects@.items.len() && k != pi ==> #[trigger] post.projects@.items[k]
                    == pre.projects@.items[k]
            &&& q.name == p.name
            &&& q.subprojects@.selection == Some(si)
            &&& q.subprojects@.items.len() == p.subprojects@.items.len()
            &&& q.subprojects@.items[si as int].name@ == text
            &&& q.subprojects@.items[si as int].tasks == p.subprojects@.items[si as int].tasks
            &&& forall|k: int|
                0 <= k < p.subprojects@.items.len() && k != si ==> #[trigger] q.subprojects@.items[k]
                    == p.subprojects@.items[k]
        }),
{
    let p = pre.projects@.items[pi as int];
    assert(p.wf());
}

/// `q` is `p` with only its subprojects changed: same name, prompt and layout.
pub open spec fn only_subprojects_differ(p: Project, q: Project) -> bool {
    &&& q.name == p.name
    &&& q.prompt == p.prompt
    &&& q.prompt_request == p.prompt_request
    &&& q.focused_width_percent == p.focused_width_percent
    &&& q.split_vertical == p.split_vertical
}

/// `q` is `p` with only the tasks of its subproject `si` changed.
pub open spec fn only_tasks_of_differ(p: Project, q: Project, si: int) -> bool {
    &&& only_subprojects_differ(p, q)
    &&& q.subprojects@.selection == p.subprojects@.selection
    &&& q.subprojects@.items.len() == p.subprojects@.items.len()
    &&& q.subprojects@.items[si].name == p.subprojects@.items[si].name
    &&& forall|k: int|
        0 <= k < p.subprojects@.items.len() && k != si ==> #[trigger] q.subprojects@.items[k]
            == p.subprojects@.items[k]
}

/// `post` is `pre` with only its project `pi` changed, and the same selection.
pub open spec fn only_project_differs(pre: Journal, post: Journal, pi: int) -> bool {
    &&& post.name == pre.name
    &&& post.password == pre.password
    &&& post.projects@.selection == pre.projects@.selection
    &&& post.projects@.items.len() == pre.projects@.items.len()
    &&& forall|k: int|
        0 <= k < pre.projects@.items.len() && k != pi ==> #[trigger] post.projects@.items[k]
            == pre.projects@.items[k]
}

/// What the moving keys of the journal view do, each to the list it works on, the selected
/// project being `pi`:
/// - Tab and Ctrl-PageDown step the project selection on, BackTab and Ctrl-PageUp back;
///   Alt-PageDown and Alt-PageUp move the selected project on and back;
/// - `l` and `h` step the subproject selection of project `pi` on and back; Shift-L and
///   Shift-H move its selected subproject on and back;
/// - `j` and `k` step the task selection of its selected subproject `si` on and back; Ctrl-j
///   and Ctrl-k move the selected task on and back;
/// - Ctrl-l and Ctrl-h move the selected task into the next and the previous subproject.
/// Each goes round at the ends, and leaves everything else as it was.
pub proof fn lemma_journal_moving_keys(pre: Journal, post: Journal, key: Key, pi: usize, si: usize)
    requires
        pre.wf(),
        pre.projects@.selection == Some(pi),
        match journal_command_of(key) {
            Some(cmd) => command_effect(pre, post, cmd),
            None => post == pre,
        },
    ensures
        ({
            let p = pre.projects@.items[pi as int];
            let q = post.projects@.items[pi as int];
            let plain = key.modifiers == Modifiers::Plain;
            let control = key.modifiers == Modifiers::Control;
            let alt = key.modifiers == Modifiers::Alt;
            let shift = key.modifiers == Modifiers::Shift;
            &&& post.name == pre.name
            &&& post.password == pre.password
            &&& ((key.code == KeyCode::Tab && plain) || (key.code == KeyCode::PageDown && control))
                ==> selection_stepped(pre.projects@, post.projects@, true)
            &&& (key.code == KeyCode::BackTab || (key.code == KeyCode::PageUp && control))
                ==> selection_stepped(pre.projects@, post.projects@, false)
            &&& (key.code == KeyCode::PageDown && alt) ==> selected_moved(pre.projects@, post.projects@, true)
            &&& (key.code == KeyCode::PageUp && alt) ==> selected_moved(pre.projects@, post.projects@, false)
            &&& (key.code == KeyCode::Char('l') && plain) ==> only_project_differs(pre, post, pi as int)
                && only_subprojects_differ(p, q) && selection_stepped(p.subprojects@, q.subprojects@, true)
            &&& (key.code == KeyCode::Char('h') && plain) ==> only_project_differs(pre, post, pi as int)
                && only_subprojects_differ(p, q) && selection_stepped(p.subprojects@, q.subprojects@, false)
            &&& (key.code == KeyCode::Char('L') && shift) ==> only_project_differs(pre, post, pi as int)
                && only_subprojects_differ(p, q) && selected_moved(p.subprojects@, q.subprojects@, true)
            &&& (key.code == KeyCode::Char('H') && shift) ==> only_project_differs(pre, post, pi as int)
                && only_subprojects_differ(p, q) && selected_moved(p.subprojects@, q.subprojects@, false)
            &&& p.subprojects@.selection == Some(si) ==> {
                let before = p.subprojects@.items[si as int].tasks@;
                let after = q.subprojects@.items[si as int].tasks@;
                &&& (key.code == KeyCode::Char('j') && plain) ==> only_project_differs(pre, post, pi as int)
                    && only_tasks_of_differ(p, q, si as int) && selection_stepped(before, after, true)
                &&& (key.code == KeyCode::Char('k') && plain) ==> only_project_differs(pre, post, pi as int)
                    && only_tasks_of_differ(p, q, si as int) && selection_stepped(before, after, false)
                &&& (key.code == KeyCode::Char('j') && control) ==> only_project_differs(pre, post, pi as int)
                    && only_tasks_of_differ(p, q, si as int) && selected_moved(before, after, true)
                &&& (key.code == KeyCode::Char('k') && control) ==> only_project_differs(pre, post, pi as int)
                    && only_tasks_of_differ(p, q, si as int) && selected_moved(before, after, false)
                &&& ((key.code == KeyCode::Char('l') || key.code == KeyCode::Char('h')) && control
                    && before.selection is Some) ==> {
                    let n = p.subprojects@.items.len() as int;
                    let t = if key.code == KeyCode::Char('h') { (si + n - 1) % n } else { (si + 1) % n };
                    let task = before.items[before.selection.unwrap() as int];
                    &&& only_project_differs(pre, post, pi as int)
                    &&& only_subprojects_differ(p, q)
                    &&& q.subprojects@.selection == Some(t as usize)
                    &&& q.subprojects@.items[t].tasks@.selection matches Some(m)
                        && m < q.subprojects@.items[t].tasks@.items.len()
                        && q.subprojects@.items[t].tasks@.items[m as int] == task
                    &&& forall|k: int|
                        0 <= k < n && k != si && k != t ==> #[trigger] q.subprojects@.items[k]
                            == p.subprojects@.items[k]
                }
            }
        }),
{
    let p = pre.projects@.items[pi as int];
    let q = post.projects@.items[pi as int];
    assert(p.wf());
    crate::list::lemma_list_steps(pre.projects@);
    crate::list::lemma_list_steps(p.subprojects@);
    if p.subprojects@.selection == Some(si) {
        let before = p.subprojects@.items[si as int].tasks@;
        assert(before.wf());
        crate::list::lemma_list_steps(before);
        if (key.code == KeyCode::Char('l') || key.code == KeyCode::Char('h')) && key.modifiers == Modifiers::Control
            && before.selection is Some {
            lemma_move_task_goes_to_neighbour(p, q, key.code == KeyCode::Char('h'), si, before.selection.unwrap());
        }
    }
}

/// The prompt of `q` is closed and emptied: no request, no question, no text, input shown.
pub open spec fn prompt_emptied(q: Project) -> bool {
    &&& q.prompt_request is None
    &&& q.prompt.prompt_text@ == Seq::<char>::empty()
    &&& q.prompt.text@ == Seq::<char>::empty()
    &&& !q.prompt.password
}

/// `s` is a subproject just made with the name `name`: no tasks, none selected.
pub open spec fn fresh_subproject(name: Seq<char>) -> spec_fn(SubProject) -> bool {
    |s: SubProject| s.name@ == name && s.tasks@.items.len() == 0 && s.tasks@.selection is None
}

/// `t` is a task just made with the description `desc`, not completed.
pub open spec fn fresh_task(desc: Seq<char>) -> spec_fn(Task) -> bool {
    |t: Task| t.desc@ == desc && t.completed_at is None
}

/// `np` is a project just made with the name `name`: one subproject `Tasks`, selected and
/// empty.
pub open spec fn fresh_project(name: Seq<char>) -> spec_fn(Project) -> bool {
    |np: Project|
        np.name@ == name && np.subprojects@.items.len() == 1 && np.subprojects@.selection == Some(0usize)
            && np.subprojects@.items[0].name@ == "Tasks"@ && np.subprojects@.items[0].tasks@.items.len() == 0
}

/// What confirming `text` in the prompt of the selected project `pi` does, for each thing the
/// prompt can ask for. The prompt is closed and emptied. Then:
/// - a new project is added after the selected one (or at the end where it is the last),
///   named `text`, and selected;
/// - the journal, or the selected project, is renamed `text`, and that is reported;
/// - the password becomes `text`, and that is reported;
/// - a new subproject named `text` is added after the selected subproject (or at the end),
///   and selected, the focused width being kept within its bounds;
/// - a new task described by `text` is added to the selected subproject only, after its
///   selected task (or at the end), and selected;
/// - the selected subproject is renamed `text`, keeping its tasks;
/// - the selected task of the selected subproject gets the description `text`, keeping when
///   it was made and completed.
/// Nothing else changes, and nothing else is reported.
pub proof fn lemma_journal_prompt_results(
    pre: Journal,
    post: Journal,
    request: JournalPrompt,
    text: Seq<char>,
    r: Option<String>,
    pi: usize,
)
    requires
        pre.wf(),
        pre.projects@.selection == Some(pi),
        prompt_result_effect(pre, post, request, text, r),
    ensures
        ({
            let p = pre.projects@.items[pi as int];
            let q = post.projects@.items[pi as int];
            let in_place = post.projects@ == pre.projects@.with_items(pre.projects@.items.update(pi as int, q));
            &&& prompt_emptied(q)
            &&& q.split_vertical == p.split_vertical
            &&& match request {
                JournalPrompt::AddProject => {
                    &&& post.name == pre.name
                    &&& post.password == pre.password
                    &&& r is None
                    &&& q.name == p.name
                    &&& q.subprojects == p.subprojects
                    &&& q.focused_width_percent == p.focused_width_percent
                    &&& added_after_selection(
                        pre.projects@.with_items(pre.projects@.items.update(pi as int, q)),
                        post.projects@,
                        fresh_project(text),
                    )
                },
                JournalPrompt::RenameJournal => {
                    &&& post.name@ == text
                    &&& post.password == pre.password
                    &&& r matches Some(m) && m@ == "Renamed journal: "@ + text
                    &&& in_place
                    &&& q.name == p.name
                    &&& q.subprojects == p.subprojects
                    &&& q.focused_width_percent == p.focused_width_percent
                },
                JournalPrompt::RenameProject => {
                    &&& post.name == pre.name
                    &&& post.password == pre.password
                    &&& r matches Some(m) && m@ == "Renamed project: "@ + text
                    &&& in_place
                    &&& q.name@ == text
                    &&& q.subprojects == p.subprojects
                    &&& q.focused_width_percent == p.focused_width_percent
                },
                JournalPrompt::SetPassword => {
                    &&& post.name == pre.name
                    &&& post.password@ == text
                    &&& r matches Some(m) && m@ == "Set encryption password"@
                    &&& in_place
                    &&& q.name == p.name
                    &&& q.subprojects == p.subprojects
                    &&& q.focused_width_percent == p.focused_width_percent
                },
                JournalPrompt::AddSubProject => {
                    &&& post.name == pre.name
                    &&& post.password == pre.password
                    &&& r is None
                    &&& in_place
                    &&& q.name == p.name
                    &&& added_after_selection(p.subprojects@, q.subprojects@, fresh_subproject(text))
                    &&& q.focused_width_percent == bound_focus(
                        p.focused_width_percent,
                        p.subprojects@.items.len() + 1,
                    )
                },
                JournalPrompt::AddTask => {
                    &&& post.name == pre.name
                    &&& post.password == pre.password
                    &&& r is None
                    &&& in_place
                    &&& q.name == p.name
                    &&& q.focused_width_percent == p.focused_width_percent
                    &&& selected_replaced(
                        p.subprojects@,
                        q.subprojects@,
                        |s: SubProject, t: SubProject|
                            t.name == s.name && added_after_selection(s.tasks@, t.tasks@, fresh_task(text)),
                    )
                },
                JournalPrompt::RenameSubProject => {
                    &&& post.name == pre.name
                    &&& post.password == pre.password
                    &&& r is None
                    &&& in_place
                    &&& q.name == p.name
                    &&& q.focused_width_percent == p.focused_width_percent
                    &&& selected_replaced(
                        p.subprojects@,
                        q.subprojects@,
                        |s: SubProject, t: SubProject| t.name@ == text && t.tasks == s.tasks,
                    )
                },
                JournalPrompt::RenameTask => {
                    &&& post.name == pre.name
                    &&& post.password == pre.password
                    &&& r is None
                    &&& in_place
                    &&& q.name == p.name
                    &&& q.focused_width_percent == p.focused_width_percent
                    &&& selected_replaced(
                        p.subprojects@,
                        q.subprojects@,
                        |s: SubProject, t: SubProject|
                            t.name == s.name && selected_replaced(
                                s.tasks@,
                                t.tasks@,
                                |a: Task, b: Task|
                                    b.desc@ == text && b.created_at == a.created_at && b.completed_at
                                        == a.completed_at,
                            ),
                    )
                },
            }
        }),
{
    let p = pre.projects@.items[pi as int];
    let q = post.projects@.items[pi as int];
    assert(p.wf());
    match request {
        JournalPrompt::AddProject => {
            let np = choose|np: Project|
                #[trigger] np.is_fresh(text) && post.projects@ == pre.projects@.with_items(
                    pre.projects@.items.update(pi as int, q),
                ).after_add(np, true);
            crate::list::lemma_add_goes_after_selection(
                pre.projects@.with_items(pre.projects@.items.update(pi as int, q)),
                np,
                fresh_project(text),
            );
        },
        JournalPrompt::AddSubProject => {
            let ns = choose|s: SubProject|
                #[trigger] is_new_subproject(s, text) && q.subprojects@ == p.subprojects@.after_add(s, true);
            crate::list::lemma_add_goes_after_selection(p.subprojects@, ns, fresh_subproject(text));
        },
        JournalPrompt::AddTask => {
            if let Some(si) = p.subprojects@.selection {
                let s = p.subprojects@.items[si as int];
                let t = q.subprojects@.items[si as int];
                assert(s.tasks@.wf());
                let task = choose|task: Task|
                    #[trigger] is_new_task(task, text) && tasks_set(s, t, s.tasks@.after_add(task, true));
                crate::list::lemma_add_goes_after_selection(s.tasks@, task, fresh_task(text));
            }
        },
        _ => {},
    }
}

/// The focused width that the wanted width `want` becomes among `n` subprojects: no more
/// than 95, and then no less than the even share of the whole, or 5 where that is less.
pub open spec fn width_within_bounds(want: int, n: nat) -> int {
    let capped = if want <= 95 { want } else { 95 };
    let floor: int = if n == 0 {
        u16::MAX as int
    } else if 100int / (n as int) >= 5 {
        100int / (n as int)
    } else {
        5
    };
    if capped >= floor { capped } else { floor }
}

/// `q` is `p` with its prompt opened to ask for `request`: the question `question`, the
/// text `prefill`, input hidden where `hidden` holds; nothing else differs.
pub open spec fn prompt_opened(
    p: Project,
    q: Project,
    request: JournalPrompt,
    question: Seq<char>,
    prefill: Seq<char>,
    hidden: bool,
) -> bool {
    &&& q.name == p.name
    &&& q.subprojects == p.subprojects
    &&& q.focused_width_percent == p.focused_width_percent
    &&& q.split_vertical == p.split_vertical
    &&& q.prompt_request == Some(request)
    &&& q.prompt.prompt_text@ == question
    &&& q.prompt.text@ == prefill
    &&& q.prompt.password == hidden
}

/// What the other keys of the journal view do, the selected project being `pi`:
/// - Alt-n, Shift-N and `n` ask for a new project, subproject or task; Ctrl-r, Alt-r, Shift-R
///   and `r` ask for a new name for the journal, the project, the selected subproject or the
///   selected task, starting from the present one; Ctrl-p asks, hidden, for a new password;
/// - Alt-d, Shift-D and `d` remove the selected project, subproject or task; Esc unselects
///   the task;
/// - `=` and `-` widen (where that stays within a `u16`) and narrow the focused subproject
///   by 5, within its bounds; `\` flips
///   the orientation of the subprojects;
/// - Ctrl-o, Shift-O and Alt-s hand the caller the opening of the file list for loading,
///   merging and saving, and Ctrl-s the saving, changing nothing;
/// - a digit from 1 to 9 selects that project, counting from 1, where there is one.
/// Nothing else changes, and only the file keys leave the caller anything to do.
pub proof fn lemma_journal_other_keys(pre: Journal, post: Journal, key: Key, r: JournalAction, pi: usize)
    requires
        pre.wf(),
        pre.projects@.selection == Some(pi),
        match journal_command_of(key) {
            Some(cmd) => command_effect(pre, post, cmd) && r == action_of(cmd),
            None => post == pre && r == JournalAction::Nothing,
        },
    ensures
        ({
            let p = pre.projects@.items[pi as int];
            let q = post.projects@.items[pi as int];
            let n = p.subprojects@.items.len();
            let plain = key.modifiers == Modifiers::Plain;
            let control = key.modifiers == Modifiers::Control;
            let alt = key.modifiers == Modifiers::Alt;
            let shift = key.modifiers == Modifiers::Shift;
            let empty = Seq::<char>::empty();
            let in_project = only_project_differs(pre, post, pi as int);
            let file_key = (key.code == KeyCode::Char('o') && control) || (key.code == KeyCode::Char('O') && shift)
                || (key.code == KeyCode::Char('s') && (alt || control));
            &&& post.name == pre.name
            &&& post.password == pre.password
            &&& !file_key ==> r == JournalAction::Nothing
            &&& (key.code == KeyCode::Char('n') && alt) ==> in_project && prompt_opened(
                p,
                q,
                JournalPrompt::AddProject,
                "New project name:"@,
                empty,
                false,
            )
            &&& (key.code == KeyCode::Char('N') && shift) ==> in_project && prompt_opened(
                p,
                q,
                JournalPrompt::AddSubProject,
                "New Subproject Name:"@,
                empty,
                false,
            )
            &&& (key.code == KeyCode::Char('n') && plain) ==> in_project && prompt_opened(
                p,
                q,
                JournalPrompt::AddTask,
                "New Task:"@,
                empty,
                false,
            )
            &&& (key.code == KeyCode::Char('r') && control) ==> in_project && prompt_opened(
                p,
                q,
                JournalPrompt::RenameJournal,
                "Journal Name:"@,
                pre.name@,
                false,
            )
            &&& (key.code == KeyCode::Char('r') && alt) ==> in_project && prompt_opened(
                p,
                q,
                JournalPrompt::RenameProject,
                "Project Name:"@,
                p.name@,
                false,
            )
            &&& (key.code == KeyCode::Char('R') && shift) ==> in_project && match p.subprojects@.selection {
                Some(si) => prompt_opened(
                    p,
                    q,
                    JournalPrompt::RenameSubProject,
                    "Subproject Name:"@,
                    p.subprojects@.items[si as int].name@,
                    false,
                ),
                None => q == p,
            }
            &&& (key.code == KeyCode::Char('r') && plain) ==> in_project && match p.subprojects@.selection {
                Some(si) => match p.subprojects@.items[si as int].tasks@.selection {
                    Some(ti) => prompt_opened(
                        p,
                        q,
                        JournalPrompt::RenameTask,
                        "Rename Task:"@,
                        p.subprojects@.items[si as int].tasks@.items[ti as int].desc@,
                        false,
                    ),
                    None => q == p,
                },
                None => q == p,
            }
            &&& (key.code == KeyCode::Char('p') && control) ==> in_project && prompt_opened(
                p,
                q,
                JournalPrompt::SetPassword,
                "Set new password for `"@ + pre.name@ + "`:"@,
                empty,
                true,
            )
            &&& (key.code == KeyCode::Char('d') && alt) ==> selected_removed(pre.projects@, post.projects@)
            &&& (key.code == KeyCode::Char('D') && shift) ==> in_project && only_subprojects_differ(p, q)
                && selected_removed(p.subprojects@, q.subprojects@)
            &&& (key.code == KeyCode::Char('d') && plain) ==> in_project && match p.subprojects@.selection {
                Some(si) => only_tasks_of_differ(p, q, si as int) && selected_removed(
                    p.subprojects@.items[si as int].tasks@,
                    q.subprojects@.items[si as int].tasks@,
                ),
                None => q == p,
            }
            &&& (key.code == KeyCode::Esc && plain) ==> in_project && match p.subprojects@.selection {
                Some(si) => {
                    &&& only_tasks_of_differ(p, q, si as int)
                    &&& q.subprojects@.items[si as int].tasks@.items == p.subprojects@.items[si as int].tasks@.items
                    &&& q.subprojects@.items[si as int].tasks@.selection is None
                },
                None => q == p,
            }
            &&& (key.code == KeyCode::Char('=') && plain && p.focused_width_percent + 5 <= u16::MAX) ==> in_project && only_subprojects_differ(
                p,
                Project { focused_width_percent: p.focused_width_percent, ..q },
            ) && q.subprojects == p.subprojects && q.focused_width_percent == width_within_bounds(
                p.focused_width_percent + 5,
                n,
            )
            &&& (key.code == KeyCode::Char('-') && plain) ==> in_project && only_subprojects_differ(
                p,
                Project { focused_width_percent: p.focused_width_percent, ..q },
            ) && q.subprojects == p.subprojects && q.focused_width_percent == width_within_bounds(
                if p.focused_width_percent >= 5 { p.focused_width_percent - 5 } else { 0 },
                n,
            )
            &&& (key.code == KeyCode::Char('\\') && plain) ==> in_project && q.split_vertical == !p.split_vertical
                && q == (Project { split_vertical: q.split_vertical, ..p })
            &&& (key.code == KeyCode::Char('o') && control) ==> post == pre && r == JournalAction::OpenFileList(
                FileRequest::Load,
            )
            &&& (key.code == KeyCode::Char('O') && shift) ==> post == pre && r == JournalAction::OpenFileList(
                FileRequest::LoadMerge,
            )
            &&& (key.code == KeyCode::Char('s') && alt) ==> post == pre && r == JournalAction::OpenFileList(
                FileRequest::Save,
            )
            &&& (key.code == KeyCode::Char('s') && control) ==> post == pre && r == JournalAction::Save
            &&& (key.code matches KeyCode::Char(c) && '1' <= c <= '9') ==> {
                let d = (key.code->Char_0 as int) - ('1' as int);
                &&& post.projects@.items == pre.projects@.items
                &&& post.projects@.selection == if d < pre.projects@.items.len() {
                    Some(d as usize)
                } else {
                    pre.projects@.selection
                }
            }
        }),
{
    let p = pre.projects@.items[pi as int];
    assert(p.wf());
    crate::list::lemma_pop_removes_selected(pre.projects@);
    crate::list::lemma_pop_removes_selected(p.subprojects@);
    if let Some(si) = p.subprojects@.selection {
        assert(p.subprojects@.items[si as int].tasks@.wf());
        crate::list::lemma_pop_removes_selected(p.subprojects@.items[si as int].tasks@);
    }
}

} // verus!
