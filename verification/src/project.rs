use vstd::prelude::*;
use crate::data::{JournalPrompt, DEFAULT_WIDTH_PERCENT};
use crate::list::{ListLabel, ListState, SelectionList};
use crate::prompt::PromptSetup;

verus! {

broadcast use crate::list::lemma_list_len_fits;

/// A task of a subproject.
#[derive(Clone, Debug)]
pub struct Task {
    pub desc: String,
    pub created_at: String,
    pub completed_at: Option<String>,
}

impl Task {
    /// An open task with the given description.
    pub fn new(desc: &str) -> (t: Task)
        ensures
            t.desc@ == desc@,
            t.created_at@ == "2020-02-02 12:00:00"@,
            t.completed_at is None,
    {
        Task {
            desc: desc.to_owned(),
            created_at: "2020-02-02 12:00:00".to_owned(),
            completed_at: None,
        }
    }

    /// The text that stands for the task: its description.
    pub fn to_string(&self) -> (r: String)
        ensures
            r@ == self.desc@,
    {
        self.desc.clone()
    }
}

impl ListLabel for Task {
    open spec fn label_view(&self) -> Seq<char> {
        self.desc@
    }

    fn label(&self) -> (r: String) {
        self.to_string()
    }
}

/// A named list of tasks.
pub struct SubProject {
    pub name: String,
    pub tasks: SelectionList<Task>,
}

impl SubProject {
    /// An empty subproject called `Tasks`.
    pub fn default() -> (r: SubProject)
        ensures
            r.name@ == "Tasks"@,
            r.tasks@.items.len() == 0,
            r.tasks@.selection is None,
    {
        SubProject { name: "Tasks".to_owned(), tasks: SelectionList::from_vec(Vec::new()) }
    }

    /// An empty subproject with the given name.
    pub fn new(name: &str) -> (r: SubProject)
        ensures
            r.name@ == name@,
            r.tasks@.items.len() == 0,
            r.tasks@.selection is None,
    {
        SubProject { name: name.to_owned(), tasks: SelectionList::from_vec(Vec::new()) }
    }

    /// The selected task, to change in place.
    pub fn task(&mut self) -> (r: Option<&mut Task>)
        ensures
            r is Some <==> old(self).tasks@.position(None) is Some,
            r matches Some(t) ==> {
                &&& *t == old(self).tasks@.items[old(self).tasks@.selection.unwrap() as int]
                &&& final(self).tasks@ == old(self).tasks@.with_items(
                    old(self).tasks@.items.update(old(self).tasks@.selection.unwrap() as int, *final(t)),
                )
                &&& final(self).name == old(self).name
            },
            r is None ==> *final(self) == *old(self),
    {
        self.tasks.get_item_mut(None)
    }
}

impl ListLabel for SubProject {
    open spec fn label_view(&self) -> Seq<char> {
        self.name@
    }

    fn label(&self) -> (r: String) {
        self.name.clone()
    }
}

/// A project: named subprojects side by side, the state of the prompt shown over them, and
/// how they are laid out.
pub struct Project {
    pub name: String,
    pub subprojects: SelectionList<SubProject>,
    pub prompt: PromptSetup,
    pub prompt_request: Option<JournalPrompt>,
    pub focused_width_percent: u16,
    pub split_vertical: bool,
}

impl Project {
    /// Every list of the project has its selection on an item or none.
    pub open spec fn wf(&self) -> bool {
        &&& self.subprojects@.wf()
        &&& forall|j: int|
            0 <= j < self.subprojects@.items.len() ==> (#[trigger] self.subprojects@.items[j]).tasks@.wf()
    }

    /// A fresh project with the given name: one empty subproject `Tasks`, selected.
    pub open spec fn is_fresh(&self, name: Seq<char>) -> bool {
        &&& self.name@ == name
        &&& self.subprojects@.items.len() == 1
        &&& self.subprojects@.selection == Some(0usize)
        &&& self.subprojects@.items[0].name@ == "Tasks"@
        &&& self.subprojects@.items[0].tasks@.items.len() == 0
        &&& self.subprojects@.items[0].tasks@.selection is None
        &&& self.prompt_request is None
        &&& self.focused_width_percent == DEFAULT_WIDTH_PERCENT
        &&& !self.split_vertical
    }

    /// A fresh project called `name`.
    pub fn new(name: &str) -> (r: Project)
        ensures
            r.is_fresh(name@),
            r.wf(),
    {
        let mut subprojects: Vec<SubProject> = Vec::new();
        subprojects.push(SubProject::default());
        let mut project = Project {
            name: name.to_owned(),
            subprojects: SelectionList::from_vec(subprojects),
            prompt: PromptSetup::new(),
            prompt_request: None,
            focused_width_percent: DEFAULT_WIDTH_PERCENT,
            split_vertical: false,
        };
        project.subprojects.select_next();
        project
    }

    /// A fresh project called `New Project`.
    pub fn default() -> (r: Project)
        ensures
            r.is_fresh("New Project"@),
            r.wf(),
    {
        Project::new("New Project")
    }

    /// The number of subprojects.
    pub fn len(&self) -> (r: usize)
        ensures
            r == self.subprojects@.items.len(),
    {
        self.subprojects.len()
    }

    /// The selected subproject, to change in place.
    pub fn subproject(&mut self) -> (r: Option<&mut SubProject>)
        ensures
            r is Some <==> old(self).subprojects@.position(None) is Some,
            r matches Some(s) ==> {
                &&& *s == old(self).subprojects@.items[old(self).subprojects@.selection.unwrap() as int]
                &&& final(self).subprojects@ == old(self).subprojects@.with_items(
                    old(self).subprojects@.items.update(
                        old(self).subprojects@.selection.unwrap() as int,
                        *final(s),
                    ),
                )
                &&& final(self).name == old(self).name
                &&& final(self).prompt == old(self).prompt
                &&& final(self).prompt_request == old(self).prompt_request
                &&& final(self).focused_width_percent == old(self).focused_width_percent
                &&& final(self).split_vertical == old(self).split_vertical
            },
            r is None ==> *final(self) == *old(self),
    {
        self.subprojects.get_item_mut(None)
    }
}


impl Project {
    /// Whether every list of the project has its selection on an item or none.
    pub fn check_wf(&self) -> (r: bool)
        ensures
            r == self.wf(),
    {
        if !self.subprojects.is_wf() {
            return false;
        }
        let subprojects = self.subprojects.items();
        let n = subprojects.len();
        for j in 0..n
            invariant
                n == self.subprojects@.items.len(),
                subprojects@ == self.subprojects@.items,
                forall|k: int| 0 <= k < j ==> (#[trigger] self.subprojects@.items[k]).tasks@.wf(),
        {
            if !subprojects[j].tasks.is_wf() {
                return false;
            }
        }
        true
    }
}

/// `new` is `old` with its task selection put back on the first task, or on none where it
/// has no tasks.
pub open spec fn tasks_reset(old: SubProject, new: SubProject) -> bool {
    &&& new.name == old.name
    &&& new.tasks@.items == old.tasks@.items
    &&& new.tasks@.selection == if old.tasks@.items.len() == 0 {
        None
    } else {
        Some(0usize)
    }
}

impl Project {
    /// Puts every selection back on the first item: the first task of each subproject, and
    /// the first subproject; a list with no items gets no selection.
    pub fn reset_selections(&mut self)
        ensures
            final(self).subprojects@.items.len() == old(self).subprojects@.items.len(),
            forall|j: int|
                0 <= j < old(self).subprojects@.items.len() ==> tasks_reset(
                    old(self).subprojects@.items[j],
                    #[trigger] final(self).subprojects@.items[j],
                ),
            final(self).subprojects@.selection == if old(self).subprojects@.items.len() == 0 {
                None
            } else {
                Some(0usize)
            },
            final(self).name == old(self).name,
            final(self).prompt == old(self).prompt,
            final(self).prompt_request == old(self).prompt_request,
            final(self).focused_width_percent == old(self).focused_width_percent,
            final(self).split_vertical == old(self).split_vertical,
            final(self).wf(),
    {
        let n = self.len();
        for index in 0..n
            invariant
                n == old(self).subprojects@.items.len(),
                self.subprojects@.items.len() == n,
                self.subprojects@.selection == old(self).subprojects@.selection,
                forall|j: int|
                    0 <= j < index ==> tasks_reset(
                        old(self).subprojects@.items[j],
                        #[trigger] self.subprojects@.items[j],
                    ),
                forall|j: int|
                    index <= j < n ==> #[trigger] self.subprojects@.items[j]
                        == old(self).subprojects@.items[j],
                forall|j: int|
                    0 <= j < index ==> (#[trigger] self.subprojects@.items[j]).tasks@.wf(),
                self.name == old(self).name,
                self.prompt == old(self).prompt,
                self.prompt_request == old(self).prompt_request,
                self.focused_width_percent == old(self).focused_width_percent,
                self.split_vertical == old(self).split_vertical,
        {
            match self.subprojects.get_item_mut(Some(index)) {
                Some(subproject) => {
                    subproject.tasks.deselect();
                    subproject.tasks.select_next();
                },
                None => {},
            }
        }
        self.subprojects.deselect();
        self.subprojects.select_next();
    }
}

} // verus!
