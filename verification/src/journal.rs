use vstd::prelude::*;
use crate::list::{ListState, SelectionList};
use crate::project::Project;

verus! {

broadcast use crate::list::lemma_list_len_fits;

/// A journal: a name, the password its file is encrypted with, and its projects.
pub struct Journal {
    pub name: String,
    pub password: String,
    pub projects: SelectionList<Project>,
}

impl Journal {
    /// Every list of the journal has its selection on an item or none.
    pub open spec fn wf(&self) -> bool {
        &&& self.projects@.wf()
        &&& forall|i: int|
            0 <= i < self.projects@.items.len() ==> (#[trigger] self.projects@.items[i]).wf()
    }

    /// Whether every list of the journal has its selection on an item or none.
    pub fn check_wf(&self) -> (r: bool)
        ensures
            r == self.wf(),
    {
        if !self.projects.is_wf() {
            return false;
        }
        let projects = self.projects.items();
        let n = projects.len();
        for i in 0..n
            invariant
                n == self.projects@.items.len(),
                projects@ == self.projects@.items,
                forall|k: int| 0 <= k < i ==> (#[trigger] self.projects@.items[k]).wf(),
        {
            if !projects[i].check_wf() {
                return false;
            }
        }
        true
    }

    /// A journal called `name`, without password, with one fresh project, selected.
    pub fn new(name: &str) -> (r: Journal)
        ensures
            r.name@ == name@,
            r.password@ == Seq::<char>::empty(),
            r.projects@.items.len() == 1,
            r.projects@.items[0].is_fresh("New Project"@),
            r.projects@.selection == Some(0usize),
            r.wf(),
    {
        let mut projects: Vec<Project> = Vec::new();
        projects.push(Project::default());
        let mut journal = Journal {
            name: name.to_owned(),
            password: String::new(),
            projects: SelectionList::from_vec(projects),
        };
        journal.projects.select_next();
        journal
    }

    /// The selected project, to change in place.
    pub fn project(&mut self) -> (r: Option<&mut Project>)
        ensures
            r is Some <==> old(self).projects@.position(None) is Some,
            r matches Some(p) ==> {
                &&& *p == old(self).projects@.items[old(self).projects@.selection.unwrap() as int]
                &&& final(self).projects@ == old(self).projects@.with_items(
                    old(self).projects@.items.update(
                        old(self).projects@.selection.unwrap() as int,
                        *final(p),
                    ),
                )
                &&& final(self).name == old(self).name
                &&& final(self).password == old(self).password
            },
            r is None ==> *final(self) == *old(self),
    {
        self.projects.get_item_mut(None)
    }

    /// The journal that loading `loaded` with password `key` leaves: `loaded` itself, or,
    /// where `merge` holds, this journal with the projects of `loaded` after its own; the
    /// password becomes `key` either way.
    pub fn after_load(self, loaded: Journal, key: &str, merge: bool) -> (r: Journal)
        ensures
            r.password@ == key@,
            merge ==> r.name == self.name && r.projects@ == self.projects@.merged(loaded.projects@),
            !merge ==> r.name == loaded.name && r.projects == loaded.projects,
            self.wf() && loaded.wf() ==> r.wf(),
    {
        let mut journal = if merge {
            self + loaded
        } else {
            loaded
        };
        journal.password = key.to_owned();
        journal
    }
}

impl Default for Journal {
    /// A journal called `new_journal`.
    fn default() -> (r: Journal)
        ensures
            r.name@ == "new_journal"@,
            r.password@ == Seq::<char>::empty(),
            r.projects@.items.len() == 1,
            r.projects@.items[0].is_fresh("New Project"@),
            r.projects@.selection == Some(0usize),
            r.wf(),
    {
        Journal::new("new_journal")
    }
}

impl core::ops::Add<Journal> for Journal {
    type Output = Journal;

    /// This journal, with the projects of `rhs` after its own and nothing selected.
    fn add(self, rhs: Journal) -> (r: Journal)
        ensures
            r.name == self.name,
            r.password == self.password,
            r.projects@ == self.projects@.merged(rhs.projects@),
    {
        Journal { name: self.name, password: self.password, projects: self.projects + rhs.projects }
    }
}

impl vstd::std_specs::ops::AddSpecImpl<Journal> for Journal {
    /// The generic law of `+` is not claimed: the sum is described by the `ensures` of `add`.
    open spec fn obeys_add_spec() -> bool {
        false
    }

    open spec fn add_req(self, rhs: Journal) -> bool {
        true
    }

    open spec fn add_spec(self, rhs: Journal) -> Journal {
        self
    }
}

} // verus!
