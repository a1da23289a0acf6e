//! A named project and the timers recorded for it.

use vstd::prelude::*;

use super::timer::Timer;

verus! {

/// What a `Project` holds, as mathematical values.
#[verifier::ext_equal]
pub struct ProjectView {
    pub id: u32,
    pub name: Seq<char>,
    pub timers: Seq<Timer>,
}

/// A project: a stable `id`, a display `name` that can be edited, and its
/// timers in the order they were started.
#[derive(Debug)]
pub struct Project {
    pub id: u32,
    pub name: String,
    pub timers: Vec<Timer>,
}

impl View for Project {
    type V = ProjectView;

    open spec fn view(&self) -> ProjectView {
        ProjectView { id: self.id, name: self.name@, timers: self.timers@ }
    }
}

/// The views of a sequence of projects, in order.
pub open spec fn project_views(projects: Seq<Project>) -> Seq<ProjectView> {
    projects.map_values(|p: Project| p@)
}

/// The ids of a sequence of projects, in order.
pub open spec fn project_ids(projects: Seq<ProjectView>) -> Seq<u32> {
    projects.map_values(|p: ProjectView| p.id)
}

impl ProjectView {
    /// The same project under another name.
    pub open spec fn renamed(self, name: Seq<char>) -> ProjectView {
        ProjectView { name, ..self }
    }

    /// At most one of the project's timers is running.
    pub open spec fn at_most_one_running(self) -> bool {
        forall|i: int, j: int|
            0 <= i < self.timers.len() && 0 <= j < self.timers.len()
                && self.timers[i].is_running() && self.timers[j].is_running() ==> i == j
    }
}

impl Clone for Project {
    fn clone(&self) -> (copy: Self)
        ensures
            copy@ == self@,
    {
        let timers = self.timers.clone();
        Project { id: self.id, name: self.name.clone(), timers }
    }
}

impl Project {
    /// Whether `self` and `other` have the same id, name and timers.
    pub fn same_as(&self, other: &Project) -> (same: bool)
        ensures
            same == (self@ == other@),
    {
        if self.id != other.id || self.name != other.name || self.timers.len()
            != other.timers.len() {
            return false;
        }
        let mut i: usize = 0;
        while i < self.timers.len()
            invariant
                i <= self.timers.len(),
                self.timers.len() == other.timers.len(),
                forall|k: int| 0 <= k < i ==> self.timers@[k] == other.timers@[k],
            decreases self.timers.len() - i,
        {
            if !self.timers[i].same_as(&other.timers[i]) {
                return false;
            }
            i += 1;
        }
        assert(self.timers@ =~= other.timers@);
        true
    }

    /// The project's timers, oldest first.
    pub fn get_timers(&self) -> (timers: Vec<&Timer>)
        ensures
            timers@.len() == self.timers@.len(),
            forall|i: int| 0 <= i < timers@.len() ==> *timers@[i] == self.timers@[i],
    {
        let mut timers: Vec<&Timer> = Vec::new();
        let mut i: usize = 0;
        while i < self.timers.len()
            invariant
                i <= self.timers.len(),
                timers@.len() == i,
                forall|k: int| 0 <= k < i ==> *timers@[k] == self.timers@[k],
            decreases self.timers.len() - i,
        {
            timers.push(&self.timers[i]);
            i += 1;
        }
        timers
    }
}

/// Whether `a` and `b` hold the same projects in the same order.
pub fn same_projects(a: &Vec<Project>, b: &Vec<Project>) -> (same: bool)
    ensures
        same == (project_views(a@) == project_views(b@)),
{
    if a.len() != b.len() {
        assert(project_views(a@).len() != project_views(b@).len());
        return false;
    }
    let mut i: usize = 0;
    while i < a.len()
        invariant
            i <= a.len(),
            a.len() == b.len(),
            forall|k: int| 0 <= k < i ==> a@[k]@ == b@[k]@,
        decreases a.len() - i,
    {
        if !a[i].same_as(&b[i]) {
            assert(project_views(a@)[i as int] != project_views(b@)[i as int]);
            return false;
        }
        i += 1;
    }
    assert(project_views(a@) =~= project_views(b@));
    true
}

/// A copy of every project in `projects`, in the same order.
pub fn clone_projects(projects: &Vec<Project>) -> (copy: Vec<Project>)
    ensures
        project_views(copy@) == project_views(projects@),
{
    let mut copy: Vec<Project> = Vec::new();
    let mut i: usize = 0;
    while i < projects.len()
        invariant
            i <= projects.len(),
            copy@.len() == i,
            forall|k: int| 0 <= k < i ==> copy@[k]@ == projects@[k]@,
        decreases projects.len() - i,
    {
        copy.push(projects[i].clone());
        i += 1;
    }
    copy
}

} // verus!
