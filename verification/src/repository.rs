//! The store of projects and favorites, as it is held in memory between a
//! load from and a write to its backing file.

use vstd::prelude::*;
use vstd::string::*;

use crate::error::TimerError;
use crate::model::project::{clone_projects, project_ids, project_views, Project, ProjectView};
use crate::model::timer::Timer;

verus! {

/// The content of the backing file: every project, and the ids of the
/// favorite ones.
#[derive(Debug)]
pub struct ProjectsData {
    pub projects: Vec<Project>,
    pub favorites: Vec<u32>,
}

/// What a `ProjectsData` holds, as mathematical values.
#[verifier::ext_equal]
pub struct DataView {
    pub projects: Seq<ProjectView>,
    pub favorites: Seq<u32>,
}

impl View for ProjectsData {
    type V = DataView;

    open spec fn view(&self) -> DataView {
        DataView { projects: project_views(self.projects@), favorites: self.favorites@ }
    }
}

/// The view of what was read from the backing file, if anything was.
pub open spec fn stored_view(stored: Option<ProjectsData>) -> Option<DataView> {
    match stored {
        Some(data) => Some(data@),
        None => None,
    }
}

/// What a `Repository` holds, as mathematical values. `unsaved` says that
/// the content has changed since it was last read from or handed out for
/// the backing file.
#[verifier::ext_equal]
pub struct RepositoryView {
    pub file_name: Seq<char>,
    pub projects: Seq<ProjectView>,
    pub favorites: Seq<u32>,
    pub unsaved: bool,
}

/// The message of the error for an id that no project has.
pub open spec fn not_found_message() -> Seq<char> {
    "Project with given id does not exists."@
}

/// The message of the error for a store in which the largest id is taken.
pub open spec fn no_id_left_message() -> Seq<char> {
    "No project id is left."@
}

/// The largest of `ids`, or 0 if there are none.
pub open spec fn largest_id(ids: Seq<u32>) -> u32
    decreases ids.len(),
{
    if ids.len() == 0 {
        0
    } else {
        let rest = largest_id(ids.drop_last());
        if ids.last() > rest {
            ids.last()
        } else {
            rest
        }
    }
}

impl RepositoryView {
    /// A store for `file_name` with the content that was read from it, or
    /// an empty one if nothing could be read.
    pub open spec fn loaded(file_name: Seq<char>, stored: Option<DataView>) -> RepositoryView {
        match stored {
            Some(data) => RepositoryView {
                file_name,
                projects: data.projects,
                favorites: data.favorites,
                unsaved: false,
            },
            None => RepositoryView {
                file_name,
                projects: Seq::empty(),
                favorites: Seq::empty(),
                unsaved: false,
            },
        }
    }

    /// What is written to the backing file.
    pub open spec fn snapshot(self) -> DataView {
        DataView { projects: self.projects, favorites: self.favorites }
    }

    /// The same content, written out.
    pub open spec fn saved(self) -> RepositoryView {
        RepositoryView { unsaved: false, ..self }
    }

    /// Whether some project has the id `id`.
    pub open spec fn has_project(self, id: u32) -> bool {
        project_ids(self.projects).contains(id)
    }

    /// The index of the first project with the id `id`.
    pub open spec fn position(self, id: u32) -> Option<int> {
        project_ids(self.projects).index_of_first(id)
    }

    /// No two projects share an id.
    pub open spec fn ids_distinct(self) -> bool {
        project_ids(self.projects).no_duplicates()
    }

    /// The store without the first project that has the id `id`; the same
    /// store if there is none.
    pub open spec fn deleted(self, id: u32) -> RepositoryView {
        match self.position(id) {
            Some(i) => RepositoryView { projects: self.projects.remove(i), unsaved: true, ..self },
            None => self,
        }
    }

    /// The store with `project` in the place of the first project that has
    /// its id; the same store if there is none.
    pub open spec fn edited(self, project: ProjectView) -> RepositoryView {
        match self.position(project.id) {
            Some(i) => RepositoryView {
                projects: self.projects.update(i, project),
                unsaved: true,
                ..self
            },
            None => self,
        }
    }

    /// Whether an id is left for one more project.
    pub open spec fn has_room(self) -> bool {
        largest_id(project_ids(self.projects)) < u32::MAX
    }

    /// The id that the next new project gets: one more than the largest id
    /// in the store.
    pub open spec fn fresh_id(self) -> u32
        recommends
            self.has_room(),
    {
        (largest_id(project_ids(self.projects)) + 1) as u32
    }

    /// The store with a new project called `name`, without timers, at the
    /// end; the same store if no id is left.
    pub open spec fn added(self, name: Seq<char>) -> RepositoryView {
        if self.has_room() {
            RepositoryView {
                projects: self.projects.push(
                    ProjectView { id: self.fresh_id(), name, timers: Seq::empty() },
                ),
                unsaved: true,
                ..self
            }
        } else {
            self
        }
    }

    /// The projects whose id is among the favorites, in store order. An id
    /// among the favorites that no project has stands for nothing.
    pub open spec fn favorite_projects(self) -> Seq<ProjectView> {
        with_id_among(self.projects, self.favorites)
    }
}

/// `position` finds a project with the id if there is one, and the first
/// such project.
pub proof fn lemma_position(store: RepositoryView, id: u32)
    ensures
        match store.position(id) {
            Some(i) => {
                &&& 0 <= i < store.projects.len()
                &&& store.projects[i].id == id
                &&& forall|j: int| 0 <= j < i ==> store.projects[j].id != id
            },
            None => forall|j: int| 0 <= j < store.projects.len() ==> store.projects[j].id != id,
        },
        store.position(id) is Some <==> store.has_project(id),
{
    let ids = project_ids(store.projects);
    ids.index_of_first_ensures(id);
    match store.position(id) {
        Some(i) => {
            assert forall|j: int| 0 <= j < i implies store.projects[j].id != id by {
                assert(ids[j] != id);
            }
        },
        None => {
            assert forall|j: int| 0 <= j < store.projects.len() implies store.projects[j].id
                != id by {
                assert(ids[j] == store.projects[j].id);
            }
        },
    }
}

/// The projects of `projects` whose id is one of `ids`, in order.
pub open spec fn with_id_among(projects: Seq<ProjectView>, ids: Seq<u32>) -> Seq<ProjectView> {
    projects.filter(|p: ProjectView| ids.contains(p.id))
}

/// `with_id_among` keeps or drops the last project by its id and treats the
/// projects before it alike.
proof fn lemma_with_id_among_last(projects: Seq<ProjectView>, ids: Seq<u32>)
    requires
        projects.len() > 0,
    ensures
        with_id_among(projects, ids) == if ids.contains(projects.last().id) {
            with_id_among(projects.drop_last(), ids).push(projects.last())
        } else {
            with_id_among(projects.drop_last(), ids)
        },
{
    let kept = |p: ProjectView| ids.contains(p.id);
    assert(projects.filter(kept) == if kept(projects.last()) {
        projects.drop_last().filter(kept).push(projects.last())
    } else {
        projects.drop_last().filter(kept)
    }) by {
        reveal_with_fuel(Seq::filter, 2);
    }
}

/// The views of the projects that `refs` point to, in order.
pub open spec fn referenced_views(refs: Seq<&Project>) -> Seq<ProjectView> {
    refs.map_values(|p: &Project| p@)
}

/// The projects and favorites, the name of the file they belong to, and
/// whether they have changed since they were last read or handed out to be
/// written.
pub struct Repository {
    file_name: String,
    projects: Vec<Project>,
    favorites: Vec<u32>,
    unsaved: bool,
}

impl View for Repository {
    type V = RepositoryView;

    closed spec fn view(&self) -> RepositoryView {
        RepositoryView {
            file_name: self.file_name@,
            projects: project_views(self.projects@),
            favorites: self.favorites@,
            unsaved: self.unsaved,
        }
    }
}

/// Whether `id` is one of `ids`.
fn contains_id(ids: &Vec<u32>, id: u32) -> (found: bool)
    ensures
        found == ids@.contains(id),
{
    let mut i: usize = 0;
    while i < ids.len()
        invariant
            i <= ids.len(),
            forall|k: int| 0 <= k < i ==> ids@[k] != id,
        decreases ids.len() - i,
    {
        if ids[i] == id {
            return true;
        }
        i += 1;
    }
    false
}

impl Repository {
    /// The store for the file called `file_name`. `stored` is what was read
    /// from that file, or `None` if the file is missing or what it holds
    /// could not be read: the store then starts empty.
    pub fn new(file_name: &str, stored: Option<ProjectsData>) -> (repository: Self)
        ensures
            repository@ == RepositoryView::loaded(file_name@, stored_view(stored)),
    {
        let mut repository = Self {
            file_name: file_name.to_owned(),
            projects: Vec::new(),
            favorites: Vec::new(),
            unsaved: false,
        };
        repository.load_projects_from_file(stored);
        repository
    }

    /// Takes over what was read from the backing file. With `None`, for a
    /// file that is missing or cannot be read, the store keeps what it has.
    pub fn load_projects_from_file(&mut self, stored: Option<ProjectsData>)
        ensures
            final(self)@ == match stored {
                Some(data) => RepositoryView::loaded(old(self)@.file_name, Some(data@)),
                None => old(self)@,
            },
    {
        if let Some(data) = stored {
            self.projects = data.projects;
            self.favorites = data.favorites;
            self.unsaved = false;
        }
    }

    /// The name of the backing file.
    pub fn file_name(&self) -> (name: &str)
        ensures
            name@ == self@.file_name,
    {
        self.file_name.as_str()
    }

    /// Whether the content has changed since it was last read or handed out
    /// to be written.
    pub fn has_unsaved_changes(&self) -> (unsaved: bool)
        ensures
            unsaved == self@.unsaved,
    {
        self.unsaved
    }

    /// Every project, in store order.
    pub fn find_all(&self) -> (projects: &Vec<Project>)
        ensures
            project_views(projects@) == self@.projects,
    {
        &self.projects
    }

    /// The projects that are favorites, in store order.
    pub fn find_favorites(&self) -> (favorites: Vec<&Project>)
        ensures
            referenced_views(favorites@) == self@.favorite_projects(),
    {
        let ghost all = project_views(self.projects@);
        let mut found: Vec<&Project> = Vec::new();
        let mut i: usize = 0;
        while i < self.projects.len()
            invariant
                i <= self.projects.len(),
                all == project_views(self.projects@),
                referenced_views(found@) == with_id_among(
                    all.subrange(0, i as int),
                    self.favorites@,
                ),
            decreases self.projects.len() - i,
        {
            let project = &self.projects[i];
            proof {
                assert(all.subrange(0, i + 1).drop_last() =~= all.subrange(0, i as int));
                lemma_with_id_among_last(all.subrange(0, i + 1), self.favorites@);
            }
            if contains_id(&self.favorites, project.id) {
                found.push(project);
            }
            i += 1;
        }
        assert(all.subrange(0, i as int) =~= all);
        found
    }

    /// The index of the first project with the id `id`.
    fn position(&self, id: u32) -> (index: Option<usize>)
        ensures
            match index {
                Some(i) => self@.position(id) == Some(i as int) && i < self.projects@.len(),
                None => self@.position(id) is None,
            },
            index is Some <==> self@.has_project(id),
    {
        let ghost ids = project_ids(self@.projects);
        let mut i: usize = 0;
        while i < self.projects.len()
            invariant
                i <= self.projects.len(),
                ids == project_ids(project_views(self.projects@)),
                forall|k: int| 0 <= k < i ==> ids[k] != id,
            decreases self.projects.len() - i,
        {
            if self.projects[i].id == id {
                proof {
                    assert(ids[i as int] == id);
                    ids.index_of_first_ensures(id);
                }
                return Some(i);
            }
            i += 1;
        }
        proof {
            ids.index_of_first_ensures(id);
        }
        None
    }

    /// Removes the first project whose id is `project_id` and marks the
    /// store as changed. Fails, and changes nothing, if no project has that
    /// id.
    pub fn delete_project(&mut self, project_id: u32) -> (res: Result<bool, TimerError>)
        ensures
            final(self)@ == old(self)@.deleted(project_id),
            match res {
                Ok(done) => done && old(self)@.has_project(project_id),
                Err(e) => !old(self)@.has_project(project_id) && e.details@
                    == not_found_message() && *final(self) == *old(self),
            },
    {
        if let Some(index) = self.position(project_id) {
            self.projects.remove(index);
            assert(project_views(self.projects@) =~= project_views(old(self).projects@).remove(
                index as int,
            ));
            self.unsaved = true;
            Ok(true)
        } else {
            Err(TimerError::new("Project with given id does not exists."))
        }
    }

    /// Adds a project called `project_name`, without timers, under an id
    /// that is larger than every id in the store, and marks the store as
    /// changed. Fails, and changes nothing, if the largest id is taken.
    pub fn add_project(&mut self, project_name: String) -> (res: Result<bool, TimerError>)
        ensures
            final(self)@ == old(self)@.added(project_name@),
            match res {
                Ok(done) => done && old(self)@.has_room(),
                Err(e) => !old(self)@.has_room() && e.details@ == no_id_left_message()
                    && *final(self) == *old(self),
            },
    {
        let ghost ids = project_ids(self@.projects);
        let mut largest: u32 = 0;
        let mut i: usize = 0;
        while i < self.projects.len()
            invariant
                i <= self.projects.len(),
                ids == project_ids(project_views(self.projects@)),
                largest == largest_id(ids.subrange(0, i as int)),
            decreases self.projects.len() - i,
        {
            assert(ids.subrange(0, i + 1).drop_last() =~= ids.subrange(0, i as int));
            if self.projects[i].id > largest {
                largest = self.projects[i].id;
            }
            i += 1;
        }
        assert(ids.subrange(0, i as int) =~= ids);
        if largest == u32::MAX {
            return Err(TimerError::new("No project id is left."));
        }
        let project = Project { id: largest + 1, name: project_name, timers: Vec::new() };
        self.projects.push(project);
        assert(project_views(self.projects@) =~= project_views(old(self).projects@).push(
            project@,
        ));
        self.unsaved = true;
        Ok(true)
    }

    /// Puts `project` in the place of the first project that has its id and
    /// marks the store as changed. Fails, and changes nothing, if no project
    /// has that id.
    pub fn edit_project(&mut self, project: Project) -> (res: Result<bool, TimerError>)
        ensures
            final(self)@ == old(self)@.edited(project@),
            match res {
                Ok(done) => done && old(self)@.has_project(project.id),
                Err(e) => !old(self)@.has_project(project.id) && e.details@
                    == not_found_message() && *final(self) == *old(self),
            },
    {
        if let Some(index) = self.position(project.id) {
            let ghost replacement = project@;
            self.projects.set(index, project);
            assert(project_views(self.projects@) =~= project_views(old(self).projects@).update(
                index as int,
                replacement,
            ));
            self.unsaved = true;
            Ok(true)
        } else {
            Err(TimerError::new("Project with given id does not exists."))
        }
    }

    /// Hands out the whole content, to be written to the backing file, and
    /// marks the store as written.
    pub fn save(&mut self) -> (data: ProjectsData)
        ensures
            data@ == old(self)@.snapshot(),
            final(self)@ == old(self)@.saved(),
    {
        let favorites = self.favorites.clone();
        self.unsaved = false;
        ProjectsData { projects: clone_projects(&self.projects), favorites }
    }
}

} // verus!
