//! What holds of the store and of the state machine across several steps.

use vstd::prelude::*;

use crate::app::AppView;
use crate::confirm::{delete_prompt, verdict, PendingAction};
use crate::focus::FocusState;
use crate::input::{InputMode, InputView};
use crate::key::{KeyCode, KeyEvent, KeyEventKind, MODIFIER_NONE};
use crate::model::project::{project_ids, ProjectView};
use crate::repository::{largest_id, lemma_position, DataView, RepositoryView};

verus! {

/// A plain press of `code`.
pub open spec fn press(code: KeyCode) -> KeyEvent {
    KeyEvent { code, modifiers: MODIFIER_NONE, kind: KeyEventKind::Press }
}

/// Where no two projects share an id, the project at index `i` is the one
/// that `position` finds for its id.
pub proof fn lemma_position_of_distinct(store: RepositoryView, i: int)
    requires
        store.ids_distinct(),
        0 <= i < store.projects.len(),
    ensures
        store.position(store.projects[i].id) == Some(i),
{
    let ids = project_ids(store.projects);
    let id = store.projects[i].id;
    lemma_position(store, id);
    assert(ids[i] == id);
    let found = store.position(id).unwrap();
    assert(ids[found] == id);
}

/// Deleting an id that no project has leaves the store as it was.
pub proof fn lemma_delete_missing_changes_nothing(store: RepositoryView, id: u32)
    requires
        !store.has_project(id),
    ensures
        store.deleted(id) == store,
{
    lemma_position(store, id);
}

/// Replacing a project whose id no project has leaves the store as it was.
pub proof fn lemma_edit_missing_changes_nothing(store: RepositoryView, project: ProjectView)
    requires
        !store.has_project(project.id),
    ensures
        store.edited(project) == store,
{
    lemma_position(store, project.id);
}

/// Where no two projects share an id, deleting the id of the project at
/// index `i` removes exactly that project: the others stay in order, the
/// id is gone, and ids are still not shared.
pub proof fn lemma_delete_removes_project(store: RepositoryView, i: int)
    requires
        store.ids_distinct(),
        0 <= i < store.projects.len(),
    ensures
        store.deleted(store.projects[i].id).projects == store.projects.remove(i),
        store.deleted(store.projects[i].id).favorites == store.favorites,
        store.deleted(store.projects[i].id).unsaved,
        !store.deleted(store.projects[i].id).has_project(store.projects[i].id),
        store.deleted(store.projects[i].id).ids_distinct(),
{
    let id = store.projects[i].id;
    let ids = project_ids(store.projects);
    lemma_position_of_distinct(store, i);
    let after_ids = project_ids(store.deleted(id).projects);
    assert forall|j: int| 0 <= j < after_ids.len() implies after_ids[j] != id by {
        if j < i {
            assert(after_ids[j] == ids[j]);
        } else {
            assert(after_ids[j] == ids[j + 1]);
        }
        assert(ids[i] == id);
    }
    assert forall|j: int, k: int|
        0 <= j < after_ids.len() && 0 <= k < after_ids.len() && j != k implies after_ids[j]
        != after_ids[k] by {
        let from_j = if j < i {
            j
        } else {
            j + 1
        };
        let from_k = if k < i {
            k
        } else {
            k + 1
        };
        assert(after_ids[j] == ids[from_j]);
        assert(after_ids[k] == ids[from_k]);
    }
}

/// Where no two projects share an id, replacing the project at index `i`
/// by one with its id changes exactly that project, and ids are still not
/// shared.
pub proof fn lemma_edit_replaces_project(store: RepositoryView, i: int, project: ProjectView)
    requires
        store.ids_distinct(),
        0 <= i < store.projects.len(),
        project.id == store.projects[i].id,
    ensures
        store.edited(project).projects == store.projects.update(i, project),
        store.edited(project).favorites == store.favorites,
        store.edited(project).unsaved,
        project_ids(store.edited(project).projects) == project_ids(store.projects),
        store.edited(project).ids_distinct(),
{
    lemma_position_of_distinct(store, i);
}

/// No id of `ids` is larger than `largest_id(ids)`.
pub proof fn lemma_largest_id(ids: Seq<u32>, i: int)
    requires
        0 <= i < ids.len(),
    ensures
        ids[i] <= largest_id(ids),
    decreases ids.len(),
{
    if i < ids.len() - 1 {
        lemma_largest_id(ids.drop_last(), i);
    }
}

/// A project that is added gets an id that no project had, so ids that
/// were not shared are still not shared, and it stands last, without
/// timers, behind the projects that were there.
pub proof fn lemma_added_project_is_new(store: RepositoryView, name: Seq<char>)
    requires
        store.has_room(),
    ensures
        !store.has_project(store.fresh_id()),
        store.added(name).projects == store.projects.push(
            ProjectView { id: store.fresh_id(), name, timers: Seq::empty() },
        ),
        store.ids_distinct() ==> store.added(name).ids_distinct(),
{
    let ids = project_ids(store.projects);
    let fresh = store.fresh_id();
    assert forall|j: int| 0 <= j < ids.len() implies ids[j] != fresh by {
        lemma_largest_id(ids, j);
    }
    let after_ids = project_ids(store.added(name).projects);
    assert(after_ids =~= ids.push(fresh));
    if store.ids_distinct() {
        assert forall|j: int, k: int|
            0 <= j < after_ids.len() && 0 <= k < after_ids.len() && j != k implies after_ids[j]
            != after_ids[k] by {
            assert(j < ids.len() ==> after_ids[j] == ids[j]);
            assert(k < ids.len() ==> after_ids[k] == ids[k]);
        }
    }
}

/// What a store hands out to be written right after loading is what was
/// read, and writing changes nothing of what the store holds.
pub proof fn lemma_load_save_round_trip(file_name: Seq<char>, data: DataView)
    ensures
        RepositoryView::loaded(file_name, Some(data)).snapshot() == data,
        RepositoryView::loaded(file_name, Some(data)).saved() == RepositoryView::loaded(
            file_name,
            Some(data),
        ),
        RepositoryView::loaded(file_name, None).snapshot() == (DataView {
            projects: Seq::empty(),
            favorites: Seq::empty(),
        }),
{
}

/// The state after `keys`, one after the other.
pub open spec fn run(app: AppView, keys: Seq<KeyEvent>) -> AppView
    decreases keys.len(),
{
    if keys.len() == 0 {
        app
    } else {
        run(app, keys.drop_last()).step(keys.last())
    }
}

/// One key leads from a state in which the invariant of the state machine
/// holds to another such state.
pub proof fn lemma_step_keeps_invariant(app: AppView, key: KeyEvent)
    requires
        app.wf(),
    ensures
        app.step(key).wf(),
{
}

/// The invariant of the state machine holds at startup and after every
/// sequence of keys: one panel has the focus, it is the input panel exactly
/// while the editor is typed into, at most one confirmation is open, and
/// the screen shows the projects of the store.
pub proof fn lemma_invariant_always_holds(store: RepositoryView, keys: Seq<KeyEvent>)
    ensures
        AppView::initial(store).wf(),
        run(AppView::initial(store), keys).wf(),
    decreases keys.len(),
{
    if keys.len() > 0 {
        lemma_invariant_always_holds(store, keys.drop_last());
        lemma_step_keeps_invariant(run(AppView::initial(store), keys.drop_last()), keys.last());
    }
}

/// Entering the editor and leaving it at once with escape changes nothing
/// but the editor's cursor: the store, the project list and its selection
/// are as before, the focus is back on the project list, and the editor
/// shows the selected project's name.
pub proof fn lemma_edit_then_cancel(app: AppView)
    requires
        app.wf(),
        app.focus == FocusState::ProjectList,
        !app.confirm.visible,
        app.selected_project is Some,
    ensures
        app.step(press(KeyCode::Char('e'))).focus == FocusState::ProjectInput,
        app.step(press(KeyCode::Char('e'))).input == InputView::holding(
            app.selected().unwrap().name,
            InputMode::Editing,
        ),
        app.step(press(KeyCode::Char('e'))).step(press(KeyCode::Esc)) == (AppView {
            input: InputView::holding(app.selected().unwrap().name, InputMode::Normal),
            ..app
        }),
{
}

/// While the editor is typed into, no key but enter changes the store or
/// the project list, and escape gives the editor back the name that is
/// stored.
pub proof fn lemma_editing_keeps_store(app: AppView, key: KeyEvent)
    requires
        app.wf(),
        app.focus == FocusState::ProjectInput,
        key.code != KeyCode::Enter,
    ensures
        app.step(key).store == app.store,
        app.step(key).projects == app.projects,
        app.step(key).selected_project == app.selected_project,
        key == press(KeyCode::Esc) ==> app.step(key).input == InputView::holding(
            app.selected().unwrap().name,
            InputMode::Normal,
        ) && app.step(key).focus == FocusState::ProjectList,
{
}

/// Enter in the editor stores the selected project under the name in the
/// editor and nothing else: where no two projects share an id, the store
/// holds the renamed project in the place of the selected one, the project
/// list shows the store, the focus is on the project list, and the editor
/// shows the new name.
pub proof fn lemma_commit_renames_selected(app: AppView, i: nat)
    requires
        app.wf(),
        app.focus == FocusState::ProjectInput,
        app.selected_project == Some(i),
        app.store.ids_distinct(),
    ensures
        app.step(press(KeyCode::Enter)).store.projects == app.store.projects.update(
            i as int,
            app.store.projects[i as int].renamed(app.input.value),
        ),
        app.step(press(KeyCode::Enter)).projects == app.step(press(KeyCode::Enter)).store.projects,
        app.step(press(KeyCode::Enter)).store.unsaved,
        app.step(press(KeyCode::Enter)).focus == FocusState::ProjectList,
        app.step(press(KeyCode::Enter)).input == InputView::holding(
            app.input.value,
            InputMode::Normal,
        ),
        app.step(press(KeyCode::Enter)).error == app.error,
        app.step(press(KeyCode::Enter)).selected_project is None,
{
    let project = app.store.projects[i as int].renamed(app.input.value);
    lemma_edit_replaces_project(app.store, i as int, project);
    lemma_position(app.store, project.id);
}

/// `d` on a selected project opens the confirmation with a question that
/// names the project, and changes nothing else.
pub proof fn lemma_delete_asks_first(app: AppView, i: nat)
    requires
        app.wf(),
        app.focus == FocusState::ProjectList,
        !app.confirm.visible,
        app.selected_project == Some(i),
    ensures
        app.step(press(KeyCode::Char('d'))) == (AppView {
            confirm: app.confirm.opened(
                delete_prompt(app.projects[i as int].name),
                PendingAction::DeleteProject { id: app.projects[i as int].id },
            ),
            ..app
        }),
        app.step(press(KeyCode::Char('d'))).confirm.visible,
        app.step(press(KeyCode::Char('d'))).wf(),
{
}

/// `d` and then `n` closes the confirmation again and leaves the store,
/// the project list and its selection as they were.
pub proof fn lemma_delete_declined(app: AppView, i: nat)
    requires
        app.wf(),
        app.focus == FocusState::ProjectList,
        !app.confirm.visible,
        app.selected_project == Some(i),
    ensures
        !app.step(press(KeyCode::Char('d'))).step(press(KeyCode::Char('n'))).confirm.visible,
        app.step(press(KeyCode::Char('d'))).step(press(KeyCode::Char('n'))).store == app.store,
        app.step(press(KeyCode::Char('d'))).step(press(KeyCode::Char('n'))).projects
            == app.projects,
        app.step(press(KeyCode::Char('d'))).step(press(KeyCode::Char('n'))).selected_project
            == app.selected_project,
        app.step(press(KeyCode::Char('d'))).step(press(KeyCode::Char('n'))).error == app.error,
{
}

/// `d` and then `y` deletes the selected project: where no two projects
/// share an id, the store holds the other projects in their order, the
/// project list shows the store with nothing selected, the confirmation is
/// closed, and no error is on record that was not there before.
pub proof fn lemma_delete_confirmed(app: AppView, i: nat)
    requires
        app.wf(),
        app.focus == FocusState::ProjectList,
        !app.confirm.visible,
        app.selected_project == Some(i),
        app.store.ids_distinct(),
    ensures
        app.step(press(KeyCode::Char('d'))).step(press(KeyCode::Char('y'))).store.projects
            == app.store.projects.remove(i as int),
        app.step(press(KeyCode::Char('d'))).step(press(KeyCode::Char('y'))).projects
            == app.store.projects.remove(i as int),
        app.step(press(KeyCode::Char('d'))).step(press(KeyCode::Char('y'))).selected_project
            is None,
        !app.step(press(KeyCode::Char('d'))).step(press(KeyCode::Char('y'))).confirm.visible,
        app.step(press(KeyCode::Char('d'))).step(press(KeyCode::Char('y'))).error == app.error,
        app.step(press(KeyCode::Char('d'))).step(press(KeyCode::Char('y'))).store.unsaved,
{
    lemma_delete_removes_project(app.store, i as int);
    lemma_position(app.store, app.projects[i as int].id);
}

/// An open confirmation gets every key press before anyone else: the quit
/// flag, the focus, the editor and both selections of the lists stay as
/// they are unless the key confirms, and whatever it is the key never
/// quits, moves the focus or edits.
pub proof fn lemma_confirmation_has_priority(app: AppView, key: KeyEvent)
    requires
        app.wf(),
        app.confirm.visible,
        key.kind == KeyEventKind::Press,
    ensures
        app.step(key).should_quit == app.should_quit,
        app.step(key).focus == app.focus,
        app.step(key).input == app.input,
        app.step(key).selected_button == app.selected_button,
        !(verdict(app.confirm.yes_selected, key) is Accept) ==> app.step(key) == (AppView {
            confirm: app.confirm.handled(key),
            ..app
        }),
        app.confirm.outcome(key) is Consumed,
{
}

/// With no confirmation open, the quit chord sets the quit flag and does
/// nothing else, whatever has the focus.
pub proof fn lemma_quit(app: AppView, key: KeyEvent)
    requires
        !app.confirm.visible,
        key.kind == KeyEventKind::Press,
        key.is_quit(),
    ensures
        app.step(key) == (AppView { should_quit: true, ..app }),
{
}

/// Tab moves the focus round the three panels of the cycle and never into
/// the input panel; while the editor is typed into, tab does nothing.
pub proof fn lemma_tab_cycles(app: AppView)
    requires
        app.wf(),
        !app.confirm.visible,
    ensures
        app.focus == FocusState::ProjectInput ==> app.step(press(KeyCode::Tab)) == app,
        app.focus != FocusState::ProjectInput ==> app.step(press(KeyCode::Tab)) == (AppView {
            focus: app.focus.advanced(),
            ..app
        }) && app.step(press(KeyCode::Tab)).focus != FocusState::ProjectInput,
{
}

/// Where no two projects share an id, a step of the state machine changes
/// the projects of the store in one of three ways: not at all, by removing
/// one, or by giving one another name. Ids and timers are never touched,
/// and ids are still not shared afterwards.
pub proof fn lemma_step_changes_store_little(app: AppView, key: KeyEvent)
    requires
        app.wf(),
        app.store.ids_distinct(),
    ensures
        ({
            let before = app.store.projects;
            let after = app.step(key).store.projects;
            ||| after == before
            ||| exists|i: int| 0 <= i < before.len() && after == #[trigger] before.remove(i)
            ||| exists|i: int, name: Seq<char>|
                0 <= i < before.len() && after == #[trigger] before.update(
                    i,
                    before[i].renamed(name),
                )
        }),
        app.step(key).store.ids_distinct(),
        app.step(key).store.favorites == app.store.favorites,
        app.step(key).store.file_name == app.store.file_name,
{
    let before = app.store.projects;
    let after = app.step(key).store.projects;
    if after != before {
        if app.confirm.visible {
            match app.confirm.pending_action {
                Some(PendingAction::DeleteProject { id }) => {
                    lemma_position(app.store, id);
                    let i = app.store.position(id).unwrap();
                    lemma_delete_removes_project(app.store, i);
                },
                None => {},
            }
        } else {
            let j = app.selected_project.unwrap() as int;
            let project = before[j].renamed(app.input.value);
            lemma_edit_replaces_project(app.store, j, project);
        }
    }
}

/// While the editor is at rest, no key types into it: after any key it is
/// as it was, or it holds the name of the project that is then selected.
pub proof fn lemma_keys_edit_only_while_editing(app: AppView, key: KeyEvent)
    requires
        app.wf(),
        app.input.mode == InputMode::Normal,
    ensures
        app.step(key).input == app.input || (app.step(key).selected() matches Some(project)
            && app.step(key).input.value == project.name
            && app.step(key).input.cursor == project.name.len()),
{
}

/// Where no two projects share an id, no step of the state machine starts
/// or stops a timer: if every project had at most one running timer, every
/// project still has.
pub proof fn lemma_step_keeps_running_timers(app: AppView, key: KeyEvent)
    requires
        app.wf(),
        app.store.ids_distinct(),
        forall|i: int|
            0 <= i < app.store.projects.len() ==> (
            #[trigger] app.store.projects[i]).at_most_one_running(),
    ensures
        forall|i: int|
            0 <= i < app.step(key).store.projects.len() ==> (
            #[trigger] app.step(key).store.projects[i]).at_most_one_running(),
{
    lemma_step_changes_store_little(app, key);
    let before = app.store.projects;
    let after = app.step(key).store.projects;
    assert forall|i: int| 0 <= i < after.len() implies (
    #[trigger] after[i]).at_most_one_running() by {
        if after == before {
        } else if exists|k: int| 0 <= k < before.len() && after == #[trigger] before.remove(k) {
            let k = choose|k: int| 0 <= k < before.len() && after == #[trigger] before.remove(k);
            assert(after[i] == if i < k {
                before[i]
            } else {
                before[i + 1]
            });
        } else {
            let (k, name) = choose|k: int, name: Seq<char>|
                0 <= k < before.len() && after == #[trigger] before.update(
                    k,
                    before[k].renamed(name),
                );
            assert(after[i].timers == before[i].timers);
        }
    }
}

} // verus!
