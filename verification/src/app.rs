//! The application state machine: it owns the store, the project list and
//! the timer buttons, the name editor and the confirmation, and sends every
//! key to the one of them that the focus and the mode name.

use vstd::prelude::*;
use vstd::string::*;

use crate::confirm::{
    delete_prompt, delete_prompt_text, ConfirmDialogComponent, ConfirmView, Outcome, PendingAction,
};
use crate::error::TimerError;
use crate::focus::FocusState;
use crate::input::{InputComponent, InputMode, InputView};
use crate::key::{KeyCode, KeyEvent, KeyEventKind};
use crate::model::project::{
    clone_projects, project_views, same_projects, Project, ProjectView,
};
use crate::model::timer::Timer;
use crate::repository::{
    not_found_message, stored_view, ProjectsData, Repository, RepositoryView,
};
use crate::text::optional_text;
use crate::stateful_list::{
    next_selection, previous_selection, selection_in_range, StatefulList,
};

verus! {

/// A button of the timer controls.
#[derive(Debug, Clone, Copy)]
pub struct ButtonState<'a> {
    pub text: &'a str,
}

impl<'a> ButtonState<'a> {
    /// A button labelled `text`.
    pub fn new(text: &'a str) -> (button: Self)
        ensures
            button.text == text,
    {
        Self { text }
    }

    /// The label as it is shown: between square brackets if the button is
    /// selected, between blanks of the same width if it is not.
    pub fn label(&self, selected: bool) -> (label: String)
        ensures
            label@ == shown_label(self.text@, selected),
    {
        let mut label = String::from_str(if selected { "[ " } else { "  " });
        label.append(self.text);
        label.append(if selected { " ]" } else { "  " });
        label
    }
}

/// A button's label as it is shown.
pub open spec fn shown_label(text: Seq<char>, selected: bool) -> Seq<char> {
    if selected {
        "[ "@ + text + " ]"@
    } else {
        "  "@ + text + "  "@
    }
}

/// What the header shows while no project is selected.
pub open spec fn no_project_selected() -> Seq<char> {
    "No project selected"@
}

/// The labels of `buttons`, in order.
pub open spec fn button_labels(buttons: Seq<ButtonState<'static>>) -> Seq<Seq<char>> {
    buttons.map_values(|b: ButtonState<'static>| b.text@)
}

/// The labels of the timer controls.
pub open spec fn timer_button_labels() -> Seq<Seq<char>> {
    seq!["New project"@, "Start"@, "Stop"@]
}

/// The state of the application, as mathematical values: the quit flag, the
/// project list on screen and its selection, the timer buttons and their
/// selection, the focus, the editor, the last error, the confirmation, and
/// the store.
#[verifier::ext_equal]
pub struct AppView {
    pub should_quit: bool,
    pub projects: Seq<ProjectView>,
    pub selected_project: Option<nat>,
    pub buttons: Seq<Seq<char>>,
    pub selected_button: Option<nat>,
    pub focus: FocusState,
    pub input: InputView,
    pub error: Option<Seq<char>>,
    pub confirm: ConfirmView,
    pub store: RepositoryView,
}

impl AppView {
    /// The state at startup, over `store`: the timer buttons have the
    /// focus, nothing is selected, the editor is empty and no confirmation
    /// is shown.
    pub open spec fn initial(store: RepositoryView) -> AppView {
        AppView {
            should_quit: false,
            projects: store.projects,
            selected_project: None,
            buttons: timer_button_labels(),
            selected_button: None,
            focus: FocusState::TimerButtons,
            input: InputView::holding(Seq::empty(), InputMode::Normal),
            error: None,
            confirm: ConfirmView {
                visible: false,
                prompt: Seq::empty(),
                pending_action: None,
                yes_selected: false,
            },
            store,
        }
    }

    /// The invariant of the state machine. Selections point into their
    /// lists and the cursor into the text; the input panel has the focus
    /// exactly while the editor is being typed into, and then a project is
    /// selected; a confirmation is shown only over the project list; and
    /// the project list on screen is the one in the store.
    pub open spec fn wf(self) -> bool {
        &&& selection_in_range(self.selected_project, self.projects.len())
        &&& selection_in_range(self.selected_button, self.buttons.len())
        &&& self.input.wf()
        &&& self.confirm.wf()
        &&& (self.focus == FocusState::ProjectInput <==> self.input.mode == InputMode::Editing)
        &&& (self.focus == FocusState::ProjectInput ==> self.selected_project is Some)
        &&& (self.confirm.visible ==> self.focus == FocusState::ProjectList)
        &&& self.projects == self.store.projects
    }

    /// The selected project, if one is selected.
    pub open spec fn selected(self) -> Option<ProjectView> {
        match self.selected_project {
            Some(i) => Some(self.projects[i as int]),
            None => None,
        }
    }

    /// The editor shows the name of the selected project, if one is
    /// selected.
    pub open spec fn mirrored(self) -> AppView {
        match self.selected() {
            Some(project) => AppView {
                input: InputView::holding(project.name, InputMode::Normal),
                ..self
            },
            None => self,
        }
    }

    /// After the up key: in the project list the selection moves backward
    /// and the editor follows it.
    pub open spec fn up(self) -> AppView {
        if self.focus == FocusState::ProjectList {
            AppView {
                selected_project: previous_selection(self.selected_project, self.projects.len()),
                ..self
            }.mirrored()
        } else {
            self
        }
    }

    /// After the down key: in the project list the selection moves forward
    /// and the editor follows it.
    pub open spec fn down(self) -> AppView {
        if self.focus == FocusState::ProjectList {
            AppView {
                selected_project: next_selection(self.selected_project, self.projects.len()),
                ..self
            }.mirrored()
        } else {
            self
        }
    }

    /// After the left key: among the timer buttons the selection moves
    /// backward.
    pub open spec fn left(self) -> AppView {
        if self.focus == FocusState::TimerButtons {
            AppView {
                selected_button: previous_selection(self.selected_button, self.buttons.len()),
                ..self
            }
        } else {
            self
        }
    }

    /// After the right key: among the timer buttons the selection moves
    /// forward.
    pub open spec fn right(self) -> AppView {
        if self.focus == FocusState::TimerButtons {
            AppView {
                selected_button: next_selection(self.selected_button, self.buttons.len()),
                ..self
            }
        } else {
            self
        }
    }

    /// After the focus moved on to the next panel.
    pub open spec fn tab(self) -> AppView {
        AppView { focus: self.focus.advanced(), ..self }
    }

    /// After the store was asked to delete the project with the id `id`:
    /// the store without it, or the error on record if there is no such
    /// project.
    pub open spec fn store_deleted(self, id: u32) -> AppView {
        AppView {
            store: self.store.deleted(id),
            error: if self.store.has_project(id) {
                self.error
            } else {
                Some(not_found_message())
            },
            ..self
        }
    }

    /// After the store was asked to replace a project by `project`: the
    /// store with the replacement, or the error on record if no project has
    /// its id.
    pub open spec fn store_edited(self, project: ProjectView) -> AppView {
        AppView {
            store: self.store.edited(project),
            error: if self.store.has_project(project.id) {
                self.error
            } else {
                Some(not_found_message())
            },
            ..self
        }
    }

    /// After the project list was read from the store again: it shows what
    /// the store holds, with nothing selected.
    pub open spec fn reloaded(self) -> AppView {
        AppView { projects: self.store.projects, selected_project: None, ..self }
    }

    /// After `e` in the project list: if a project is selected, the input
    /// panel gets the focus and the editor is typed into, starting from the
    /// project's name.
    pub open spec fn edit_entered(self) -> AppView {
        match self.selected() {
            Some(project) => AppView {
                focus: FocusState::ProjectInput,
                input: InputView::holding(project.name, InputMode::Editing),
                ..self
            },
            None => self,
        }
    }

    /// After `d` in the project list: if a project is selected, the
    /// confirmation asks about it by name and holds its deletion.
    pub open spec fn delete_requested(self) -> AppView {
        match self.selected() {
            Some(project) => AppView {
                confirm: self.confirm.opened(
                    delete_prompt(project.name),
                    PendingAction::DeleteProject { id: project.id },
                ),
                ..self
            },
            None => self,
        }
    }

    /// After enter in the input panel: the selected project is stored under
    /// the name in the editor, the project list is read again, and the
    /// focus is back on it with the editor at rest.
    pub open spec fn committed(self) -> AppView {
        match self.selected() {
            Some(project) => AppView {
                input: InputView::holding(self.input.value, InputMode::Normal),
                focus: FocusState::ProjectList,
                ..self.store_edited(project.renamed(self.input.value))
            }.reloaded(),
            None => self,
        }
    }

    /// After escape in the input panel: the editor is at rest and shows the
    /// selected project's name again, and the focus is back on the project
    /// list.
    pub open spec fn cancelled(self) -> AppView {
        match self.selected() {
            Some(project) => AppView {
                input: InputView::holding(project.name, InputMode::Normal),
                focus: FocusState::ProjectList,
                ..self
            },
            None => AppView {
                input: InputView { mode: InputMode::Normal, ..self.input },
                ..self
            },
        }
    }

    /// After the confirmation handed out `action`: the project is deleted
    /// from the store and the project list is read again.
    pub open spec fn confirmed(self, action: PendingAction) -> AppView {
        match action {
            PendingAction::DeleteProject { id } => self.store_deleted(id).reloaded(),
        }
    }

    /// After a key that goes to the panel with the focus. The project list
    /// knows `e` and `d`; the input panel knows enter and escape and, while
    /// it is typed into, hands every other key to the editor; the other
    /// panels know none.
    pub open spec fn routed(self, key: KeyEvent) -> AppView {
        match self.focus {
            FocusState::ProjectList => match key.code {
                KeyCode::Char(c) => if c == 'e' {
                    self.edit_entered()
                } else if c == 'd' {
                    self.delete_requested()
                } else {
                    self
                },
                _ => self,
            },
            FocusState::ProjectInput => match key.code {
                KeyCode::Enter => self.committed(),
                KeyCode::Esc => self.cancelled(),
                _ => if self.input.mode == InputMode::Editing {
                    AppView { input: self.input.keyed(key), ..self }
                } else {
                    self
                },
            },
            _ => self,
        }
    }

    /// The state after `key`. Only key presses count. An open confirmation
    /// gets the key before anything else; if it hands out its action, the
    /// action is carried out. Otherwise the quit chord sets the quit flag,
    /// the arrow keys navigate, tab moves the focus unless the editor is
    /// typed into, and every other key goes to the panel with the focus.
    pub open spec fn step(self, key: KeyEvent) -> AppView {
        if key.kind != KeyEventKind::Press {
            self
        } else if self.confirm.visible {
            let answered = AppView { confirm: self.confirm.handled(key), ..self };
            match self.confirm.outcome(key) {
                Outcome::Consumed(Some(action)) => answered.confirmed(action),
                _ => answered,
            }
        } else if key.is_quit() {
            AppView { should_quit: true, ..self }
        } else {
            match key.code {
                KeyCode::Up => self.up(),
                KeyCode::Down => self.down(),
                KeyCode::Left => self.left(),
                KeyCode::Right => self.right(),
                KeyCode::Tab => if self.input.mode != InputMode::Editing {
                    self.tab()
                } else {
                    self
                },
                _ => self.routed(key),
            }
        }
    }

    /// After the content of the store was handed out to be written.
    pub open spec fn saved(self) -> AppView {
        AppView { store: self.store.saved(), ..self }
    }

    /// After the outcome of a write was reported: a failure is on record as
    /// the last error, and nothing else changes.
    pub open spec fn save_reported(self, failure: Option<Seq<char>>) -> AppView {
        match failure {
            Some(message) => AppView { error: Some(message), ..self },
            None => self,
        }
    }
}

/// The application: what the screen shows and the store behind it.
pub struct App {
    pub should_quit: bool,
    pub projects: StatefulList<Project>,
    pub timer_buttons: StatefulList<ButtonState<'static>>,
    pub focus: FocusState,
    pub project_input: InputComponent,
    pub error: Option<String>,
    pub confirm_dialog_component: ConfirmDialogComponent,
    pub repository: Repository,
}

impl View for App {
    type V = AppView;

    open spec fn view(&self) -> AppView {
        AppView {
            should_quit: self.should_quit,
            projects: project_views(self.projects.items@),
            selected_project: self.projects.selection(),
            buttons: button_labels(self.timer_buttons.items@),
            selected_button: self.timer_buttons.selection(),
            focus: self.focus,
            input: self.project_input@,
            error: optional_text(self.error),
            confirm: self.confirm_dialog_component@,
            store: self.repository@,
        }
    }
}

impl App {
    /// The invariant of the state machine holds.
    pub open spec fn wf(&self) -> bool {
        self@.wf()
    }

    /// Decides `wf`.
    pub fn is_well_formed(&self) -> (ok: bool)
        ensures
            ok == self.wf(),
    {
        let editing = self.project_input.mode == InputMode::Editing;
        let in_input = self.focus == FocusState::ProjectInput;
        self.projects.is_well_formed() && self.timer_buttons.is_well_formed()
            && self.project_input.is_well_formed() && self.confirm_dialog_component.is_well_formed()
            && editing == in_input && (!in_input || self.projects.selected.is_some()) && (
        !self.confirm_dialog_component.visible || self.focus == FocusState::ProjectList)
            && same_projects(&self.projects.items, self.repository.find_all())
    }

    /// The application at startup, over the store for the file called
    /// `file_name`. `stored` is what was read from that file, or `None` if
    /// the file is missing or what it holds could not be read.
    pub fn new(file_name: &str, stored: Option<ProjectsData>) -> (app: Self)
        ensures
            app@ == AppView::initial(RepositoryView::loaded(file_name@, stored_view(stored))),
            app.wf(),
    {
        let repository = Repository::new(file_name, stored);
        let mut buttons: Vec<ButtonState<'static>> = Vec::new();
        buttons.push(ButtonState::new("New project"));
        buttons.push(ButtonState::new("Start"));
        buttons.push(ButtonState::new("Stop"));
        Self {
            should_quit: false,
            projects: StatefulList::with_items(clone_projects(repository.find_all())),
            timer_buttons: StatefulList::with_items(buttons),
            focus: FocusState::initial(),
            project_input: InputComponent::default(),
            error: None,
            confirm_dialog_component: ConfirmDialogComponent::new(),
            repository,
        }
    }

    /// The project that is selected in the project list, if one is.
    pub fn selected_project(&self) -> (project: Option<&Project>)
        requires
            self.projects.wf(),
        ensures
            match project {
                Some(p) => self@.selected() == Some(p@),
                None => self@.selected() is None,
            },
    {
        self.projects.selected()
    }

    /// The name of the selected project, for the header, or the words that
    /// say that none is selected.
    pub fn selected_project_name(&self) -> (name: String)
        requires
            self.projects.wf(),
        ensures
            name@ == match self@.selected() {
                Some(p) => p.name,
                None => no_project_selected(),
            },
    {
        match self.projects.selected() {
            Some(project) => project.name.clone(),
            None => String::from_str("No project selected"),
        }
    }

    /// The timers of the selected project, oldest first; none if no
    /// project is selected.
    pub fn selected_timers(&self) -> (timers: Vec<Timer>)
        requires
            self.projects.wf(),
        ensures
            timers@ == match self@.selected() {
                Some(p) => p.timers,
                None => Seq::empty(),
            },
    {
        match self.projects.selected() {
            Some(project) => {
                let timers = project.timers.clone();
                timers
            },
            None => Vec::new(),
        }
    }

    /// Whether the store has changed since it was last read or handed out
    /// to be written.
    pub fn needs_save(&self) -> (unsaved: bool)
        ensures
            unsaved == self@.store.unsaved,
    {
        self.repository.has_unsaved_changes()
    }

    /// Hands out the content of the store, to be written to its file, and
    /// marks the store as written.
    pub fn save(&mut self) -> (data: ProjectsData)
        ensures
            data@ == old(self)@.store.snapshot(),
            final(self)@ == old(self)@.saved(),
            old(self).wf() ==> final(self).wf(),
    {
        self.repository.save()
    }

    /// Takes the outcome of writing the store to its file. A failure is
    /// kept as the last error; the state is otherwise as it was.
    pub fn on_saved(&mut self, result: Result<(), TimerError>)
        ensures
            final(self)@ == old(self)@.save_reported(
                match result {
                    Ok(_) => None,
                    Err(e) => Some(e.details@),
                },
            ),
            old(self).wf() ==> final(self).wf(),
    {
        if let Err(e) = result {
            self.error = Some(e.details);
        }
    }

    /// Handles the left key.
    pub fn on_left(&mut self)
        requires
            old(self).wf(),
        ensures
            final(self).wf(),
            final(self)@ == old(self)@.left(),
    {
        if self.focus == FocusState::TimerButtons {
            self.timer_buttons.previous();
        }
    }

    /// Handles the right key.
    pub fn on_right(&mut self)
        requires
            old(self).wf(),
        ensures
            final(self).wf(),
            final(self)@ == old(self)@.right(),
    {
        if self.focus == FocusState::TimerButtons {
            self.timer_buttons.next();
        }
    }

    /// Shows the selected project's name in the editor.
    fn mirror_selection(&mut self)
        requires
            old(self).projects.wf(),
        ensures
            final(self)@ == old(self)@.mirrored(),
    {
        let name = match self.projects.selected() {
            Some(project) => Some(project.name.clone()),
            None => None,
        };
        if let Some(name) = name {
            self.project_input = InputComponent::new(name, InputMode::Normal);
        }
    }

    /// Handles the up key.
    pub fn on_up(&mut self)
        requires
            old(self).wf(),
        ensures
            final(self).wf(),
            final(self)@ == old(self)@.up(),
    {
        if self.focus == FocusState::ProjectList {
            self.projects.previous();
            self.mirror_selection();
        }
    }

    /// Handles the down key.
    pub fn on_down(&mut self)
        requires
            old(self).wf(),
        ensures
            final(self).wf(),
            final(self)@ == old(self)@.down(),
    {
        if self.focus == FocusState::ProjectList {
            self.projects.next();
            self.mirror_selection();
        }
    }

    /// Moves the focus to the next panel of the cycle. The input panel is
    /// not part of the cycle and keeps the focus.
    pub fn on_tab(&mut self)
        ensures
            final(self)@ == old(self)@.tab(),
            old(self).wf() && !old(self).confirm_dialog_component.visible ==> final(self).wf(),
    {
        self.focus = self.focus.advance_focus();
    }

    /// Reads the project list from the store again.
    fn reload_projects(&mut self)
        ensures
            final(self)@ == old(self)@.reloaded(),
    {
        self.projects = StatefulList::with_items(clone_projects(self.repository.find_all()));
    }

    /// Asks the store to delete the project with the id `project_id`. If
    /// there is no such project, the failure is kept as the last error.
    pub fn delete_project(&mut self, project_id: u32)
        ensures
            final(self)@ == old(self)@.store_deleted(project_id),
    {
        if let Err(err) = self.repository.delete_project(project_id) {
            self.error = Some(err.details);
        }
    }

    /// Asks the store to replace the project that has the id of `project`
    /// by it. If there is no such project, the failure is kept as the last
    /// error.
    pub fn edit_project(&mut self, project: Project)
        ensures
            final(self)@ == old(self)@.store_edited(project@),
    {
        if let Err(err) = self.repository.edit_project(project) {
            self.error = Some(err.details);
        }
    }

    /// Carries out what the confirmation handed out.
    fn carry_out(&mut self, action: PendingAction)
        requires
            old(self).wf(),
            old(self).focus != FocusState::ProjectInput,
        ensures
            final(self).wf(),
            final(self)@ == old(self)@.confirmed(action),
    {
        match action {
            PendingAction::DeleteProject { id } => {
                self.delete_project(id);
                self.reload_projects();
            },
        }
    }

    /// Enters editing of the selected project's name.
    fn enter_edit(&mut self)
        requires
            old(self).wf(),
            old(self).focus == FocusState::ProjectList,
            !old(self).confirm_dialog_component.visible,
        ensures
            final(self).wf(),
            final(self)@ == old(self)@.edit_entered(),
    {
        let name = match self.projects.selected() {
            Some(project) => Some(project.name.clone()),
            None => None,
        };
        if let Some(name) = name {
            self.focus = FocusState::ProjectInput;
            self.project_input = InputComponent::new(name, InputMode::Editing);
        }
    }

    /// Opens the confirmation for deleting the selected project.
    fn request_delete(&mut self)
        requires
            old(self).wf(),
            old(self).focus == FocusState::ProjectList,
        ensures
            final(self).wf(),
            final(self)@ == old(self)@.delete_requested(),
    {
        let request = match self.projects.selected() {
            Some(project) => Some((delete_prompt_text(project.name.as_str()), project.id)),
            None => None,
        };
        if let Some((prompt, id)) = request {
            self.confirm_dialog_component.open(prompt, PendingAction::DeleteProject { id });
        }
    }

    /// Stores the selected project under the name in the editor.
    fn commit_edit(&mut self)
        requires
            old(self).wf(),
            !old(self).confirm_dialog_component.visible,
        ensures
            final(self).wf(),
            final(self)@ == old(self)@.committed(),
    {
        let edited = match self.projects.selected() {
            Some(project) => Some(project.clone()),
            None => None,
        };
        if let Some(mut project) = edited {
            let new_project_name = self.project_input.value.clone();
            project.name = new_project_name.clone();
            self.edit_project(project);
            self.project_input = InputComponent::new(new_project_name, InputMode::Normal);
            self.focus = FocusState::ProjectList;
            self.reload_projects();
        }
    }

    /// Drops the edit and shows the selected project's name again.
    fn cancel_edit(&mut self)
        requires
            old(self).wf(),
            old(self).focus == FocusState::ProjectInput,
            !old(self).confirm_dialog_component.visible,
        ensures
            final(self).wf(),
            final(self)@ == old(self)@.cancelled(),
    {
        self.project_input.mode = InputMode::Normal;
        let name = match self.projects.selected() {
            Some(project) => Some(project.name.clone()),
            None => None,
        };
        if let Some(name) = name {
            self.project_input = InputComponent::new(name, InputMode::Normal);
            self.focus = FocusState::ProjectList;
        }
    }

    /// Handles a key that goes to the panel with the focus.
    fn on_focused_key(&mut self, key_event: &KeyEvent)
        requires
            old(self).wf(),
            !old(self).confirm_dialog_component.visible,
        ensures
            final(self).wf(),
            final(self)@ == old(self)@.routed(*key_event),
    {
        match self.focus {
            FocusState::ProjectList => {
                match key_event.code {
                    KeyCode::Char(c) => {
                        if c == 'e' {
                            self.enter_edit();
                        } else if c == 'd' {
                            self.request_delete();
                        }
                    },
                    _ => {},
                }
            },
            FocusState::ProjectInput => {
                match key_event.code {
                    KeyCode::Enter => self.commit_edit(),
                    KeyCode::Esc => self.cancel_edit(),
                    _ => {
                        if self.project_input.mode == InputMode::Editing {
                            self.project_input.handle_key(key_event);
                        }
                    },
                }
            },
            _ => {},
        }
    }

    /// Handles one keyboard event: see `AppView::step`.
    pub fn on_key(&mut self, key_event: KeyEvent)
        requires
            old(self).wf(),
        ensures
            final(self).wf(),
            final(self)@ == old(self)@.step(key_event),
    {
        if key_event.kind != KeyEventKind::Press {
            return ;
        }
        match self.confirm_dialog_component.handle_key(&key_event) {
            Outcome::Consumed(released) => {
                if let Some(action) = released {
                    self.carry_out(action);
                }
                return ;
            },
            Outcome::NotOpen => {},
        }
        if key_event.quits() {
            self.should_quit = true;
            return ;
        }
        match key_event.code {
            KeyCode::Up => self.on_up(),
            KeyCode::Down => self.on_down(),
            KeyCode::Left => self.on_left(),
            KeyCode::Right => self.on_right(),
            KeyCode::Tab => {
                if self.project_input.mode != InputMode::Editing {
                    self.on_tab();
                }
            },
            _ => self.on_focused_key(&key_event),
        }
    }
}

} // verus!
