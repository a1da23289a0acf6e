//! The yes/no confirmation that guards a destructive action.

use vstd::prelude::*;
use vstd::string::*;

use crate::key::{KeyCode, KeyEvent, KeyEventKind};

verus! {

/// What is done once the user confirms.
#[derive(Debug, Clone, Copy, PartialEq, Eq, Structural)]
pub enum PendingAction {
    /// Delete the project with this id.
    DeleteProject { id: u32 },
}

/// What became of a key that was offered to the confirmation.
#[derive(Debug, Clone, Copy, PartialEq, Eq, Structural)]
pub enum Outcome {
    /// No confirmation is open: the key is for someone else.
    NotOpen,
    /// The confirmation took the key. If the key confirmed, the action that
    /// was pending is handed out to be carried out.
    Consumed(Option<PendingAction>),
}

/// How an open confirmation answers a key.
pub enum Verdict {
    /// Close, and carry out the pending action.
    Accept,
    /// Close, and drop the pending action.
    Dismiss,
    /// Stay open, with the given button highlighted.
    Highlight { yes: bool },
    /// Stay open, unchanged.
    Ignore,
}

/// The answer of an open confirmation whose highlighted button is "yes" iff
/// `yes_selected` to `key`: `y` accepts and `n` dismisses, enter takes the
/// highlighted button, escape dismisses, left and right highlight "yes" and
/// "no", and every other key, or an event that is no key press, is ignored.
pub open spec fn verdict(yes_selected: bool, key: KeyEvent) -> Verdict {
    if key.kind != KeyEventKind::Press {
        Verdict::Ignore
    } else {
        match key.code {
            KeyCode::Char(c) => if c == 'y' {
                Verdict::Accept
            } else if c == 'n' {
                Verdict::Dismiss
            } else {
                Verdict::Ignore
            },
            KeyCode::Enter => if yes_selected {
                Verdict::Accept
            } else {
                Verdict::Dismiss
            },
            KeyCode::Esc => Verdict::Dismiss,
            KeyCode::Left => Verdict::Highlight { yes: true },
            KeyCode::Right => Verdict::Highlight { yes: false },
            _ => Verdict::Ignore,
        }
    }
}

/// What a `ConfirmDialogComponent` holds, as mathematical values.
#[verifier::ext_equal]
pub struct ConfirmView {
    pub visible: bool,
    pub prompt: Seq<char>,
    pub pending_action: Option<PendingAction>,
    pub yes_selected: bool,
}

impl ConfirmView {
    /// An action is pending exactly while the confirmation is shown.
    pub open spec fn wf(self) -> bool {
        self.visible <==> self.pending_action is Some
    }

    /// The confirmation after it was shown with `prompt` and `action`.
    pub open spec fn opened(self, prompt: Seq<char>, action: PendingAction) -> ConfirmView {
        ConfirmView { visible: true, prompt, pending_action: Some(action), yes_selected: false }
    }

    /// The confirmation after `key` was offered to it.
    pub open spec fn handled(self, key: KeyEvent) -> ConfirmView {
        if !self.visible {
            self
        } else {
            match verdict(self.yes_selected, key) {
                Verdict::Accept => ConfirmView { visible: false, pending_action: None, ..self },
                Verdict::Dismiss => ConfirmView { visible: false, pending_action: None, ..self },
                Verdict::Highlight { yes } => ConfirmView { yes_selected: yes, ..self },
                Verdict::Ignore => self,
            }
        }
    }

    /// What is reported back when `key` is offered.
    pub open spec fn outcome(self, key: KeyEvent) -> Outcome {
        if !self.visible {
            Outcome::NotOpen
        } else {
            match verdict(self.yes_selected, key) {
                Verdict::Accept => Outcome::Consumed(self.pending_action),
                _ => Outcome::Consumed(None),
            }
        }
    }
}

/// The question put to the user before the project called `name` is
/// deleted.
pub open spec fn delete_prompt(name: Seq<char>) -> Seq<char> {
    "Are you sure you want to delete project with name: "@ + name + "?"@
}

/// Builds `delete_prompt`.
pub fn delete_prompt_text(name: &str) -> (prompt: String)
    ensures
        prompt@ == delete_prompt(name@),
{
    let mut prompt = String::from_str("Are you sure you want to delete project with name: ");
    prompt.append(name);
    prompt.append("?");
    prompt
}

/// The state of the confirmation: whether it is shown, the question it
/// asks, the action that waits for a "yes", and which button is
/// highlighted.
#[derive(Debug)]
pub struct ConfirmDialogComponent {
    pub visible: bool,
    pub prompt: String,
    pub pending_action: Option<PendingAction>,
    pub yes_selected: bool,
}

impl View for ConfirmDialogComponent {
    type V = ConfirmView;

    open spec fn view(&self) -> ConfirmView {
        ConfirmView {
            visible: self.visible,
            prompt: self.prompt@,
            pending_action: self.pending_action,
            yes_selected: self.yes_selected,
        }
    }
}

impl ConfirmDialogComponent {
    /// An action is pending exactly while the confirmation is shown.
    pub open spec fn wf(&self) -> bool {
        self@.wf()
    }

    /// Decides `wf`.
    pub fn is_well_formed(&self) -> (ok: bool)
        ensures
            ok == self.wf(),
    {
        match self.pending_action {
            Some(_) => self.visible,
            None => !self.visible,
        }
    }

    /// A confirmation that is not shown.
    pub fn new() -> (dialog: Self)
        ensures
            !dialog.visible,
            dialog.prompt@ == Seq::<char>::empty(),
            dialog.pending_action is None,
            !dialog.yes_selected,
            dialog.wf(),
    {
        Self { visible: false, prompt: String::new(), pending_action: None, yes_selected: false }
    }

    /// Whether the confirmation is shown.
    pub fn is_opened(&self) -> (opened: bool)
        ensures
            opened == self.visible,
    {
        self.visible
    }

    /// Shows the confirmation with the question `prompt`, "no" highlighted,
    /// and `action` waiting. A confirmation that was already shown is
    /// replaced.
    pub fn open(&mut self, prompt: String, action: PendingAction)
        ensures
            final(self).prompt == prompt,
            final(self)@ == old(self)@.opened(prompt@, action),
            final(self).wf(),
    {
        self.visible = true;
        self.prompt = prompt;
        self.pending_action = Some(action);
        self.yes_selected = false;
    }

    /// Offers `key` to the confirmation. A confirmation that is not shown
    /// leaves the key to others. One that is shown takes every key: it
    /// closes and hands out its action on "yes", closes and drops the
    /// action on "no", and otherwise stays open.
    pub fn handle_key(&mut self, key: &KeyEvent) -> (outcome: Outcome)
        requires
            old(self).wf(),
        ensures
            final(self).wf(),
            final(self)@ == old(self)@.handled(*key),
            final(self).prompt == old(self).prompt,
            outcome == old(self)@.outcome(*key),
    {
        if !self.visible {
            return Outcome::NotOpen;
        }
        if key.kind != KeyEventKind::Press {
            return Outcome::Consumed(None);
        }
        match key.code {
            KeyCode::Char(c) => {
                if c == 'y' {
                    self.accept()
                } else if c == 'n' {
                    self.dismiss()
                } else {
                    Outcome::Consumed(None)
                }
            },
            KeyCode::Enter => {
                if self.yes_selected {
                    self.accept()
                } else {
                    self.dismiss()
                }
            },
            KeyCode::Esc => self.dismiss(),
            KeyCode::Left => {
                self.yes_selected = true;
                Outcome::Consumed(None)
            },
            KeyCode::Right => {
                self.yes_selected = false;
                Outcome::Consumed(None)
            },
            _ => Outcome::Consumed(None),
        }
    }

    /// Closes the confirmation and hands out the pending action.
    fn accept(&mut self) -> (outcome: Outcome)
        ensures
            outcome == Outcome::Consumed(old(self).pending_action),
            !final(self).visible,
            final(self).pending_action is None,
            final(self).prompt == old(self).prompt,
            final(self).yes_selected == old(self).yes_selected,
    {
        let action = self.pending_action;
        self.visible = false;
        self.pending_action = None;
        Outcome::Consumed(action)
    }

    /// Closes the confirmation and drops the pending action.
    fn dismiss(&mut self) -> (outcome: Outcome)
        ensures
            outcome == Outcome::Consumed(None),
            !final(self).visible,
            final(self).pending_action is None,
            final(self).prompt == old(self).prompt,
            final(self).yes_selected == old(self).yes_selected,
    {
        self.visible = false;
        self.pending_action = None;
        Outcome::Consumed(None)
    }
}

} // verus!
