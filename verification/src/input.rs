//! The single-line editor for a project's name: a text buffer, a cursor
//! counted in characters, and the mode that says whether keys edit it.

use tui_input::{Input, InputRequest};
use vstd::prelude::*;
use vstd::string::*;

use crate::key::{KeyCode, KeyEvent, MODIFIER_NONE, MODIFIER_SHIFT};

verus! {

/// Whether the editor is being typed into.
#[derive(Debug, Clone, Copy, PartialEq, Eq, Structural)]
pub enum InputMode {
    Normal,
    Editing,
}

/// A direction for the cursor.
#[derive(Debug, Clone, Copy, PartialEq, Eq, Structural)]
pub enum CursorMove {
    Left,
    Right,
}

/// One change to the buffer or the cursor.
#[derive(Debug, Clone, Copy, PartialEq, Eq, Structural)]
pub enum EditRequest {
    InsertChar(char),
    DeletePrevChar,
    GoToPrevChar,
    GoToNextChar,
}

/// The buffer after `request`, for a buffer `value` with the cursor before
/// character `cursor`: a character is inserted at the cursor, a deletion
/// removes the character before the cursor if there is one, and cursor
/// movement leaves the buffer alone.
pub open spec fn edited_value(value: Seq<char>, cursor: nat, request: EditRequest) -> Seq<char> {
    match request {
        EditRequest::InsertChar(c) => value.insert(cursor as int, c),
        EditRequest::DeletePrevChar => if cursor == 0 {
            value
        } else {
            value.remove(cursor - 1)
        },
        EditRequest::GoToPrevChar => value,
        EditRequest::GoToNextChar => value,
    }
}

/// The cursor after `request`: behind an inserted character, before the
/// place of a deleted one, and one character to the left or right for a
/// movement, never leaving the buffer.
pub open spec fn edited_cursor(value: Seq<char>, cursor: nat, request: EditRequest) -> nat {
    match request {
        EditRequest::InsertChar(c) => cursor + 1,
        EditRequest::DeletePrevChar => if cursor == 0 {
            0
        } else {
            (cursor - 1) as nat
        },
        EditRequest::GoToPrevChar => if cursor == 0 {
            0
        } else {
            (cursor - 1) as nat
        },
        EditRequest::GoToNextChar => if cursor == value.len() {
            cursor
        } else {
            cursor + 1
        },
    }
}

/// The column at which the cursor is drawn, which differs from the cursor
/// where characters before it are wider or narrower than one column.
pub uninterp spec fn visual_cursor_of(value: Seq<char>, cursor: usize) -> usize;

/// The number of columns scrolled off to the left so that the cursor can be
/// shown in a field `width` columns wide.
pub uninterp spec fn visual_scroll_of(value: Seq<char>, cursor: usize, width: usize) -> usize;

/// The cursor's column inside the field, once `scroll` columns are scrolled
/// off: the distance from `scroll` to `visual_cursor`, or 0 if the cursor is
/// to the left of `scroll`.
pub open spec fn column_in_window(visual_cursor: usize, scroll: usize) -> usize {
    if visual_cursor >= scroll {
        (visual_cursor - scroll) as usize
    } else {
        0
    }
}

/// The edit that a key asks for while the editor is being typed into:
/// backspace alone deletes, a character alone or with shift is inserted, and
/// no other key edits.
pub open spec fn key_request(key: KeyEvent) -> Option<EditRequest> {
    match key.code {
        KeyCode::Backspace => if key.modifiers == MODIFIER_NONE {
            Some(EditRequest::DeletePrevChar)
        } else {
            None
        },
        KeyCode::Char(c) => if key.modifiers == MODIFIER_NONE || key.modifiers == MODIFIER_SHIFT {
            Some(EditRequest::InsertChar(c))
        } else {
            None
        },
        _ => None,
    }
}

/// What an `InputComponent` holds, as mathematical values.
#[verifier::ext_equal]
pub struct InputView {
    pub value: Seq<char>,
    pub cursor: nat,
    pub mode: InputMode,
}

impl InputView {
    /// The cursor is inside the text or at its end.
    pub open spec fn wf(self) -> bool {
        self.cursor <= self.value.len()
    }

    /// An editor that holds `value`, with the cursor at its end.
    pub open spec fn holding(value: Seq<char>, mode: InputMode) -> InputView {
        InputView { value, cursor: value.len(), mode }
    }

    /// The editor after `request`.
    pub open spec fn applied(self, request: EditRequest) -> InputView {
        InputView {
            value: edited_value(self.value, self.cursor, request),
            cursor: edited_cursor(self.value, self.cursor, request),
            mode: self.mode,
        }
    }

    /// The editor after `key` was typed into it.
    pub open spec fn keyed(self, key: KeyEvent) -> InputView {
        match key_request(key) {
            Some(request) => self.applied(request),
            None => self,
        }
    }
}

/// Calls `tui_input::Input::handle` on an input holding `value` with its
/// cursor at `cursor`, and returns the value and cursor it is left with.
/// Trusted: that the input inserts at the cursor and moves behind the new
/// character, deletes the character before the cursor unless the cursor is
/// at the start, and moves the cursor by one character within the value.
#[verifier::external_body]
fn handle_request(value: &str, cursor: usize, request: EditRequest) -> (res: (String, usize))
    requires
        cursor <= value@.len(),
    ensures
        res.0@ == edited_value(value@, cursor as nat, request),
        res.1 == edited_cursor(value@, cursor as nat, request),
{
    let mut input = Input::new(value.to_string()).with_cursor(cursor);
    let request = match request {
        EditRequest::InsertChar(c) => InputRequest::InsertChar(c),
        EditRequest::DeletePrevChar => InputRequest::DeletePrevChar,
        EditRequest::GoToPrevChar => InputRequest::GoToPrevChar,
        EditRequest::GoToNextChar => InputRequest::GoToNextChar,
    };
    input.handle(request);
    (input.value().to_string(), input.cursor())
}

/// Calls `tui_input::Input::visual_cursor` on an input holding `value` with
/// its cursor at `cursor`. Trusted: that the result depends on these two
/// alone.
#[verifier::external_body]
fn visual_cursor(value: &str, cursor: usize) -> (column: usize)
    requires
        cursor <= value@.len(),
    ensures
        column == visual_cursor_of(value@, cursor),
{
    Input::new(value.to_string()).with_cursor(cursor).visual_cursor()
}

/// Calls `tui_input::Input::visual_scroll` on an input holding `value` with
/// its cursor at `cursor`. Trusted: that the result depends on these and on
/// `width` alone.
#[verifier::external_body]
fn visual_scroll(value: &str, cursor: usize, width: usize) -> (scroll: usize)
    requires
        cursor <= value@.len(),
    ensures
        scroll == visual_scroll_of(value@, cursor, width),
{
    Input::new(value.to_string()).with_cursor(cursor).visual_scroll(width)
}

/// Computes `column_in_window`.
pub fn window_column(visual_cursor: usize, scroll: usize) -> (column: usize)
    ensures
        column == column_in_window(visual_cursor, scroll),
{
    if visual_cursor >= scroll {
        visual_cursor - scroll
    } else {
        0
    }
}

/// The text of the editor, the cursor as a count of characters before it,
/// and the mode.
#[derive(Debug)]
pub struct InputComponent {
    pub value: String,
    pub cursor: usize,
    pub mode: InputMode,
}

impl Default for InputComponent {
    /// An empty editor in `Normal` mode.
    fn default() -> (input: Self)
        ensures
            input@ == InputView::holding(Seq::empty(), InputMode::Normal),
            input.wf(),
    {
        Self { value: String::new(), cursor: 0, mode: InputMode::Normal }
    }
}

impl View for InputComponent {
    type V = InputView;

    open spec fn view(&self) -> InputView {
        InputView { value: self.value@, cursor: self.cursor as nat, mode: self.mode }
    }
}

impl InputComponent {
    /// The cursor is inside the text or at its end.
    pub open spec fn wf(&self) -> bool {
        self@.wf()
    }

    /// Decides `wf`.
    pub fn is_well_formed(&self) -> (ok: bool)
        ensures
            ok == self.wf(),
    {
        self.cursor <= self.value.as_str().unicode_len()
    }

    /// An editor that holds `value`, with the cursor at its end, in mode
    /// `input_mode`.
    pub fn new(value: String, input_mode: InputMode) -> (input: Self)
        ensures
            input.value == value,
            input@ == InputView::holding(value@, input_mode),
            input.wf(),
    {
        let cursor: usize = value.as_str().unicode_len();
        Self { value, cursor, mode: input_mode }
    }

    /// Replaces the text by `text`, puts the cursor at its end and leaves
    /// editing.
    pub fn set_value(&mut self, text: String)
        ensures
            final(self).value == text,
            final(self)@ == InputView::holding(text@, InputMode::Normal),
            final(self).wf(),
    {
        let cursor: usize = text.as_str().unicode_len();
        self.value = text;
        self.cursor = cursor;
        self.mode = InputMode::Normal;
    }

    /// Applies `request` to the text and the cursor, whatever the mode.
    pub fn handle(&mut self, request: EditRequest)
        requires
            old(self).wf(),
        ensures
            final(self)@ == old(self)@.applied(request),
            final(self).wf(),
    {
        let (value, cursor) = handle_request(self.value.as_str(), self.cursor, request);
        self.value = value;
        self.cursor = cursor;
    }

    /// Inserts `c` at the cursor and moves the cursor behind it.
    pub fn handle_char(&mut self, c: char)
        requires
            old(self).wf(),
        ensures
            final(self).value@ == old(self).value@.insert(old(self).cursor as int, c),
            final(self).cursor == old(self).cursor + 1,
            final(self).mode == old(self).mode,
            final(self).wf(),
    {
        self.handle(EditRequest::InsertChar(c));
    }

    /// Deletes the character before the cursor, if there is one, and moves
    /// the cursor to its place.
    pub fn handle_backspace(&mut self)
        requires
            old(self).wf(),
        ensures
            old(self).cursor == 0 ==> final(self).value@ == old(self).value@ && final(self).cursor
                == 0,
            old(self).cursor > 0 ==> final(self).value@ == old(self).value@.remove(
                old(self).cursor - 1,
            ) && final(self).cursor == old(self).cursor - 1,
            final(self).mode == old(self).mode,
            final(self).wf(),
    {
        self.handle(EditRequest::DeletePrevChar);
    }

    /// Moves the cursor one character in `direction`, unless it is already
    /// at that end of the text.
    pub fn handle_cursor_move(&mut self, direction: CursorMove)
        requires
            old(self).wf(),
        ensures
            final(self).value@ == old(self).value@,
            final(self).cursor == match direction {
                CursorMove::Left => if old(self).cursor == 0 {
                    0
                } else {
                    old(self).cursor - 1
                },
                CursorMove::Right => if old(self).cursor == old(self).value@.len() {
                    old(self).cursor as int
                } else {
                    old(self).cursor + 1
                },
            },
            final(self).mode == old(self).mode,
            final(self).wf(),
    {
        match direction {
            CursorMove::Left => self.handle(EditRequest::GoToPrevChar),
            CursorMove::Right => self.handle(EditRequest::GoToNextChar),
        }
    }

    /// Applies the edit that `key` asks for, if it asks for one. The mode is
    /// not looked at: the caller decides whether keys reach the editor.
    pub fn handle_key(&mut self, key: &KeyEvent)
        requires
            old(self).wf(),
        ensures
            final(self)@ == old(self)@.keyed(*key),
            key_request(*key) is None ==> *final(self) == *old(self),
            final(self).wf(),
    {
        match key.code {
            KeyCode::Backspace => {
                if key.modifiers == MODIFIER_NONE {
                    self.handle(EditRequest::DeletePrevChar);
                }
            },
            KeyCode::Char(c) => {
                if key.modifiers == MODIFIER_NONE || key.modifiers == MODIFIER_SHIFT {
                    self.handle(EditRequest::InsertChar(c));
                }
            },
            _ => {},
        }
    }

    /// The horizontal scroll offset that keeps the cursor visible in a field
    /// `width` columns wide, and the cursor's column inside the field.
    pub fn visible_window(&self, width: usize) -> (window: (usize, usize))
        requires
            self.wf(),
        ensures
            window.0 == visual_scroll_of(self.value@, self.cursor, width),
            window.1 == column_in_window(visual_cursor_of(self.value@, self.cursor), window.0),
    {
        let scroll: usize = visual_scroll(self.value.as_str(), self.cursor, width);
        let column: usize = visual_cursor(self.value.as_str(), self.cursor);
        (scroll, window_column(column, scroll))
    }
}

} // verus!
