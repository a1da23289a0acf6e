use project_timer::confirm::{
    delete_prompt_text, ConfirmDialogComponent, Outcome, PendingAction,
};
use project_timer::input::{
    window_column, CursorMove, EditRequest, InputComponent, InputMode,
};
use project_timer::key::{
    char_to_key_event, KeyCode, KeyEvent, KeyEventKind, MODIFIER_ALT, MODIFIER_CONTROL,
    MODIFIER_NONE, MODIFIER_SHIFT,
};

#[test]
fn default_input_is_empty() {
    let input = InputComponent::default();
    assert_eq!(input.value, "");
    assert_eq!(input.cursor, 0);
    assert_eq!(input.mode, InputMode::Normal);
}

#[test]
fn new_input_has_cursor_at_end() {
    let input = InputComponent::new("Alpha".to_string(), InputMode::Editing);
    assert_eq!(input.value, "Alpha");
    assert_eq!(input.cursor, 5);
    assert_eq!(input.mode, InputMode::Editing);
}

#[test]
fn cursor_counts_characters_not_bytes() {
    let input = InputComponent::new("héllo".to_string(), InputMode::Normal);
    assert_eq!(input.cursor, 5);
}

#[test]
fn set_value_resets_cursor_and_mode() {
    let mut input = InputComponent::new("Alpha".to_string(), InputMode::Editing);
    input.cursor = 2;
    input.set_value("Be".to_string());
    assert_eq!(input.value, "Be");
    assert_eq!(input.cursor, 2);
    assert_eq!(input.mode, InputMode::Normal);
}

#[test]
fn typing_appends_at_the_end() {
    let mut input = InputComponent::new("Al".to_string(), InputMode::Editing);
    input.handle_char('p');
    assert_eq!(input.value, "Alp");
    assert_eq!(input.cursor, 3);
    assert_eq!(input.mode, InputMode::Editing);
}

#[test]
fn typing_inserts_at_the_cursor() {
    let mut input = InputComponent::new("Apha".to_string(), InputMode::Editing);
    input.cursor = 1;
    input.handle_char('l');
    assert_eq!(input.value, "Alpha");
    assert_eq!(input.cursor, 2);
}

#[test]
fn backspace_deletes_before_the_cursor() {
    let mut input = InputComponent::new("Alpha".to_string(), InputMode::Editing);
    input.handle_backspace();
    assert_eq!(input.value, "Alph");
    assert_eq!(input.cursor, 4);
    input.cursor = 1;
    input.handle_backspace();
    assert_eq!(input.value, "lph");
    assert_eq!(input.cursor, 0);
}

#[test]
fn backspace_at_the_start_does_nothing() {
    let mut input = InputComponent::new("Alpha".to_string(), InputMode::Editing);
    input.cursor = 0;
    input.handle_backspace();
    assert_eq!(input.value, "Alpha");
    assert_eq!(input.cursor, 0);
}

#[test]
fn backspace_deletes_a_whole_character() {
    let mut input = InputComponent::new("añb".to_string(), InputMode::Editing);
    input.cursor = 2;
    input.handle_backspace();
    assert_eq!(input.value, "ab");
    assert_eq!(input.cursor, 1);
}

#[test]
fn cursor_moves_within_the_text() {
    let mut input = InputComponent::new("ab".to_string(), InputMode::Editing);
    input.handle_cursor_move(CursorMove::Right);
    assert_eq!(input.cursor, 2);
    input.handle_cursor_move(CursorMove::Left);
    assert_eq!(input.cursor, 1);
    input.handle_cursor_move(CursorMove::Left);
    assert_eq!(input.cursor, 0);
    input.handle_cursor_move(CursorMove::Left);
    assert_eq!(input.cursor, 0);
    input.handle_cursor_move(CursorMove::Right);
    assert_eq!(input.cursor, 1);
    assert_eq!(input.value, "ab");
}

#[test]
fn requests_are_applied_whatever_the_mode() {
    let mut input = InputComponent::new("ab".to_string(), InputMode::Normal);
    input.handle(EditRequest::GoToPrevChar);
    input.handle(EditRequest::InsertChar('x'));
    input.handle(EditRequest::GoToNextChar);
    input.handle(EditRequest::DeletePrevChar);
    assert_eq!(input.value, "ax");
    assert_eq!(input.cursor, 2);
    assert_eq!(input.mode, InputMode::Normal);
}

#[test]
fn editor_keys() {
    let mut input = InputComponent::new("ab".to_string(), InputMode::Editing);
    input.handle_key(&char_to_key_event('c'));
    assert_eq!(input.value, "abc");
    input.handle_key(&KeyEvent::new(KeyCode::Char('D'), MODIFIER_SHIFT));
    assert_eq!(input.value, "abcD");
    input.handle_key(&KeyEvent::new(KeyCode::Backspace, MODIFIER_NONE));
    assert_eq!(input.value, "abc");
    assert_eq!(input.cursor, 3);
}

#[test]
fn editor_ignores_other_keys() {
    let mut input = InputComponent::new("ab".to_string(), InputMode::Editing);
    input.handle_key(&KeyEvent::new(KeyCode::Char('c'), MODIFIER_CONTROL));
    input.handle_key(&KeyEvent::new(KeyCode::Char('c'), MODIFIER_ALT));
    input.handle_key(&KeyEvent::new(KeyCode::Backspace, MODIFIER_ALT));
    input.handle_key(&KeyEvent::new(KeyCode::Left, MODIFIER_NONE));
    input.handle_key(&KeyEvent::new(KeyCode::Other, MODIFIER_NONE));
    input.handle_key(&KeyEvent::new(KeyCode::Tab, MODIFIER_NONE));
    assert_eq!(input.value, "ab");
    assert_eq!(input.cursor, 2);
}

#[test]
fn window_without_scrolling() {
    let input = InputComponent::new("hello".to_string(), InputMode::Editing);
    assert_eq!(input.visible_window(10), (0, 5));
    assert_eq!(input.visible_window(5), (0, 5));
}

#[test]
fn window_scrolls_to_keep_cursor_visible() {
    let input = InputComponent::new("hello world".to_string(), InputMode::Editing);
    assert_eq!(input.visible_window(4), (7, 4));
    let mut at_start = InputComponent::new("hello world".to_string(), InputMode::Editing);
    at_start.cursor = 2;
    assert_eq!(at_start.visible_window(4), (0, 2));
}

#[test]
fn window_counts_wide_characters_twice() {
    let input = InputComponent::new("日本語".to_string(), InputMode::Editing);
    assert_eq!(input.visible_window(10), (0, 6));
    assert_eq!(input.visible_window(4), (2, 4));
}

#[test]
fn window_column_is_distance_from_scroll() {
    assert_eq!(window_column(9, 4), 5);
    assert_eq!(window_column(4, 4), 0);
    assert_eq!(window_column(2, 4), 0);
}

#[test]
fn prompt_names_the_project() {
    assert_eq!(
        delete_prompt_text("Alpha"),
        "Are you sure you want to delete project with name: Alpha?"
    );
    assert_eq!(delete_prompt_text(""), "Are you sure you want to delete project with name: ?");
}

fn open_dialog() -> ConfirmDialogComponent {
    let mut dialog = ConfirmDialogComponent::new();
    dialog.open("Really?".to_string(), PendingAction::DeleteProject { id: 7 });
    dialog
}

#[test]
fn new_dialog_is_closed() {
    let mut dialog = ConfirmDialogComponent::new();
    assert!(!dialog.is_opened());
    assert_eq!(dialog.pending_action, None);
    assert_eq!(dialog.handle_key(&char_to_key_event('y')), Outcome::NotOpen);
    assert_eq!(dialog.handle_key(&KeyEvent::new(KeyCode::Enter, MODIFIER_NONE)), Outcome::NotOpen);
    assert!(!dialog.is_opened());
}

#[test]
fn open_shows_prompt_with_no_highlighted() {
    let dialog = open_dialog();
    assert!(dialog.is_opened());
    assert_eq!(dialog.prompt, "Really?");
    assert_eq!(dialog.pending_action, Some(PendingAction::DeleteProject { id: 7 }));
    assert!(!dialog.yes_selected);
}

#[test]
fn open_replaces_an_open_dialog() {
    let mut dialog = open_dialog();
    dialog.yes_selected = true;
    dialog.open("Other?".to_string(), PendingAction::DeleteProject { id: 8 });
    assert!(dialog.is_opened());
    assert_eq!(dialog.prompt, "Other?");
    assert_eq!(dialog.pending_action, Some(PendingAction::DeleteProject { id: 8 }));
    assert!(!dialog.yes_selected);
}

#[test]
fn yes_key_hands_out_the_action() {
    let mut dialog = open_dialog();
    let outcome = dialog.handle_key(&char_to_key_event('y'));
    assert_eq!(outcome, Outcome::Consumed(Some(PendingAction::DeleteProject { id: 7 })));
    assert!(!dialog.is_opened());
    assert_eq!(dialog.pending_action, None);
}

#[test]
fn no_key_drops_the_action() {
    let mut dialog = open_dialog();
    assert_eq!(dialog.handle_key(&char_to_key_event('n')), Outcome::Consumed(None));
    assert!(!dialog.is_opened());
    assert_eq!(dialog.pending_action, None);
}

#[test]
fn escape_drops_the_action() {
    let mut dialog = open_dialog();
    assert_eq!(
        dialog.handle_key(&KeyEvent::new(KeyCode::Esc, MODIFIER_NONE)),
        Outcome::Consumed(None)
    );
    assert!(!dialog.is_opened());
}

#[test]
fn enter_takes_the_highlighted_button() {
    let mut dialog = open_dialog();
    assert_eq!(
        dialog.handle_key(&KeyEvent::new(KeyCode::Enter, MODIFIER_NONE)),
        Outcome::Consumed(None)
    );
    assert!(!dialog.is_opened());

    let mut dialog = open_dialog();
    assert_eq!(
        dialog.handle_key(&KeyEvent::new(KeyCode::Left, MODIFIER_NONE)),
        Outcome::Consumed(None)
    );
    assert!(dialog.is_opened());
    assert!(dialog.yes_selected);
    assert_eq!(
        dialog.handle_key(&KeyEvent::new(KeyCode::Enter, MODIFIER_NONE)),
        Outcome::Consumed(Some(PendingAction::DeleteProject { id: 7 }))
    );
    assert!(!dialog.is_opened());
}

#[test]
fn arrows_move_between_buttons() {
    let mut dialog = open_dialog();
    dialog.handle_key(&KeyEvent::new(KeyCode::Left, MODIFIER_NONE));
    assert!(dialog.yes_selected);
    dialog.handle_key(&KeyEvent::new(KeyCode::Left, MODIFIER_NONE));
    assert!(dialog.yes_selected);
    dialog.handle_key(&KeyEvent::new(KeyCode::Right, MODIFIER_NONE));
    assert!(!dialog.yes_selected);
    assert!(dialog.is_opened());
    assert_eq!(dialog.pending_action, Some(PendingAction::DeleteProject { id: 7 }));
}

#[test]
fn other_keys_are_consumed_without_effect() {
    let mut dialog = open_dialog();
    for key in [
        char_to_key_event('x'),
        KeyEvent::new(KeyCode::Tab, MODIFIER_NONE),
        KeyEvent::new(KeyCode::Up, MODIFIER_NONE),
        KeyEvent::new(KeyCode::Char('q'), MODIFIER_CONTROL),
        KeyEvent::new(KeyCode::Other, MODIFIER_NONE),
        KeyEvent { code: KeyCode::Char('y'), modifiers: MODIFIER_NONE, kind: KeyEventKind::Release },
    ] {
        assert_eq!(dialog.handle_key(&key), Outcome::Consumed(None));
        assert!(dialog.is_opened());
        assert_eq!(dialog.pending_action, Some(PendingAction::DeleteProject { id: 7 }));
        assert!(!dialog.yes_selected);
        assert_eq!(dialog.prompt, "Really?");
    }
}

#[test]
fn components_check_themselves() {
    let mut input = InputComponent::new("héllo".to_string(), InputMode::Normal);
    assert!(input.is_well_formed());
    input.cursor = 6;
    assert!(!input.is_well_formed());
    let mut dialog = open_dialog();
    assert!(dialog.is_well_formed());
    dialog.pending_action = None;
    assert!(!dialog.is_well_formed());
    dialog.visible = false;
    assert!(dialog.is_well_formed());
}
