use text_ui::editor::{EditOutcome, InputEditor};
use text_ui::events::KeyAction;

fn type_str(e: &mut InputEditor, s: &str) {
    for c in s.chars() {
        assert_eq!(e.apply_key(KeyAction::Glyph(c)), EditOutcome::Edited);
    }
}

#[test]
fn backspace_on_empty_buffer_is_noop() {
    let mut e = InputEditor::new();
    assert_eq!(e.apply_key(KeyAction::Backspace), EditOutcome::Edited);
    assert_eq!(e.current_line().len(), 0);
    assert_eq!(e.take_committed().len(), 0);
}

#[test]
fn hello_then_five_backspaces_leaves_nothing() {
    let mut e = InputEditor::new();
    type_str(&mut e, "hello");
    assert_eq!(e.current_line(), &vec!['h', 'e', 'l', 'l', 'o']);
    for _ in 0..5 {
        assert_eq!(e.apply_key(KeyAction::Backspace), EditOutcome::Edited);
    }
    assert_eq!(e.current_line().len(), 0);
    assert_eq!(e.take_committed().len(), 0);
}

#[test]
fn enter_commits_the_line_in_order() {
    let mut e = InputEditor::new();
    type_str(&mut e, "first");
    assert_eq!(e.apply_key(KeyAction::Enter), EditOutcome::Committed);
    type_str(&mut e, "second");
    assert_eq!(e.apply_key(KeyAction::Enter), EditOutcome::Committed);
    assert_eq!(e.current_line().len(), 0);
    assert_eq!(e.take_committed(), vec!["first", "second"]);
    assert_eq!(e.take_committed().len(), 0);
}

#[test]
fn clear_command_requests_clear_and_commits_nothing() {
    let mut e = InputEditor::new();
    type_str(&mut e, "/clear");
    assert_eq!(e.apply_key(KeyAction::Enter), EditOutcome::ClearRequested);
    assert_eq!(e.current_line().len(), 0);
    assert_eq!(e.take_committed().len(), 0);
}

#[test]
fn almost_clear_command_is_committed() {
    let mut e = InputEditor::new();
    type_str(&mut e, "/clearx");
    assert_eq!(e.apply_key(KeyAction::Enter), EditOutcome::Committed);
    assert_eq!(e.take_committed(), vec!["/clearx"]);
}

#[test]
fn escape_discards_the_line() {
    let mut e = InputEditor::new();
    type_str(&mut e, "abc");
    assert_eq!(e.apply_key(KeyAction::Escape), EditOutcome::QuitRequested);
    assert_eq!(e.current_line().len(), 0);
    assert_eq!(e.take_committed().len(), 0);
}

#[test]
fn control_c_discards_the_line() {
    let mut e = InputEditor::new();
    type_str(&mut e, "abc");
    assert_eq!(e.apply_key(KeyAction::CtrlC), EditOutcome::QuitRequested);
    assert_eq!(e.current_line().len(), 0);
}

#[test]
fn control_characters_are_never_stored() {
    let mut e = InputEditor::new();
    e.apply_key(KeyAction::Glyph('\u{8}'));
    e.apply_key(KeyAction::Glyph('\n'));
    e.apply_key(KeyAction::Glyph('\u{1b}'));
    assert_eq!(e.current_line().len(), 0);
    e.apply_key(KeyAction::Glyph('a'));
    assert_eq!(e.current_line(), &vec!['a']);
}
