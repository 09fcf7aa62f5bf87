use text_ui::events::{
    classify, classify_key, classify_mouse, forward_mouse, forwarded_char, is_quit_action,
    quit_input, DomainEvent, EventType, KeyAction, KeyInput, KeyPress, MouseInput, MouseKind,
    ScrollDirection,
};

fn key(code: KeyPress) -> KeyInput {
    KeyInput { code, ctrl: false }
}

fn ctrl_key(code: KeyPress) -> KeyInput {
    KeyInput { code, ctrl: true }
}

#[test]
fn classify_key_maps_the_editing_keys() {
    assert_eq!(classify_key(&key(KeyPress::Backspace)), Some(KeyAction::Backspace));
    assert_eq!(classify_key(&key(KeyPress::Enter)), Some(KeyAction::Enter));
    assert_eq!(classify_key(&key(KeyPress::Esc)), Some(KeyAction::Escape));
    assert_eq!(classify_key(&key(KeyPress::Char('x'))), Some(KeyAction::Glyph('x')));
}

#[test]
fn classify_key_maps_the_quit_gesture() {
    assert_eq!(classify_key(&ctrl_key(KeyPress::Char('c'))), Some(KeyAction::CtrlC));
    assert_eq!(classify_key(&ctrl_key(KeyPress::Char('C'))), Some(KeyAction::CtrlC));
}

#[test]
fn classify_key_keeps_other_control_glyphs() {
    assert_eq!(classify_key(&ctrl_key(KeyPress::Char('x'))), Some(KeyAction::Glyph('x')));
}

#[test]
fn classify_key_drops_other_key_codes() {
    assert_eq!(classify_key(&key(KeyPress::Other)), None);
    assert_eq!(classify_key(&ctrl_key(KeyPress::Other)), None);
}

#[test]
fn forwarded_characters_match_the_keys() {
    assert_eq!(forwarded_char(&KeyAction::Glyph('q')), 'q');
    assert_eq!(forwarded_char(&KeyAction::Backspace), '\u{8}');
    assert_eq!(forwarded_char(&KeyAction::Enter), '\n');
    assert_eq!(forwarded_char(&KeyAction::Escape), '\u{1b}');
    assert_eq!(forwarded_char(&KeyAction::CtrlC), '\u{1b}');
}

#[test]
fn quit_actions_are_escape_and_control_c() {
    assert!(is_quit_action(&KeyAction::Escape));
    assert!(is_quit_action(&KeyAction::CtrlC));
    assert!(!is_quit_action(&KeyAction::Enter));
    assert!(!is_quit_action(&KeyAction::Glyph('q')));
}

#[test]
fn poll_loop_stops_on_both_quit_gestures() {
    assert!(quit_input(&ctrl_key(KeyPress::Char('c'))));
    assert!(quit_input(&ctrl_key(KeyPress::Char('C'))));
    assert!(quit_input(&key(KeyPress::Esc)));
    assert!(!quit_input(&key(KeyPress::Char('c'))));
    assert!(!quit_input(&key(KeyPress::Enter)));
    assert!(!quit_input(&ctrl_key(KeyPress::Char('x'))));
}

#[test]
fn wheel_events_inside_the_display_scroll() {
    let up = MouseInput { kind: MouseKind::ScrollUp, column: 10, row: 5 };
    let down = MouseInput { kind: MouseKind::ScrollDown, column: 41, row: 12 };
    assert_eq!(classify_mouse(&up, 41, 10), Some(ScrollDirection::Up));
    assert_eq!(classify_mouse(&down, 41, 10), Some(ScrollDirection::Down));
}

#[test]
fn wheel_events_outside_the_display_are_dropped() {
    let above = MouseInput { kind: MouseKind::ScrollUp, column: 10, row: 1 };
    let below = MouseInput { kind: MouseKind::ScrollUp, column: 10, row: 13 };
    let right = MouseInput { kind: MouseKind::ScrollUp, column: 42, row: 5 };
    assert_eq!(classify_mouse(&above, 41, 10), None);
    assert_eq!(classify_mouse(&below, 41, 10), None);
    assert_eq!(classify_mouse(&right, 41, 10), None);
}

#[test]
fn other_mouse_actions_are_dropped() {
    let other = MouseInput { kind: MouseKind::Other, column: 10, row: 5 };
    assert_eq!(classify_mouse(&other, 41, 10), None);
    assert!(!forward_mouse(&other));
    assert!(forward_mouse(&MouseInput { kind: MouseKind::ScrollUp, column: 0, row: 0 }));
}

#[test]
fn classify_routes_keys_and_scrolls() {
    let k = EventType::Key(key(KeyPress::Char('a')));
    let s = EventType::Scroll(MouseInput { kind: MouseKind::ScrollDown, column: 3, row: 4 });
    assert_eq!(classify(&k, 41, 10), Some(DomainEvent::Key(KeyAction::Glyph('a'))));
    assert_eq!(classify(&s, 41, 10), Some(DomainEvent::Scroll(ScrollDirection::Down)));
    let dropped = EventType::Key(key(KeyPress::Other));
    assert_eq!(classify(&dropped, 41, 10), None);
}
