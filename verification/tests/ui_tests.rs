use crossbeam::channel::{unbounded, Receiver, Sender};
use text_ui::events::{EventType, KeyInput, KeyPress, MouseInput, MouseKind};
use text_ui::ui::Ui;

struct Harness {
    ui: Ui,
    lines: Sender<String>,
    events: Sender<EventType>,
    keystrokes: Receiver<char>,
}

/// A UI of 120x600 pixels: 12 character cells wide, display area of 10
/// rows.
fn harness() -> Harness {
    let (lines, line_r) = unbounded::<String>();
    let (events, event_r) = unbounded::<EventType>();
    let (key_s, keystrokes) = unbounded::<char>();
    let ui = Ui::new("Demo", 600, 120, line_r, key_s, event_r);
    Harness { ui, lines, events, keystrokes }
}

fn key(code: KeyPress) -> KeyInput {
    KeyInput { code, ctrl: false }
}

fn type_str(ui: &mut Ui, s: &str) {
    for c in s.chars() {
        ui.handle_key_event(key(KeyPress::Char(c)));
    }
}

#[test]
fn a_fresh_ui_is_idle() {
    let h = harness();
    assert!(!h.ui.should_quit());
    assert_eq!(h.ui.input_len(), 0);
    assert_eq!(h.ui.get_width(), 12);
    assert_eq!(h.ui.get_display_height(), 10);
}

#[test]
fn keystrokes_are_forwarded_in_order() {
    let mut h = harness();
    type_str(&mut h.ui, "ab");
    h.ui.handle_key_event(key(KeyPress::Backspace));
    h.ui.handle_key_event(key(KeyPress::Enter));
    let got: Vec<char> = h.keystrokes.try_iter().collect();
    assert_eq!(got, vec!['a', 'b', '\u{8}', '\n']);
}

#[test]
fn dropped_keys_are_not_forwarded() {
    let mut h = harness();
    h.ui.handle_key_event(key(KeyPress::Other));
    assert_eq!(h.keystrokes.try_iter().count(), 0);
    assert_eq!(h.ui.input_len(), 0);
}

#[test]
fn control_glyphs_other_than_c_are_typed_and_forwarded() {
    let mut h = harness();
    h.ui.handle_key_event(KeyInput { code: KeyPress::Char('x'), ctrl: true });
    assert_eq!(h.ui.input_len(), 1);
    let got: Vec<char> = h.keystrokes.try_iter().collect();
    assert_eq!(got, vec!['x']);
    assert!(!h.ui.should_quit());
}

#[test]
fn enter_commits_the_typed_line() {
    let mut h = harness();
    type_str(&mut h.ui, "hello");
    assert_eq!(h.ui.input_len(), 5);
    h.ui.handle_key_event(key(KeyPress::Enter));
    assert_eq!(h.ui.input_len(), 0);
    assert_eq!(h.ui.take_committed(), vec!["hello"]);
}

#[test]
fn escape_sets_quit_and_is_idempotent() {
    let mut h = harness();
    type_str(&mut h.ui, "abc");
    h.ui.handle_key_event(key(KeyPress::Esc));
    assert!(h.ui.should_quit());
    assert_eq!(h.ui.input_len(), 0);
    let rows_once = h.ui.render_rows();

    h.ui.handle_key_event(key(KeyPress::Esc));
    assert!(h.ui.should_quit());
    assert_eq!(h.ui.render_rows(), rows_once);
    assert_eq!(h.ui.take_committed().len(), 0);
}

#[test]
fn control_c_sets_quit_like_escape() {
    let mut h = harness();
    h.ui.handle_key_event(KeyInput { code: KeyPress::Char('c'), ctrl: true });
    assert!(h.ui.should_quit());
    h.ui.handle_key_event(KeyInput { code: KeyPress::Char('C'), ctrl: true });
    assert!(h.ui.should_quit());
}

#[test]
fn ticks_drain_lines_and_events() {
    let mut h = harness();
    h.lines.send("log line".to_string()).unwrap();
    h.events.send(EventType::Key(key(KeyPress::Char('a')))).unwrap();
    h.ui.tick();
    assert_eq!(h.ui.input_len(), 1);
    let rows = h.ui.render_rows();
    assert_eq!(rows[2], "| log line |");
    assert_eq!(rows[14], "| a        |");
}

#[test]
fn submitting_clear_empties_the_scroll_buffer() {
    let mut h = harness();
    h.lines.send("first".to_string()).unwrap();
    h.lines.send("second".to_string()).unwrap();
    h.ui.tick();
    h.ui.tick();
    assert_eq!(h.ui.render_rows()[2], "| first    |");

    type_str(&mut h.ui, "/clear");
    h.ui.handle_key_event(key(KeyPress::Enter));
    let rows = h.ui.render_rows();
    assert_eq!(rows[2], "|          |");
    assert_eq!(h.ui.take_committed().len(), 0);
}

#[test]
fn wheel_events_scroll_the_viewport() {
    let (lines, line_r) = unbounded::<String>();
    let (events, event_r) = unbounded::<EventType>();
    let (key_s, _keystrokes) = unbounded::<char>();
    // 12 cells wide, display area of 10 rows.
    let mut ui = Ui::new("Demo", 600, 120, line_r, key_s, event_r);
    for i in 0..12 {
        lines.send(format!("line{}", i)).unwrap();
        ui.tick();
    }
    assert_eq!(ui.render_rows()[2], "| line2    |");
    events.send(EventType::Scroll(MouseInput { kind: MouseKind::ScrollUp, column: 3, row: 4 })).unwrap();
    ui.tick();
    assert_eq!(ui.render_rows()[2], "| line1    |");

    // The same wheel movement outside the display area is dropped.
    events.send(EventType::Scroll(MouseInput { kind: MouseKind::ScrollUp, column: 3, row: 20 })).unwrap();
    ui.tick();
    assert_eq!(ui.render_rows()[2], "| line1    |");
}

#[test]
fn a_disconnected_event_channel_counts_as_quit() {
    let mut h = harness();
    drop(h.events);
    h.ui.tick();
    assert!(h.ui.should_quit());
}

#[test]
fn a_disconnected_line_channel_counts_as_quit() {
    let mut h = harness();
    drop(h.lines);
    h.ui.tick();
    assert!(h.ui.should_quit());
}

#[test]
fn idle_ticks_change_nothing() {
    let mut h = harness();
    let rows = h.ui.render_rows();
    h.ui.tick();
    h.ui.tick();
    assert_eq!(h.ui.render_rows(), rows);
    assert!(!h.ui.should_quit());
}

#[test]
fn cursor_tracks_the_typed_line() {
    let mut h = harness();
    type_str(&mut h.ui, "abc");
    assert_eq!(h.ui.cursor(), (5, 14));
}
