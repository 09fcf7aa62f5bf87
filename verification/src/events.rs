//! Raw terminal events, domain events, and the classifier between them.
//!
//! A raw event is what the polling actor read from the terminal, reduced
//! to the plain values the core inspects: which key, whether control was
//! held, which way the wheel turned and where the pointer stood. The
//! classifier turns one raw event into at most one domain event.

use vstd::prelude::*;

use crate::constants::{BACKSPACE, CR, ESC};

verus! {

/// The first terminal row of the display area; the title and a divider
/// stand above it.
pub const DISPLAY_START_ROW: usize = 2;

/// The key codes the core distinguishes; every other code is `Other`
/// and is dropped by the classifier.
#[derive(Clone, Copy, PartialEq, Eq, Structural, Debug)]
pub enum KeyPress {
    Backspace,
    Enter,
    Esc,
    Char(char),
    Other,
}

/// A key event as read from the terminal: the code and whether the
/// control modifier was held.
#[derive(Clone, Copy, PartialEq, Eq, Structural, Debug)]
pub struct KeyInput {
    pub code: KeyPress,
    pub ctrl: bool,
}

/// The mouse actions the core distinguishes; anything that is not a
/// wheel movement is `Other` and is dropped by the classifier.
#[derive(Clone, Copy, PartialEq, Eq, Structural, Debug)]
pub enum MouseKind {
    ScrollUp,
    ScrollDown,
    Other,
}

/// A mouse event as read from the terminal: the action and the pointer
/// position in character cells.
#[derive(Clone, Copy, PartialEq, Eq, Structural, Debug)]
pub struct MouseInput {
    pub kind: MouseKind,
    pub column: u16,
    pub row: u16,
}

/// A raw terminal event, as the polling actor forwards it.
#[derive(Clone, Copy, PartialEq, Eq, Structural, Debug)]
pub enum EventType {
    Key(KeyInput),
    Scroll(MouseInput),
}

/// A classified key event: what the input editor is asked to do.
#[derive(Clone, Copy, PartialEq, Eq, Structural, Debug)]
pub enum KeyAction {
    Glyph(char),
    Backspace,
    Enter,
    Escape,
    CtrlC,
}

/// A scroll direction for the viewport.
#[derive(Clone, Copy, PartialEq, Eq, Structural, Debug)]
pub enum ScrollDirection {
    Up,
    Down,
}

/// A domain event: one key action or one scroll step.
#[derive(Clone, Copy, PartialEq, Eq, Structural, Debug)]
pub enum DomainEvent {
    Key(KeyAction),
    Scroll(ScrollDirection),
}

/// What a key event classifies to, if anything.
pub open spec fn spec_classify_key(k: KeyInput) -> Option<KeyAction> {
    match k.code {
        KeyPress::Backspace => Some(KeyAction::Backspace),
        KeyPress::Enter => Some(KeyAction::Enter),
        KeyPress::Esc => Some(KeyAction::Escape),
        KeyPress::Char(c) => if k.ctrl && (c == 'c' || c == 'C') {
            Some(KeyAction::CtrlC)
        } else {
            Some(KeyAction::Glyph(c))
        },
        KeyPress::Other => None,
    }
}

/// Maps a key event to its key action: backspace, enter and escape keep
/// their meaning, control-C becomes the quit action, any other
/// character — whatever its modifiers — becomes a glyph, and every
/// other key code is dropped.
pub fn classify_key(k: &KeyInput) -> (r: Option<KeyAction>)
    ensures
        r == spec_classify_key(*k),
{
    match k.code {
        KeyPress::Backspace => Some(KeyAction::Backspace),
        KeyPress::Enter => Some(KeyAction::Enter),
        KeyPress::Esc => Some(KeyAction::Escape),
        KeyPress::Char(c) => {
            if k.ctrl && (c == 'c' || c == 'C') {
                Some(KeyAction::CtrlC)
            } else {
                Some(KeyAction::Glyph(c))
            }
        },
        KeyPress::Other => None,
    }
}

/// Whether a key action means "quit": escape and control-C are treated
/// identically downstream.
pub open spec fn spec_is_quit(a: KeyAction) -> bool {
    a == KeyAction::Escape || a == KeyAction::CtrlC
}

/// Whether the polling actor stops after forwarding this key event:
/// both quit gestures — escape and control-C — end the poll loop, so
/// shutdown is never more than one poll period away.
pub open spec fn spec_poll_quits(k: KeyInput) -> bool {
    spec_classify_key(k) == Some(KeyAction::Escape) || spec_classify_key(k) == Some(
        KeyAction::CtrlC,
    )
}

/// Decides, for the polling actor, whether a key event is a gesture
/// that ends its read loop.
pub fn quit_input(k: &KeyInput) -> (r: bool)
    ensures
        r == spec_poll_quits(*k),
{
    match k.code {
        KeyPress::Esc => true,
        KeyPress::Char(c) => (c == 'c' || c == 'C') && k.ctrl,
        _ => false,
    }
}

/// Decides, for the polling actor, whether a mouse event is forwarded:
/// only wheel movements are; every other mouse action is dropped.
pub fn forward_mouse(m: &MouseInput) -> (r: bool)
    ensures
        r == (m.kind == MouseKind::ScrollUp || m.kind == MouseKind::ScrollDown),
{
    match m.kind {
        MouseKind::ScrollUp => true,
        MouseKind::ScrollDown => true,
        MouseKind::Other => false,
    }
}

/// Whether a key action means "quit": escape and control-C are treated
/// identically downstream.
pub fn is_quit_action(a: &KeyAction) -> (r: bool)
    ensures
        r == spec_is_quit(*a),
{
    match a {
        KeyAction::Escape => true,
        KeyAction::CtrlC => true,
        _ => false,
    }
}

/// The character a key action is forwarded as on the raw keystroke
/// channel: the glyph itself, or the control character standing for
/// the key.
pub open spec fn spec_forwarded_char(a: KeyAction) -> char {
    match a {
        KeyAction::Glyph(c) => c,
        KeyAction::Backspace => BACKSPACE,
        KeyAction::Enter => CR,
        KeyAction::Escape => ESC,
        KeyAction::CtrlC => ESC,
    }
}

/// Picks the character forwarded for a key action.
pub fn forwarded_char(a: &KeyAction) -> (c: char)
    ensures
        c == spec_forwarded_char(*a),
{
    match a {
        KeyAction::Glyph(c) => *c,
        KeyAction::Backspace => BACKSPACE,
        KeyAction::Enter => CR,
        KeyAction::Escape => ESC,
        KeyAction::CtrlC => ESC,
    }
}

/// Whether the pointer stands inside the display area: its column
/// within the buffer width and its row between the top of the area and
/// the row `capacity` rows below it.
pub open spec fn spec_within_display(col: int, row: int, width: int, capacity: int) -> bool {
    col <= width && DISPLAY_START_ROW <= row && row <= capacity + DISPLAY_START_ROW
}

/// What a mouse event classifies to, given the display geometry: a
/// wheel movement inside the display area scrolls; everything else is
/// dropped.
pub open spec fn spec_classify_mouse(m: MouseInput, width: int, capacity: int) -> Option<
    ScrollDirection,
> {
    match m.kind {
        MouseKind::ScrollUp => if spec_within_display(m.column as int, m.row as int, width, capacity) {
            Some(ScrollDirection::Up)
        } else {
            None
        },
        MouseKind::ScrollDown => if spec_within_display(m.column as int, m.row as int, width, capacity) {
            Some(ScrollDirection::Down)
        } else {
            None
        },
        MouseKind::Other => None,
    }
}

/// What a raw event classifies to: zero or one domain event.
pub open spec fn spec_classify(e: EventType, width: int, capacity: int) -> Option<DomainEvent> {
    match e {
        EventType::Key(k) => match spec_classify_key(k) {
            Some(a) => Some(DomainEvent::Key(a)),
            None => None,
        },
        EventType::Scroll(m) => match spec_classify_mouse(m, width, capacity) {
            Some(d) => Some(DomainEvent::Scroll(d)),
            None => None,
        },
    }
}

/// Maps a mouse event to its scroll direction, given the display
/// geometry, per the classifier's rules.
pub fn classify_mouse(m: &MouseInput, width: usize, capacity: usize) -> (r: Option<
    ScrollDirection,
>)
    requires
        capacity <= usize::MAX - DISPLAY_START_ROW,
    ensures
        r == spec_classify_mouse(*m, width as int, capacity as int),
{
    let inside = (m.column as usize) <= width && (m.row as usize) >= DISPLAY_START_ROW && (
    m.row as usize) <= capacity + DISPLAY_START_ROW;
    match m.kind {
        MouseKind::ScrollUp => if inside {
            Some(ScrollDirection::Up)
        } else {
            None
        },
        MouseKind::ScrollDown => if inside {
            Some(ScrollDirection::Down)
        } else {
            None
        },
        MouseKind::Other => None,
    }
}

/// Maps one raw terminal event to zero or one domain event, given the
/// display geometry.
pub fn classify(e: &EventType, width: usize, capacity: usize) -> (r: Option<DomainEvent>)
    requires
        capacity <= usize::MAX - DISPLAY_START_ROW,
    ensures
        r == spec_classify(*e, width as int, capacity as int),
{
    match e {
        EventType::Key(k) => match classify_key(k) {
            Some(a) => Some(DomainEvent::Key(a)),
            None => None,
        },
        EventType::Scroll(m) => match classify_mouse(m, width, capacity) {
            Some(d) => Some(DomainEvent::Scroll(d)),
            None => None,
        },
    }
}

} // verus!
