//! The UI state: scroll buffer, input editor, quit signal, and the
//! channels that feed them.
//!
//! One writer — the render tick — owns this state. Each tick drains a
//! pending line into the scroll buffer and a pending raw event into the
//! editor or the viewport, then the caller redraws. The quit signal is
//! set by the quit gestures and by a disconnected event channel, and is
//! never unset.

use vstd::prelude::*;

use crate::channel::{send, try_receive, Received};
use crate::display::{
    clear_model, scroll_model, append_model, Display, DisplayModel, display_inv, fresh_display,
};
use crate::editor::{
    apply_key_model, editor_inv, key_outcome, EditOutcome, EditorModel, InputEditor,
};
use crate::events::{
    classify_key, forwarded_char, is_quit_action, spec_classify_key, spec_classify_mouse,
    spec_is_quit, spec_within_display, EventType, KeyAction, KeyInput, MouseInput,
    DISPLAY_START_ROW,
};
use crate::render::render_frame;

verus! {

/// Horizontal pixels per character cell, used to size the UI from a
/// pixel width.
pub const PIXELS_PER_CHARACTER_WIDTH: usize = 10;

/// Vertical pixels per character cell.
pub const PIXELS_PER_CHARACTER_HEIGHT: usize = 15;

/// The number of rows of the display area.
pub const DISPLAY_HEIGHT: usize = 10;

/// The mathematical state of the whole UI.
pub ghost struct UiModel {
    pub display: DisplayModel,
    pub editor: EditorModel,
    pub quit: bool,
    pub title: Seq<char>,
}

/// The UI invariant: both components keep theirs.
pub open spec fn ui_inv(m: UiModel) -> bool {
    &&& display_inv(m.display)
    &&& editor_inv(m.editor)
}

/// What one key event does to the UI: the event is classified; a
/// dropped event changes nothing; otherwise the editor applies the key
/// action, a submitted clear command empties the scroll buffer, and a
/// quit gesture sets the quit signal.
pub open spec fn handle_key_model(m: UiModel, k: KeyInput) -> UiModel {
    match spec_classify_key(k) {
        None => m,
        Some(a) => UiModel {
            display: if key_outcome(m.editor, a) == EditOutcome::ClearRequested {
                clear_model(m.display)
            } else {
                m.display
            },
            editor: apply_key_model(m.editor, a),
            quit: m.quit || spec_is_quit(a),
            title: m.title,
        },
    }
}

/// What one mouse event does to the UI: a wheel movement inside the
/// display area shifts the viewport one step; everything else changes
/// nothing.
pub open spec fn handle_scroll_model(m: UiModel, ev: MouseInput) -> UiModel {
    match spec_classify_mouse(ev, m.display.width, m.display.capacity) {
        Some(direction) => UiModel {
            display: scroll_model(m.display, direction, 1),
            editor: m.editor,
            quit: m.quit,
            title: m.title,
        },
        None => m,
    }
}

/// What one raw event does to the UI.
pub open spec fn handle_event_model(m: UiModel, ev: EventType) -> UiModel {
    match ev {
        EventType::Key(k) => handle_key_model(m, k),
        EventType::Scroll(s) => handle_scroll_model(m, s),
    }
}

/// What one poll of the event channel does to the UI: a delivered
/// event is handled, an empty channel changes nothing, a disconnected
/// channel counts as a quit signal.
pub open spec fn after_poll_model(m: UiModel, r: Received<EventType>) -> UiModel {
    match r {
        Received::Message(ev) => handle_event_model(m, ev),
        Received::Pending => m,
        Received::Closed => UiModel { display: m.display, editor: m.editor, quit: true, title: m.title },
    }
}

/// What one poll of the line channel can yield: a line, nothing for
/// now, or a producer that has gone away for good.
pub ghost enum LinePoll {
    Delivered(Seq<char>),
    Idle,
    Closed,
}

/// What one poll of the line channel does to the UI: a delivered line
/// is appended to the scroll buffer, an empty channel changes nothing,
/// and a disconnected producer counts as a quit signal.
pub open spec fn after_line_model(m: UiModel, p: LinePoll) -> UiModel {
    match p {
        LinePoll::Delivered(l) => UiModel {
            display: append_model(m.display, l),
            editor: m.editor,
            quit: m.quit,
            title: m.title,
        },
        LinePoll::Idle => m,
        LinePoll::Closed => UiModel {
            display: m.display,
            editor: m.editor,
            quit: true,
            title: m.title,
        },
    }
}

/// Law: every key event preserves the UI invariant.
pub proof fn lemma_handle_key_preserves_inv(m: UiModel, k: KeyInput)
    requires
        ui_inv(m),
    ensures
        ui_inv(handle_key_model(m, k)),
{
    if let Some(a) = spec_classify_key(k) {
        crate::editor::lemma_apply_key_preserves_inv(m.editor, a);
    }
}

/// Law: every mouse event preserves the UI invariant.
pub proof fn lemma_handle_scroll_preserves_inv(m: UiModel, ev: MouseInput)
    requires
        ui_inv(m),
    ensures
        ui_inv(handle_scroll_model(m, ev)),
{
}

/// Law: the quit signal is one-directional: no event unsets it.
pub proof fn lemma_quit_is_monotone(m: UiModel, r: Received<EventType>)
    requires
        m.quit,
    ensures
        after_poll_model(m, r).quit,
{
}

/// Law: the quit signal is one-directional on the line channel too:
/// no poll of it unsets it.
pub proof fn lemma_line_quit_is_monotone(m: UiModel, p: LinePoll)
    requires
        m.quit,
    ensures
        after_line_model(m, p).quit,
{
}

/// Law: a quit gesture sets the quit signal, and delivering it twice
/// leaves the whole state exactly where one delivery put it.
pub proof fn lemma_quit_gesture_idempotent(m: UiModel, k: KeyInput)
    requires
        spec_classify_key(k) == Some(KeyAction::Escape) || spec_classify_key(k) == Some(
            KeyAction::CtrlC,
        ),
    ensures
        handle_key_model(m, k).quit,
        handle_key_model(handle_key_model(m, k), k) == handle_key_model(m, k),
{
}

/// Law: submitting the clear command empties the scroll buffer and
/// resets the viewport to the origin, and commits no line.
pub proof fn lemma_clear_command_resets(m: UiModel, k: KeyInput)
    requires
        spec_classify_key(k) == Some(KeyAction::Enter),
        m.editor.buffer == crate::editor::clear_command(),
    ensures
        handle_key_model(m, k).display.lines == Seq::<Seq<char>>::empty(),
        handle_key_model(m, k).display.start == 0,
        handle_key_model(m, k).display.end == 0,
        handle_key_model(m, k).display.stick,
        handle_key_model(m, k).editor.committed == m.editor.committed,
        handle_key_model(m, k).editor.buffer == Seq::<char>::empty(),
{
}

/// The UI: the scroll buffer, the input editor, the quit signal, and
/// the channels connecting them to the other actors.
pub struct Ui {
    title: String,
    width: usize,
    display: Display,
    input: InputEditor,
    input_receiver: crossbeam::channel::Receiver<EventType>,
    sender: crossbeam::channel::Sender<char>,
    quit: bool,
}

impl Ui {
    /// The mathematical state of this UI.
    pub closed spec fn model(&self) -> UiModel {
        UiModel {
            display: self.display.model(),
            editor: self.input.model(),
            quit: self.quit,
            title: self.title@,
        }
    }

    /// The UI invariant, plus the ties between the stored geometry and
    /// the scroll buffer's: the width is shared, and the display area
    /// leaves room for the rows above it.
    pub open spec fn wf(&self) -> bool {
        &&& ui_inv(self.model())
        &&& self.model().display.width == self.spec_width()
        &&& self.model().display.capacity <= usize::MAX - DISPLAY_START_ROW
    }

    /// The width of the UI in character cells.
    pub closed spec fn spec_width(&self) -> int {
        self.width as int
    }

    /// Creates a UI of the given pixel size: the width is converted to
    /// character cells, the display area has its fixed height, and the
    /// buffers start empty. `receiver` delivers lines to log,
    /// `input_receiver` the polled raw events, and accepted keystrokes
    /// are forwarded on `sender`.
    pub fn new(
        title: &str,
        height: usize,
        width: usize,
        receiver: crossbeam::channel::Receiver<String>,
        sender: crossbeam::channel::Sender<char>,
        input_receiver: crossbeam::channel::Receiver<EventType>,
    ) -> (ui: Ui)
        ensures
            ui.wf(),
            ui.model().display == fresh_display(
                DISPLAY_HEIGHT as int,
                (width / PIXELS_PER_CHARACTER_WIDTH) as int,
            ),
            ui.model().editor.buffer == Seq::<char>::empty(),
            ui.model().editor.committed == Seq::<Seq<char>>::empty(),
            !ui.model().quit,
            ui.model().title == title@,
    {
        let character_width = width / PIXELS_PER_CHARACTER_WIDTH;
        Ui {
            title: title.to_owned(),
            width: character_width,
            display: Display::new(DISPLAY_HEIGHT, character_width, receiver),
            input: InputEditor::new(),
            input_receiver,
            sender,
            quit: false,
        }
    }

    /// Whether the pointer position lies inside the display area.
    pub fn within_display(&self, col: usize, row: usize) -> (r: bool)
        requires
            self.wf(),
        ensures
            r == spec_within_display(
                col as int,
                row as int,
                self.model().display.width,
                self.model().display.capacity,
            ),
    {
        let within_width = col <= self.display.get_width();
        let within_height = row >= DISPLAY_START_ROW && row <= self.display.get_height()
            + DISPLAY_START_ROW;
        within_height && within_width
    }

    /// Applies one mouse event: a wheel movement inside the display
    /// area shifts the viewport one step.
    pub fn handle_scroll_event(&mut self, scroll_event: MouseInput)
        requires
            old(self).wf(),
        ensures
            final(self).wf(),
            final(self).model() == handle_scroll_model(old(self).model(), scroll_event),
    {
        let direction = crate::events::classify_mouse(
            &scroll_event,
            self.width,
            self.display.get_height(),
        );
        match direction {
            Some(d) => {
                self.display.shift_view_window(d, 1);
            },
            None => {},
        }
    }

    /// Applies one key event: the forwarded character is sent on the
    /// raw keystroke channel, the editor applies the action, a
    /// submitted clear command empties the scroll buffer, and a quit
    /// gesture sets the quit signal.
    pub fn handle_key_event(&mut self, key_event: KeyInput)
        requires
            old(self).wf(),
        ensures
            final(self).wf(),
            final(self).model() == handle_key_model(old(self).model(), key_event),
    {
        let action = classify_key(&key_event);
        match action {
            Some(a) => {
                let _delivered = send(&self.sender, forwarded_char(&a));
                let outcome = self.input.apply_key(a);
                match outcome {
                    EditOutcome::ClearRequested => {
                        self.display.clear();
                    },
                    _ => {},
                }
                if is_quit_action(&a) {
                    self.quit = true;
                }
            },
            None => {},
        }
    }

    /// Applies one pending raw event from the event channel, if any: a
    /// key or mouse event is handled, an empty channel changes nothing,
    /// and a disconnected channel sets the quit signal.
    pub fn update_input(&mut self)
        requires
            old(self).wf(),
        ensures
            final(self).wf(),
            exists|r: Received<EventType>|
                final(self).model() == after_poll_model(old(self).model(), r),
    {
        let received = try_receive(&self.input_receiver);
        match received {
            Received::Message(ev) => {
                match ev {
                    EventType::Key(k) => {
                        self.handle_key_event(k);
                        proof {
                            assert(self.model() == after_poll_model(
                                old(self).model(),
                                Received::Message(EventType::Key(k)),
                            ));
                        }
                    },
                    EventType::Scroll(s) => {
                        self.handle_scroll_event(s);
                        proof {
                            assert(self.model() == after_poll_model(
                                old(self).model(),
                                Received::Message(EventType::Scroll(s)),
                            ));
                        }
                    },
                }
            },
            Received::Pending => {
                proof {
                    assert(self.model() == after_poll_model(
                        old(self).model(),
                        Received::<EventType>::Pending,
                    ));
                }
            },
            Received::Closed => {
                self.quit = true;
                proof {
                    assert(self.model() == after_poll_model(
                        old(self).model(),
                        Received::<EventType>::Closed,
                    ));
                }
            },
        }
    }

    /// One tick of the render actor's loop: drains one pending line
    /// into the scroll buffer and one pending raw event into the
    /// editor or viewport; a line channel whose producer has gone away
    /// counts as a quit signal. The quit signal only ever moves toward
    /// quitting, and the geometry never changes.
    pub fn tick(&mut self)
        requires
            old(self).wf(),
        ensures
            final(self).wf(),
            exists|p: LinePoll, r: Received<EventType>|
                final(self).model() == after_poll_model(
                    after_line_model(old(self).model(), p),
                    r,
                ),
            old(self).model().quit ==> final(self).model().quit,
            final(self).model().display.capacity == old(self).model().display.capacity,
            final(self).model().display.width == old(self).model().display.width,
            final(self).model().title == old(self).model().title,
    {
        let closed = self.display.update_display();
        if closed {
            self.quit = true;
        }
        let ghost mid = self.model();
        proof {
            if closed {
                assert(mid == after_line_model(old(self).model(), LinePoll::Closed));
            } else if self.display.model() == old(self).display.model() {
                assert(mid == after_line_model(old(self).model(), LinePoll::Idle));
            } else {
                let line = choose|line: Seq<char>|
                    self.display.model() == append_model(old(self).display.model(), line);
                assert(mid == after_line_model(old(self).model(), LinePoll::Delivered(line)));
            }
        }
        self.update_input();
        proof {
            let r = choose|r: Received<EventType>| self.model() == after_poll_model(mid, r);
            let p = choose|p: LinePoll| mid == after_line_model(old(self).model(), p);
            assert(self.model() == after_poll_model(
                after_line_model(old(self).model(), p),
                r,
            ));
        }
    }

    /// The width of the UI in character cells.
    pub fn get_width(&self) -> (r: usize)
        ensures
            r as int == self.spec_width(),
    {
        self.width
    }

    /// The number of rows of the display area.
    pub fn get_display_height(&self) -> (r: usize)
        ensures
            r as int == self.model().display.capacity,
    {
        self.display.get_height()
    }

    /// Whether the quit signal has been set.
    pub fn should_quit(&self) -> (r: bool)
        ensures
            r == self.model().quit,
    {
        self.quit
    }

    /// The rows of the frame to draw for the current state.
    pub fn render_rows(&self) -> (r: Vec<String>)
        requires
            self.wf(),
            8 <= self.model().display.width,
        ensures
            r.deep_view() == crate::render::frame_model(
                self.model().display,
                self.model().editor.buffer,
                self.model().title,
            ),
    {
        render_frame(&self.display, self.input.current_line(), self.title.as_str())
    }

    /// The number of characters of the line being typed.
    pub fn input_len(&self) -> (r: usize)
        ensures
            r == self.model().editor.buffer.len(),
    {
        self.input.current_line().len()
    }

    /// Where the cursor belongs after a redraw.
    pub fn cursor(&self) -> (pos: (usize, usize))
        requires
            self.wf(),
            self.model().editor.buffer.len() <= usize::MAX - 2,
            self.model().display.capacity <= usize::MAX - 4,
        ensures
            pos.0 == self.model().editor.buffer.len() + 2,
            pos.1 == self.model().display.capacity + 4,
    {
        crate::render::cursor_position(self.input.current_line().len(), self.display.get_height())
    }

    /// Hands over the lines committed since the last call, oldest
    /// first.
    pub fn take_committed(&mut self) -> (r: Vec<String>)
        requires
            old(self).wf(),
        ensures
            final(self).wf(),
            r.deep_view() == old(self).model().editor.committed,
            final(self).model().editor.committed == Seq::<Seq<char>>::empty(),
            final(self).model().editor.buffer == old(self).model().editor.buffer,
            final(self).model().display == old(self).model().display,
            final(self).model().quit == old(self).model().quit,
            final(self).model().title == old(self).model().title,
    {
        self.input.take_committed()
    }
}

} // verus!
