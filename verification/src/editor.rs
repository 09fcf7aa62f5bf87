//! The input editor: the line being typed and the lines already
//! submitted.
//!
//! The editor owns a single in-progress line — the cursor is always at
//! its end — and a queue of committed lines ready for the application.
//! One key action at a time is applied to it; erasing from an empty
//! line is a no-op, and submitting the reserved `/clear` command asks
//! for the scroll buffer to be cleared instead of committing a line.

use vstd::prelude::*;

use crate::events::KeyAction;
use crate::text::chars_to_string;

verus! {

/// The mathematical state of the editor: the in-progress line and the
/// committed queue, oldest first.
pub ghost struct EditorModel {
    pub buffer: Seq<char>,
    pub committed: Seq<Seq<char>>,
}

/// The characters the buffer never holds: the control characters that
/// key actions stand for.
pub open spec fn is_control_char(c: char) -> bool {
    c == crate::constants::BACKSPACE || c == crate::constants::CR || c == crate::constants::ESC
}

/// The editor invariant: the in-progress line holds no control
/// characters.
pub open spec fn editor_inv(m: EditorModel) -> bool {
    forall|i: int| 0 <= i < m.buffer.len() ==> !is_control_char(#[trigger] m.buffer[i])
}

/// The reserved command that clears the scroll buffer instead of
/// committing a line.
pub open spec fn clear_command() -> Seq<char> {
    seq!['/', 'c', 'l', 'e', 'a', 'r']
}

/// What applying one key action does to the editor state: a glyph is
/// appended (control characters are never stored), backspace erases the
/// last character if there is one, enter resets the line and commits it
/// unless it is the clear command, and the quit gestures discard it.
pub open spec fn apply_key_model(m: EditorModel, k: KeyAction) -> EditorModel {
    match k {
        KeyAction::Glyph(c) => if is_control_char(c) {
            m
        } else {
            EditorModel { buffer: m.buffer.push(c), committed: m.committed }
        },
        KeyAction::Backspace => if m.buffer.len() == 0 {
            m
        } else {
            EditorModel { buffer: m.buffer.drop_last(), committed: m.committed }
        },
        KeyAction::Enter => if m.buffer == clear_command() {
            EditorModel { buffer: Seq::empty(), committed: m.committed }
        } else {
            EditorModel { buffer: Seq::empty(), committed: m.committed.push(m.buffer) }
        },
        KeyAction::Escape => EditorModel { buffer: Seq::empty(), committed: m.committed },
        KeyAction::CtrlC => EditorModel { buffer: Seq::empty(), committed: m.committed },
    }
}

/// What the editor reports back for one key action.
pub open spec fn key_outcome(m: EditorModel, k: KeyAction) -> EditOutcome {
    match k {
        KeyAction::Glyph(_) => EditOutcome::Edited,
        KeyAction::Backspace => EditOutcome::Edited,
        KeyAction::Enter => if m.buffer == clear_command() {
            EditOutcome::ClearRequested
        } else {
            EditOutcome::Committed
        },
        KeyAction::Escape => EditOutcome::QuitRequested,
        KeyAction::CtrlC => EditOutcome::QuitRequested,
    }
}

/// Law: erasing from an empty line changes nothing.
pub proof fn lemma_backspace_on_empty_is_noop(m: EditorModel)
    requires
        m.buffer.len() == 0,
    ensures
        apply_key_model(m, KeyAction::Backspace) == m,
{
}

/// Law: every key action keeps control characters out of the buffer.
pub proof fn lemma_apply_key_preserves_inv(m: EditorModel, k: KeyAction)
    requires
        editor_inv(m),
    ensures
        editor_inv(apply_key_model(m, k)),
{
}

/// What the editor answers to one key action.
#[derive(Clone, Copy, PartialEq, Eq, Structural, Debug)]
pub enum EditOutcome {
    /// The in-progress line changed (or an erase on an empty line was
    /// ignored).
    Edited,
    /// The line was finalized and moved to the committed queue.
    Committed,
    /// The clear command was submitted: the caller clears the scroll
    /// buffer; no line is committed.
    ClearRequested,
    /// A quit gesture arrived; the in-progress line was discarded.
    QuitRequested,
}

/// The input editor: the line being typed and the committed queue.
pub struct InputEditor {
    buffer: Vec<char>,
    committed: Vec<String>,
}

impl InputEditor {
    /// The mathematical state of this editor.
    pub closed spec fn model(&self) -> EditorModel {
        EditorModel { buffer: self.buffer@, committed: self.committed.deep_view() }
    }

    /// Shorthand for the editor invariant on this editor.
    pub open spec fn wf(&self) -> bool {
        editor_inv(self.model())
    }

    /// Creates an editor with an empty line and no committed lines.
    pub fn new() -> (e: InputEditor)
        ensures
            e.wf(),
            e.model().buffer == Seq::<char>::empty(),
            e.model().committed == Seq::<Seq<char>>::empty(),
    {
        let e = InputEditor { buffer: Vec::new(), committed: Vec::new() };
        proof {
            assert(e.model().committed =~= Seq::<Seq<char>>::empty());
            assert(e.model().buffer =~= Seq::<char>::empty());
        }
        e
    }

    /// Whether the in-progress line is exactly the clear command.
    fn is_clear_command(&self) -> (r: bool)
        ensures
            r == (self.model().buffer == clear_command()),
    {
        let b = &self.buffer;
        let r = b.len() == 6 && b[0] == '/' && b[1] == 'c' && b[2] == 'l' && b[3] == 'e' && b[4]
            == 'a' && b[5] == 'r';
        proof {
            if r {
                assert(self.model().buffer =~= clear_command());
            }
            if self.model().buffer == clear_command() {
                assert(b@.len() == 6);
                assert(b@[0] == '/' && b@[1] == 'c' && b@[2] == 'l' && b@[3] == 'e' && b@[4] == 'a'
                    && b@[5] == 'r');
            }
        }
        r
    }

    /// Applies one key action to the line, per the editor's rules, and
    /// reports what happened.
    pub fn apply_key(&mut self, k: KeyAction) -> (r: EditOutcome)
        requires
            old(self).wf(),
        ensures
            final(self).wf(),
            final(self).model() == apply_key_model(old(self).model(), k),
            r == key_outcome(old(self).model(), k),
    {
        proof {
            lemma_apply_key_preserves_inv(old(self).model(), k);
        }
        match k {
            KeyAction::Glyph(c) => {
                if !(c == crate::constants::BACKSPACE || c == crate::constants::CR || c
                    == crate::constants::ESC) {
                    self.buffer.push(c);
                }
                EditOutcome::Edited
            },
            KeyAction::Backspace => {
                if self.buffer.len() > 0 {
                    self.buffer.pop();
                    proof {
                        assert(self.buffer@ =~= old(self).buffer@.drop_last());
                    }
                }
                EditOutcome::Edited
            },
            KeyAction::Enter => {
                if self.is_clear_command() {
                    self.buffer = Vec::new();
                    EditOutcome::ClearRequested
                } else {
                    let line = chars_to_string(&self.buffer);
                    self.committed.push(line);
                    self.buffer = Vec::new();
                    proof {
                        assert(self.model().committed =~= old(self).model().committed.push(
                            old(self).model().buffer,
                        ));
                    }
                    EditOutcome::Committed
                }
            },
            KeyAction::Escape => {
                self.buffer = Vec::new();
                EditOutcome::QuitRequested
            },
            KeyAction::CtrlC => {
                self.buffer = Vec::new();
                EditOutcome::QuitRequested
            },
        }
    }

    /// The line being typed, as characters.
    pub fn current_line(&self) -> (r: &Vec<char>)
        ensures
            r@ == self.model().buffer,
    {
        &self.buffer
    }

    /// Hands the committed lines over to the caller, oldest first, and
    /// empties the queue.
    pub fn take_committed(&mut self) -> (r: Vec<String>)
        ensures
            r.deep_view() == old(self).model().committed,
            final(self).model().committed == Seq::<Seq<char>>::empty(),
            final(self).model().buffer == old(self).model().buffer,
            old(self).wf() ==> final(self).wf(),
    {
        let mut taken: Vec<String> = Vec::new();
        core::mem::swap(&mut taken, &mut self.committed);
        proof {
            assert(self.model().committed =~= Seq::<Seq<char>>::empty());
        }
        taken
    }
}

} // verus!
