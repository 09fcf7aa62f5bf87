//! The scroll buffer: an append-only log of lines and a viewport over it.
//!
//! The viewport is a half-open index range `[start, end)` into the log,
//! never taller than the display area (`capacity` rows). While
//! `stick_to_bottom` holds, the viewport tracks the tail of the log as
//! lines arrive; scrolling up releases it, scrolling down at the tail
//! re-engages it.

use vstd::math::{max, min};
use vstd::prelude::*;

use crate::channel::{try_receive, Received};
use crate::events::ScrollDirection;

verus! {

/// The mathematical state of a scroll buffer: the logged lines, the
/// viewport bounds, the display geometry and the stick-to-bottom flag.
pub ghost struct DisplayModel {
    pub lines: Seq<Seq<char>>,
    pub start: int,
    pub end: int,
    pub capacity: int,
    pub width: int,
    pub stick: bool,
}

/// The viewport invariant: the window lies inside the log, is exactly as
/// tall as the log until the log outgrows the display area and exactly
/// `capacity` rows from then on, and rests on the tail whenever
/// stick-to-bottom holds.
pub open spec fn display_inv(m: DisplayModel) -> bool {
    &&& 0 <= m.start <= m.end <= m.lines.len()
    &&& 0 <= m.capacity
    &&& m.end - m.start == min(m.lines.len() as int, m.capacity)
    &&& m.stick ==> m.end == m.lines.len()
}

/// A freshly created scroll buffer: no lines, the viewport collapsed at
/// the origin, stick-to-bottom engaged.
pub open spec fn fresh_display(capacity: int, width: int) -> DisplayModel {
    DisplayModel {
        lines: Seq::empty(),
        start: 0,
        end: 0,
        capacity: capacity,
        width: width,
        stick: true,
    }
}

/// Appending a line: the log grows at the end; with stick-to-bottom the
/// viewport moves to the tail, otherwise it keeps its position and only
/// grows while it is still shorter than the display area.
pub open spec fn append_model(m: DisplayModel, line: Seq<char>) -> DisplayModel {
    let lines = m.lines.push(line);
    if m.stick {
        DisplayModel {
            lines: lines,
            start: max(0, lines.len() - m.capacity),
            end: lines.len() as int,
            capacity: m.capacity,
            width: m.width,
            stick: m.stick,
        }
    } else if m.end - m.start < m.capacity {
        DisplayModel {
            lines: lines,
            start: m.start,
            end: min(lines.len() as int, m.start + m.capacity),
            capacity: m.capacity,
            width: m.width,
            stick: m.stick,
        }
    } else {
        DisplayModel {
            lines: lines,
            start: m.start,
            end: m.end,
            capacity: m.capacity,
            width: m.width,
            stick: m.stick,
        }
    }
}

/// Scrolling: up moves the window toward the origin, clamped at zero,
/// and releases stick-to-bottom; down at the tail re-engages
/// stick-to-bottom and moves nothing, otherwise it advances the window,
/// clamped so it never passes the tail.
pub open spec fn scroll_model(m: DisplayModel, direction: ScrollDirection, amount: int) -> DisplayModel {
    match direction {
        ScrollDirection::Up => {
            let shift = min(amount, m.start);
            DisplayModel {
                lines: m.lines,
                start: m.start - shift,
                end: m.end - shift,
                capacity: m.capacity,
                width: m.width,
                stick: false,
            }
        },
        ScrollDirection::Down => {
            if m.end == m.lines.len() {
                DisplayModel {
                    lines: m.lines,
                    start: m.start,
                    end: m.end,
                    capacity: m.capacity,
                    width: m.width,
                    stick: true,
                }
            } else {
                let shift = min(amount, m.lines.len() - m.end);
                DisplayModel {
                    lines: m.lines,
                    start: m.start + shift,
                    end: m.end + shift,
                    capacity: m.capacity,
                    width: m.width,
                    stick: m.stick,
                }
            }
        },
    }
}

/// Clearing: the log is emptied and the viewport returns to its fresh
/// state, stick-to-bottom engaged.
pub open spec fn clear_model(m: DisplayModel) -> DisplayModel {
    DisplayModel {
        lines: Seq::empty(),
        start: 0,
        end: 0,
        capacity: m.capacity,
        width: m.width,
        stick: true,
    }
}

/// A run of appends, oldest first, applied to a scroll buffer state.
pub open spec fn append_all_model(m: DisplayModel, lines: Seq<Seq<char>>) -> DisplayModel
    decreases lines.len(),
{
    if lines.len() == 0 {
        m
    } else {
        append_model(append_all_model(m, lines.drop_last()), lines.last())
    }
}

/// A run of scroll-up steps applied to a scroll buffer state.
pub open spec fn scroll_up_all_model(m: DisplayModel, amounts: Seq<int>) -> DisplayModel
    decreases amounts.len(),
{
    if amounts.len() == 0 {
        m
    } else {
        scroll_model(scroll_up_all_model(m, amounts.drop_last()), ScrollDirection::Up, amounts.last())
    }
}

/// Law: one append preserves the viewport invariant.
pub proof fn lemma_append_preserves_inv(m: DisplayModel, line: Seq<char>)
    requires
        display_inv(m),
    ensures
        display_inv(append_model(m, line)),
{
}

/// Law: any sequence of appends preserves the viewport invariant.
pub proof fn lemma_append_all_preserves_inv(m: DisplayModel, lines: Seq<Seq<char>>)
    requires
        display_inv(m),
    ensures
        display_inv(append_all_model(m, lines)),
    decreases lines.len(),
{
    if lines.len() > 0 {
        lemma_append_all_preserves_inv(m, lines.drop_last());
        lemma_append_preserves_inv(append_all_model(m, lines.drop_last()), lines.last());
    }
}

/// Law: while stick-to-bottom holds, a run of appends keeps the window
/// on the tail, so its end grows by exactly the number of lines
/// appended; from a fresh buffer, the end equals that number.
pub proof fn lemma_stick_follows_tail(m: DisplayModel, lines: Seq<Seq<char>>)
    requires
        display_inv(m),
        m.stick,
    ensures
        display_inv(append_all_model(m, lines)),
        append_all_model(m, lines).stick,
        append_all_model(m, lines).end == m.lines.len() + lines.len(),
    decreases lines.len(),
{
    if lines.len() > 0 {
        lemma_stick_follows_tail(m, lines.drop_last());
        lemma_append_preserves_inv(append_all_model(m, lines.drop_last()), lines.last());
    }
}

/// Law: from a fresh buffer, after appending any run of lines with no
/// intervening scroll, the window ends exactly at the number of lines
/// appended.
pub proof fn lemma_fresh_appends_track_tail(capacity: int, width: int, lines: Seq<Seq<char>>)
    requires
        0 <= capacity,
    ensures
        append_all_model(fresh_display(capacity, width), lines).end == lines.len(),
{
    lemma_stick_follows_tail(fresh_display(capacity, width), lines);
}

/// Law: one scroll step preserves the viewport invariant.
pub proof fn lemma_scroll_preserves_inv(m: DisplayModel, direction: ScrollDirection, amount: int)
    requires
        display_inv(m),
        0 <= amount,
    ensures
        display_inv(scroll_model(m, direction, amount)),
{
}

/// Law: scrolling up clamps at the origin: the window start becomes
/// `max(0, start - amount)` and in particular never goes below zero.
pub proof fn lemma_scroll_up_clamps(m: DisplayModel, amount: int)
    requires
        display_inv(m),
        0 <= amount,
    ensures
        scroll_model(m, ScrollDirection::Up, amount).start == max(0, m.start - amount),
        scroll_model(m, ScrollDirection::Up, amount).start >= 0,
{
}

/// Law: however large the amounts, repeated scroll-up steps keep the
/// invariant and a nonnegative window start: the clamping never
/// underflows.
pub proof fn lemma_scroll_up_never_underflows(m: DisplayModel, amounts: Seq<int>)
    requires
        display_inv(m),
        forall|i: int| 0 <= i < amounts.len() ==> amounts[i] >= 0,
    ensures
        display_inv(scroll_up_all_model(m, amounts)),
        scroll_up_all_model(m, amounts).start >= 0,
    decreases amounts.len(),
{
    if amounts.len() > 0 {
        lemma_scroll_up_never_underflows(m, amounts.drop_last());
        lemma_scroll_preserves_inv(
            scroll_up_all_model(m, amounts.drop_last()),
            ScrollDirection::Up,
            amounts.last(),
        );
    }
}

/// Law: scrolling down re-engages stick-to-bottom exactly when the
/// window already ends at the tail of the log.
pub proof fn lemma_scroll_down_restick(m: DisplayModel, amount: int)
    requires
        display_inv(m),
        0 <= amount,
    ensures
        scroll_model(m, ScrollDirection::Down, amount).stick <==> m.end == m.lines.len(),
{
}

/// A scroll buffer wired to the channel on which the application
/// delivers lines to log.
pub struct Display {
    data: Vec<String>,
    view_window: (usize, usize),
    display_height: usize,
    display_width: usize,
    receiver: crossbeam::channel::Receiver<String>,
    stick_to_bottom: bool,
}

impl Display {
    /// The mathematical state this buffer is in.
    pub closed spec fn model(&self) -> DisplayModel {
        DisplayModel {
            lines: self.data.deep_view(),
            start: self.view_window.0 as int,
            end: self.view_window.1 as int,
            capacity: self.display_height as int,
            width: self.display_width as int,
            stick: self.stick_to_bottom,
        }
    }

    /// Shorthand for the viewport invariant on this buffer.
    pub open spec fn wf(&self) -> bool {
        display_inv(self.model())
    }

    /// Creates an empty scroll buffer for a display area of
    /// `display_height` rows and `display_width` columns, fed by
    /// `receiver`.
    pub fn new(
        display_height: usize,
        display_width: usize,
        receiver: crossbeam::channel::Receiver<String>,
    ) -> (d: Display)
        ensures
            d.wf(),
            d.model() == fresh_display(display_height as int, display_width as int),
    {
        let d = Display {
            data: Vec::new(),
            view_window: (0, 0),
            display_height,
            display_width,
            receiver,
            stick_to_bottom: true,
        };
        proof {
            assert(d.data.deep_view() =~= Seq::<Seq<char>>::empty());
        }
        d
    }

    /// Appends one line to the log and recomputes the viewport; the
    /// lines already logged are never changed.
    pub fn add_data(&mut self, new_data: &str)
        requires
            old(self).wf(),
        ensures
            final(self).wf(),
            final(self).model() == append_model(old(self).model(), new_data@),
    {
        self.data.push(new_data.to_owned());
        proof {
            assert(self.data.deep_view() =~= old(self).data.deep_view().push(new_data@));
        }
        let len = self.data.len();
        if self.stick_to_bottom {
            let start = if len > self.display_height {
                len - self.display_height
            } else {
                0
            };
            self.view_window = (start, len);
        } else if self.view_window.1 - self.view_window.0 < self.display_height {
            let end = if len - self.view_window.0 > self.display_height {
                self.view_window.0 + self.display_height
            } else {
                len
            };
            self.view_window = (self.view_window.0, end);
        }
    }

    /// Moves the viewport one way or the other, clamped at the ends of
    /// the log; the log itself is untouched.
    pub fn shift_view_window(&mut self, direction: ScrollDirection, amount: usize)
        requires
            old(self).wf(),
        ensures
            final(self).wf(),
            final(self).model() == scroll_model(old(self).model(), direction, amount as int),
    {
        match direction {
            ScrollDirection::Up => {
                let shift = if amount < self.view_window.0 {
                    amount
                } else {
                    self.view_window.0
                };
                self.view_window = (self.view_window.0 - shift, self.view_window.1 - shift);
                self.stick_to_bottom = false;
            },
            ScrollDirection::Down => {
                if self.view_window.1 == self.data.len() {
                    self.stick_to_bottom = true;
                } else {
                    let room = self.data.len() - self.view_window.1;
                    let shift = if amount < room {
                        amount
                    } else {
                        room
                    };
                    self.view_window = (self.view_window.0 + shift, self.view_window.1 + shift);
                }
            },
        }
    }

    /// Empties the log and resets the viewport, as the clear command
    /// demands.
    pub fn clear(&mut self)
        ensures
            final(self).wf(),
            final(self).model() == clear_model(old(self).model()),
    {
        self.data = Vec::new();
        self.view_window = (0, 0);
        self.stick_to_bottom = true;
        proof {
            assert(self.data.deep_view() =~= Seq::<Seq<char>>::empty());
        }
    }

    /// Applies one pending message from the line channel, if any: the
    /// delivered line is appended, an empty channel leaves the buffer
    /// as it was. Reports whether the producing side has disconnected,
    /// in which case the buffer is also left as it was and no line will
    /// ever arrive again.
    pub fn update_display(&mut self) -> (closed: bool)
        requires
            old(self).wf(),
        ensures
            final(self).wf(),
            closed ==> final(self).model() == old(self).model(),
            !closed ==> final(self).model() == old(self).model() || (exists|line: Seq<char>|
                final(self).model() == append_model(old(self).model(), line)),
    {
        let received = try_receive(&self.receiver);
        match received {
            Received::Message(data) => {
                self.add_data(data.as_str());
                proof {
                    assert(self.model() == append_model(old(self).model(), data@));
                }
                false
            },
            Received::Pending => false,
            Received::Closed => true,
        }
    }

    /// The lines the viewport currently selects, oldest first.
    pub fn visible(&self) -> (r: Vec<String>)
        requires
            self.wf(),
        ensures
            r.deep_view() == self.model().lines.subrange(self.model().start, self.model().end),
    {
        let mut r: Vec<String> = Vec::new();
        let mut i: usize = self.view_window.0;
        while i < self.view_window.1
            invariant
                self.wf(),
                self.view_window.0 <= i <= self.view_window.1,
                r.deep_view() =~= self.model().lines.subrange(self.model().start, i as int),
            decreases self.view_window.1 - i,
        {
            let ghost prev = r.deep_view();
            r.push(self.data[i].clone());
            proof {
                assert(r.deep_view() =~= prev.push(self.data@[i as int]@));
                assert(self.model().lines.subrange(self.model().start, i + 1) =~= self.model().lines.subrange(
                    self.model().start,
                    i as int,
                ).push(self.model().lines[i as int]));
                assert(r.deep_view() =~= self.model().lines.subrange(
                    self.model().start,
                    i + 1 as int,
                ));
            }
            i = i + 1;
        }
        proof {
            assert(r.deep_view() =~= self.model().lines.subrange(
                self.model().start,
                self.model().end,
            ));
        }
        r
    }

    /// The number of rows of the display area.
    pub fn get_height(&self) -> (r: usize)
        ensures
            r as int == self.model().capacity,
    {
        self.display_height
    }

    /// The number of columns of the display area.
    pub fn get_width(&self) -> (r: usize)
        ensures
            r as int == self.model().width,
    {
        self.display_width
    }
}

} // verus!
