//! Pure rendering: turning the UI state into the rows of text a frame
//! shows.
//!
//! Every row is built here as a value and handed back; putting rows on
//! the screen is the terminal side's business. A content row is framed
//! as `| text |`, exactly as wide as the display, with nulls and line
//! breaks skipped and long lines shortened to `...`.

use vstd::math::max;
use vstd::prelude::*;
use vstd::string::StrSliceExecFns;
use vstd::string::StringExecFns;

use crate::constants::{CR, NULL};
use crate::display::{Display, DisplayModel};
use crate::text::{chars_to_string, push_char, str_chars};

verus! {

/// Whether the renderer prints this character; nulls and line breaks
/// are skipped.
pub open spec fn printable(c: char) -> bool {
    c != NULL && c != CR
}

/// The characters of a line that the renderer keeps, in order.
pub open spec fn kept_chars(s: Seq<char>) -> Seq<char>
    decreases s.len(),
{
    if s.len() == 0 {
        Seq::empty()
    } else {
        kept_chars(s.drop_last()) + if printable(s.last()) {
            seq![s.last()]
        } else {
            Seq::<char>::empty()
        }
    }
}

/// `n` spaces (none if `n` is negative).
pub open spec fn blanks(n: int) -> Seq<char> {
    Seq::new(max(n, 0) as nat, |i: int| ' ')
}

/// A divider row: `width` dashes.
pub open spec fn divider_row(width: int) -> Seq<char> {
    Seq::new(max(width, 0) as nat, |i: int| '-')
}

/// Whether a line is shortened: it has more characters than fit between
/// the frame marks, and enough of them survive filtering to reach the
/// cut.
pub open spec fn truncates(s: Seq<char>, width: int) -> bool {
    s.len() > width - 4 && kept_chars(s).len() >= width - 7
}

/// A content row: `| `, then the kept characters — shortened to
/// `width - 7` of them plus `...` when the line is cut — padded with
/// spaces to one short of the width, closed with `|`.
pub open spec fn formatted_line(s: Seq<char>, width: int) -> Seq<char> {
    if truncates(s, width) {
        seq!['|', ' '] + kept_chars(s).take(width - 7) + seq!['.', '.', '.', ' ', '|']
    } else {
        seq!['|', ' '] + kept_chars(s) + blanks(width - 3 - kept_chars(s).len()) + seq!['|']
    }
}

/// The title row: the title as given when it overflows the width,
/// otherwise indented by half the leftover space.
pub open spec fn formatted_title(title: Seq<char>, width: int) -> Seq<char> {
    if title.len() > width {
        title
    } else {
        blanks((width - title.len()) / 2) + title
    }
}

/// The label above the input line.
pub open spec fn input_label() -> Seq<char> {
    seq!['I', 'n', 'p', 'u', 't']
}

/// The rows of the display area: the lines the viewport selects, then
/// blank rows up to the display height, each formatted as a content
/// row.
pub open spec fn display_rows(m: DisplayModel) -> Seq<Seq<char>> {
    Seq::new(
        max(m.capacity, 0) as nat,
        |j: int|
            if m.start + j < m.end {
                formatted_line(m.lines[m.start + j], m.width)
            } else {
                formatted_line(seq![' '], m.width)
            },
    )
}

/// A whole frame: title, divider, the display area, divider, the input
/// label and the line being typed, divider.
pub open spec fn frame_model(m: DisplayModel, input: Seq<char>, title: Seq<char>) -> Seq<
    Seq<char>,
> {
    seq![formatted_title(title, m.width), divider_row(m.width)] + display_rows(m) + seq![
        divider_row(m.width),
        formatted_line(input_label(), m.width),
        formatted_line(input, m.width),
        divider_row(m.width),
    ]
}

/// Law: a line never keeps more characters than it has.
pub proof fn lemma_kept_le_len(s: Seq<char>)
    ensures
        kept_chars(s).len() <= s.len(),
    decreases s.len(),
{
    if s.len() > 0 {
        lemma_kept_le_len(s.drop_last());
    }
}

/// Law: keeping characters commutes with extending the line by one.
pub proof fn lemma_kept_step(s: Seq<char>, i: int)
    requires
        0 <= i < s.len(),
    ensures
        kept_chars(s.take(i + 1)) == kept_chars(s.take(i)) + if printable(s[i]) {
            seq![s[i]]
        } else {
            Seq::<char>::empty()
        },
{
    assert(s.take(i + 1).drop_last() =~= s.take(i));
    assert(s.take(i + 1).last() == s[i]);
}

/// Law: what a prefix of the line keeps is a prefix of what the whole
/// line keeps.
pub proof fn lemma_kept_prefix(s: Seq<char>, i: int)
    requires
        0 <= i <= s.len(),
    ensures
        kept_chars(s.take(i)).len() <= kept_chars(s).len(),
        kept_chars(s.take(i)) == kept_chars(s).take(kept_chars(s.take(i)).len() as int),
    decreases s.len(),
{
    if i == s.len() {
        assert(s.take(i) =~= s);
        assert(kept_chars(s).take(kept_chars(s).len() as int) =~= kept_chars(s));
    } else {
        lemma_kept_prefix(s.drop_last(), i);
        assert(s.drop_last().take(i) =~= s.take(i));
        let n = kept_chars(s.take(i)).len() as int;
        assert(kept_chars(s).take(n) =~= kept_chars(s.drop_last()).take(n));
    }
}

/// Law: a formatted content row is exactly as wide as the display.
pub proof fn lemma_formatted_line_width(s: Seq<char>, width: int)
    requires
        8 <= width,
    ensures
        formatted_line(s, width).len() == width,
{
    lemma_kept_le_len(s);
}

/// Law: every frame has the same number of rows — the display area
/// plus the title row, two input rows and three dividers — whatever
/// is logged or typed.
pub proof fn lemma_frame_height(m: DisplayModel, input: Seq<char>, title: Seq<char>)
    requires
        0 <= m.capacity,
    ensures
        frame_model(m, input, title).len() == m.capacity + 6,
{
}

/// Builds one content row of the frame for the given line.
pub fn format_line(line: &str, width: usize) -> (r: String)
    requires
        8 <= width,
    ensures
        r@ == formatted_line(line@, width as int),
{
    let cs = str_chars(line);
    let mut out = String::new();
    push_char(&mut out, '|');
    push_char(&mut out, ' ');
    let mut count: usize = 2;
    let mut truncated = false;
    let mut i: usize = 0;
    proof {
        assert(cs@.take(0) =~= Seq::<char>::empty());
        assert(out@ =~= seq!['|', ' '] + kept_chars(cs@.take(0)));
    }
    while i < cs.len() && !truncated
        invariant
            8 <= width,
            i <= cs.len(),
            cs@ == line@,
            count <= width - 2,
            !truncated ==> count == 2 + kept_chars(cs@.take(i as int)).len(),
            !truncated ==> out@ == seq!['|', ' '] + kept_chars(cs@.take(i as int)),
            !truncated ==> (cs@.len() > width - 4 ==> kept_chars(cs@.take(i as int)).len() < width
                - 7),
            truncated ==> truncates(cs@, width as int),
            truncated ==> count == width - 2,
            truncated ==> out@ == seq!['|', ' '] + kept_chars(cs@).take(width - 7) + seq![
                '.',
                '.',
                '.',
            ],
        decreases cs.len() - i,
    {
        let c = cs[i];
        proof {
            lemma_kept_step(cs@, i as int);
            lemma_kept_le_len(cs@.take(i + 1));
        }
        if c != NULL && c != CR {
            push_char(&mut out, c);
            count = count + 1;
        }
        proof {
            assert(out@ =~= seq!['|', ' '] + kept_chars(cs@.take(i + 1)));
        }
        if count == width - 5 && cs.len() > width - 4 {
            push_char(&mut out, '.');
            push_char(&mut out, '.');
            push_char(&mut out, '.');
            count = count + 3;
            truncated = true;
            proof {
                lemma_kept_prefix(cs@, i + 1);
                assert(kept_chars(cs@.take(i + 1)).len() == width - 7);
                assert(kept_chars(cs@.take(i + 1)) =~= kept_chars(cs@).take(width - 7));
                assert(out@ =~= seq!['|', ' '] + kept_chars(cs@).take(width - 7) + seq![
                    '.',
                    '.',
                    '.',
                ]);
            }
        }
        i = i + 1;
    }
    proof {
        if !truncated {
            assert(cs@.take(i as int) =~= cs@);
            lemma_kept_le_len(cs@);
        }
    }
    let ghost base = out@;
    let ghost basecount = count as int;
    while count < width - 1
        invariant
            basecount <= count <= width - 1,
            count >= basecount,
            width >= 1,
            out@ == base + blanks(count - basecount),
        decreases width - count,
    {
        push_char(&mut out, ' ');
        count = count + 1;
        proof {
            assert(out@ =~= base + blanks(count - basecount));
        }
    }
    push_char(&mut out, '|');
    proof {
        assert(out@ =~= formatted_line(cs@, width as int));
    }
    out
}

/// Builds the title row of the frame.
pub fn format_title(title: &str, width: usize) -> (r: String)
    ensures
        r@ == formatted_title(title@, width as int),
{
    let n = title.unicode_len();
    if n > width {
        title.to_owned()
    } else {
        let indent = (width - n) / 2;
        let mut out = String::new();
        let mut i: usize = 0;
        proof {
            assert(out@ =~= blanks(0));
        }
        while i < indent
            invariant
                i <= indent,
                out@ == blanks(i as int),
            decreases indent - i,
        {
            push_char(&mut out, ' ');
            proof {
                assert(out@ =~= blanks(i + 1));
            }
            i = i + 1;
        }
        out.append(title);
        out
    }
}

/// Builds a divider row.
pub fn format_divider(width: usize) -> (r: String)
    ensures
        r@ == divider_row(width as int),
{
    let mut out = String::new();
    let mut i: usize = 0;
    proof {
        assert(out@ =~= divider_row(0));
    }
    while i < width
        invariant
            i <= width,
            out@ == divider_row(i as int),
        decreases width - i,
    {
        push_char(&mut out, '-');
        proof {
            assert(out@ =~= divider_row(i + 1));
        }
        i = i + 1;
    }
    out
}

/// Builds the whole frame for a scroll buffer and the line being typed,
/// top row first.
pub fn render_frame(d: &Display, input: &Vec<char>, title: &str) -> (r: Vec<String>)
    requires
        d.wf(),
        8 <= d.model().width,
    ensures
        r.deep_view() == frame_model(d.model(), input@, title@),
{
    let width = d.get_width();
    let height = d.get_height();
    let mut rows: Vec<String> = Vec::new();
    rows.push(format_title(title, width));
    rows.push(format_divider(width));
    let vis = d.visible();
    let mut j: usize = 0;
    proof {
        assert(rows.deep_view() =~= seq![
            formatted_title(title@, d.model().width),
            divider_row(d.model().width),
        ] + display_rows(d.model()).take(0));
    }
    while j < height
        invariant
            d.wf(),
            8 <= d.model().width,
            width == d.model().width,
            height == d.model().capacity,
            j <= height,
            vis.deep_view() == d.model().lines.subrange(d.model().start, d.model().end),
            rows.deep_view() =~= seq![
                formatted_title(title@, d.model().width),
                divider_row(d.model().width),
            ] + display_rows(d.model()).take(j as int),
        decreases height - j,
    {
        let ghost prev = rows.deep_view();
        proof {
            assert(vis.deep_view().len() == d.model().end - d.model().start);
            assert(vis@.len() == vis.deep_view().len());
        }
        if j < vis.len() {
            let row = format_line(vis[j].as_str(), width);
            proof {
                assert(vis@[j as int]@ == vis.deep_view()[j as int]);
                assert(vis.deep_view()[j as int] == d.model().lines[d.model().start + j]);
                assert(row@ == display_rows(d.model())[j as int]);
            }
            rows.push(row);
        } else {
            let row = format_line(" ", width);
            proof {
                reveal_strlit(" ");
                assert((" ")@ =~= seq![' ']);
                assert(row@ == display_rows(d.model())[j as int]);
            }
            rows.push(row);
        }
        proof {
            assert(rows.deep_view() =~= prev.push(display_rows(d.model())[j as int]));
            assert(display_rows(d.model()).take(j + 1) =~= display_rows(d.model()).take(
                j as int,
            ).push(display_rows(d.model())[j as int]));
        }
        j = j + 1;
    }
    proof {
        assert(display_rows(d.model()).take(height as int) =~= display_rows(d.model()));
        reveal_strlit("Input");
        assert(("Input")@ =~= input_label());
    }
    rows.push(format_divider(width));
    rows.push(format_line("Input", width));
    let line = chars_to_string(input);
    rows.push(format_line(line.as_str(), width));
    rows.push(format_divider(width));
    proof {
        assert(rows.deep_view() =~= frame_model(d.model(), input@, title@));
    }
    rows
}

/// Where the terminal cursor belongs after a redraw: just past the end
/// of the typed line, on the input row below the display area.
pub fn cursor_position(input_len: usize, display_height: usize) -> (pos: (usize, usize))
    requires
        input_len <= usize::MAX - 2,
        display_height <= usize::MAX - 4,
    ensures
        pos.0 == input_len + 2,
        pos.1 == display_height + 4,
{
    (input_len + 2, display_height + 4)
}

} // verus!
