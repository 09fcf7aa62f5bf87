use crossbeam::channel::unbounded;
use text_ui::display::Display;
use text_ui::render::{cursor_position, format_divider, format_line, format_title, render_frame};

#[test]
fn divider_is_a_row_of_dashes() {
    assert_eq!(format_divider(5), "-----");
    assert_eq!(format_divider(0), "");
}

#[test]
fn short_lines_are_framed_and_padded() {
    assert_eq!(format_line("hi", 12), "| hi       |");
    assert_eq!(format_line("", 12), "|          |");
}

#[test]
fn formatted_rows_are_exactly_as_wide_as_the_display() {
    for line in ["", "a", "exact", "something much longer than the width"] {
        assert_eq!(format_line(line, 12).chars().count(), 12);
    }
}

#[test]
fn long_lines_are_shortened_with_an_ellipsis() {
    assert_eq!(format_line("abcdefghijkl", 12), "| abcde... |");
}

#[test]
fn nulls_and_line_breaks_are_skipped() {
    assert_eq!(format_line("a\nb", 12), "| ab       |");
    assert_eq!(format_line("a\u{0}b", 12), "| ab       |");
}

#[test]
fn the_narrowest_width_still_frames_every_row() {
    assert_eq!(format_line("ab", 8), "| ab   |");
    assert_eq!(format_line("abcdefgh", 8), "| a... |");
    assert_eq!(format_divider(8), "--------");
}

#[test]
fn titles_are_centered_in_the_width() {
    assert_eq!(format_title("abcd", 10), "   abcd");
    assert_eq!(format_title("abcd", 4), "abcd");
    assert_eq!(format_title("too long for this", 5), "too long for this");
}

#[test]
fn cursor_sits_past_the_typed_line_on_the_input_row() {
    assert_eq!(cursor_position(3, 10), (5, 14));
    assert_eq!(cursor_position(0, 10), (2, 14));
}

#[test]
fn a_frame_holds_title_display_input_and_dividers() {
    let (_s, r) = unbounded::<String>();
    let mut d = Display::new(2, 12, r);
    d.add_data("hi");
    let input: Vec<char> = vec!['o', 'k'];
    let rows = render_frame(&d, &input, "Demo");
    assert_eq!(rows.len(), 8);
    assert_eq!(rows[0], "    Demo");
    assert_eq!(rows[1], "------------");
    assert_eq!(rows[2], "| hi       |");
    assert_eq!(rows[3], "|          |");
    assert_eq!(rows[4], "------------");
    assert_eq!(rows[5], "| Input    |");
    assert_eq!(rows[6], "| ok       |");
    assert_eq!(rows[7], "------------");
}
