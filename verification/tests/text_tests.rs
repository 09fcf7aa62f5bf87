use text_ui::text::{chars_to_string, str_chars};

#[test]
fn characters_round_trip_through_a_string() {
    let cs = vec!['h', 'i', ' ', '!'];
    assert_eq!(chars_to_string(&cs), "hi !");
    assert_eq!(str_chars("hi !"), cs);
}

#[test]
fn empty_values_stay_empty() {
    assert_eq!(chars_to_string(&Vec::new()), "");
    assert_eq!(str_chars("").len(), 0);
}
