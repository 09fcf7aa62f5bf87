use text_ui::coordinator::Phase;

#[test]
fn running_continues_until_quit() {
    assert_eq!(Phase::Running.step(false), Phase::Running);
    assert_eq!(Phase::Running.step(true), Phase::Draining);
}

#[test]
fn draining_always_stops_next() {
    assert_eq!(Phase::Draining.step(false), Phase::Stopped);
    assert_eq!(Phase::Draining.step(true), Phase::Stopped);
}

#[test]
fn stopped_is_final() {
    assert_eq!(Phase::Stopped.step(false), Phase::Stopped);
    assert_eq!(Phase::Stopped.step(true), Phase::Stopped);
}
