use bubble_level::buttons::{classify_edges, ButtonInputLatch};
use bubble_level::level::ButtonPress;

#[test]
fn take_with_reset_consumes_the_event() {
    let mut latch = ButtonInputLatch::new();
    latch.signal(ButtonPress::ButtonA);
    assert_eq!(latch.take(true), ButtonPress::ButtonA);
    assert_eq!(latch.take(true), ButtonPress::NoPress);
}

#[test]
fn take_without_reset_keeps_the_event() {
    let mut latch = ButtonInputLatch::new();
    latch.signal(ButtonPress::ButtonB);
    assert_eq!(latch.take(false), ButtonPress::ButtonB);
    assert_eq!(latch.take(true), ButtonPress::ButtonB);
    assert_eq!(latch.take(true), ButtonPress::NoPress);
}

#[test]
fn last_signal_wins_without_queueing() {
    let mut latch = ButtonInputLatch::new();
    latch.signal(ButtonPress::ButtonA);
    latch.signal(ButtonPress::ButtonB);
    assert_eq!(latch.take(true), ButtonPress::ButtonB);
    assert_eq!(latch.take(true), ButtonPress::NoPress);
}

#[test]
fn fresh_latch_holds_no_press() {
    let mut latch = ButtonInputLatch::new();
    assert_eq!(latch.take(true), ButtonPress::NoPress);
}

#[test]
fn classification_resolves_ambiguity_to_no_press() {
    assert_eq!(classify_edges(true, false), ButtonPress::ButtonA);
    assert_eq!(classify_edges(false, true), ButtonPress::ButtonB);
    assert_eq!(classify_edges(true, true), ButtonPress::NoPress);
    assert_eq!(classify_edges(false, false), ButtonPress::NoPress);
}
