use kp::cancel::{interrupt, Interruption, GRACE_MILLIS, INTERRUPTED};

#[test]
fn interrupt_clears_the_clipboard_before_it_waits() {
    assert_eq!(
        interrupt(),
        vec![
            Interruption::Cancel,
            Interruption::ResetTty,
            Interruption::ClearClipboard,
            Interruption::Sleep { millis: 200 },
            Interruption::Exit { code: 1 },
        ]
    );
}

#[test]
fn grace_period_is_two_ticks() {
    assert_eq!(GRACE_MILLIS, 200);
    assert_eq!(GRACE_MILLIS, 2 * kp::clip::TICK_MILLIS);
    assert_eq!(INTERRUPTED, 1);
}
