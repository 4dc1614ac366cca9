use editor_build_mode::correlation::CorrelationId;
use editor_build_mode::dispatcher::EditorAction;
use editor_build_mode::dispatcher::Submission;

fn drain_initial_reset<T>(d: &mut EditorAction<T>, at: u64) {
    // A fresh dispatcher's channel holds the reset message; the consumer's
    // first acceptance delivers it as a no-op and opens the first window.
    assert!(d.poll_submission(at).is_none());
}

#[test]
fn coalescing_one_submission_per_window() {
    let mut d: EditorAction<u64> = EditorAction::new(7, 1, 100);
    drain_initial_reset(&mut d, 0);
    d.push_intent(11);
    d.push_intent(22);
    d.push_intent(33);
    // Inside the window nothing is delivered, however many pushes landed.
    assert!(d.poll_submission(10).is_none());
    assert!(d.poll_submission(99).is_none());
    // The poll that closes the window carries exactly the last value.
    let s: Submission<u64> = d.poll_submission(100).expect("window closed");
    assert_eq!(s.payload, 33);
    assert_eq!(s.kind, 7);
    // Nothing is left pending: the burst collapsed to one submission.
    assert!(d.poll_submission(200).is_none());
}

#[test]
fn correlation_id_stable_within_gesture() {
    let mut d: EditorAction<&str> = EditorAction::new(3, 9, 50);
    drain_initial_reset(&mut d, 0);
    d.push_intent("a");
    let first = d.poll_submission(50).expect("first submission");
    d.push_intent("b");
    let second = d.poll_submission(100).expect("second submission");
    assert_eq!(first.id, second.id);
    // Confirm ends the unit; the next gesture gets a strictly different id.
    d.confirm();
    assert!(d.poll_submission(150).is_none());
    d.push_intent("c");
    let third = d.poll_submission(200).expect("third submission");
    assert_ne!(third.id, first.id);
}

#[test]
fn confirm_is_terminal_clean() {
    let mut d: EditorAction<u64> = EditorAction::new(1, 4, 100);
    drain_initial_reset(&mut d, 0);
    d.push_intent(5);
    d.confirm();
    // Teardown after a confirm issues no undo request.
    assert_eq!(d.release(), None);
}

#[test]
fn cancel_and_drop_abort_agree() {
    let mut cancelled: EditorAction<u64> = EditorAction::new(1, 4, 100);
    drain_initial_reset(&mut cancelled, 0);
    cancelled.push_intent(5);
    let undo = cancelled.cancel();
    assert_eq!(undo, Some(CorrelationId { tag: 4, serial: 0 }));
    // Never more than one undo for one gesture.
    assert_eq!(cancelled.release(), None);

    let mut dropped: EditorAction<u64> = EditorAction::new(1, 4, 100);
    drain_initial_reset(&mut dropped, 0);
    dropped.push_intent(5);
    // The teardown path requests exactly the same undo as an explicit cancel.
    assert_eq!(dropped.release(), Some(CorrelationId { tag: 4, serial: 0 }));
    assert_eq!(dropped.release(), None);
}

#[test]
fn cancel_clears_pending_slot() {
    let mut d: EditorAction<u64> = EditorAction::new(2, 8, 100);
    drain_initial_reset(&mut d, 0);
    d.push_intent(42);
    let undo = d.cancel();
    assert!(undo.is_some());
    // The value pushed before the cancel must never reach the network.
    assert!(d.poll_submission(100).is_none());
    assert!(d.poll_submission(200).is_none());
}

#[test]
fn idle_dispatcher_cancels_to_nothing() {
    let mut d: EditorAction<u64> = EditorAction::new(2, 8, 100);
    assert_eq!(d.cancel(), None);
    assert_eq!(d.release(), None);
}

#[test]
fn submissions_ordered_by_window_close() {
    let mut d: EditorAction<u64> = EditorAction::new(2, 8, 100);
    drain_initial_reset(&mut d, 0);
    d.push_intent(1);
    let s1 = d.poll_submission(100).expect("first window");
    d.push_intent(2);
    assert!(d.poll_submission(150).is_none());
    let s2 = d.poll_submission(205).expect("second window");
    assert_eq!((s1.payload, s2.payload), (1, 2));
    assert_eq!(s1.id, s2.id);
}

#[test]
fn reset_message_is_a_no_op_but_consumes_a_window() {
    let mut d: EditorAction<u64> = EditorAction::new(9, 6, 100);
    drain_initial_reset(&mut d, 0);
    d.push_intent(1);
    assert!(d.poll_submission(100).is_some());
    d.confirm();
    // The confirm's reset message is eligible for delivery: it submits
    // nothing, but its acceptance opens a new throttle window at t=200.
    assert!(d.poll_submission(200).is_none());
    d.push_intent(2);
    assert!(d.poll_submission(250).is_none());
    let s = d.poll_submission(300).expect("window after the reset");
    assert_eq!(s.payload, 2);
}

#[test]
fn end_to_end_throttled_gesture_then_cancel() {
    // push at t=0, t=10 and t=50 with a 100 ms throttle: one submission at
    // t=100 carrying the last value, then one undo for its correlation id.
    let mut d: EditorAction<u64> = EditorAction::new(5, 2, 100);
    drain_initial_reset(&mut d, 0);
    d.push_intent(101);
    assert!(d.poll_submission(0).is_none());
    d.push_intent(102);
    assert!(d.poll_submission(10).is_none());
    d.push_intent(103);
    assert!(d.poll_submission(50).is_none());
    let s = d.poll_submission(100).expect("one submission");
    assert_eq!(s.payload, 103);
    let undo = d.cancel().expect("outstanding gesture");
    assert_eq!(undo, s.id);
}
