use jd_client::barrier::{BarrierOp, SynchronizationBarrier, WaitOutcome};

#[test]
fn barrier_starts_with_no_template_in_flight() {
    let b = SynchronizationBarrier::new();
    assert!(b.template_handled());
    assert_eq!(b.wait_until_done(), WaitOutcome::Proceed);
}

#[test]
fn wait_suspends_between_mark_busy_and_mark_done() {
    let mut b = SynchronizationBarrier::new();
    b.mark_busy();
    for _ in 0..100 {
        assert_eq!(b.wait_until_done(), WaitOutcome::Suspend);
    }
    b.mark_done();
    assert_eq!(b.wait_until_done(), WaitOutcome::Proceed);
}

#[test]
fn repeated_mark_done_leaves_flag_true() {
    let mut b = SynchronizationBarrier::new();
    b.mark_busy();
    b.mark_done();
    b.mark_done();
    b.mark_done();
    assert!(b.template_handled());
}

#[test]
fn repeated_mark_busy_leaves_flag_false() {
    let mut b = SynchronizationBarrier::new();
    b.mark_busy();
    b.mark_busy();
    assert!(!b.template_handled());
    b.mark_done();
    assert!(b.template_handled());
}

#[test]
fn replay_keeps_the_last_write() {
    let mut b = SynchronizationBarrier::new();
    b.replay(&vec![BarrierOp::MarkBusy, BarrierOp::MarkDone, BarrierOp::MarkBusy]);
    assert!(!b.template_handled());
    b.replay(&vec![]);
    assert!(!b.template_handled());
    b.replay(&vec![BarrierOp::MarkBusy, BarrierOp::MarkBusy, BarrierOp::MarkDone]);
    assert!(b.template_handled());
}

#[test]
fn replay_of_an_empty_trace_changes_nothing() {
    let mut b = SynchronizationBarrier::new();
    b.replay(&vec![]);
    assert!(b.template_handled());
}

#[test]
fn observed_flag_decides_the_wait() {
    assert_eq!(SynchronizationBarrier::observed(true).wait_until_done(), WaitOutcome::Proceed);
    assert_eq!(SynchronizationBarrier::observed(false).wait_until_done(), WaitOutcome::Suspend);
    assert!(!SynchronizationBarrier::observed(false).template_handled());
}
