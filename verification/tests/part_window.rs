use rusty_cat::part_window::PartWindow;

#[test]
fn dispatch_hands_out_aligned_offsets_up_to_total() {
    // total=25, chunk=10 => parts at 0,10,20 (last is short: 5 bytes).
    let mut w = PartWindow::new(0, 10, 25, 8);
    assert_eq!(w.take_dispatch(), Some(0));
    assert_eq!(w.take_dispatch(), Some(10));
    assert_eq!(w.take_dispatch(), Some(20));
    // Nothing left to dispatch.
    assert_eq!(w.take_dispatch(), None);
}

#[test]
fn dispatch_is_bounded_by_max_in_flight() {
    let mut w = PartWindow::new(0, 10, 1000, 2);
    assert_eq!(w.take_dispatch(), Some(0));
    assert_eq!(w.take_dispatch(), Some(10));
    // Window full at 2 in flight.
    assert_eq!(w.take_dispatch(), None);
    // Completing one frees a slot; next offset continues the sequence.
    assert_eq!(w.on_done(0).unwrap(), Some(10));
    assert_eq!(w.take_dispatch(), Some(20));
}

#[test]
fn in_order_completion_advances_watermark_each_step() {
    let mut w = PartWindow::new(0, 10, 30, 8);
    w.take_dispatch();
    w.take_dispatch();
    w.take_dispatch();
    assert_eq!(w.on_done(0).unwrap(), Some(10));
    assert_eq!(w.on_done(10).unwrap(), Some(20));
    assert_eq!(w.on_done(20).unwrap(), Some(30));
    assert!(w.is_complete());
}

#[test]
fn out_of_order_high_part_first_does_not_advance_past_a_hole() {
    let mut w = PartWindow::new(0, 10, 30, 8);
    w.take_dispatch(); // 0
    w.take_dispatch(); // 10
    w.take_dispatch(); // 20
    // Highest part lands first: watermark must NOT move (hole at 0..20).
    assert_eq!(w.on_done(20).unwrap(), None);
    assert_eq!(w.watermark(), 0);
    assert!(!w.is_complete());
    // Middle part lands: still a hole at 0..10.
    assert_eq!(w.on_done(10).unwrap(), None);
    assert_eq!(w.watermark(), 0);
    // First part fills the gap: watermark jumps over ALL contiguous parts.
    assert_eq!(w.on_done(0).unwrap(), Some(30));
    assert_eq!(w.watermark(), 30);
    assert!(w.is_complete());
}

#[test]
fn short_last_part_clamps_watermark_to_total() {
    // total=25, chunk=10 => last part starts at 20, size 5.
    let mut w = PartWindow::new(0, 10, 25, 8);
    w.take_dispatch();
    w.take_dispatch();
    w.take_dispatch();
    w.on_done(0).unwrap();
    w.on_done(10).unwrap();
    // Completing the short last part must reach exactly total, not 30.
    assert_eq!(w.on_done(20).unwrap(), Some(25));
    assert_eq!(w.watermark(), 25);
    assert!(w.is_complete());
}

#[test]
fn is_complete_requires_watermark_total_and_nothing_in_flight() {
    let mut w = PartWindow::new(0, 10, 20, 8);
    w.take_dispatch(); // 0
    w.take_dispatch(); // 10
    // First completes, watermark=10, but a part is still in flight.
    w.on_done(0).unwrap();
    assert!(!w.is_complete());
    // Second completes, watermark=20 and in_flight back to 0.
    w.on_done(10).unwrap();
    assert!(w.is_complete());
}

#[test]
fn settled_without_progress_frees_a_slot_but_does_not_advance() {
    let mut w = PartWindow::new(0, 10, 30, 1);
    assert_eq!(w.take_dispatch(), Some(0));
    assert_eq!(w.take_dispatch(), None); // window full (max 1)
    // A failed/cancelled part settles: the slot is freed (so the next offset
    // becomes dispatchable) and the watermark does NOT advance.
    w.on_settled_without_progress();
    assert_eq!(w.watermark(), 0);
    assert_eq!(w.take_dispatch(), Some(10));
}

#[test]
fn resume_starts_dispatch_and_watermark_at_start_offset() {
    // Resuming a 30-byte upload past the first chunk.
    let mut w = PartWindow::new(10, 10, 30, 8);
    assert_eq!(w.watermark(), 10);
    assert_eq!(w.take_dispatch(), Some(10));
    assert_eq!(w.take_dispatch(), Some(20));
    assert_eq!(w.take_dispatch(), None);
    assert_eq!(w.on_done(10).unwrap(), Some(20));
    assert_eq!(w.on_done(20).unwrap(), Some(30));
    assert!(w.is_complete());
}

#[test]
fn already_complete_resume_is_complete_with_no_dispatch() {
    let mut w = PartWindow::new(30, 10, 30, 8);
    assert_eq!(w.take_dispatch(), None);
    assert!(w.is_complete());
}

#[test]
fn in_flight_counts_dispatched_parts() {
    let mut w = PartWindow::new(0, 10, 30, 8);
    assert_eq!(w.in_flight(), 0);
    w.take_dispatch();
    w.take_dispatch();
    assert_eq!(w.in_flight(), 2);
    w.on_done(0).unwrap();
    assert_eq!(w.in_flight(), 1);
    w.on_settled_without_progress();
    assert_eq!(w.in_flight(), 0);
}
