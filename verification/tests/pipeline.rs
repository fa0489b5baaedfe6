use lise::renderer::{AcquireOutcome, FramePipeline, PresentOutcome, MAX_FRAMES_IN_FLIGHT};

/// Drives one complete frame: prepare with the given acquire outcome, wait
/// for the image's previous writer when the protocol asks for it, submit,
/// and present with the given outcome. Returns the (slot, image) pair of
/// the submission, or None when the frame was skipped.
fn drive_frame(
    p: &mut FramePipeline,
    acquired: AcquireOutcome,
    present: PresentOutcome,
) -> Option<(usize, usize)> {
    if p.needs_recreate() {
        let images = p.image_count();
        p.recreate(images);
    }
    // The host would block on fence[p.current_slot()] here.
    let skip = p.prepare_frame(acquired);
    if skip {
        return None;
    }
    if p.image_fence_to_wait().is_some() {
        // The host would block on that slot's fence here.
        p.note_image_fence_signalled();
    }
    let ticket = p.submit_frame();
    p.finish_frame(present);
    Some((ticket.slot, ticket.image))
}

#[test]
fn ring_cycles_regardless_of_image_count() {
    let mut p = FramePipeline::new(3, 2);
    let mut slots = Vec::new();
    for k in 0..7 {
        assert_eq!(p.current_slot(), k % 3);
        let r = drive_frame(&mut p, AcquireOutcome::Image(k % 2), PresentOutcome::Presented);
        slots.push(r.unwrap().0);
    }
    assert_eq!(slots, vec![0, 1, 2, 0, 1, 2, 0]);
}

#[test]
fn default_frames_in_flight_is_two() {
    assert_eq!(MAX_FRAMES_IN_FLIGHT, 2);
}

#[test]
fn scenario_two_slots_three_images() {
    // N = 2 slots, the surface has 3 images, acquire hands out 0,1,2,0,1,2.
    let mut p = FramePipeline::new(2, 3);
    let mut updates = [0usize; 3];
    for k in 0..6 {
        let slot_now = p.current_slot();
        assert_eq!(slot_now, k % 2);
        let skip = p.prepare_frame(AcquireOutcome::Image(k % 3));
        assert!(!skip);
        if let Some(s) = p.image_fence_to_wait() {
            // Never a deadlock: the protocol never asks the host to block on
            // the fence it already waited for this frame.
            assert_ne!(s, slot_now);
            p.note_image_fence_signalled();
        }
        let ticket = p.submit_frame();
        assert_eq!(ticket.slot, k % 2);
        assert_eq!(ticket.image, k % 3);
        updates[ticket.image] += 1;
        p.finish_frame(PresentOutcome::Presented);
    }
    // Each image had its in-use fence updated exactly twice.
    assert_eq!(updates, [2, 2, 2]);
}

#[test]
fn scenario_stale_acquire_skips_and_recreates() {
    // Frames 0 to 3 present normally; acquire reports Stale on frame 4.
    let mut p = FramePipeline::new(2, 3);
    let mut submits = 0usize;
    for k in 0..4 {
        assert!(!p.needs_recreate());
        let r = drive_frame(&mut p, AcquireOutcome::Image(k % 3), PresentOutcome::Presented);
        assert!(r.is_some());
        submits += 1;
    }
    // Frame 4: skipped wholesale, zero submits.
    assert!(!p.needs_recreate());
    let slot_before = p.current_slot();
    let skip = p.prepare_frame(AcquireOutcome::Stale);
    assert!(skip);
    assert_eq!(submits, 4);
    // Frame 5 begins with a recreate before any acquire.
    assert!(p.needs_recreate());
    p.recreate(3);
    assert!(!p.needs_recreate());
    // The skipped frame did not advance the ring.
    assert_eq!(p.current_slot(), slot_before);
    let r = drive_frame(&mut p, AcquireOutcome::Image(0), PresentOutcome::Presented);
    assert_eq!(r, Some((slot_before, 0)));
}

#[test]
fn scenario_stale_present_still_submits() {
    // Present reports Stale on frame 7: the frame's work is still submitted
    // (not re-attempted), the dirty flag is set, and recreation happens
    // before frame 8's acquire.
    let mut p = FramePipeline::new(2, 3);
    for k in 0..7 {
        let r = drive_frame(&mut p, AcquireOutcome::Image(k % 3), PresentOutcome::Presented);
        assert!(r.is_some());
    }
    // Frame 7.
    let skip = p.prepare_frame(AcquireOutcome::Image(1));
    assert!(!skip);
    if p.image_fence_to_wait().is_some() {
        p.note_image_fence_signalled();
    }
    let ticket = p.submit_frame();
    assert_eq!(ticket.slot, 1);
    assert_eq!(ticket.image, 1);
    p.finish_frame(PresentOutcome::Stale);
    assert!(p.needs_recreate());
    // Frame 8: recreate, then acquire again.
    p.recreate(2);
    assert!(!p.needs_recreate());
    assert_eq!(p.image_count(), 2);
    let r = drive_frame(&mut p, AcquireOutcome::Image(0), PresentOutcome::Presented);
    assert_eq!(r, Some((0, 0)));
}

#[test]
fn reuse_wait_names_the_previous_writer() {
    // With more slots than images, acquiring an image again while its
    // previous writer's fence is still pending asks for that very slot.
    let mut p = FramePipeline::new(3, 2);
    drive_frame(&mut p, AcquireOutcome::Image(0), PresentOutcome::Presented);
    drive_frame(&mut p, AcquireOutcome::Image(1), PresentOutcome::Presented);
    let skip = p.prepare_frame(AcquireOutcome::Image(0));
    assert!(!skip);
    assert_eq!(p.image_fence_to_wait(), Some(0));
    p.note_image_fence_signalled();
    assert_eq!(p.image_fence_to_wait(), None);
    let ticket = p.submit_frame();
    assert_eq!((ticket.slot, ticket.image), (2, 0));
    p.finish_frame(PresentOutcome::Presented);
}

#[test]
fn own_fence_needs_no_reuse_wait() {
    // When the image's previous writer is the current slot itself, the wait
    // already done at the top of the frame covers it: no further wait.
    let mut p = FramePipeline::new(2, 2);
    for k in 0..4 {
        let slot_now = p.current_slot();
        let skip = p.prepare_frame(AcquireOutcome::Image(k % 2));
        assert!(!skip);
        // Image k % 2 was last written by slot k % 2 == the current slot.
        assert_eq!(p.image_fence_to_wait(), None);
        let ticket = p.submit_frame();
        assert_eq!(ticket.slot, slot_now);
        p.finish_frame(PresentOutcome::Presented);
    }
}

#[test]
fn resize_notice_forces_recreation() {
    let mut p = FramePipeline::new(2, 3);
    drive_frame(&mut p, AcquireOutcome::Image(0), PresentOutcome::Presented);
    assert!(!p.needs_recreate());
    p.note_resized();
    assert!(p.needs_recreate());
    p.recreate(4);
    assert!(!p.needs_recreate());
    assert_eq!(p.image_count(), 4);
    let r = drive_frame(&mut p, AcquireOutcome::Image(3), PresentOutcome::Presented);
    assert_eq!(r, Some((1, 3)));
}

#[test]
fn shutdown_after_idle_wait() {
    let mut p = FramePipeline::new(2, 3);
    for k in 0..3 {
        drive_frame(&mut p, AcquireOutcome::Image(k), PresentOutcome::Presented);
    }
    // The host performs the blocking idle wait, then tears down.
    p.shutdown();
}
