use dashcam::frame_buf::FrameBuffer;

/// The slot address formula: `address(i) == base + (i mod frame_count) *
/// frame_size` for any logical index.
#[test]
fn address_formula() {
    let fb = FrameBuffer::new(0x1000, 1000, 100);
    assert_eq!(fb.num_frames, 10);
    assert_eq!(fb.get_addr(0), 0x1000);
    assert_eq!(fb.get_addr(1), 0x1000 + 100);
    assert_eq!(fb.get_addr(9), 0x1000 + 900);
    assert_eq!(fb.get_addr(10), 0x1000);
    assert_eq!(fb.get_addr(23), 0x1000 + 300);
}

/// A fresh buffer arms the two hardware destination slots with the
/// addresses of logical indices 0 and 1.
#[test]
fn new_arms_first_two_slots() {
    let fb = FrameBuffer::new(0x1000, 1000, 100);
    assert_eq!(fb.dest, [0x1000, 0x1000 + 100]);
    assert_eq!(fb.num_caps, 0);
    assert_eq!(fb.iter_cnt, 0);
}

/// `update` returns the just-completed slot's address and re-arms the
/// inactive destination slot with the address two frames ahead.
#[test]
fn update_returns_current_and_rearms_pingpong() {
    let mut fb = FrameBuffer::new(0x1000, 1000, 100);

    let a0 = fb.update();
    assert_eq!(a0, 0x1000);
    assert_eq!(fb.num_caps, 1);
    // Slot 0 (the even side) now points at logical index 2.
    assert_eq!(fb.dest, [0x1000 + 200, 0x1000 + 100]);

    let a1 = fb.update();
    assert_eq!(a1, 0x1000 + 100);
    // Slot 1 (the odd side) now points at logical index 3.
    assert_eq!(fb.dest, [0x1000 + 200, 0x1000 + 300]);
}

/// Fewer captures than slots: the traversal yields one address per capture,
/// oldest first, exactly the addresses `update` returned, then ends.
#[test]
fn iteration_of_partially_filled_buffer() {
    let mut fb = FrameBuffer::new(0x1000, 1000, 100);
    let mut returned = Vec::new();
    for _ in 0..3 {
        returned.push(fb.update());
    }
    let mut yielded = Vec::new();
    while let Some(a) = fb.next() {
        yielded.push(a);
    }
    assert_eq!(yielded, returned);
    assert_eq!(yielded, vec![0x1000, 0x1000 + 100, 0x1000 + 200]);
    assert_eq!(fb.next(), None);
}

/// More captures than slots: after 23 updates of a 10-slot buffer the
/// traversal yields the addresses of logical indices 13 through 22, oldest
/// (13) first.
#[test]
fn iteration_of_wrapped_buffer() {
    let mut fb = FrameBuffer::new(0x1000, 1000, 100);
    for _ in 0..23 {
        fb.update();
    }
    let mut yielded = Vec::new();
    while let Some(a) = fb.next() {
        yielded.push(a);
    }
    assert_eq!(yielded.len(), 10);
    for j in 0..10u32 {
        let logical = 13 + j;
        assert_eq!(yielded[j as usize], 0x1000 + (logical % 10) * 100);
    }
    assert_eq!(fb.next(), None);
}

/// A traversal can be restarted from a copy, for looped replay.
#[test]
fn traversal_restartable_from_copy() {
    let mut fb = FrameBuffer::new(0x2000, 400, 100);
    for _ in 0..4 {
        fb.update();
    }
    for _ in 0..3 {
        let mut pass = fb;
        let mut count = 0;
        while let Some(_) = pass.next() {
            count += 1;
        }
        assert_eq!(count, 4);
    }
}

/// An empty buffer yields nothing: stale slots are never handed out.
#[test]
fn iteration_of_empty_buffer_yields_nothing() {
    let mut fb = FrameBuffer::new(0x1000, 1000, 100);
    assert_eq!(fb.next(), None);
}

/// The frame count truncates: a region that is not a whole number of
/// frames holds only the full slots.
#[test]
fn frame_count_truncates() {
    let fb = FrameBuffer::new(0, 1050, 100);
    assert_eq!(fb.num_frames, 10);
}
