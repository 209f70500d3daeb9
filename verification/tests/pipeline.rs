use dashcam::frame_buf::FrameBuffer;
use dashcam::nvm::{NonVolatileMemory, RamDevice};
use dashcam::pipeline::{
    handle_frame_done, load_frames, on_button_press, save_frames, ButtonAction, CaptureMode,
    FRAME_HEIGHT, FRAME_SIZE, FRAME_WIDTH,
};

#[test]
fn frame_size_matches_geometry() {
    assert_eq!(FRAME_SIZE, (FRAME_WIDTH as u32) * (FRAME_HEIGHT as u32) * 2);
}

/// The first press saves, the second replays, every later press is ignored.
#[test]
fn button_presses_drive_the_session() {
    let mut presses = 0u32;
    assert_eq!(on_button_press(&mut presses), ButtonAction::Save);
    assert_eq!(presses, 1);
    assert_eq!(on_button_press(&mut presses), ButtonAction::Replay);
    assert_eq!(presses, 2);
    assert_eq!(on_button_press(&mut presses), ButtonAction::Ignore);
    assert_eq!(on_button_press(&mut presses), ButtonAction::Ignore);
    assert_eq!(presses, 4);
}

/// A completed frame advances the buffer while capturing, and hands back
/// the completed slot's address for the display.
#[test]
fn frame_interrupt_advances_while_capturing() {
    let mut fb = FrameBuffer::new(0x1000, 400, 100);
    let r = handle_frame_done(true, CaptureMode::Capturing, &mut fb);
    assert_eq!(r, Some(0x1000));
    assert_eq!(fb.num_caps, 1);
    let r = handle_frame_done(true, CaptureMode::Capturing, &mut fb);
    assert_eq!(r, Some(0x1000 + 100));
    assert_eq!(fb.num_caps, 2);
}

/// Once capture is stopped — and on interrupts without a completed frame —
/// the buffer does not move.
#[test]
fn frame_interrupt_ignored_when_stopped() {
    let mut fb = FrameBuffer::new(0x1000, 400, 100);
    assert_eq!(handle_frame_done(true, CaptureMode::Stopped, &mut fb), None);
    assert_eq!(handle_frame_done(false, CaptureMode::Capturing, &mut fb), None);
    assert_eq!(fb.num_caps, 0);
}

/// A full session against the in-memory device: capture six frames into a
/// four-slot buffer, drain on the first press, load back on the second,
/// and find the four most recent frames, oldest first.
#[test]
fn capture_save_replay_session() {
    let mut dev = RamDevice::new(0x10000, 0x400);
    let mut fb = FrameBuffer::new(0, 400, 100);

    // Simulate six captures: the hardware fills the armed slot, then the
    // completion interrupt advances the buffer.
    let mut captured = Vec::new();
    for k in 0..6u32 {
        let slot = fb.get_addr(k);
        let frame: Vec<u8> = (0..100u32).map(|b| (k * 100 + b) as u8).collect();
        dev.fill_ram(slot, &frame);
        let addr = handle_frame_done(true, CaptureMode::Capturing, &mut fb).unwrap();
        assert_eq!(addr, slot);
        captured.push(frame);
    }
    assert_eq!(fb.num_caps, 6);

    // First press: stop and drain. Only the four surviving frames (the
    // captures of logical indices 2..6) are saved, oldest first.
    let mut nvm = NonVolatileMemory::new(dev, 0).unwrap();
    save_frames(&mut fb, &mut nvm).unwrap();
    assert_eq!(nvm.get_write_ptr(), 400);

    // Second press: read the saved session back into a fresh buffer over a
    // different region, then walk it.
    let mut fb2 = FrameBuffer::new(0x200, 400, 100);
    load_frames(&mut fb2, &mut nvm).unwrap();
    assert_eq!(fb2.num_caps, 4);

    let mut yielded = Vec::new();
    while let Some(a) = fb2.next() {
        yielded.push(a);
    }
    assert_eq!(yielded, vec![0x200, 0x200 + 100, 0x200 + 200, 0x200 + 300]);

    // Slot j of the replay buffer holds the capture of logical index 2 + j.
    for j in 0..4usize {
        let expected = &captured[2 + j];
        for b in 0..100usize {
            assert_eq!(nvm.device.ram_byte(yielded[j] + b as u32), expected[b]);
        }
    }
}

/// Draining a buffer with fewer captures than slots saves exactly the
/// captured frames.
#[test]
fn drain_of_partially_filled_buffer() {
    let mut dev = RamDevice::new(0x10000, 0x400);
    let mut fb = FrameBuffer::new(0, 400, 100);

    let frame: Vec<u8> = vec![0x77; 100];
    dev.fill_ram(fb.get_addr(0), &frame);
    handle_frame_done(true, CaptureMode::Capturing, &mut fb);

    let mut nvm = NonVolatileMemory::new(dev, 0).unwrap();
    save_frames(&mut fb, &mut nvm).unwrap();
    assert_eq!(nvm.get_write_ptr(), 100);

    let mut fb2 = FrameBuffer::new(0x200, 400, 100);
    load_frames(&mut fb2, &mut nvm).unwrap();
    assert_eq!(fb2.num_caps, 1);
    for b in 0..100u32 {
        assert_eq!(nvm.device.ram_byte(0x200 + b), 0x77);
    }
}
