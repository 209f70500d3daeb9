//! Capture pipeline decisions: the state and the choices of the two
//! interrupt-driven tasks.
//!
//! The frame-completion handler advances the circular frame buffer and
//! hands the completed frame's address to the display. The button handler
//! counts presses: the first stops capture and drains every captured frame
//! to the non-volatile store, oldest first; the second reads the saved
//! frames back into a frame buffer for looped replay. The hardware acts —
//! the sensor interface, the DMA engine, the display — are performed by the
//! interrupt layer around these functions.

use crate::frame_buf::FrameBuffer;
use crate::nvm::{Mem, NonVolatileMemory};
use vstd::arithmetic::div_mod::lemma_fundamental_div_mod;
use vstd::prelude::*;

verus! {

/// Number of horizontal pixels of a captured frame (QQVGA).
pub const FRAME_WIDTH: u16 = 160;

/// Number of vertical pixels of a captured frame (QQVGA).
pub const FRAME_HEIGHT: u16 = 120;

/// Number of bytes in one frame: width times height, two bytes per pixel
/// (RGB565).
pub const FRAME_SIZE: u32 = 38400;

/// Time between frames in milliseconds, used to emulate the capture rate
/// during replay.
pub const FRAME_RATE: u32 = 33;

/// Capture mode of the pipeline: capturing from initialization on, stopped
/// once the trigger fires; a session never re-enters capturing.
#[derive(Clone, Copy, Debug, PartialEq, Eq, Structural)]
pub enum CaptureMode {
    /// Frames are being captured into the frame buffer.
    Capturing,
    /// Capture has been stopped by the trigger.
    Stopped,
}

/// What the button task does on a press: the first press saves the
/// buffered video, the second replays it, any further press is ignored.
#[derive(Clone, Copy, Debug, PartialEq, Eq, Structural)]
pub enum ButtonAction {
    /// Stop capture and drain the frame buffer to the store.
    Save,
    /// Read the saved frames back and replay them.
    Replay,
    /// No action.
    Ignore,
}

/// Counts a button press and decides what the press triggers.
pub fn on_button_press(presses: &mut u32) -> (a: ButtonAction)
    requires
        *old(presses) < u32::MAX,
    ensures
        *final(presses) == *old(presses) + 1,
        a == (if *old(presses) + 1 == 1 {
            ButtonAction::Save
        } else if *old(presses) + 1 == 2 {
            ButtonAction::Replay
        } else {
            ButtonAction::Ignore
        }),
{
    *presses = *presses + 1;
    if *presses == 1 {
        ButtonAction::Save
    } else if *presses == 2 {
        ButtonAction::Replay
    } else {
        ButtonAction::Ignore
    }
}

/// Decision of the frame-completion interrupt: when a frame capture
/// completed while the pipeline is capturing, advance the frame buffer and
/// hand back the completed frame's address for the display blit; otherwise
/// nothing happens.
pub fn handle_frame_done(frame_done: bool, mode: CaptureMode, fb: &mut FrameBuffer) -> (r: Option<
    u32,
>)
    requires
        old(fb).wf(),
        frame_done && mode is Capturing ==> old(fb).num_caps + 2 <= u32::MAX,
    ensures
        final(fb).wf(),
        final(fb).mem_base == old(fb).mem_base,
        final(fb).frame_size == old(fb).frame_size,
        final(fb).num_frames == old(fb).num_frames,
        final(fb).iter_cnt == old(fb).iter_cnt,
        ({
            if frame_done && mode is Capturing {
                &&& r matches Some(a) && a == old(fb).spec_addr(old(fb).num_caps as int)
                &&& final(fb).num_caps == old(fb).num_caps + 1
                &&& final(fb).dest[old(fb).num_caps as int % 2] == old(fb).spec_addr(
                    old(fb).num_caps + 2,
                )
                &&& final(fb).dest[1 - old(fb).num_caps as int % 2] == old(fb).dest[1 - old(
                    fb,
                ).num_caps as int % 2]
            } else {
                &&& r is None
                &&& *final(fb) == *old(fb)
            }
        }),
{
    let capturing = match mode {
        CaptureMode::Capturing => true,
        CaptureMode::Stopped => false,
    };
    if frame_done && capturing {
        Some(fb.update())
    } else {
        None
    }
}

/// The span of `s` where frame `j` of a run of frames of `size` bytes
/// starting at `start` lies.
pub open spec fn frame_slice(s: Seq<u8>, start: int, size: int, j: int) -> Seq<u8> {
    s.subrange(start + j * size, start + (j + 1) * size)
}

/// Drain of the capture session: writes every captured slot's bytes to the
/// non-volatile store, oldest first, one store append per frame. On
/// success, frame `j` of the traversal lies in flash at `j` frame sizes
/// past the initial write cursor, holding exactly the RAM bytes of the
/// `j`-th yielded slot.
pub fn save_frames<M: Mem>(fb: &mut FrameBuffer, nvm: &mut NonVolatileMemory<M>) -> (r: Result<
    (),
    M::Error,
>)
    requires
        old(fb).wf(),
        old(fb).iter_cnt == 0,
        old(nvm).wf(),
        old(nvm).erased_tail(),
        old(nvm).write_ptr + old(fb).limit() * old(fb).frame_size <= old(nvm).flash().len(),
        old(nvm).write_ptr + old(fb).limit() * old(fb).frame_size <= u32::MAX,
        old(fb).mem_base + old(fb).num_frames * old(fb).frame_size <= old(nvm).ram().len(),
    ensures
        final(fb).wf(),
        final(nvm).wf(),
        final(fb).mem_base == old(fb).mem_base,
        final(fb).frame_size == old(fb).frame_size,
        final(fb).num_frames == old(fb).num_frames,
        final(fb).num_caps == old(fb).num_caps,
        final(fb).dest == old(fb).dest,
        final(nvm).ram() == old(nvm).ram(),
        final(nvm).flash().len() == old(nvm).flash().len(),
        final(nvm).read_ptr == old(nvm).read_ptr,
        r is Ok ==> {
            &&& final(fb).iter_cnt == old(fb).limit()
            &&& final(nvm).write_ptr == old(nvm).write_ptr + old(fb).limit() * old(
                fb,
            ).frame_size
            &&& final(nvm).erased_tail()
            &&& forall|j: int|
                0 <= j < old(fb).limit() ==> #[trigger] frame_slice(
                    final(nvm).flash(),
                    old(nvm).write_ptr as int,
                    old(fb).frame_size as int,
                    j,
                ) == old(nvm).ram().subrange(
                    old(fb).frames()[j],
                    old(fb).frames()[j] + old(fb).frame_size,
                )
        },
{
    let ghost fb0 = *fb;
    let ghost nvm0 = *nvm;
    let ghost wp0 = nvm.write_ptr as int;
    let ghost fs = fb.frame_size as int;

    let frame_size: u32 = fb.frame_size;
    let total: u32 = if fb.num_caps < fb.num_frames {
        fb.num_caps
    } else {
        fb.num_frames
    };
    let mut i: u32 = 0;

    while i < total
        invariant
            fb0 == *old(fb),
            nvm0 == *old(nvm),
            fb.wf(),
            nvm.wf(),
            nvm.erased_tail(),
            fb.mem_base == fb0.mem_base,
            fb.frame_size == fb0.frame_size,
            fb.num_frames == fb0.num_frames,
            fb.num_caps == fb0.num_caps,
            fb.dest == fb0.dest,
            fb.iter_cnt == i,
            frame_size == fb0.frame_size,
            fs == fb0.frame_size as int,
            wp0 == nvm0.write_ptr as int,
            total == fb0.limit(),
            i <= total,
            nvm.ram() == nvm0.ram(),
            nvm.flash().len() == nvm0.flash().len(),
            nvm.read_ptr == nvm0.read_ptr,
            nvm.write_ptr == wp0 + i * fs,
            wp0 + total * fs <= nvm0.flash().len(),
            wp0 + total * fs <= u32::MAX,
            fb0.mem_base + fb0.num_frames * fb0.frame_size <= nvm0.ram().len(),
            forall|j: int|
                0 <= j < i ==> #[trigger] frame_slice(nvm.flash(), wp0, fs, j)
                    == nvm0.ram().subrange(fb0.frames()[j], fb0.frames()[j] + fs),
        decreases total - i,
    {
        proof {
            assert(i * fs + fs <= total * fs) by (nonlinear_arith)
                requires i < total && 0 <= fs;
        }
        let addr_opt = fb.next();
        let address: u32 = match addr_opt {
            Some(a) => a,
            // Unreachable: the traversal position is strictly below the
            // limit, so the step always yields an address.
            None => { return Ok(()) },
        };

        proof {
            // The yielded address and its whole frame lie inside the
            // modelled RAM region of the buffer.
            let nf: int = fb.num_frames as int;
            let k: int = fb.num_caps - fb.limit() + i;
            assert(address == fb.spec_addr(k));
            let m: int = k % nf;
            assert(0 <= m < nf) by (nonlinear_arith)
                requires 1 <= nf && 0 <= k && m == k % nf;
            assert(m * fs + fs <= nf * fs) by (nonlinear_arith)
                requires m < nf && 0 <= fs;
        }

        let ghost prev_flash = nvm.flash();
        let res = nvm.write(address, frame_size as usize);
        match res {
            Ok(_) => {},
            Err(e) => { return Err(e) },
        }

        proof {
            assert((i + 1) * fs == i * fs + fs) by (nonlinear_arith);
            // The frame just appended holds the slot's RAM bytes.
            assert(frame_slice(nvm.flash(), wp0, fs, i as int) =~= nvm0.ram().subrange(
                fb0.frames()[i as int],
                fb0.frames()[i as int] + fs,
            ));
            // Earlier frames lie below the cursor and are untouched.
            assert forall|j: int| 0 <= j < i implies #[trigger] frame_slice(
                nvm.flash(),
                wp0,
                fs,
                j,
            ) == nvm0.ram().subrange(fb0.frames()[j], fb0.frames()[j] + fs) by {
                assert((j + 1) * fs == j * fs + fs) by (nonlinear_arith);
                assert(j * fs + fs <= i * fs) by (nonlinear_arith)
                    requires j < i && 0 <= fs;
                assert(frame_slice(nvm.flash(), wp0, fs, j) =~= frame_slice(
                    prev_flash,
                    wp0,
                    fs,
                    j,
                ));
            }
        }

        i = i + 1;
    }

    Ok(())
}

/// Replay load: reads the saved session back from the store into the frame
/// buffer's slots, one store read per frame, advancing the buffer exactly
/// as the capture path would. The number of frames is what the write
/// cursor covers; the buffer must be fresh and large enough to hold them
/// all (it is: the session was captured through a buffer of the same
/// geometry). On success, slot `j` of the buffer region holds frame `j` of
/// the flash run starting at the initial read cursor.
pub fn load_frames<M: Mem>(fb: &mut FrameBuffer, nvm: &mut NonVolatileMemory<M>) -> (r: Result<
    (),
    M::Error,
>)
    requires
        old(fb).wf(),
        old(fb).num_caps == 0,
        old(fb).num_frames + 2 <= u32::MAX,
        old(nvm).wf(),
        old(nvm).write_ptr <= old(fb).num_frames * old(fb).frame_size,
        old(nvm).read_ptr + old(nvm).write_ptr <= old(nvm).flash().len(),
        old(nvm).read_ptr + old(nvm).write_ptr <= u32::MAX,
        old(fb).mem_base + old(fb).num_frames * old(fb).frame_size <= old(nvm).ram().len(),
    ensures
        final(fb).wf(),
        final(nvm).wf(),
        final(fb).mem_base == old(fb).mem_base,
        final(fb).frame_size == old(fb).frame_size,
        final(fb).num_frames == old(fb).num_frames,
        final(fb).iter_cnt == old(fb).iter_cnt,
        final(nvm).flash() == old(nvm).flash(),
        final(nvm).write_ptr == old(nvm).write_ptr,
        final(nvm).ram().len() == old(nvm).ram().len(),
        old(nvm).erased_tail() ==> final(nvm).erased_tail(),
        r is Ok ==> {
            &&& final(fb).num_caps == old(nvm).write_ptr / old(fb).frame_size
            &&& final(nvm).read_ptr == old(nvm).read_ptr + (old(nvm).write_ptr / old(
                fb,
            ).frame_size) * old(fb).frame_size
            &&& forall|j: int|
                0 <= j < old(nvm).write_ptr / old(fb).frame_size ==> #[trigger] frame_slice(
                    final(nvm).ram(),
                    old(fb).mem_base as int,
                    old(fb).frame_size as int,
                    j,
                ) == frame_slice(
                    old(nvm).flash(),
                    old(nvm).read_ptr as int,
                    old(fb).frame_size as int,
                    j,
                )
        },
{
    let ghost fb0 = *fb;
    let ghost nvm0 = *nvm;
    let ghost rp0 = nvm.read_ptr as int;
    let ghost fs = fb.frame_size as int;

    let frame_size: u32 = fb.frame_size;
    let num_frames: u32 = nvm.get_write_ptr() / frame_size;

    proof {
        // The frames the cursor covers fit below it: `num * fs <= write_ptr`.
        lemma_fundamental_div_mod(nvm.write_ptr as int, fs);
        // And they fit in the buffer: `num <= fb.num_frames`.
        assert(nvm.write_ptr as int / fs <= fb.num_frames) by (nonlinear_arith)
            requires
                1 <= fs,
                0 <= nvm.write_ptr,
                nvm.write_ptr <= fb.num_frames * fs,
        ;
    }

    let mut i: u32 = 0;
    while i < num_frames
        invariant
            fb0 == *old(fb),
            nvm0 == *old(nvm),
            fb.wf(),
            nvm.wf(),
            fb.mem_base == fb0.mem_base,
            fb.frame_size == fb0.frame_size,
            fb.num_frames == fb0.num_frames,
            fb.iter_cnt == fb0.iter_cnt,
            fb.num_caps == i,
            frame_size == fb0.frame_size,
            fs == fb0.frame_size as int,
            rp0 == nvm0.read_ptr as int,
            num_frames == nvm0.write_ptr as int / fs,
            num_frames <= fb0.num_frames,
            num_frames * fs <= nvm0.write_ptr,
            i <= num_frames,
            fb0.num_frames + 2 <= u32::MAX,
            nvm.flash() == nvm0.flash(),
            nvm.write_ptr == nvm0.write_ptr,
            nvm.ram().len() == nvm0.ram().len(),
            nvm.read_ptr == rp0 + i * fs,
            rp0 + nvm0.write_ptr <= nvm0.flash().len(),
            rp0 + nvm0.write_ptr <= u32::MAX,
            fb0.mem_base + fb0.num_frames * fb0.frame_size <= nvm0.ram().len(),
            forall|j: int|
                0 <= j < i ==> #[trigger] frame_slice(nvm.ram(), fb0.mem_base as int, fs, j)
                    == frame_slice(nvm0.flash(), rp0, fs, j),
        decreases num_frames - i,
    {
        proof {
            assert(i * fs + fs <= num_frames * fs) by (nonlinear_arith)
                requires i < num_frames && 0 <= fs;
            // Slot `i` does not wrap: `i % num_frames == i`.
            assert((i as int) % (fb.num_frames as int) == i as int) by (nonlinear_arith)
                requires 0 <= i < fb.num_frames;
            // Slot `i` and its whole frame lie inside the buffer region.
            assert(i * fs + fs <= fb.num_frames as int * fs) by (nonlinear_arith)
                requires i < fb.num_frames as int && 0 <= fs;
        }

        let address: u32 = fb.update();
        let ghost prev_ram = nvm.ram();
        let res = nvm.read(address, frame_size as usize);
        match res {
            Ok(_) => {},
            Err(e) => { return Err(e) },
        }

        proof {
            assert((i + 1) * fs == i * fs + fs) by (nonlinear_arith);
            // The slot just filled holds the frame read from flash.
            assert(frame_slice(nvm.ram(), fb0.mem_base as int, fs, i as int) =~= frame_slice(
                nvm0.flash(),
                rp0,
                fs,
                i as int,
            ));
            // Earlier slots lie below this one and are untouched.
            assert forall|j: int| 0 <= j < i implies #[trigger] frame_slice(
                nvm.ram(),
                fb0.mem_base as int,
                fs,
                j,
            ) == frame_slice(nvm0.flash(), rp0, fs, j) by {
                assert((j + 1) * fs == j * fs + fs) by (nonlinear_arith);
                assert(j * fs + fs <= i * fs) by (nonlinear_arith)
                    requires j < i && 0 <= fs;
                assert(frame_slice(nvm.ram(), fb0.mem_base as int, fs, j) =~= frame_slice(
                    prev_ram,
                    fb0.mem_base as int,
                    fs,
                    j,
                ));
            }
        }

        i = i + 1;
    }

    Ok(())
}

} // verus!
