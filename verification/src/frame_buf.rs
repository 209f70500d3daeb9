//! Circular frame buffer over a fixed RAM region.
//!
//! The buffer divides a RAM region into fixed-size frame slots and hands out
//! slot addresses: to the capture hardware ahead of each frame (through a
//! two-slot ping-pong destination model), and to readers as a bounded,
//! oldest-first traversal of the already-captured slots.

use vstd::prelude::*;

verus! {

/// `FrameBuffer` is initialized with a base address, a region size and a
/// frame size (bytes). It counts completed captures forever and maps logical
/// frame indices to slot addresses in a circular fashion.
///
/// The two destination registers of the capture hardware are modelled as the
/// two-slot array `dest`, indexed by capture count modulo 2: one slot is the
/// transfer the hardware is filling, the other the pre-armed next target.
/// The hardware layer mirrors `dest` into the real registers after each call.
#[derive(Clone, Copy, Debug)]
pub struct FrameBuffer {
    /// Base address of the frame buffer region. Never changes after `new`.
    pub mem_base: u32,
    /// Size of a single frame in bytes. Never changes after `new`.
    pub frame_size: u32,
    /// Number of frame slots in the region. Never changes after `new`.
    pub num_frames: u32,
    /// Number of completed captures (calls to `update`). Increases forever.
    pub num_caps: u32,
    /// Position of the oldest-first traversal, advanced by `next`.
    pub iter_cnt: u32,
    /// Model of the two ping-pong hardware destination registers.
    pub dest: [u32; 2],
}

impl FrameBuffer {
    /// Well-formedness: at least one slot, and every slot lies below the end
    /// of the region, which fits in the 32-bit address space.
    pub open spec fn wf(&self) -> bool {
        &&& 1 <= self.frame_size
        &&& 1 <= self.num_frames
        &&& self.mem_base + self.num_frames * self.frame_size <= u32::MAX
    }

    /// Slot address of logical frame index `i`:
    /// `base + (i mod frame_count) * frame_size`.
    pub open spec fn spec_addr(&self, i: int) -> int {
        self.mem_base + (i % (self.num_frames as int)) * self.frame_size
    }

    /// How many frames a traversal yields: the captured count, bounded by
    /// the number of slots.
    pub open spec fn limit(&self) -> int {
        if self.num_caps < self.num_frames {
            self.num_caps as int
        } else {
            self.num_frames as int
        }
    }

    /// The addresses a full oldest-first traversal yields, in order.
    pub open spec fn frames(&self) -> Seq<int> {
        Seq::new(
            self.limit() as nat,
            |j: int| self.spec_addr(self.num_caps - self.limit() + j),
        )
    }

    /// Creates a new frame buffer over `[base, base + size)` with frames of
    /// `fsize` bytes, arming the two destination slots with the addresses of
    /// logical indices 0 and 1.
    pub fn new(base: u32, size: u32, fsize: u32) -> (fb: FrameBuffer)
        requires
            1 <= fsize,
            fsize <= size,
            base + size <= u32::MAX,
        ensures
            fb.wf(),
            fb.mem_base == base,
            fb.frame_size == fsize,
            fb.num_frames == size / fsize,
            fb.num_caps == 0,
            fb.iter_cnt == 0,
            fb.dest[0] == fb.spec_addr(0),
            fb.dest[1] == base + fsize,
            fb.num_frames >= 2 ==> fb.dest[1] == fb.spec_addr(1),
    {
        let nf: u32 = size / fsize;
        proof {
            assert(1 <= nf && nf * fsize <= size) by (nonlinear_arith)
                requires 1 <= fsize && fsize <= size && nf == size / fsize;
        }
        let fb = FrameBuffer {
            mem_base: base,
            frame_size: fsize,
            num_frames: nf,
            num_caps: 0,
            iter_cnt: 0,
            dest: [base, base + fsize],
        };
        proof {
            assert(0int % (nf as int) == 0 && (nf >= 2 ==> 1int % (nf as int) == 1))
                by (nonlinear_arith)
                requires 1 <= nf;
        }
        fb
    }

    /// Converts a logical frame index to its slot address.
    pub fn get_addr(&self, index: u32) -> (addr: u32)
        requires
            self.wf(),
        ensures
            addr == self.spec_addr(index as int),
    {
        let slot: u32 = index % self.num_frames;
        proof {
            assert(slot * self.frame_size + self.frame_size
                <= self.num_frames * self.frame_size)
                by (nonlinear_arith)
                requires slot <= self.num_frames - 1 && self.frame_size >= 1;
        }
        self.mem_base + slot * self.frame_size
    }

    /// Records that the frame of logical index `num_caps` just completed:
    /// returns its address, re-arms the destination slot the hardware is not
    /// currently streaming into (index `num_caps mod 2`) with the address of
    /// logical index `num_caps + 2`, and counts the capture.
    pub fn update(&mut self) -> (addr: u32)
        requires
            old(self).wf(),
            old(self).num_caps + 2 <= u32::MAX,
        ensures
            final(self).wf(),
            addr == old(self).spec_addr(old(self).num_caps as int),
            final(self).num_caps == old(self).num_caps + 1,
            final(self).dest[old(self).num_caps as int % 2]
                == old(self).spec_addr(old(self).num_caps + 2),
            final(self).dest[1 - old(self).num_caps as int % 2]
                == old(self).dest[1 - old(self).num_caps as int % 2],
            final(self).mem_base == old(self).mem_base,
            final(self).frame_size == old(self).frame_size,
            final(self).num_frames == old(self).num_frames,
            final(self).iter_cnt == old(self).iter_cnt,
    {
        let curr_addr: u32 = self.get_addr(self.num_caps);
        let next_addr: u32 = self.get_addr(self.num_caps + 2);

        if self.num_caps % 2 == 0 {
            self.dest = [next_addr, self.dest[1]];
        } else {
            self.dest = [self.dest[0], next_addr];
        }

        self.num_caps = self.num_caps + 1;
        curr_addr
    }

    /// One step of the oldest-first traversal: yields the next captured
    /// slot address, or `None` once `limit()` addresses have been yielded.
    /// Only captured slots are yielded, never stale ones.
    pub fn next(&mut self) -> (r: Option<u32>)
        requires
            old(self).wf(),
        ensures
            final(self).wf(),
            final(self).mem_base == old(self).mem_base,
            final(self).frame_size == old(self).frame_size,
            final(self).num_frames == old(self).num_frames,
            final(self).num_caps == old(self).num_caps,
            final(self).dest == old(self).dest,
            ({
                if old(self).iter_cnt < old(self).limit() {
                    &&& r matches Some(a)
                        && a == old(self).frames()[old(self).iter_cnt as int]
                    &&& final(self).iter_cnt == old(self).iter_cnt + 1
                } else {
                    &&& r is None
                    &&& final(self).iter_cnt == old(self).iter_cnt
                }
            }),
    {
        let limit: u32 = if self.num_caps < self.num_frames {
            self.num_caps
        } else {
            self.num_frames
        };

        if self.iter_cnt < limit {
            let start_index: u32 = self.num_caps - limit;
            let curr_addr: u32 = self.get_addr(start_index + self.iter_cnt);
            self.iter_cnt = self.iter_cnt + 1;
            Some(curr_addr)
        } else {
            None
        }
    }
}

/// Law: while fewer frames have been captured than the buffer holds, a full
/// traversal yields exactly one address per capture, oldest first: the `j`-th
/// yielded address is the slot address of logical index `j`, which is exactly
/// what the `j`-th call to `update()` returned.
pub proof fn lemma_partial_buffer_yield(fb: FrameBuffer)
    requires
        fb.wf(),
        fb.num_caps < fb.num_frames,
    ensures
        fb.frames().len() == fb.num_caps,
        forall|j: int| 0 <= j < fb.num_caps ==> fb.frames()[j] == fb.spec_addr(j),
{
}

/// Law: once at least `num_frames` captures have completed, a full traversal
/// yields exactly `num_frames` addresses: the slot addresses of the most
/// recent `num_frames` logical indices, oldest of those first.
pub proof fn lemma_full_buffer_yield(fb: FrameBuffer)
    requires
        fb.wf(),
        fb.num_caps >= fb.num_frames,
    ensures
        fb.frames().len() == fb.num_frames,
        forall|j: int| 0 <= j < fb.num_frames
            ==> fb.frames()[j] == fb.spec_addr(fb.num_caps - fb.num_frames + j),
{
}

/// Law: a capture extends the traversal by exactly the address `update()`
/// returned for it. `before` and `after` are the buffer around one call (the
/// configuration unchanged, the count up by one, `addr` the returned
/// address): while the buffer is not yet full the traversal afterwards
/// yields everything it yielded before and then `addr`; once it is full, the
/// oldest address falls out in exchange.
pub proof fn lemma_update_extends_traversal(before: FrameBuffer, after: FrameBuffer, addr: int)
    requires
        before.wf(),
        after.wf(),
        after.mem_base == before.mem_base,
        after.frame_size == before.frame_size,
        after.num_frames == before.num_frames,
        after.num_caps == before.num_caps + 1,
        addr == before.spec_addr(before.num_caps as int),
    ensures
        before.num_caps < before.num_frames ==> after.frames() == before.frames().push(addr),
        before.num_caps >= before.num_frames ==> after.frames() == before.frames().subrange(
            1,
            before.frames().len() as int,
        ).push(addr),
{
    if before.num_caps < before.num_frames {
        assert(after.frames() =~= before.frames().push(addr));
    } else {
        assert(after.frames() =~= before.frames().subrange(
            1,
            before.frames().len() as int,
        ).push(addr));
    }
}

} // verus!
