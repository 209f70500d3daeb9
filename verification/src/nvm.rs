//! Sequential-append persistence layer over an abstract memory device.
//!
//! The store erases the device on construction, exposes a monotonically
//! advancing write cursor, and copies fixed-size byte regions between RAM
//! and the device. The device itself is any implementor of [`Mem`]; its
//! behaviour is modelled by two byte sequences, the flash array and the RAM
//! address space its data engine moves bytes to and from.

use vstd::prelude::*;

verus! {

/// The value every byte of an erased flash region reads back as.
pub const ERASED_BYTE: u8 = 0xFF;

/// The sequence `s` with `data` written over it starting at offset `at`;
/// everything outside `[at, at + data.len())` is unchanged.
pub open spec fn splice(s: Seq<u8>, at: int, data: Seq<u8>) -> Seq<u8> {
    Seq::new(
        s.len(),
        |i: int| if at <= i < at + data.len() {
            data[i - at]
        } else {
            s[i]
        },
    )
}

/// Every byte of `s` in `[lo, hi)` is erased.
pub open spec fn erased_between(s: Seq<u8>, lo: int, hi: int) -> bool {
    forall|i: int| lo <= i < hi ==> s[i] == ERASED_BYTE
}

/// Memory device API used by the non-volatile store.
///
/// A device is modelled by the contents of its flash array and of the RAM
/// address space its data engine reads and fills; `read` and `write` move
/// byte ranges between the two, `erase` resets the whole flash array to
/// [`ERASED_BYTE`]. Flash programming can only clear bits, so a write owes
/// its result only for a target range that is still erased, and a failed
/// operation may have disturbed (only) its target range.
pub trait Mem: Sized {
    type Error;

    /// Contents of the device's flash array.
    spec fn flash(&self) -> Seq<u8>;

    /// Contents of the RAM address space the device moves bytes to and from.
    spec fn ram(&self) -> Seq<u8>;

    /// Device invariant.
    spec fn inv(&self) -> bool;

    /// Read `len` bytes at device address `src` to RAM address `dst`.
    fn read(&mut self, dst: u32, src: u32, len: usize) -> (r: Result<(), Self::Error>)
        requires
            old(self).inv(),
            src + len <= old(self).flash().len(),
            dst + len <= old(self).ram().len(),
        ensures
            final(self).inv(),
            final(self).flash() == old(self).flash(),
            final(self).ram().len() == old(self).ram().len(),
            forall|i: int|
                0 <= i < old(self).ram().len() && !(dst <= i < dst + len)
                    ==> final(self).ram()[i] == old(self).ram()[i],
            r is Ok ==> final(self).ram() == splice(
                old(self).ram(),
                dst as int,
                old(self).flash().subrange(src as int, src + len),
            ),
    ;

    /// Write `len` bytes at RAM address `src` to device address `dst`.
    /// The target range must still be erased.
    fn write(&mut self, dst: u32, src: u32, len: usize) -> (r: Result<(), Self::Error>)
        requires
            old(self).inv(),
            dst + len <= old(self).flash().len(),
            src + len <= old(self).ram().len(),
            erased_between(old(self).flash(), dst as int, dst + len),
        ensures
            final(self).inv(),
            final(self).ram() == old(self).ram(),
            final(self).flash().len() == old(self).flash().len(),
            forall|i: int|
                0 <= i < old(self).flash().len() && !(dst <= i < dst + len)
                    ==> final(self).flash()[i] == old(self).flash()[i],
            r is Ok ==> final(self).flash() == splice(
                old(self).flash(),
                dst as int,
                old(self).ram().subrange(src as int, src + len),
            ),
    ;

    /// Erase the whole device, such that any section of it can be written.
    fn erase(&mut self) -> (r: Result<(), Self::Error>)
        requires
            old(self).inv(),
        ensures
            final(self).inv(),
            final(self).ram() == old(self).ram(),
            final(self).flash().len() == old(self).flash().len(),
            r is Ok ==> erased_between(final(self).flash(), 0, final(self).flash().len() as int),
    ;
}

/// Handle for the non-volatile store.
pub struct NonVolatileMemory<MEM> {
    /// Memory device handle.
    pub device: MEM,
    /// Write cursor (device address). Only ever advances.
    pub write_ptr: u32,
    /// Read cursor (device address). Only ever advances.
    pub read_ptr: u32,
}

impl<MEM: Mem> NonVolatileMemory<MEM> {
    /// Contents of the device's flash array.
    pub open spec fn flash(&self) -> Seq<u8> {
        self.device.flash()
    }

    /// Contents of the RAM address space the device moves bytes to and from.
    pub open spec fn ram(&self) -> Seq<u8> {
        self.device.ram()
    }

    /// Well-formedness: the device invariant holds and both cursors lie
    /// within the device.
    pub open spec fn wf(&self) -> bool {
        &&& self.device.inv()
        &&& self.write_ptr <= self.flash().len()
        &&& self.read_ptr <= self.flash().len()
    }

    /// Everything at or after the write cursor is still erased, so the next
    /// append always targets writable flash. Established by the constructor
    /// and preserved by every successful write.
    pub open spec fn erased_tail(&self) -> bool {
        erased_between(self.flash(), self.write_ptr as int, self.flash().len() as int)
    }

    /// Initialize the store: erases the entire device and places both
    /// cursors at `start_addr`. A device error is fatal — construction
    /// fails.
    pub fn new(device: MEM, start_addr: u32) -> (r: Result<NonVolatileMemory<MEM>, MEM::Error>)
        requires
            device.inv(),
            start_addr <= device.flash().len(),
        ensures
            r matches Ok(nvm) ==> {
                &&& nvm.wf()
                &&& nvm.write_ptr == start_addr
                &&& nvm.read_ptr == start_addr
                &&& nvm.flash().len() == device.flash().len()
                &&& nvm.ram() == device.ram()
                &&& erased_between(nvm.flash(), 0, nvm.flash().len() as int)
                &&& nvm.erased_tail()
            },
    {
        let mut device = device;
        match device.erase() {
            Ok(_) => Ok(
                NonVolatileMemory { device, write_ptr: start_addr, read_ptr: start_addr },
            ),
            Err(e) => Err(e),
        }
    }

    /// The current write cursor.
    pub fn get_write_ptr(&mut self) -> (p: u32)
        ensures
            p == old(self).write_ptr,
            *final(self) == *old(self),
    {
        self.write_ptr
    }

    /// Write `size` bytes located in RAM at `src_address` to non-volatile
    /// memory at the write cursor; on success the cursor advances by
    /// `size`. Does not erase before writing — the caller must have erased
    /// (the constructor leaves the whole device erased, and every
    /// successful write keeps the tail beyond the cursor erased).
    pub fn write(&mut self, src_address: u32, size: usize) -> (r: Result<(), MEM::Error>)
        requires
            old(self).wf(),
            old(self).erased_tail(),
            old(self).write_ptr + size <= old(self).flash().len(),
            old(self).write_ptr + size <= u32::MAX,
            src_address + size <= old(self).ram().len(),
        ensures
            final(self).wf(),
            final(self).flash().len() == old(self).flash().len(),
            final(self).ram() == old(self).ram(),
            final(self).read_ptr == old(self).read_ptr,
            forall|i: int|
                0 <= i < old(self).flash().len()
                    && !(old(self).write_ptr <= i < old(self).write_ptr + size)
                    ==> final(self).flash()[i] == old(self).flash()[i],
            r is Ok ==> {
                &&& final(self).write_ptr == old(self).write_ptr + size
                &&& final(self).flash() == splice(
                    old(self).flash(),
                    old(self).write_ptr as int,
                    old(self).ram().subrange(src_address as int, src_address + size),
                )
                &&& final(self).erased_tail()
            },
            r is Err ==> final(self).write_ptr == old(self).write_ptr,
    {
        let wp: u32 = self.write_ptr;
        match self.device.write(wp, src_address, size) {
            Ok(_) => {
                self.write_ptr = self.write_ptr + size as u32;
                Ok(())
            },
            Err(e) => Err(e),
        }
    }

    /// Read `size` bytes of non-volatile memory at the read cursor to RAM
    /// at `dst_address`; on success the cursor advances by `size`. Used
    /// during replay, after capture has stopped.
    pub fn read(&mut self, dst_address: u32, size: usize) -> (r: Result<(), MEM::Error>)
        requires
            old(self).wf(),
            old(self).read_ptr + size <= old(self).flash().len(),
            old(self).read_ptr + size <= u32::MAX,
            dst_address + size <= old(self).ram().len(),
        ensures
            final(self).wf(),
            final(self).flash() == old(self).flash(),
            final(self).write_ptr == old(self).write_ptr,
            old(self).erased_tail() ==> final(self).erased_tail(),
            final(self).ram().len() == old(self).ram().len(),
            forall|i: int|
                0 <= i < old(self).ram().len() && !(dst_address <= i < dst_address + size)
                    ==> final(self).ram()[i] == old(self).ram()[i],
            r is Ok ==> {
                &&& final(self).read_ptr == old(self).read_ptr + size
                &&& final(self).ram() == splice(
                    old(self).ram(),
                    dst_address as int,
                    old(self).flash().subrange(
                        old(self).read_ptr as int,
                        old(self).read_ptr + size,
                    ),
                )
            },
            r is Err ==> final(self).read_ptr == old(self).read_ptr,
    {
        let rp: u32 = self.read_ptr;
        match self.device.read(dst_address, rp, size) {
            Ok(_) => {
                self.read_ptr = self.read_ptr + size as u32;
                Ok(())
            },
            Err(e) => Err(e),
        }
    }
}

/// A vector of `n` zero bytes.
fn zero_vec(n: usize) -> (v: Vec<u8>)
    ensures
        v@.len() == n,
        forall|i: int| 0 <= i < n ==> v@[i] == 0u8,
{
    let mut v: Vec<u8> = Vec::new();
    while v.len() < n
        invariant
            v@.len() <= n,
            forall|i: int| 0 <= i < v@.len() ==> v@[i] == 0u8,
        decreases n - v@.len(),
    {
        v.push(0u8);
    }
    v
}

/// Executable in-memory model of a [`Mem`] device: a flash array and the
/// RAM region its data engine moves bytes to and from, both plain byte
/// vectors. It meets the `Mem` contract by construction and gives the
/// store and the pipeline a device they can run against off-target.
pub struct RamDevice {
    /// The modelled flash array.
    flash: Vec<u8>,
    /// The modelled RAM address space.
    ram: Vec<u8>,
}

impl RamDevice {
    /// A fresh device with `flash_size` bytes of (unerased, all-zero)
    /// flash and `ram_size` bytes of zeroed RAM.
    pub fn new(flash_size: usize, ram_size: usize) -> (d: RamDevice)
        ensures
            d.inv(),
            d.flash().len() == flash_size,
            d.ram().len() == ram_size,
            forall|i: int| 0 <= i < flash_size ==> d.flash()[i] == 0u8,
            forall|i: int| 0 <= i < ram_size ==> d.ram()[i] == 0u8,
    {
        RamDevice { flash: zero_vec(flash_size), ram: zero_vec(ram_size) }
    }

    /// Deposits bytes directly into the modelled RAM, as the capture
    /// hardware would: the frame data a later store write picks up.
    pub fn fill_ram(&mut self, addr: u32, data: &[u8])
        requires
            old(self).inv(),
            addr + data@.len() <= old(self).ram().len(),
        ensures
            final(self).inv(),
            final(self).flash() == old(self).flash(),
            final(self).ram() == splice(old(self).ram(), addr as int, data@),
    {
        let ram_len: usize = self.ram.len();
        let mut i: usize = 0;
        while i < data.len()
            invariant
                self.inv(),
                addr + data@.len() <= ram_len,
                ram_len == self.ram@.len(),
                i <= data@.len(),
                self.flash() == old(self).flash(),
                self.ram().len() == old(self).ram().len(),
                forall|j: int|
                    0 <= j < self.ram().len() && !(addr <= j < addr + i)
                        ==> self.ram()[j] == old(self).ram()[j],
                forall|j: int| 0 <= j < i ==> #[trigger] self.ram()[addr + j] == data@[j],
            decreases data@.len() - i,
        {
            let dst: usize = addr as usize + i;
            self.ram[dst] = data[i];
            i = i + 1;
        }
        proof {
            let result = splice(old(self).ram(), addr as int, data@);
            assert forall|k: int| 0 <= k < self.ram@.len() implies self.ram@[k] == result[k] by {
                if addr <= k < addr + data@.len() {
                    assert(self.ram()[addr + (k - addr)] == data@[k - addr]);
                }
            }
            assert(self.ram() =~= result);
        }
    }

    /// Reads one byte of the modelled RAM.
    pub fn ram_byte(&self, addr: u32) -> (b: u8)
        requires
            self.inv(),
            addr < self.ram().len(),
        ensures
            b == self.ram()[addr as int],
    {
        self.ram[addr as usize]
    }
}

impl Mem for RamDevice {
    type Error = ();

    closed spec fn flash(&self) -> Seq<u8> {
        self.flash@
    }

    closed spec fn ram(&self) -> Seq<u8> {
        self.ram@
    }

    closed spec fn inv(&self) -> bool {
        true
    }

    fn read(&mut self, dst: u32, src: u32, len: usize) -> (r: Result<(), Self::Error>) {
        let flash_len: usize = self.flash.len();
        let ram_len: usize = self.ram.len();
        let mut i: usize = 0;
        while i < len
            invariant
                i <= len,
                src + len <= flash_len,
                dst + len <= ram_len,
                flash_len == self.flash@.len(),
                ram_len == self.ram@.len(),
                self.flash@ == old(self).flash@,
                self.ram@.len() == old(self).ram@.len(),
                forall|j: int|
                    0 <= j < self.ram@.len() && !(dst <= j < dst + i)
                        ==> self.ram@[j] == old(self).ram@[j],
                forall|j: int| 0 <= j < i ==> #[trigger] self.ram@[dst + j] == self.flash@[src + j],
            decreases len - i,
        {
            let b: u8 = self.flash[src as usize + i];
            self.ram[dst as usize + i] = b;
            i = i + 1;
        }
        proof {
            let result = splice(
                old(self).ram@,
                dst as int,
                old(self).flash@.subrange(src as int, src + len),
            );
            assert forall|k: int| 0 <= k < self.ram@.len() implies self.ram@[k] == result[k] by {
                if dst <= k < dst + len {
                    assert(self.ram@[dst + (k - dst)] == self.flash@[src + (k - dst)]);
                }
            }
            assert(self.ram@ =~= result);
        }
        Ok(())
    }

    fn write(&mut self, dst: u32, src: u32, len: usize) -> (r: Result<(), Self::Error>) {
        let flash_len: usize = self.flash.len();
        let ram_len: usize = self.ram.len();
        let mut i: usize = 0;
        while i < len
            invariant
                i <= len,
                dst + len <= flash_len,
                src + len <= ram_len,
                flash_len == self.flash@.len(),
                ram_len == self.ram@.len(),
                self.ram@ == old(self).ram@,
                self.flash@.len() == old(self).flash@.len(),
                forall|j: int|
                    0 <= j < self.flash@.len() && !(dst <= j < dst + i)
                        ==> self.flash@[j] == old(self).flash@[j],
                forall|j: int| 0 <= j < i ==> #[trigger] self.flash@[dst + j] == self.ram@[src + j],
            decreases len - i,
        {
            let b: u8 = self.ram[src as usize + i];
            self.flash[dst as usize + i] = b;
            i = i + 1;
        }
        proof {
            let result = splice(
                old(self).flash@,
                dst as int,
                old(self).ram@.subrange(src as int, src + len),
            );
            assert forall|k: int| 0 <= k < self.flash@.len() implies self.flash@[k] == result[k] by {
                if dst <= k < dst + len {
                    assert(self.flash@[dst + (k - dst)] == self.ram@[src + (k - dst)]);
                }
            }
            assert(self.flash@ =~= result);
        }
        Ok(())
    }

    fn erase(&mut self) -> (r: Result<(), Self::Error>) {
        let mut i: usize = 0;
        let n: usize = self.flash.len();
        while i < n
            invariant
                i <= n,
                n == self.flash@.len(),
                self.flash@.len() == old(self).flash@.len(),
                self.ram@ == old(self).ram@,
                forall|j: int| 0 <= j < i ==> self.flash@[j] == ERASED_BYTE,
            decreases n - i,
        {
            self.flash[i] = ERASED_BYTE;
            i = i + 1;
        }
        Ok(())
    }
}

/// Round-trip law of the store: write a pattern of `len` RAM bytes (taken
/// at `src`) to erased flash at the write cursor `wp`, read the same span
/// back to RAM address `dst` — the bytes that arrive at `dst` are exactly
/// the pattern that stood at `src`.
pub proof fn lemma_store_round_trip(
    ram0: Seq<u8>,
    flash0: Seq<u8>,
    wp: int,
    src: int,
    dst: int,
    len: int,
)
    requires
        0 <= len,
        0 <= src,
        src + len <= ram0.len(),
        0 <= dst,
        dst + len <= ram0.len(),
        0 <= wp,
        wp + len <= flash0.len(),
    ensures
        splice(
            ram0,
            dst,
            splice(flash0, wp, ram0.subrange(src, src + len)).subrange(wp, wp + len),
        ).subrange(dst, dst + len) == ram0.subrange(src, src + len),
{
    let pat = ram0.subrange(src, src + len);
    assert(splice(flash0, wp, pat).subrange(wp, wp + len) =~= pat);
    assert(splice(ram0, dst, pat).subrange(dst, dst + len) =~= pat);
}

/// Erased-but-unwritten law of the store: a write at the cursor leaves
/// every erased byte outside its target range erased, so reading any
/// not-yet-written span of an erased device yields all [`ERASED_BYTE`]
/// bytes.
pub proof fn lemma_unwritten_region_reads_erased(
    flash0: Seq<u8>,
    wp: int,
    data: Seq<u8>,
    lo: int,
    hi: int,
)
    requires
        0 <= wp,
        wp + data.len() <= flash0.len(),
        0 <= lo <= hi <= flash0.len(),
        hi <= wp || wp + data.len() <= lo,
        erased_between(flash0, lo, hi),
    ensures
        erased_between(splice(flash0, wp, data), lo, hi),
{
}

} // verus!
