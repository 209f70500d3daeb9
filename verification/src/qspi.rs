//! Flash transaction driver core for a serial NOR flash device.
//!
//! The driver executes single command/address/data exchanges against the
//! flash part in either CPU-polled or DMA-assisted mode. Everything the
//! hardware layer needs to compute is here, verified: the bit-exact
//! transaction descriptors of the device's command set, the decomposition of
//! a logical write into page-bounded program operations, the subsector
//! planning of an erase, the word packing of the data FIFO, and the decision
//! taken on every iteration of the bounded spin-wait loops. The register
//! accesses themselves are memory-mapped I/O and stay with the hardware
//! layer, which consumes these values unchanged.

use vstd::prelude::*;

verus! {

/// Read-ID command opcode.
pub const CMD_READ_ID: u8 = 0x9F;
/// Normal read command opcode.
pub const CMD_MEM_READ: u8 = 0x03;
/// Page program command opcode.
pub const CMD_MEM_PROGRAM: u8 = 0x02;
/// Bulk (whole-device) erase command opcode.
pub const CMD_BULK_ERASE: u8 = 0xC7;
/// Subsector erase command opcode.
pub const CMD_SUBSECT_ERASE: u8 = 0x20;
/// Read flag-status-register command opcode; busy-clear is bit 7 set.
pub const CMD_READ_FLAG_STATUS: u8 = 0x70;
/// Write enable command opcode.
pub const CMD_WRITE_ENABLE: u8 = 0x06;

/// Expected manufacturer identification byte.
pub const DEVICE_ID_MANF: u8 = 0x20;
/// Expected memory-type identification byte.
pub const DEVICE_ID_MEMT: u8 = 0xBA;
/// Expected memory-capacity identification byte.
pub const DEVICE_ID_MEMC: u8 = 0x18;

/// Highest device address: the part uses 24-bit addressing.
pub const DEVICE_MAX_ADDRESS: u32 = 0x00FF_FFFF;
/// Smallest erasable unit of the device, in bytes.
pub const DEVICE_SUBSECTOR_SIZE: u32 = 4096;
/// Largest contiguous run a single program operation may cover, in bytes;
/// a program operation must never straddle a page boundary.
pub const DEVICE_PAGE_SIZE: u32 = 256;

/// Bus width selector: phase absent.
pub const WIDTH_NONE: u8 = 0b00;
/// Bus width selector: single line.
pub const WIDTH_SING: u8 = 0b01;
/// Bus width selector: two lines.
pub const WIDTH_DUAL: u8 = 0b10;
/// Bus width selector: four lines.
pub const WIDTH_QUAD: u8 = 0b11;

/// Functional mode: indirect write.
pub const MODE_INDIRECT_WRITE: u8 = 0b00;
/// Functional mode: indirect read.
pub const MODE_INDIRECT_READ: u8 = 0b01;
/// Functional mode: automatic polling.
pub const MODE_AUTO_POLLING: u8 = 0b10;
/// Functional mode: memory mapped.
pub const MODE_MEMORY_MAPPED: u8 = 0b11;

/// Errors of the flash transaction driver.
#[derive(Clone, Copy, Debug, PartialEq, Eq, Structural)]
pub enum QspiError {
    /// Flash device ID mismatch.
    ReadDeviceId,
    /// Timeout during a polling transaction.
    Timeout,
    /// Timeout waiting for a write/erase to complete.
    StatusTimeout,
    /// Invalid `QspiDriverMode` used in function.
    BadDriverMode,
    /// Error during DMA transfer.
    DmaError,
}

/// Execution mode of a driver operation. For DMA the RAM-side transfer
/// address travels with the selector; for the polled modes the hardware
/// layer keeps the CPU-side buffer beside it.
#[derive(Clone, Copy, Debug, PartialEq, Eq, Structural)]
pub enum QspiDriverMode {
    /// DMA mode: the RAM address the data phase streams to or from.
    DmaMode(u32),
    /// Polled read through the FIFO.
    PollingRead,
    /// Polled write through the FIFO.
    PollingWrite,
}

/// One transaction against the flash device: an instruction opcode, bus
/// width selectors for the instruction/address/data phases, an optional
/// 24-bit address, a dummy-cycle count, and an optional data length.
/// Created per operation and consumed immediately.
#[derive(Clone, Copy, Debug)]
pub struct QspiTransaction {
    /// Instruction phase bus width.
    pub iwidth: u8,
    /// Address phase bus width.
    pub awidth: u8,
    /// Data phase bus width.
    pub dwidth: u8,
    /// Command opcode.
    pub instruction: u8,
    /// Device address, if the transaction has an address phase.
    pub address: Option<u32>,
    /// Number of dummy cycles between address and data phase.
    pub dummy: u8,
    /// Number of data bytes, if the transaction has a data phase.
    pub data_len: Option<usize>,
}

impl QspiTransaction {
    /// Descriptor invariant: width selectors are two-bit values, the dummy
    /// count fits its five-bit register field, an address is present exactly
    /// when the address phase is, in-range; a data length is present exactly
    /// when the data phase is, and then nonzero.
    pub open spec fn wf(&self) -> bool {
        &&& self.iwidth <= WIDTH_QUAD
        &&& self.awidth <= WIDTH_QUAD
        &&& self.dwidth <= WIDTH_QUAD
        &&& self.dummy <= 31
        &&& (self.address is Some <==> self.awidth != WIDTH_NONE)
        &&& (self.address matches Some(a) ==> a <= DEVICE_MAX_ADDRESS)
        &&& (self.data_len is Some <==> self.dwidth != WIDTH_NONE)
        &&& (self.data_len matches Some(l) ==> 1 <= l)
    }

    /// The read-ID exchange: no address phase, three identification bytes
    /// back on a single line.
    pub fn read_id() -> (t: QspiTransaction)
        ensures
            t.wf(),
            t.iwidth == WIDTH_SING,
            t.awidth == WIDTH_NONE,
            t.dwidth == WIDTH_SING,
            t.instruction == CMD_READ_ID,
            t.address is None,
            t.dummy == 0,
            t.data_len == Some(3usize),
    {
        QspiTransaction {
            iwidth: WIDTH_SING,
            awidth: WIDTH_NONE,
            dwidth: WIDTH_SING,
            instruction: CMD_READ_ID,
            address: None,
            dummy: 0,
            data_len: Some(3),
        }
    }

    /// A normal read of `len` bytes starting at device address `src`.
    pub fn mem_read(src: u32, len: usize) -> (t: QspiTransaction)
        requires
            1 <= len,
            src + len <= DEVICE_MAX_ADDRESS,
        ensures
            t.wf(),
            t.iwidth == WIDTH_SING,
            t.awidth == WIDTH_SING,
            t.dwidth == WIDTH_SING,
            t.instruction == CMD_MEM_READ,
            t.address == Some(src),
            t.dummy == 0,
            t.data_len == Some(len),
    {
        proof {
            assert(src & 0x00FF_FFFFu32 == src) by (bit_vector)
                requires src <= 0x00FF_FFFFu32;
        }
        QspiTransaction {
            iwidth: WIDTH_SING,
            awidth: WIDTH_SING,
            dwidth: WIDTH_SING,
            instruction: CMD_MEM_READ,
            address: Some(src & DEVICE_MAX_ADDRESS),
            dummy: 0,
            data_len: Some(len),
        }
    }

    /// A program operation of `len` bytes starting at device address `addr`.
    /// A single program operation covers at most one page.
    pub fn page_program(addr: u32, len: usize) -> (t: QspiTransaction)
        requires
            1 <= len,
            len <= DEVICE_PAGE_SIZE,
            addr + len <= DEVICE_MAX_ADDRESS,
        ensures
            t.wf(),
            t.iwidth == WIDTH_SING,
            t.awidth == WIDTH_SING,
            t.dwidth == WIDTH_SING,
            t.instruction == CMD_MEM_PROGRAM,
            t.address == Some(addr),
            t.dummy == 0,
            t.data_len == Some(len),
    {
        proof {
            assert(addr & 0x00FF_FFFFu32 == addr) by (bit_vector)
                requires addr <= 0x00FF_FFFFu32;
        }
        QspiTransaction {
            iwidth: WIDTH_SING,
            awidth: WIDTH_SING,
            dwidth: WIDTH_SING,
            instruction: CMD_MEM_PROGRAM,
            address: Some(addr & DEVICE_MAX_ADDRESS),
            dummy: 0,
            data_len: Some(len),
        }
    }

    /// An erase of the whole subsector containing device address `addr`:
    /// address phase only, no data phase.
    pub fn subsector_erase(addr: u32) -> (t: QspiTransaction)
        requires
            addr <= DEVICE_MAX_ADDRESS,
        ensures
            t.wf(),
            t.iwidth == WIDTH_SING,
            t.awidth == WIDTH_SING,
            t.dwidth == WIDTH_NONE,
            t.instruction == CMD_SUBSECT_ERASE,
            t.address == Some(addr),
            t.dummy == 0,
            t.data_len is None,
    {
        proof {
            assert(addr & 0x00FF_FFFFu32 == addr) by (bit_vector)
                requires addr <= 0x00FF_FFFFu32;
        }
        QspiTransaction {
            iwidth: WIDTH_SING,
            awidth: WIDTH_SING,
            dwidth: WIDTH_NONE,
            instruction: CMD_SUBSECT_ERASE,
            address: Some(addr & DEVICE_MAX_ADDRESS),
            dummy: 0,
            data_len: None,
        }
    }

    /// An erase of the entire device: instruction only.
    pub fn bulk_erase() -> (t: QspiTransaction)
        ensures
            t.wf(),
            t.iwidth == WIDTH_SING,
            t.awidth == WIDTH_NONE,
            t.dwidth == WIDTH_NONE,
            t.instruction == CMD_BULK_ERASE,
            t.address is None,
            t.dummy == 0,
            t.data_len is None,
    {
        QspiTransaction {
            iwidth: WIDTH_SING,
            awidth: WIDTH_NONE,
            dwidth: WIDTH_NONE,
            instruction: CMD_BULK_ERASE,
            address: None,
            dummy: 0,
            data_len: None,
        }
    }

    /// The write-enable command that must precede every program or erase
    /// operation: instruction only.
    pub fn write_enable() -> (t: QspiTransaction)
        ensures
            t.wf(),
            t.iwidth == WIDTH_SING,
            t.awidth == WIDTH_NONE,
            t.dwidth == WIDTH_NONE,
            t.instruction == CMD_WRITE_ENABLE,
            t.address is None,
            t.dummy == 0,
            t.data_len is None,
    {
        QspiTransaction {
            iwidth: WIDTH_SING,
            awidth: WIDTH_NONE,
            dwidth: WIDTH_NONE,
            instruction: CMD_WRITE_ENABLE,
            address: None,
            dummy: 0,
            data_len: None,
        }
    }

    /// A read of the one-byte flag status register.
    pub fn read_flag_status() -> (t: QspiTransaction)
        ensures
            t.wf(),
            t.iwidth == WIDTH_SING,
            t.awidth == WIDTH_NONE,
            t.dwidth == WIDTH_SING,
            t.instruction == CMD_READ_FLAG_STATUS,
            t.address is None,
            t.dummy == 0,
            t.data_len == Some(1usize),
    {
        QspiTransaction {
            iwidth: WIDTH_SING,
            awidth: WIDTH_NONE,
            dwidth: WIDTH_SING,
            instruction: CMD_READ_FLAG_STATUS,
            address: None,
            dummy: 0,
            data_len: Some(1),
        }
    }
}

/// Checks the three identification bytes returned by the read-ID exchange
/// against the expected manufacturer/memory-type/capacity bytes. A mismatch
/// is fatal to the caller and never retried.
pub fn check_id(id: [u8; 3]) -> (r: Result<(), QspiError>)
    ensures
        r is Ok <==> (id[0] == DEVICE_ID_MANF && id[1] == DEVICE_ID_MEMT
            && id[2] == DEVICE_ID_MEMC),
        r is Err ==> r == Err::<(), QspiError>(QspiError::ReadDeviceId),
{
    if id[0] != DEVICE_ID_MANF || id[1] != DEVICE_ID_MEMT || id[2] != DEVICE_ID_MEMC {
        Err(QspiError::ReadDeviceId)
    } else {
        Ok(())
    }
}

/// A read transfers data out of the device; the polled-write mode selector
/// cannot serve it.
pub fn read_mode_check(dst: &QspiDriverMode) -> (r: Result<(), QspiError>)
    ensures
        r is Ok <==> !(dst is PollingWrite),
        r is Err ==> r == Err::<(), QspiError>(QspiError::BadDriverMode),
{
    match dst {
        QspiDriverMode::PollingWrite => Err(QspiError::BadDriverMode),
        _ => Ok(()),
    }
}

/// A write transfers data into the device; the polled-read mode selector
/// cannot serve it.
pub fn write_mode_check(src: &QspiDriverMode) -> (r: Result<(), QspiError>)
    ensures
        r is Ok <==> !(src is PollingRead),
        r is Err ==> r == Err::<(), QspiError>(QspiError::BadDriverMode),
{
    match src {
        QspiDriverMode::PollingRead => Err(QspiError::BadDriverMode),
        _ => Ok(()),
    }
}

/// Plan of an erase request: the subsector addresses to erase, in order.
/// Erase granularity never matches arbitrary ranges, so the span starts at
/// the subsector boundary at or below `src` and whole subsectors are erased
/// until at least `len` bytes are covered.
///
/// The result is `(sectors, bytes_erased, start_addr)`: the per-subsector
/// erase addresses, the total erased span (the least whole-subsector
/// multiple of at least `len` bytes) and its true start.
pub fn erase_plan(src: u32, len: usize) -> (r: (Vec<u32>, u32, u32))
    requires
        1 <= len,
        src + len <= DEVICE_MAX_ADDRESS,
    ensures
        r.2 == src - (src % DEVICE_SUBSECTOR_SIZE),
        r.1 % DEVICE_SUBSECTOR_SIZE == 0,
        r.1 >= len,
        r.1 - DEVICE_SUBSECTOR_SIZE < len,
        r.0@.len() * DEVICE_SUBSECTOR_SIZE == r.1,
        forall|i: int| 0 <= i < r.0@.len()
            ==> r.0@[i] == r.2 + i * DEVICE_SUBSECTOR_SIZE,
{
    let mut sectors: Vec<u32> = Vec::new();
    let mut num_erased_bytes: u32 = 0;
    let start_addr: u32 = src - (src % DEVICE_SUBSECTOR_SIZE);
    let mut addr: u32 = start_addr;

    // The smallest possible erase is one subsector.
    while num_erased_bytes < len as u32
        invariant
            1 <= len,
            src + len <= DEVICE_MAX_ADDRESS,
            start_addr == src - (src % DEVICE_SUBSECTOR_SIZE),
            num_erased_bytes % DEVICE_SUBSECTOR_SIZE == 0,
            num_erased_bytes - DEVICE_SUBSECTOR_SIZE < len,
            addr == start_addr + num_erased_bytes,
            sectors@.len() * DEVICE_SUBSECTOR_SIZE == num_erased_bytes,
            forall|i: int| 0 <= i < sectors@.len()
                ==> sectors@[i] == start_addr + i * DEVICE_SUBSECTOR_SIZE,
        decreases len + DEVICE_SUBSECTOR_SIZE - num_erased_bytes,
    {
        sectors.push(addr);
        num_erased_bytes = num_erased_bytes + DEVICE_SUBSECTOR_SIZE;
        addr = addr + DEVICE_SUBSECTOR_SIZE;
    }

    (sectors, num_erased_bytes, start_addr)
}

/// One program operation of a decomposed logical write: `len` bytes of the
/// source buffer starting at `offset`, programmed at device address `addr`.
#[derive(Clone, Copy, Debug, PartialEq, Eq, Structural)]
pub struct WriteChunk {
    /// Device address the chunk is programmed at.
    pub addr: u32,
    /// Offset of the chunk's bytes within the source buffer.
    pub offset: usize,
    /// Number of bytes in the chunk.
    pub len: usize,
}

/// A chunk lies within a single page: the first and the last byte it
/// programs fall in the same page of the device.
pub open spec fn chunk_in_one_page(c: WriteChunk) -> bool {
    (c.addr as int) / (DEVICE_PAGE_SIZE as int) == (c.addr + c.len - 1) / (DEVICE_PAGE_SIZE as int)
}

/// Decomposes a logical write of `len` bytes at device address `dst` into
/// program operations, each at most a page long and none crossing a page
/// boundary: a chunk ends at the next page boundary or at the end of the
/// request, whichever comes first.
pub fn write_chunks(dst: u32, len: usize) -> (chunks: Vec<WriteChunk>)
    requires
        1 <= len,
        dst + len <= DEVICE_MAX_ADDRESS,
    ensures
        1 <= chunks@.len(),
        chunks@[0].offset == 0,
        chunks@[chunks@.len() - 1].offset + chunks@[chunks@.len() - 1].len == len,
        forall|i: int| 0 <= i < chunks@.len() ==> (#[trigger] chunks@[i]).addr == dst + chunks@[i].offset,
        forall|i: int| 0 <= i < chunks@.len()
            ==> 1 <= (#[trigger] chunks@[i]).len <= DEVICE_PAGE_SIZE,
        forall|i: int| 0 <= i < chunks@.len() ==> chunk_in_one_page(#[trigger] chunks@[i]),
        forall|i: int| 0 <= i < chunks@.len() - 1
            ==> (#[trigger] chunks@[i + 1]).offset == chunks@[i].offset + chunks@[i].len,
        forall|i: int| 0 <= i < chunks@.len() - 1
            ==> ((#[trigger] chunks@[i]).addr + chunks@[i].len) % (DEVICE_PAGE_SIZE as int) == 0,
{
    let mut chunks: Vec<WriteChunk> = Vec::new();
    let mut curr_addr: u32 = dst;
    let mut curr_len: usize = len;

    // Constraints for program operations: at most a page long, and never
    // across a page boundary.
    while curr_len > 0
        invariant
            1 <= len,
            dst + len <= DEVICE_MAX_ADDRESS,
            curr_len <= len,
            curr_addr == dst + len - curr_len,
            curr_len == 0 ==> 1 <= chunks@.len(),
            chunks@.len() >= 1 ==> chunks@[0].offset == 0,
            chunks@.len() >= 1 ==> chunks@[chunks@.len() - 1].offset
                + chunks@[chunks@.len() - 1].len == len - curr_len,
            curr_len > 0 && chunks@.len() >= 1
                ==> (chunks@[chunks@.len() - 1].addr + chunks@[chunks@.len() - 1].len)
                    % (DEVICE_PAGE_SIZE as int) == 0,
            chunks@.len() == 0 ==> curr_len == len,
            forall|i: int| 0 <= i < chunks@.len()
                ==> (#[trigger] chunks@[i]).addr == dst + chunks@[i].offset,
            forall|i: int| 0 <= i < chunks@.len()
                ==> 1 <= (#[trigger] chunks@[i]).len <= DEVICE_PAGE_SIZE,
            forall|i: int| 0 <= i < chunks@.len() ==> chunk_in_one_page(#[trigger] chunks@[i]),
            forall|i: int| 0 <= i < chunks@.len() - 1
                ==> (#[trigger] chunks@[i + 1]).offset == chunks@[i].offset + chunks@[i].len,
            forall|i: int| 0 <= i < chunks@.len() - 1
                ==> ((#[trigger] chunks@[i]).addr + chunks@[i].len) % (DEVICE_PAGE_SIZE as int) == 0,
        decreases curr_len,
    {
        let start_page: u32 = curr_addr - (curr_addr % DEVICE_PAGE_SIZE);
        let end_page: u32 = start_page + DEVICE_PAGE_SIZE;
        let size: usize = if curr_addr as usize + curr_len > end_page as usize {
            (end_page - curr_addr) as usize
        } else {
            curr_len
        };

        proof {
            let a: int = curr_addr as int;
            let p: int = DEVICE_PAGE_SIZE as int;
            assert(a % p + size <= p);
            assert(a / p == (a + size - 1) / p) by (nonlinear_arith)
                requires p == 256 && 0 <= a && 1 <= size && a % p + size <= p;
            assert(a % p + size == p ==> (a + size) % p == 0) by (nonlinear_arith)
                requires p == 256 && 0 <= a;
        }

        chunks.push(WriteChunk { addr: curr_addr, offset: len - curr_len, len: size });

        curr_addr = curr_addr + size as u32;
        curr_len = curr_len - size;
    }

    chunks
}

/// One decision of the flag-status polling loop that follows every program
/// or erase operation, taken after the `cnt + 1`-th read of the flag status
/// register: the operation is complete once the busy-clear bit (bit 7) is
/// set; after `timeout` reads without it the operation is abandoned.
pub fn poll_step(status: u8, cnt: u32, timeout: u32) -> (r: Result<bool, QspiError>)
    requires
        cnt < timeout,
    ensures
        r == (if status & 0x80 != 0 {
            Ok::<bool, QspiError>(true)
        } else if cnt + 1 == timeout {
            Err::<bool, QspiError>(QspiError::StatusTimeout)
        } else {
            Ok::<bool, QspiError>(false)
        }),
{
    if status & 0x80 != 0 {
        Ok(true)
    } else if cnt + 1 == timeout {
        Err(QspiError::StatusTimeout)
    } else {
        Ok(false)
    }
}

/// One decision of the polled-read FIFO wait: a word can be drained once
/// the FIFO holds at least one byte; after `timeout` polls without data the
/// transaction is abandoned.
pub fn fifo_read_step(fifo_level: u8, cnt: u32, timeout: u32) -> (r: Result<bool, QspiError>)
    requires
        cnt < timeout,
    ensures
        r == (if fifo_level > 0 {
            Ok::<bool, QspiError>(true)
        } else if cnt + 1 == timeout {
            Err::<bool, QspiError>(QspiError::Timeout)
        } else {
            Ok::<bool, QspiError>(false)
        }),
{
    if fifo_level > 0 {
        Ok(true)
    } else if cnt + 1 == timeout {
        Err(QspiError::Timeout)
    } else {
        Ok(false)
    }
}

/// One decision of the polled-write FIFO wait: a word can be queued once
/// the FIFO is empty; after `timeout` polls without room the transaction is
/// abandoned.
pub fn fifo_write_step(fifo_level: u8, cnt: u32, timeout: u32) -> (r: Result<bool, QspiError>)
    requires
        cnt < timeout,
    ensures
        r == (if fifo_level == 0 {
            Ok::<bool, QspiError>(true)
        } else if cnt + 1 == timeout {
            Err::<bool, QspiError>(QspiError::Timeout)
        } else {
            Ok::<bool, QspiError>(false)
        }),
{
    if fifo_level == 0 {
        Ok(true)
    } else if cnt + 1 == timeout {
        Err(QspiError::Timeout)
    } else {
        Ok(false)
    }
}

/// One decision of the DMA completion wait: done when the transfer-complete
/// flag is up; a transfer-error flag, or `timeout` polls without completion,
/// abandons the transfer.
pub fn dma_wait_step(complete: bool, error: bool, cnt: u32, timeout: u32) -> (r: Result<
    bool,
    QspiError,
>)
    requires
        cnt <= timeout,
    ensures
        r == (if complete {
            Ok::<bool, QspiError>(true)
        } else if error || cnt == timeout {
            Err::<bool, QspiError>(QspiError::DmaError)
        } else {
            Ok::<bool, QspiError>(false)
        }),
{
    if complete {
        Ok(true)
    } else if error || cnt == timeout {
        Err(QspiError::DmaError)
    } else {
        Ok(false)
    }
}

/// Byte `i` of a FIFO data word, low byte first.
pub open spec fn spec_word_byte(word: u32, i: int) -> u8 {
    if i == 0 {
        (word & 0xFF) as u8
    } else if i == 1 {
        ((word >> 8u32) & 0xFF) as u8
    } else if i == 2 {
        ((word >> 16u32) & 0xFF) as u8
    } else {
        ((word >> 24u32) & 0xFF) as u8
    }
}

/// Extracts byte `i` of a data word drained from the FIFO.
pub fn unpack_word_byte(word: u32, i: usize) -> (b: u8)
    requires
        i < 4,
    ensures
        b == spec_word_byte(word, i as int),
{
    proof {
        assert(word & 0xFF < 256 && (word >> 8u32) & 0xFF < 256 && (word >> 16u32) & 0xFF < 256
            && (word >> 24u32) & 0xFF < 256) by (bit_vector);
    }
    let masked: u32 = if i == 0 {
        word & 0xFF
    } else if i == 1 {
        (word >> 8u32) & 0xFF
    } else if i == 2 {
        (word >> 16u32) & 0xFF
    } else {
        (word >> 24u32) & 0xFF
    };
    masked as u8
}

/// Packs `n` buffer bytes starting at `start` into a FIFO data word, low
/// byte first; unused high bytes are zero. Together with
/// [`unpack_word_byte`] this is the round trip of the data FIFO: every byte
/// packed into a word is extracted unchanged on the other side.
pub fn pack_word(buf: &[u8], start: usize, n: usize) -> (w: u32)
    requires
        1 <= n <= 4,
        start + n <= buf@.len(),
    ensures
        forall|i: int| 0 <= i < n ==> spec_word_byte(w, i) == buf@[start + i],
        forall|i: int| n <= i < 4 ==> spec_word_byte(w, i) == 0,
{
    let b0: u32 = buf[start] as u32;
    let b1: u32 = if n >= 2 { buf[start + 1] as u32 } else { 0 };
    let b2: u32 = if n >= 3 { buf[start + 2] as u32 } else { 0 };
    let b3: u32 = if n >= 4 { buf[start + 3] as u32 } else { 0 };
    let w: u32 = b0 | (b1 << 8u32) | (b2 << 16u32) | (b3 << 24u32);
    proof {
        assert((b0 | (b1 << 8u32) | (b2 << 16u32) | (b3 << 24u32)) & 0xFF == b0 && ((b0 | (b1
            << 8u32) | (b2 << 16u32) | (b3 << 24u32)) >> 8u32) & 0xFF == b1 && ((b0 | (b1 << 8u32)
            | (b2 << 16u32) | (b3 << 24u32)) >> 16u32) & 0xFF == b2 && ((b0 | (b1 << 8u32) | (b2
            << 16u32) | (b3 << 24u32)) >> 24u32) & 0xFF == b3) by (bit_vector)
            requires
                b0 < 256 && b1 < 256 && b2 < 256 && b3 < 256,
        ;
    }
    w
}

/// Converts the byte length of a DMA transfer into the word count the DMA
/// controller is programmed with. The transfer length must be a whole
/// number of 4-byte DMA words; violating this is a caller contract
/// violation, not a recoverable error.
pub fn dma_word_count(len: usize) -> (n: u16)
    requires
        1 <= len,
        len % 4 == 0,
        len / 4 <= u16::MAX,
    ensures
        n == len / 4,
{
    (len / 4) as u16
}

} // verus!
