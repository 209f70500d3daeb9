//! Storage-and-capture core of a camera-equipped embedded recorder.
//!
//! An image sensor continuously fills a circular buffer in external RAM; on a
//! button trigger the buffered frames are drained into raw serial NOR flash
//! and can later be read back and replayed. This crate holds the verified
//! core of that pipeline:
//!
//! - [`qspi`]: flash transaction descriptors, erase/page-alignment planning,
//!   FIFO word packing and the spin-loop timeout decisions of the flash
//!   transaction driver;
//! - [`frame_buf`]: the circular frame buffer that hands slot addresses to
//!   the capture hardware ahead of time and enumerates captured frames
//!   oldest-first;
//! - [`nvm`]: the sequential-append non-volatile store over an abstract
//!   memory device;
//! - [`pipeline`]: the capture/save/replay decisions that the interrupt
//!   handlers of the firmware carry out.
//!
//! Register-level bus work (QSPI, DCMI/DMA, LTDC, SCCB) is memory-mapped I/O
//! and stays outside the library; the library computes every address, chunk
//! bound and transaction descriptor that the hardware layer consumes.

pub mod frame_buf;
pub mod nvm;
pub mod pipeline;
pub mod qspi;
pub mod sccb;
