//! Memory and I/O subsystem of a Game Boy-class console.
//!
//! The crate models the system bus: the single component through which a CPU
//! core reads and writes one byte at a time. The bus routes every access to
//! the device that owns the address (cartridge, video model, timer, input,
//! interrupt registers, working RAM, high RAM), owns the video controller's
//! register file and pixel/sprite memories, performs the OAM DMA transfer,
//! and aggregates the devices' interrupt requests once per CPU step.

pub mod bus;
pub mod device;
pub mod fault;
pub mod gpu;
pub mod laws;
