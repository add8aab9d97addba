//! Interfaces of the externally-owned devices the bus composes.
//!
//! The cartridge controller, the input controller, the timer and the
//! renderer are external collaborators: only the interface the bus consumes
//! is specified here. The bus owns one instance of each (the renderer is
//! handed in per step) and devices never reference the bus back — interrupt
//! requests travel as plain latched bytes that the bus collects and clears,
//! never as callbacks.

use vstd::prelude::*;

use crate::gpu::GPU;

verus! {

/// Cartridge controller: handles the ROM window and the cartridge RAM
/// window, including whatever bank switching its implementation performs.
///
/// Reads are pure: the byte visible at an address is a function of the
/// controller's state alone, so reading has no side effect. Writes may
/// remap banks as well as store bytes; `after_write` is the implementation's
/// own description of that step.
pub trait Cartridge: Sized {
    /// The byte visible at `address` in the controller's current state.
    spec fn byte_at(&self, address: u16) -> u8;

    /// The controller's state after a write of `value` to `address`.
    spec fn after_write(&self, address: u16, value: u8) -> Self;

    /// Reads the byte at `address`.
    fn read_byte(&self, address: u16) -> (r: u8)
        ensures
            r == self.byte_at(address),
    ;

    /// Writes `value` to `address`.
    fn write_byte(&mut self, address: u16, value: u8)
        ensures
            *final(self) == old(self).after_write(address, value),
    ;
}

/// Input controller: owns the button-matrix register visible at its single
/// bus address and latches an interrupt request when a button edge is seen.
pub trait InputDevice: Sized {
    /// The byte visible at the input register in the device's current state.
    spec fn port_value(&self) -> u8;

    /// The locally-latched interrupt request bits.
    spec fn pending(&self) -> u8;

    /// The device's state after the CPU writes `value` to the input register.
    spec fn after_write(&self, value: u8) -> Self;

    /// Reads the input register.
    fn read(&self) -> (r: u8)
        ensures
            r == self.port_value(),
    ;

    /// Writes `value` to the input register (selects a matrix column).
    fn write(&mut self, value: u8)
        ensures
            *final(self) == old(self).after_write(value),
    ;

    /// Advances the device by one CPU step: polls the button matrix and may
    /// latch interrupt request bits. What it latches depends on the outside
    /// world; the one obligation is that it only accumulates request bits —
    /// clearing the latch is the bus's job, so no latched request is lost.
    fn advance(&mut self)
        ensures
            final(self).pending() & old(self).pending() == old(self).pending(),
    ;

    /// Hands the latched interrupt request bits to the bus and clears the
    /// latch, so each request is merged into the pending flags exactly once.
    fn take_interrupt(&mut self) -> (r: u8)
        ensures
            r == old(self).pending(),
            final(self).pending() == 0,
    ;
}

/// Timer: owns the four divider/counter registers visible on the bus and
/// latches an interrupt request when its counter overflows.
///
/// Its internal tick granularity is finer than the cycle unit the rest of
/// the system uses: the bus multiplies the elapsed cycle count by four
/// before passing it to `advance`.
pub trait TimerDevice: Sized {
    /// The byte visible at timer register `address` in the current state.
    spec fn reg_value(&self, address: u16) -> u8;

    /// The locally-latched interrupt request bits.
    spec fn pending(&self) -> u8;

    /// The timer's state after the CPU writes `value` to register `address`.
    spec fn after_write(&self, address: u16, value: u8) -> Self;

    /// Reads the timer register at `address`.
    fn read(&self, address: u16) -> (r: u8)
        ensures
            r == self.reg_value(address),
    ;

    /// Writes `value` to the timer register at `address`.
    fn write(&mut self, address: u16, value: u8)
        ensures
            *final(self) == old(self).after_write(address, value),
    ;

    /// Advances the timer by `ticks` of its own fine-grained clock. Whether
    /// the counter overflows (and latches an interrupt request) is the
    /// implementation's business; the one obligation is that it only
    /// accumulates request bits — clearing the latch is the bus's job, so no
    /// latched request is lost.
    fn advance(&mut self, ticks: u32)
        ensures
            final(self).pending() & old(self).pending() == old(self).pending(),
    ;

    /// Hands the latched interrupt request bits to the bus and clears the
    /// latch, so each request is merged into the pending flags exactly once.
    fn take_interrupt(&mut self) -> (r: u8)
        ensures
            r == old(self).pending(),
            final(self).pending() == 0,
    ;
}

/// Renderer: the video controller's per-cycle scanline/rendering state
/// machine, and the publisher of finished frames to the display.
///
/// Only its write-back into the bus-owned [`GPU`] storage is visible here:
/// it advances the scanline counter, rewrites the status register, reads the
/// pixel and sprite memories, and accumulates interrupt request bits in the
/// GPU's latch. Nothing is promised of the state it leaves behind; the bus
/// collects the latch right after each step.
pub trait Renderer {
    /// Advances the rendering state machine by `cycles` elapsed CPU cycles,
    /// mutating the bus-owned video storage in place. The one obligation is
    /// that it only accumulates bits in the GPU's interrupt latch — clearing
    /// the latch is the bus's job, so no latched request is lost.
    fn advance(&mut self, gpu: &mut GPU, cycles: u8)
        ensures
            final(gpu)@.interrupt & old(gpu)@.interrupt == old(gpu)@.interrupt,
    ;
}

} // verus!
