//! Video register/storage model.
//!
//! The model owns the parts of the video controller that the bus is
//! responsible for: 8 KiB of video RAM, 160 bytes of sprite-attribute memory
//! (OAM), the eleven LCD control registers, and the locally-latched interrupt
//! request bits that the renderer publishes. The per-cycle rendering
//! algorithm itself is an external collaborator (see [`crate::device::Renderer`]);
//! it works on this storage through the public fields and methods below.

use vstd::prelude::*;

use crate::fault::BusFault;

verus! {

broadcast use vstd::array::group_array_axioms;

/// The sentinel that a read of the scanline counter register always returns,
/// regardless of the register's stored content (a preserved quirk of the
/// system this model reproduces).
pub const SCANLINE_READ_VALUE: u8 = 148;

/// Video register file and storage.
///
/// The fields are public because the external renderer mutates them in place
/// between bus accesses: it advances the scanline counter, rewrites the
/// status register and accumulates interrupt request bits in `interrupt`.
/// Every field combination is a valid state, so no invariant is needed.
pub struct GPU {
    /// Video RAM, addressed by the low 13 bits of the CPU address.
    pub vram: [u8; 0x2000],
    /// Sprite-attribute memory, addressed by the low 8 bits of the CPU address.
    pub oam: [u8; 0xA0],
    /// LCD control (offset 0xFF40).
    pub lcdc: u8,
    /// LCD status (offset 0xFF41).
    pub stat: u8,
    /// Background scroll y (offset 0xFF42).
    pub scy: u8,
    /// Background scroll x (offset 0xFF43).
    pub scx: u8,
    /// Scanline counter (offset 0xFF44). Writes store the value; reads return
    /// [`SCANLINE_READ_VALUE`] regardless of it.
    pub ly: u8,
    /// Scanline compare (offset 0xFF45).
    pub lyc: u8,
    /// Window y (offset 0xFF4A).
    pub wy: u8,
    /// Window x (offset 0xFF4B).
    pub wx: u8,
    /// Background palette (offset 0xFF47).
    pub bgp: u8,
    /// First sprite palette (offset 0xFF48).
    pub obp0: u8,
    /// Second sprite palette (offset 0xFF49).
    pub obp1: u8,
    /// Locally-latched interrupt request bits, accumulated by the renderer
    /// and cleared by the bus once merged into the shared pending flags.
    pub interrupt: u8,
}

/// Mathematical model of a [`GPU`]: the two memories as byte sequences and
/// the registers as plain bytes.
#[verifier::ext_equal]
pub struct GpuView {
    pub vram: Seq<u8>,
    pub oam: Seq<u8>,
    pub lcdc: u8,
    pub stat: u8,
    pub scy: u8,
    pub scx: u8,
    pub ly: u8,
    pub lyc: u8,
    pub wy: u8,
    pub wx: u8,
    pub bgp: u8,
    pub obp0: u8,
    pub obp1: u8,
    pub interrupt: u8,
}

impl View for GPU {
    type V = GpuView;

    open spec fn view(&self) -> GpuView {
        GpuView {
            vram: self.vram@,
            oam: self.oam@,
            lcdc: self.lcdc,
            stat: self.stat,
            scy: self.scy,
            scx: self.scx,
            ly: self.ly,
            lyc: self.lyc,
            wy: self.wy,
            wx: self.wx,
            bgp: self.bgp,
            obp0: self.obp0,
            obp1: self.obp1,
            interrupt: self.interrupt,
        }
    }
}

/// True of the eleven recognized LCD register offsets. Any other offset is a
/// fatal condition on both read and write.
pub open spec fn lcd_reg_known(address: u16) -> bool {
    ||| address == 0xFF40
    ||| address == 0xFF41
    ||| address == 0xFF42
    ||| address == 0xFF43
    ||| address == 0xFF44
    ||| address == 0xFF45
    ||| address == 0xFF47
    ||| address == 0xFF48
    ||| address == 0xFF49
    ||| address == 0xFF4A
    ||| address == 0xFF4B
}

impl GpuView {
    /// Storage sizes of a view taken from a real [`GPU`].
    pub open spec fn wf(self) -> bool {
        &&& self.vram.len() == 0x2000
        &&& self.oam.len() == 0xA0
    }

    /// The view of a freshly powered-on video model: zero-filled memories and
    /// zeroed registers.
    pub open spec fn reset() -> GpuView {
        GpuView {
            vram: Seq::new(0x2000, |i: int| 0u8),
            oam: Seq::new(0xA0, |i: int| 0u8),
            lcdc: 0,
            stat: 0,
            scy: 0,
            scx: 0,
            ly: 0,
            lyc: 0,
            wy: 0,
            wx: 0,
            bgp: 0,
            obp0: 0,
            obp1: 0,
            interrupt: 0,
        }
    }

    /// Value a read of the LCD register at `address` returns. The scanline
    /// counter reads as the fixed sentinel, never as its stored content.
    pub open spec fn reg(self, address: u16) -> u8
        recommends
            lcd_reg_known(address),
    {
        if address == 0xFF40 {
            self.lcdc
        } else if address == 0xFF41 {
            self.stat
        } else if address == 0xFF42 {
            self.scy
        } else if address == 0xFF43 {
            self.scx
        } else if address == 0xFF44 {
            SCANLINE_READ_VALUE
        } else if address == 0xFF45 {
            self.lyc
        } else if address == 0xFF47 {
            self.bgp
        } else if address == 0xFF48 {
            self.obp0
        } else if address == 0xFF49 {
            self.obp1
        } else if address == 0xFF4A {
            self.wy
        } else {
            self.wx
        }
    }

    /// The view after storing `value` in the LCD register at `address`.
    /// Writing the scanline counter stores the value even though a later read
    /// will not reflect it.
    pub open spec fn with_reg(self, address: u16, value: u8) -> GpuView
        recommends
            lcd_reg_known(address),
    {
        if address == 0xFF40 {
            GpuView { lcdc: value, ..self }
        } else if address == 0xFF41 {
            GpuView { stat: value, ..self }
        } else if address == 0xFF42 {
            GpuView { scy: value, ..self }
        } else if address == 0xFF43 {
            GpuView { scx: value, ..self }
        } else if address == 0xFF44 {
            GpuView { ly: value, ..self }
        } else if address == 0xFF45 {
            GpuView { lyc: value, ..self }
        } else if address == 0xFF47 {
            GpuView { bgp: value, ..self }
        } else if address == 0xFF48 {
            GpuView { obp0: value, ..self }
        } else if address == 0xFF49 {
            GpuView { obp1: value, ..self }
        } else if address == 0xFF4A {
            GpuView { wy: value, ..self }
        } else {
            GpuView { wx: value, ..self }
        }
    }
}

impl GPU {
    /// Creates the video model in its power-on state: zero-filled video RAM
    /// and sprite memory, all registers and the interrupt latch zero.
    pub fn new() -> (r: Self)
        ensures
            r@ == GpuView::reset(),
    {
        let r = GPU {
            vram: [0u8; 0x2000],
            oam: [0u8; 0xA0],
            lcdc: 0,
            stat: 0,
            scy: 0,
            scx: 0,
            ly: 0,
            lyc: 0,
            wy: 0,
            wx: 0,
            bgp: 0,
            obp0: 0,
            obp1: 0,
            interrupt: 0,
        };
        proof {
            assert(r@.vram =~= GpuView::reset().vram);
            assert(r@.oam =~= GpuView::reset().oam);
            assert(r@ =~= GpuView::reset());
        }
        r
    }

    /// Reads the LCD register at `address`. Offsets outside the recognized
    /// eleven are a fatal condition: they indicate an LCD feature this model
    /// does not implement, and continuing would corrupt emulation silently.
    pub fn read_lcd_reg(&self, address: u16) -> (r: Result<u8, BusFault>)
        ensures
            lcd_reg_known(address) ==> r == Ok::<u8, BusFault>(self@.reg(address)),
            !lcd_reg_known(address) ==> r == Err::<u8, BusFault>(
                BusFault::UnknownRegisterAccess { address },
            ),
    {
        match address {
            0xFF40 => Ok(self.lcdc),
            0xFF41 => Ok(self.stat),
            0xFF42 => Ok(self.scy),
            0xFF43 => Ok(self.scx),
            0xFF44 => Ok(SCANLINE_READ_VALUE),
            0xFF45 => Ok(self.lyc),
            0xFF47 => Ok(self.bgp),
            0xFF48 => Ok(self.obp0),
            0xFF49 => Ok(self.obp1),
            0xFF4A => Ok(self.wy),
            0xFF4B => Ok(self.wx),
            _ => Err(BusFault::UnknownRegisterAccess { address }),
        }
    }

    /// Stores `value` in the LCD register at `address`. Offsets outside the
    /// recognized eleven are the same fatal condition as on read, and leave
    /// the model unchanged.
    pub fn write_lcd_reg(&mut self, address: u16, value: u8) -> (r: Result<(), BusFault>)
        ensures
            lcd_reg_known(address) ==> r == Ok::<(), BusFault>(()) && final(self)@ == old(
                self,
            )@.with_reg(address, value),
            !lcd_reg_known(address) ==> r == Err::<(), BusFault>(
                BusFault::UnknownRegisterAccess { address },
            ) && final(self)@ == old(self)@,
    {
        match address {
            0xFF40 => {
                self.lcdc = value;
                Ok(())
            },
            0xFF41 => {
                self.stat = value;
                Ok(())
            },
            0xFF42 => {
                self.scy = value;
                Ok(())
            },
            0xFF43 => {
                self.scx = value;
                Ok(())
            },
            0xFF44 => {
                self.ly = value;
                Ok(())
            },
            0xFF45 => {
                self.lyc = value;
                Ok(())
            },
            0xFF47 => {
                self.bgp = value;
                Ok(())
            },
            0xFF48 => {
                self.obp0 = value;
                Ok(())
            },
            0xFF49 => {
                self.obp1 = value;
                Ok(())
            },
            0xFF4A => {
                self.wy = value;
                Ok(())
            },
            0xFF4B => {
                self.wx = value;
                Ok(())
            },
            _ => Err(BusFault::UnknownRegisterAccess { address }),
        }
    }

    /// Reads the video RAM byte at `address`, masked to the low 13 bits, so
    /// every CPU address in the video RAM window maps without a fault.
    pub fn read_vram(&self, address: u16) -> (r: u8)
        ensures
            r == self@.vram[(address & 0x1FFF) as int],
    {
        proof {
            assert(address & 0x1FFF < 0x2000) by (bit_vector);
        }
        self.vram[(address & 0x1FFF) as usize]
    }

    /// Stores `value` in the video RAM byte at `address`, masked to the low
    /// 13 bits.
    pub fn write_vram(&mut self, address: u16, value: u8)
        ensures
            final(self)@ == (GpuView {
                vram: old(self)@.vram.update((address & 0x1FFF) as int, value),
                ..old(self)@
            }),
    {
        proof {
            assert(address & 0x1FFF < 0x2000) by (bit_vector);
        }
        self.vram[(address & 0x1FFF) as usize] = value;
    }

    /// Reads the sprite-attribute byte at `address`, masked to the low
    /// 8 bits. The masked offset must fall inside the 160-byte memory; every
    /// CPU address in the sprite memory window does.
    pub fn read_oam(&self, address: u16) -> (r: u8)
        requires
            (address & 0xFF) < 0xA0,
        ensures
            r == self@.oam[(address & 0xFF) as int],
    {
        self.oam[(address & 0xFF) as usize]
    }

    /// Stores `value` in the sprite-attribute byte at `address`, masked to
    /// the low 8 bits, which must fall inside the 160-byte memory.
    pub fn write_oam(&mut self, address: u16, value: u8)
        requires
            (address & 0xFF) < 0xA0,
        ensures
            final(self)@ == (GpuView {
                oam: old(self)@.oam.update((address & 0xFF) as int, value),
                ..old(self)@
            }),
    {
        self.oam[(address & 0xFF) as usize] = value;
    }

    /// Accumulates interrupt request bits in the local latch. This is the
    /// write-back path of the external renderer: each bit stays latched until
    /// the bus merges the latch into the shared pending flags and clears it.
    pub fn request_interrupt(&mut self, bits: u8)
        ensures
            final(self)@ == (GpuView { interrupt: old(self)@.interrupt | bits, ..old(self)@ }),
    {
        self.interrupt = self.interrupt | bits;
    }
}

} // verus!
