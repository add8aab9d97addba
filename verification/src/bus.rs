//! System bus: address-range dispatch, DMA and interrupt aggregation.
//!
//! The bus partitions the 16-bit address space into fixed windows, each bound
//! to one device or to bus-owned storage, and routes every byte access to its
//! window. It owns the working and high RAM, the two interrupt registers and
//! the video model, and composes the externally-owned cartridge, input and
//! timer devices through the traits in [`crate::device`].

use vstd::prelude::*;

use crate::device::{Cartridge, InputDevice, Renderer, TimerDevice};
use crate::fault::BusFault;
use crate::gpu::{lcd_reg_known, GpuView, GPU};

verus! {

broadcast use vstd::array::group_array_axioms;

/// The system bus. One instance owns all bus-side storage and one instance
/// of each composed device; it lives, mutated in place, for the whole
/// emulation.
pub struct MemoryBus<C: Cartridge, I: InputDevice, T: TimerDevice> {
    /// Cartridge controller: ROM window and cartridge RAM window.
    pub cartridge: C,
    /// Input controller, visible at its single register address.
    pub input: I,
    /// Timer, visible at its four register addresses.
    pub timer: T,
    /// Video model: LCD registers, video RAM and sprite memory.
    pub gpu: GPU,
    /// Working RAM, addressed by the low 13 bits of the CPU address. Both
    /// the primary window and the echo window resolve to this one array, so
    /// the alias invariant holds by construction rather than by replication.
    pub wram: [u8; 0x2000],
    /// High RAM, addressed by the low 7 bits of the CPU address.
    pub hram: [u8; 0x80],
    /// Pending interrupt flags (IF): the OR, accumulated over time, of every
    /// device's self-reported requests since each bit was last cleared.
    pub interrupt_flags: u8,
    /// Enabled interrupt mask (IE).
    pub interrupt_enabled: u8,
}

/// Mathematical model of a [`MemoryBus`]: the RAM arrays as byte sequences,
/// the video model as its own view, and the composed devices as themselves
/// (their semantics live in the device traits).
#[verifier::ext_equal]
pub struct BusView<C, I, T> {
    pub cartridge: C,
    pub input: I,
    pub timer: T,
    pub gpu: GpuView,
    pub wram: Seq<u8>,
    pub hram: Seq<u8>,
    pub interrupt_flags: u8,
    pub interrupt_enabled: u8,
}

impl<C: Cartridge, I: InputDevice, T: TimerDevice> View for MemoryBus<C, I, T> {
    type V = BusView<C, I, T>;

    open spec fn view(&self) -> BusView<C, I, T> {
        BusView {
            cartridge: self.cartridge,
            input: self.input,
            timer: self.timer,
            gpu: self.gpu@,
            wram: self.wram@,
            hram: self.hram@,
            interrupt_flags: self.interrupt_flags,
            interrupt_enabled: self.interrupt_enabled,
        }
    }
}

/// True of the addresses the cartridge controller handles: the ROM window
/// and the cartridge RAM window.
pub open spec fn cartridge_addr(address: u16) -> bool {
    address < 0x8000 || (0xA000 <= address && address < 0xC000)
}

/// True of the addresses whose read is a fatal condition: the serial data
/// registers and the color-only register block (named but unimplemented
/// features), and the DMA trigger, which is not among the recognized LCD
/// register offsets its window dispatches to.
pub open spec fn read_faults(address: u16) -> bool {
    ||| address == 0xFF01
    ||| address == 0xFF02
    ||| address == 0xFF46
    ||| (0xFF4C <= address && address <= 0xFF7F)
}

/// The fault a read of a fatal address raises, carrying that address.
pub open spec fn read_fault(address: u16) -> BusFault
    recommends
        read_faults(address),
{
    if address == 0xFF46 {
        BusFault::UnknownRegisterAccess { address }
    } else {
        BusFault::UnsupportedFeatureAccess { address }
    }
}

impl<C: Cartridge, I: InputDevice, T: TimerDevice> BusView<C, I, T> {
    /// Storage sizes of a view taken from a real [`MemoryBus`].
    pub open spec fn wf(self) -> bool {
        &&& self.gpu.wf()
        &&& self.wram.len() == 0x2000
        &&& self.hram.len() == 0x80
    }

    /// The byte a read of `address` returns, for every address whose read is
    /// not fatal. Every address resolves to exactly one window; addresses
    /// with no handler (the sound block and the unmapped gaps) read as 0.
    pub open spec fn read_spec(self, address: u16) -> u8
        recommends
            !read_faults(address),
    {
        if cartridge_addr(address) {
            self.cartridge.byte_at(address)
        } else if address < 0xA000 {
            self.gpu.vram[(address & 0x1FFF) as int]
        } else if address < 0xFE00 {
            self.wram[(address & 0x1FFF) as int]
        } else if address < 0xFEA0 {
            self.gpu.oam[(address & 0xFF) as int]
        } else if address == 0xFF00 {
            self.input.port_value()
        } else if 0xFF04 <= address && address <= 0xFF07 {
            self.timer.reg_value(address)
        } else if address == 0xFF0F {
            self.interrupt_flags
        } else if 0xFF40 <= address && address <= 0xFF4B && address != 0xFF46 {
            self.gpu.reg(address)
        } else if 0xFF80 <= address && address < 0xFFFF {
            self.hram[(address & 0x7F) as int]
        } else if address == 0xFFFF {
            self.interrupt_enabled
        } else {
            0
        }
    }
}

/// The source address of a DMA transfer triggered with `page`: the page is
/// the high byte, the low byte is implicitly zero.
pub open spec fn dma_source(page: u8) -> u16 {
    (page as u16) << 8
}

/// The `i`-th source address of a DMA transfer triggered with `page`.
pub open spec fn dma_addr(page: u8, i: int) -> u16 {
    (dma_source(page) + i) as u16
}

/// Index of the first DMA source byte whose read would be fatal, scanning
/// from `i`; 0xA0 when the rest of the transfer is clean.
pub open spec fn dma_fault_scan(page: u8, i: int) -> int
    decreases 0xA0 - i,
{
    if i < 0 || i >= 0xA0 {
        0xA0
    } else if read_faults(dma_addr(page, i)) {
        i
    } else {
        dma_fault_scan(page, i + 1)
    }
}

/// True when writing `byte` to `address` raises a fault: only the DMA
/// trigger can, when one of the transfer's source reads is itself fatal.
/// Every other write is total — writes to unimplemented features are issued
/// defensively by real software and are silently ignored, asymmetric with
/// the fatal-on-read policy.
pub open spec fn write_faults(address: u16, byte: u8) -> bool {
    address == 0xFF46 && dma_fault_scan(byte, 0) < 0xA0
}

/// The fault a write of `byte` to `address` raises: the fault of the first
/// fatal source read of the DMA transfer.
pub open spec fn write_fault(address: u16, byte: u8) -> BusFault
    recommends
        write_faults(address, byte),
{
    read_fault(dma_addr(byte, dma_fault_scan(byte, 0)))
}

/// Pending flags after merging one device's reported interrupt bits:
/// the accumulated OR.
pub open spec fn merge_pending(flags: u8, reported: u8) -> u8 {
    flags | reported
}

impl<C: Cartridge, I: InputDevice, T: TimerDevice> BusView<C, I, T> {
    /// The view after a write of `byte` to `address`, for every address but
    /// the DMA trigger. Writes to the serial registers, the sound block, the
    /// color-only block and the unmapped gaps leave the bus unchanged.
    pub open spec fn write_spec(self, address: u16, byte: u8) -> BusView<C, I, T>
        recommends
            address != 0xFF46,
    {
        if cartridge_addr(address) {
            BusView { cartridge: self.cartridge.after_write(address, byte), ..self }
        } else if address < 0xA000 {
            BusView {
                gpu: GpuView {
                    vram: self.gpu.vram.update((address & 0x1FFF) as int, byte),
                    ..self.gpu
                },
                ..self
            }
        } else if address < 0xFE00 {
            BusView { wram: self.wram.update((address & 0x1FFF) as int, byte), ..self }
        } else if address < 0xFEA0 {
            self.with_oam((address & 0xFF) as int, byte)
        } else if address == 0xFF00 {
            BusView { input: self.input.after_write(byte), ..self }
        } else if 0xFF04 <= address && address <= 0xFF07 {
            BusView { timer: self.timer.after_write(address, byte), ..self }
        } else if address == 0xFF0F {
            BusView { interrupt_flags: byte, ..self }
        } else if 0xFF40 <= address && address <= 0xFF4B && address != 0xFF46 {
            BusView { gpu: self.gpu.with_reg(address, byte), ..self }
        } else if 0xFF80 <= address && address < 0xFFFF {
            BusView { hram: self.hram.update((address & 0x7F) as int, byte), ..self }
        } else if address == 0xFFFF {
            BusView { interrupt_enabled: byte, ..self }
        } else {
            self
        }
    }

    /// The view with one sprite-attribute byte replaced.
    pub open spec fn with_oam(self, i: int, byte: u8) -> BusView<C, I, T> {
        BusView { gpu: GpuView { oam: self.gpu.oam.update(i, byte), ..self.gpu }, ..self }
    }

    /// The view after the first `n` copies of a DMA transfer triggered with
    /// `page`: each copy reads one source byte through the full bus dispatch
    /// of the state the previous copies left, and stores it at the next
    /// sprite-attribute offset.
    pub open spec fn dma_spec(self, page: u8, n: int) -> BusView<C, I, T>
        decreases n,
    {
        if n <= 0 {
            self
        } else {
            let prev = self.dma_spec(page, n - 1);
            prev.with_oam(n - 1, prev.read_spec(dma_addr(page, n - 1)))
        }
    }

    /// The view after a write of `byte` to any `address`, the DMA trigger
    /// included: a faulting transfer leaves the copies made before the fault
    /// in place.
    pub open spec fn write_step(self, address: u16, byte: u8) -> BusView<C, I, T> {
        if address == 0xFF46 {
            self.dma_spec(byte, dma_fault_scan(byte, 0))
        } else {
            self.write_spec(address, byte)
        }
    }

    /// Little-endian composition of the bytes read at `address` and the
    /// following address.
    pub open spec fn read_word_spec(self, address: u16) -> u16
        recommends
            address < 0xFFFF,
            !read_faults(address),
            !read_faults((address + 1) as u16),
    {
        (self.read_spec(address) as u16) | ((self.read_spec((address + 1) as u16) as u16) << 8)
    }

    /// The view of a bus at power-on: the given devices, zero-filled
    /// memories, zeroed registers.
    pub open spec fn power_on(cartridge: C, input: I, timer: T) -> BusView<C, I, T> {
        BusView {
            cartridge,
            input,
            timer,
            gpu: GpuView::reset(),
            wram: Seq::new(0x2000, |i: int| 0u8),
            hram: Seq::new(0x80, |i: int| 0u8),
            interrupt_flags: 0,
            interrupt_enabled: 0,
        }
    }
}

/// The scan from `k` stops at `i`, the first faulting index at or past `k`.
pub proof fn lemma_dma_fault_scan_hits(page: u8, k: int, i: int)
    requires
        0 <= k <= i < 0xA0,
        forall|j: int| k <= j < i ==> !read_faults(dma_addr(page, j)),
        read_faults(dma_addr(page, i)),
    ensures
        dma_fault_scan(page, k) == i,
    decreases i - k,
{
    if k < i {
        lemma_dma_fault_scan_hits(page, k + 1, i);
    }
}

/// The scan from `k` runs off the end when no index at or past `k` faults.
pub proof fn lemma_dma_fault_scan_clean(page: u8, k: int)
    requires
        0 <= k <= 0xA0,
        forall|j: int| k <= j < 0xA0 ==> !read_faults(dma_addr(page, j)),
    ensures
        dma_fault_scan(page, k) == 0xA0,
    decreases 0xA0 - k,
{
    if k < 0xA0 {
        lemma_dma_fault_scan_clean(page, k + 1);
    }
}

impl<C: Cartridge, I: InputDevice, T: TimerDevice> MemoryBus<C, I, T> {
    /// Creates a bus at power-on: the given devices, zero-filled working and
    /// high RAM, the video model reset, no interrupt pending and none
    /// enabled. The bus owns all of its storage for the whole emulation;
    /// nothing is reallocated afterwards, only mutated in place.
    pub fn new(cartridge: C, input: I, timer: T) -> (r: Self)
        ensures
            r@ == BusView::power_on(cartridge, input, timer),
    {
        let r = MemoryBus {
            cartridge,
            input,
            timer,
            gpu: GPU::new(),
            wram: [0u8; 0x2000],
            hram: [0u8; 0x80],
            interrupt_flags: 0,
            interrupt_enabled: 0,
        };
        proof {
            assert(r@.wram =~= Seq::new(0x2000, |i: int| 0u8));
            assert(r@.hram =~= Seq::new(0x80, |i: int| 0u8));
            assert(r@ =~= BusView::power_on(r.cartridge, r.input, r.timer));
        }
        r
    }

    /// Reads one byte, dispatched strictly by address range.
    ///
    /// Reading a named but unimplemented feature (serial data, the
    /// color-only block) or an LCD register offset outside the recognized
    /// eleven (the write-only DMA trigger) is a fatal condition: such a read
    /// means the running program depends on behavior this system cannot
    /// provide, and continuing would corrupt emulation silently. Reads of
    /// addresses with no handler at all return 0 and are not an error.
    pub fn read_byte(&self, address: u16) -> (r: Result<u8, BusFault>)
        ensures
            !read_faults(address) ==> r == Ok::<u8, BusFault>(self@.read_spec(address)),
            read_faults(address) ==> r == Err::<u8, BusFault>(read_fault(address)),
    {
        if address < 0x8000 || (0xA000 <= address && address < 0xC000) {
            Ok(self.cartridge.read_byte(address))
        } else if address < 0xA000 {
            Ok(self.gpu.read_vram(address))
        } else if address < 0xFE00 {
            proof {
                assert(address & 0x1FFF < 0x2000) by (bit_vector);
            }
            Ok(self.wram[(address & 0x1FFF) as usize])
        } else if address < 0xFEA0 {
            proof {
                assert(address < 0xFEA0 && 0xFE00 <= address ==> address & 0xFF < 0xA0)
                    by (bit_vector);
            }
            Ok(self.gpu.read_oam(address))
        } else if address == 0xFF00 {
            Ok(self.input.read())
        } else if address == 0xFF01 || address == 0xFF02 {
            Err(BusFault::UnsupportedFeatureAccess { address })
        } else if 0xFF04 <= address && address <= 0xFF07 {
            Ok(self.timer.read(address))
        } else if address == 0xFF0F {
            Ok(self.interrupt_flags)
        } else if 0xFF40 <= address && address <= 0xFF4B {
            self.gpu.read_lcd_reg(address)
        } else if 0xFF4C <= address && address <= 0xFF7F {
            Err(BusFault::UnsupportedFeatureAccess { address })
        } else if 0xFF80 <= address && address < 0xFFFF {
            proof {
                assert(address & 0x7F < 0x80) by (bit_vector);
            }
            Ok(self.hram[(address & 0x7F) as usize])
        } else if address == 0xFFFF {
            Ok(self.interrupt_enabled)
        } else {
            Ok(0)
        }
    }

    /// Writes one byte, dispatched by the same ranges as [`Self::read_byte`].
    ///
    /// Writing the DMA trigger performs the whole OAM transfer as an
    /// immediate side effect instead of storing the byte; it is the only
    /// write that can fault, when one of the transfer's source reads is
    /// itself fatal. Writes to unimplemented features (serial, the
    /// color-only block) and to unmapped addresses are silently ignored.
    pub fn write_byte(&mut self, address: u16, byte: u8) -> (r: Result<(), BusFault>)
        ensures
            final(self)@ == old(self)@.write_step(address, byte),
            !write_faults(address, byte) ==> r == Ok::<(), BusFault>(()),
            write_faults(address, byte) ==> r == Err::<(), BusFault>(write_fault(address, byte)),
    {
        if address < 0x8000 || (0xA000 <= address && address < 0xC000) {
            self.cartridge.write_byte(address, byte);
            Ok(())
        } else if address < 0xA000 {
            self.gpu.write_vram(address, byte);
            Ok(())
        } else if address < 0xFE00 {
            proof {
                assert(address & 0x1FFF < 0x2000) by (bit_vector);
            }
            self.wram[(address & 0x1FFF) as usize] = byte;
            Ok(())
        } else if address < 0xFEA0 {
            proof {
                assert(address < 0xFEA0 && 0xFE00 <= address ==> address & 0xFF < 0xA0)
                    by (bit_vector);
            }
            self.gpu.write_oam(address, byte);
            Ok(())
        } else if address == 0xFF00 {
            self.input.write(byte);
            Ok(())
        } else if 0xFF04 <= address && address <= 0xFF07 {
            self.timer.write(address, byte);
            Ok(())
        } else if address == 0xFF0F {
            self.interrupt_flags = byte;
            Ok(())
        } else if address == 0xFF46 {
            self.dma_into_oam(byte)
        } else if 0xFF40 <= address && address <= 0xFF4B {
            proof {
                assert(lcd_reg_known(address));
            }
            self.gpu.write_lcd_reg(address, byte)
        } else if 0xFF80 <= address && address < 0xFFFF {
            proof {
                assert(address & 0x7F < 0x80) by (bit_vector);
            }
            self.hram[(address & 0x7F) as usize] = byte;
            Ok(())
        } else if address == 0xFFFF {
            self.interrupt_enabled = byte;
            Ok(())
        } else {
            Ok(())
        }
    }

    /// OAM DMA transfer: copies 160 consecutive bytes starting at
    /// `page << 8` into sprite-attribute offsets 0..159. Each source byte is
    /// read through the full bus dispatch, so the transfer can legally
    /// source from any mapped region; each destination byte goes through the
    /// video model's sprite-memory write path. The transfer is modeled as
    /// instantaneous: the real device stalls the CPU for its duration, and
    /// this bus deliberately does not reproduce the stall. A fatal source
    /// read stops the transfer, leaving the copies already made in place.
    fn dma_into_oam(&mut self, page: u8) -> (r: Result<(), BusFault>)
        ensures
            final(self)@ == old(self)@.dma_spec(page, dma_fault_scan(page, 0)),
            dma_fault_scan(page, 0) >= 0xA0 ==> r == Ok::<(), BusFault>(()),
            dma_fault_scan(page, 0) < 0xA0 ==> r == Err::<(), BusFault>(
                read_fault(dma_addr(page, dma_fault_scan(page, 0))),
            ),
    {
        let source: u16 = (page as u16) << 8;
        proof {
            assert((page as u16) << 8 <= 0xFF00) by (bit_vector);
        }
        let mut i: u16 = 0;
        while i < 0xA0
            invariant
                i <= 0xA0,
                source == dma_source(page),
                source <= 0xFF00,
                forall|j: int| 0 <= j < i ==> !read_faults(dma_addr(page, j)),
                self@ == old(self)@.dma_spec(page, i as int),
            decreases 0xA0 - i,
        {
            let address = source + i;
            match self.read_byte(address) {
                Ok(value) => {
                    proof {
                        assert(i < 0xA0 ==> i & 0xFF == i && i & 0xFF < 0xA0) by (bit_vector);
                    }
                    self.gpu.write_oam(i, value);
                },
                Err(fault) => {
                    proof {
                        lemma_dma_fault_scan_hits(page, 0, i as int);
                    }
                    return Err(fault);
                },
            }
            i = i + 1;
        }
        proof {
            lemma_dma_fault_scan_clean(page, 0);
        }
        Ok(())
    }

    /// Writes the fixed power-on register table, mirroring the real device's
    /// post-boot state: the timer registers, the sound registers (which this
    /// bus does not dispatch, so those writes land nowhere) and the LCD
    /// registers. The table must be reproduced byte for byte for program
    /// compatibility; only the timer and the LCD register file actually
    /// change.
    pub fn init(&mut self)
        ensures
            final(self)@ == (BusView {
                timer: old(self)@.timer.after_write(0xFF05, 0).after_write(0xFF06, 0).after_write(
                    0xFF07,
                    0,
                ),
                gpu: (GpuView {
                    lcdc: 0x91,
                    scy: 0,
                    scx: 0,
                    lyc: 0,
                    bgp: 0xFC,
                    obp0: 0xFF,
                    obp1: 0xFF,
                    wy: 0,
                    wx: 0,
                    ..old(self)@.gpu
                }),
                ..old(self)@
            }),
    {
        let _ = self.write_byte(0xFF05, 0);
        let _ = self.write_byte(0xFF06, 0);
        let _ = self.write_byte(0xFF07, 0);
        let _ = self.write_byte(0xFF10, 0x80);
        let _ = self.write_byte(0xFF11, 0xBF);
        let _ = self.write_byte(0xFF12, 0xF3);
        let _ = self.write_byte(0xFF14, 0xBF);
        let _ = self.write_byte(0xFF16, 0x3F);
        let _ = self.write_byte(0xFF16, 0x3F);
        let _ = self.write_byte(0xFF17, 0);
        let _ = self.write_byte(0xFF19, 0xBF);
        let _ = self.write_byte(0xFF1A, 0x7F);
        let _ = self.write_byte(0xFF1B, 0xFF);
        let _ = self.write_byte(0xFF1C, 0x9F);
        let _ = self.write_byte(0xFF1E, 0xFF);
        let _ = self.write_byte(0xFF20, 0xFF);
        let _ = self.write_byte(0xFF21, 0);
        let _ = self.write_byte(0xFF22, 0);
        let _ = self.write_byte(0xFF23, 0xBF);
        let _ = self.write_byte(0xFF24, 0x77);
        let _ = self.write_byte(0xFF25, 0xF3);
        let _ = self.write_byte(0xFF26, 0xF1);
        let _ = self.write_byte(0xFF40, 0x91);
        let _ = self.write_byte(0xFF42, 0);
        let _ = self.write_byte(0xFF43, 0);
        let _ = self.write_byte(0xFF45, 0);
        let _ = self.write_byte(0xFF47, 0xFC);
        let _ = self.write_byte(0xFF48, 0xFF);
        let _ = self.write_byte(0xFF49, 0xFF);
        let _ = self.write_byte(0xFF4A, 0);
        let _ = self.write_byte(0xFF4B, 0);
    }

    /// Reads a little-endian 16-bit word as two byte accesses at `address`
    /// and the following address, with no atomicity across the pair. A fatal
    /// byte read makes the word read fatal; the lower byte is read first.
    pub fn read_word(&self, address: u16) -> (r: Result<u16, BusFault>)
        requires
            address < 0xFFFF,
        ensures
            !read_faults(address) && !read_faults((address + 1) as u16) ==> r == Ok::<
                u16,
                BusFault,
            >(self@.read_word_spec(address)),
            read_faults(address) ==> r == Err::<u16, BusFault>(read_fault(address)),
            !read_faults(address) && read_faults((address + 1) as u16) ==> r == Err::<
                u16,
                BusFault,
            >(read_fault((address + 1) as u16)),
    {
        let low = match self.read_byte(address) {
            Ok(b) => b,
            Err(fault) => {
                return Err(fault);
            },
        };
        let high = match self.read_byte(address + 1) {
            Ok(b) => b,
            Err(fault) => {
                return Err(fault);
            },
        };
        Ok((low as u16) | ((high as u16) << 8))
    }

    /// Writes a little-endian 16-bit word as two byte accesses at `address`
    /// and the following address, lower byte first. A fatal first write (a
    /// DMA trigger whose transfer faults) stops before the second access.
    pub fn write_word(&mut self, address: u16, word: u16) -> (r: Result<(), BusFault>)
        requires
            address < 0xFFFF,
        ensures
            write_faults(address, (word & 0xFF) as u8) ==> r == Err::<(), BusFault>(
                write_fault(address, (word & 0xFF) as u8),
            ) && final(self)@ == old(self)@.write_step(address, (word & 0xFF) as u8),
            !write_faults(address, (word & 0xFF) as u8) ==> final(self)@ == old(self)@.write_step(
                address,
                (word & 0xFF) as u8,
            ).write_step((address + 1) as u16, ((word >> 8) & 0xFF) as u8),
            !write_faults(address, (word & 0xFF) as u8) && !write_faults(
                (address + 1) as u16,
                ((word >> 8) & 0xFF) as u8,
            ) ==> r == Ok::<(), BusFault>(()),
            !write_faults(address, (word & 0xFF) as u8) && write_faults(
                (address + 1) as u16,
                ((word >> 8) & 0xFF) as u8,
            ) ==> r == Err::<(), BusFault>(
                write_fault((address + 1) as u16, ((word >> 8) & 0xFF) as u8),
            ),
    {
        match self.write_byte(address, (word & 0xFF) as u8) {
            Ok(()) => {},
            Err(fault) => {
                return Err(fault);
            },
        }
        self.write_byte(address + 1, ((word >> 8) & 0xFF) as u8)
    }

    /// Advances every composed device by one CPU step and folds each
    /// device's interrupt request bits into the shared pending flags.
    ///
    /// Fixed order: the renderer is stepped first, then the input
    /// controller, then the timer; the timer receives the elapsed cycle
    /// count multiplied by four, its finer tick granularity. After each
    /// device's step its reported bits are OR-ed into the pending flags and
    /// its latch is cleared, so every request is merged exactly once. Which
    /// bits arrive depends on the devices alone, so the exact flag value is
    /// theirs to determine; the bus promises that no already-pending flag
    /// bit and no already-latched request is lost, that every latch ends
    /// cleared, and that nothing else it owns changes.
    pub fn run<R: Renderer>(&mut self, renderer: &mut R, cycle: u8)
        ensures
            final(self)@.cartridge == old(self)@.cartridge,
            final(self)@.wram == old(self)@.wram,
            final(self)@.hram == old(self)@.hram,
            final(self)@.interrupt_enabled == old(self)@.interrupt_enabled,
            final(self)@.gpu.interrupt == 0,
            final(self)@.input.pending() == 0,
            final(self)@.timer.pending() == 0,
            final(self)@.interrupt_flags & old(self)@.interrupt_flags == old(
                self,
            )@.interrupt_flags,
            final(self)@.interrupt_flags & old(self)@.gpu.interrupt == old(self)@.gpu.interrupt,
            final(self)@.interrupt_flags & old(self)@.input.pending() == old(
                self,
            )@.input.pending(),
            final(self)@.interrupt_flags & old(self)@.timer.pending() == old(
                self,
            )@.timer.pending(),
    {
        renderer.advance(&mut self.gpu, cycle);
        let video_bits = self.gpu.interrupt;
        self.interrupt_flags = merge_pending_exec(self.interrupt_flags, video_bits);
        self.gpu.interrupt = 0;

        self.input.advance();
        let input_bits = self.input.take_interrupt();
        self.interrupt_flags = merge_pending_exec(self.interrupt_flags, input_bits);

        self.timer.advance((cycle as u32) * 4);
        let timer_bits = self.timer.take_interrupt();
        self.interrupt_flags = merge_pending_exec(self.interrupt_flags, timer_bits);

        proof {
            let f0 = old(self)@.interrupt_flags;
            let g0 = old(self)@.gpu.interrupt;
            let i0 = old(self)@.input.pending();
            let t0 = old(self)@.timer.pending();
            let f3 = self.interrupt_flags;
            assert(f3 & f0 == f0 && f3 & g0 == g0 && f3 & i0 == i0 && f3 & t0 == t0)
                by (bit_vector)
                requires
                    f3 == ((f0 | video_bits) | input_bits) | timer_bits,
                    video_bits & g0 == g0,
                    input_bits & i0 == i0,
                    timer_bits & t0 == t0,
            ;
        }
    }
}

/// Merges one device's reported interrupt bits into the pending flags.
fn merge_pending_exec(flags: u8, reported: u8) -> (r: u8)
    ensures
        r == merge_pending(flags, reported),
{
    flags | reported
}

} // verus!
