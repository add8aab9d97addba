//! Bus-wide properties, stated over the mathematical views and proved once
//! for all states, addresses and values.

use vstd::prelude::*;

use crate::bus::{
    dma_addr, dma_fault_scan, dma_source, lemma_dma_fault_scan_clean, merge_pending, read_faults,
    BusView,
};
use crate::device::{Cartridge, InputDevice, TimerDevice};
use crate::gpu::{GpuView, SCANLINE_READ_VALUE};

verus! {

/// Echo-region aliasing, both directions: the primary working-RAM window and
/// the echo window resolve to the same storage, so a byte written through
/// either window is read back through both. Holds for every primary address
/// whose echo alias is still inside the echo window; the last half-kilobyte
/// of the primary window (0xDE00 and up) has no alias, because the echo
/// window ends where sprite memory begins.
pub proof fn lemma_wram_echo<C: Cartridge, I: InputDevice, T: TimerDevice>(
    v: BusView<C, I, T>,
    address: u16,
    byte: u8,
)
    requires
        v.wf(),
        0xC000 <= address < 0xDE00,
    ensures
        v.write_spec(address, byte).read_spec(address) == byte,
        v.write_spec(address, byte).read_spec((address + 0x2000) as u16) == byte,
        v.write_spec((address + 0x2000) as u16, byte).read_spec(address) == byte,
{
    let echo = (address + 0x2000) as u16;
    assert(address & 0x1FFF < 0x2000 && echo & 0x1FFF == address & 0x1FFF && 0xE000 <= echo
        < 0xFE00) by (bit_vector)
        requires
            0xC000 <= address < 0xDE00 && echo == (address + 0x2000) as u16,
    ;
}

/// Video RAM reads back what was written, for every address of its window.
pub proof fn lemma_vram_round_trip<C: Cartridge, I: InputDevice, T: TimerDevice>(
    v: BusView<C, I, T>,
    address: u16,
    byte: u8,
)
    requires
        v.wf(),
        0x8000 <= address <= 0x9FFF,
    ensures
        v.write_spec(address, byte).read_spec(address) == byte,
{
    assert(address & 0x1FFF < 0x2000) by (bit_vector);
}

/// The scanline counter read quirk: writing any value to the counter and
/// reading it back returns the fixed sentinel 148 — not 0 and not the value
/// written (unless that value happens to be the sentinel).
pub proof fn lemma_scanline_read_quirk<C: Cartridge, I: InputDevice, T: TimerDevice>(
    v: BusView<C, I, T>,
    byte: u8,
)
    ensures
        v.write_spec(0xFF44, byte).read_spec(0xFF44) == SCANLINE_READ_VALUE,
        SCANLINE_READ_VALUE == 148,
        v.write_spec(0xFF44, byte).gpu.ly == byte,
{
}

/// Reading has no side effect: `read_byte` borrows the bus immutably, and
/// its contract makes the byte returned a function of the bus state alone.
/// Hence any two reads of the same address with no intervening write — two
/// values satisfying that contract on one state — are equal.
pub proof fn lemma_read_idempotent<C: Cartridge, I: InputDevice, T: TimerDevice>(
    v: BusView<C, I, T>,
    address: u16,
    first: u8,
    second: u8,
)
    requires
        first == v.read_spec(address),
        second == v.read_spec(address),
    ensures
        first == second,
{
}

/// Interrupt aggregation: one orchestrator step merges the bits each device
/// reported into the pending flags by accumulated OR, each exactly once. In
/// a step where the video model reports `video_bits`, the timer reports
/// `timer_bits` and the input controller reports nothing, pending flags that
/// start empty end as exactly `video_bits | timer_bits`; a device whose
/// cleared latch is merged again contributes nothing more.
pub proof fn lemma_interrupt_aggregation(video_bits: u8, timer_bits: u8)
    ensures
        merge_pending(merge_pending(merge_pending(0, video_bits), 0), timer_bits) == (video_bits
            | timer_bits),
        merge_pending(merge_pending(merge_pending(merge_pending(0, video_bits), 0), timer_bits), 0)
            == (video_bits | timer_bits),
{
    assert(((0 | video_bits) | 0) | timer_bits == video_bits | timer_bits && (((0 | video_bits)
        | 0) | timer_bits) | 0 == video_bits | timer_bits) by (bit_vector);
}

/// True of the addresses where a 16-bit access stays inside one window of
/// plain byte storage with identical read and write semantics: video RAM,
/// working RAM together with its echo, and high RAM together with the
/// enabled-mask register that follows it.
pub open spec fn word_window(address: u16) -> bool {
    ||| 0x8000 <= address && address < 0x9FFF
    ||| 0xC000 <= address && address < 0xFDFF
    ||| 0xFF80 <= address && address < 0xFFFF
}

/// Word round trip: writing a little-endian word and reading it back yields
/// the word, for every address whose two bytes stay inside one plain
/// storage window.
pub proof fn lemma_word_round_trip<C: Cartridge, I: InputDevice, T: TimerDevice>(
    v: BusView<C, I, T>,
    address: u16,
    word: u16,
)
    requires
        v.wf(),
        word_window(address),
    ensures
        v.write_step(address, (word & 0xFF) as u8).write_step(
            (address + 1) as u16,
            ((word >> 8) & 0xFF) as u8,
        ).read_word_spec(address) == word,
{
    let lo = (word & 0xFF) as u8;
    let hi = ((word >> 8) & 0xFF) as u8;
    let next = (address + 1) as u16;
    assert((lo as u16) | ((hi as u16) << 8) == word) by (bit_vector)
        requires
            lo == (word & 0xFF) as u8 && hi == ((word >> 8) & 0xFF) as u8,
    ;
    if address < 0x9FFF {
        assert(address & 0x1FFF < 0x2000 && next & 0x1FFF < 0x2000 && address & 0x1FFF != next
            & 0x1FFF) by (bit_vector)
            requires
                0x8000 <= address < 0x9FFF && next == (address + 1) as u16,
        ;
    } else if address < 0xFDFF {
        assert(address & 0x1FFF < 0x2000 && next & 0x1FFF < 0x2000 && address & 0x1FFF != next
            & 0x1FFF) by (bit_vector)
            requires
                0xC000 <= address < 0xFDFF && next == (address + 1) as u16,
        ;
    } else {
        assert(address & 0x7F < 0x80 && next & 0x7F < 0x80 && (next < 0xFFFF ==> address & 0x7F
            != next & 0x7F)) by (bit_vector)
            requires
                0xFF80 <= address < 0xFFFF && next == (address + 1) as u16,
        ;
    }
}

/// One DMA copy step preserves every part of the bus but the sprite memory.
/// After the first `n` copies of a transfer sourced from the working-RAM or
/// echo pages, sprite offsets below `n` hold the working-RAM source bytes
/// and the offsets above still hold their old contents.
proof fn lemma_dma_from_wram_prefix<C: Cartridge, I: InputDevice, T: TimerDevice>(
    v: BusView<C, I, T>,
    page: u8,
    n: int,
)
    requires
        v.wf(),
        0xC0 <= page <= 0xFD,
        0 <= n <= 0xA0,
    ensures
        ({
            let d = v.dma_spec(page, n);
            &&& d == (BusView { gpu: (GpuView { oam: d.gpu.oam, ..v.gpu }), ..v })
            &&& d.gpu.oam.len() == 0xA0
            &&& forall|j: int|
                0 <= j < n ==> d.gpu.oam[j] == v.wram[(dma_addr(page, j) & 0x1FFF) as int]
            &&& forall|j: int| n <= j < 0xA0 ==> d.gpu.oam[j] == v.gpu.oam[j]
        }),
    decreases n,
{
    assert(0xC000 <= (page as u16) << 8 <= 0xFD00) by (bit_vector)
        requires
            0xC0 <= page <= 0xFD,
    ;
    if n > 0 {
        lemma_dma_from_wram_prefix(v, page, n - 1);
        let source_addr = dma_addr(page, n - 1);
        assert(source_addr == dma_source(page) + n - 1);
        assert(0xC000 <= source_addr < 0xFE00);
        assert(source_addr & 0x1FFF < 0x2000) by (bit_vector);
    }
}

/// DMA sourced from the working-RAM pages (the primary window and its echo)
/// never faults and copies the 160 working-RAM source bytes into sprite
/// offsets 0..159 unchanged, leaving every other part of the bus as it was.
pub proof fn lemma_dma_from_wram<C: Cartridge, I: InputDevice, T: TimerDevice>(
    v: BusView<C, I, T>,
    page: u8,
)
    requires
        v.wf(),
        0xC0 <= page <= 0xFD,
    ensures
        dma_fault_scan(page, 0) == 0xA0,
        ({
            let d = v.write_step(0xFF46, page);
            &&& d == (BusView { gpu: (GpuView { oam: d.gpu.oam, ..v.gpu }), ..v })
            &&& d.gpu.oam.len() == 0xA0
            &&& forall|j: int|
                0 <= j < 0xA0 ==> d.gpu.oam[j] == v.wram[(dma_addr(page, j) & 0x1FFF) as int]
        }),
{
    assert(0xC000 <= (page as u16) << 8 <= 0xFD00) by (bit_vector)
        requires
            0xC0 <= page <= 0xFD,
    ;
    assert forall|j: int| 0 <= j < 0xA0 implies !read_faults(dma_addr(page, j)) by {
        assert(dma_addr(page, j) == dma_source(page) + j);
    }
    lemma_dma_fault_scan_clean(page, 0);
    lemma_dma_from_wram_prefix(v, page, 0xA0);
}

} // verus!

