use gb_bus::bus::MemoryBus;
use gb_bus::device::{Cartridge, InputDevice, Renderer, TimerDevice};
use gb_bus::fault::BusFault;
use gb_bus::gpu::GPU;

/// Flat test cartridge: a plain ROM image and one RAM bank, no banking.
///
/// The trait's ghost items (`byte_at`, `after_write`) are required by the
/// compiled trait even though they are never executed; they are implemented
/// here with the same logic as the executable methods.
#[derive(Clone)]
struct TestCartridge {
    rom: Vec<u8>,
    ram: Vec<u8>,
}

impl TestCartridge {
    fn new() -> Self {
        TestCartridge { rom: vec![0u8; 0x8000], ram: vec![0u8; 0x2000] }
    }

    fn peek(&self, address: u16) -> u8 {
        if address < 0x8000 {
            self.rom[address as usize]
        } else if (0xA000..0xC000).contains(&address) {
            self.ram[(address - 0xA000) as usize]
        } else {
            0
        }
    }

    fn poke(&mut self, address: u16, value: u8) {
        if (0xA000..0xC000).contains(&address) {
            self.ram[(address - 0xA000) as usize] = value;
        }
    }
}

impl Cartridge for TestCartridge {
    fn byte_at(&self, address: u16) -> u8 {
        self.peek(address)
    }

    fn after_write(&self, address: u16, value: u8) -> Self {
        let mut next = self.clone();
        next.poke(address, value);
        next
    }

    fn read_byte(&self, address: u16) -> u8 {
        self.peek(address)
    }

    fn write_byte(&mut self, address: u16, value: u8) {
        self.poke(address, value);
    }
}

/// Test input controller with a settable port value and interrupt latch.
#[derive(Clone)]
struct TestInput {
    port: u8,
    written: Option<u8>,
    pending: u8,
}

impl TestInput {
    fn new() -> Self {
        TestInput { port: 0xFF, written: None, pending: 0 }
    }
}

impl InputDevice for TestInput {
    fn port_value(&self) -> u8 {
        self.port
    }

    fn pending(&self) -> u8 {
        self.pending
    }

    fn after_write(&self, value: u8) -> Self {
        TestInput { written: Some(value), ..self.clone() }
    }

    fn read(&self) -> u8 {
        self.port
    }

    fn write(&mut self, value: u8) {
        self.written = Some(value);
    }

    fn advance(&mut self) {}

    fn take_interrupt(&mut self) -> u8 {
        let bits = self.pending;
        self.pending = 0;
        bits
    }
}

/// Test timer with four registers, an interrupt latch to be reported on the
/// next step, and a record of the ticks it was advanced by.
#[derive(Clone)]
struct TestTimer {
    regs: [u8; 4],
    pending: u8,
    report_next: u8,
    ticks: u32,
}

impl TestTimer {
    fn new() -> Self {
        TestTimer { regs: [0; 4], pending: 0, report_next: 0, ticks: 0 }
    }
}

impl TimerDevice for TestTimer {
    fn reg_value(&self, address: u16) -> u8 {
        self.regs[(address - 0xFF04) as usize]
    }

    fn pending(&self) -> u8 {
        self.pending
    }

    fn after_write(&self, address: u16, value: u8) -> Self {
        let mut next = self.clone();
        next.regs[(address - 0xFF04) as usize] = value;
        next
    }

    fn read(&self, address: u16) -> u8 {
        self.regs[(address - 0xFF04) as usize]
    }

    fn write(&mut self, address: u16, value: u8) {
        self.regs[(address - 0xFF04) as usize] = value;
    }

    fn advance(&mut self, ticks: u32) {
        self.ticks += ticks;
        self.pending |= self.report_next;
        self.report_next = 0;
    }

    fn take_interrupt(&mut self) -> u8 {
        let bits = self.pending;
        self.pending = 0;
        bits
    }
}

/// Test renderer: latches a fixed set of interrupt request bits into the
/// video model on every step.
struct TestRenderer {
    report: u8,
}

impl Renderer for TestRenderer {
    fn advance(&mut self, gpu: &mut GPU, _cycles: u8) {
        gpu.request_interrupt(self.report);
    }
}

fn test_bus() -> MemoryBus<TestCartridge, TestInput, TestTimer> {
    MemoryBus::new(TestCartridge::new(), TestInput::new(), TestTimer::new())
}

#[test]
fn power_on_state_is_zeroed() {
    let bus = test_bus();
    assert_eq!(bus.read_byte(0xC000), Ok(0));
    assert_eq!(bus.read_byte(0x8000), Ok(0));
    assert_eq!(bus.read_byte(0xFE00), Ok(0));
    assert_eq!(bus.read_byte(0xFF40), Ok(0));
    assert_eq!(bus.read_byte(0xFF0F), Ok(0));
    assert_eq!(bus.read_byte(0xFFFF), Ok(0));
}

#[test]
fn wram_write_primary_read_both_windows() {
    let mut bus = test_bus();
    assert_eq!(bus.write_byte(0xC123, 0xAB), Ok(()));
    assert_eq!(bus.read_byte(0xC123), Ok(0xAB));
    assert_eq!(bus.read_byte(0xE123), Ok(0xAB));
}

#[test]
fn wram_write_echo_read_primary() {
    let mut bus = test_bus();
    assert_eq!(bus.write_byte(0xFDFE, 0x5C), Ok(()));
    assert_eq!(bus.read_byte(0xDDFE), Ok(0x5C));
    assert_eq!(bus.read_byte(0xFDFE), Ok(0x5C));
}

#[test]
fn vram_round_trips_through_bus() {
    let mut bus = test_bus();
    assert_eq!(bus.write_byte(0x8000, 0x11), Ok(()));
    assert_eq!(bus.write_byte(0x9FFF, 0x77), Ok(()));
    assert_eq!(bus.read_byte(0x8000), Ok(0x11));
    assert_eq!(bus.read_byte(0x9FFF), Ok(0x77));
}

#[test]
fn scanline_counter_reads_sentinel() {
    let mut bus = test_bus();
    assert_eq!(bus.write_byte(0xFF44, 0x3B), Ok(()));
    assert_eq!(bus.read_byte(0xFF44), Ok(148));
    assert_eq!(bus.write_byte(0xFF44, 0), Ok(()));
    assert_eq!(bus.read_byte(0xFF44), Ok(148));
    // The stored value is still there: the quirk is on the read path alone.
    assert_eq!(bus.gpu.ly, 0);
}

#[test]
fn dma_copies_working_ram_pattern_into_oam() {
    let mut bus = test_bus();
    for i in 0..160u16 {
        let byte = (3 * i + 7) as u8;
        assert_eq!(bus.write_byte(0xC100 + i, byte), Ok(()));
    }
    assert_eq!(bus.write_byte(0xFF46, 0xC1), Ok(()));
    for i in 0..160u16 {
        let expected = (3 * i + 7) as u8;
        assert_eq!(bus.read_byte(0xFE00 + i), Ok(expected));
    }
}

#[test]
fn dma_from_echo_page_copies_working_ram() {
    let mut bus = test_bus();
    assert_eq!(bus.write_byte(0xC300, 0x99), Ok(()));
    assert_eq!(bus.write_byte(0xFF46, 0xE3), Ok(()));
    assert_eq!(bus.read_byte(0xFE00), Ok(0x99));
}

#[test]
fn dma_with_fatal_source_stops_at_fault() {
    let mut bus = test_bus();
    // Page 0xFF sources from 0xFF00 up: the first byte (the input port) is
    // copied, the second source address is the serial register and fatal.
    assert_eq!(
        bus.write_byte(0xFF46, 0xFF),
        Err(BusFault::UnsupportedFeatureAccess { address: 0xFF01 })
    );
    assert_eq!(bus.read_byte(0xFE00), Ok(0xFF)); // the input port value
    assert_eq!(bus.read_byte(0xFE01), Ok(0)); // untouched
}

#[test]
fn interrupt_step_aggregates_video_and_timer_bits() {
    let mut bus = test_bus();
    let mut renderer = TestRenderer { report: 0x01 }; // VBLANK
    bus.timer.report_next = 0x04; // TIMER
    bus.run(&mut renderer, 1);
    assert_eq!(bus.read_byte(0xFF0F), Ok(0x05));
    assert_eq!(bus.gpu.interrupt, 0);
    assert_eq!(bus.timer.pending, 0);
    assert_eq!(bus.input.pending, 0);
}

#[test]
fn interrupt_step_keeps_already_pending_bits() {
    let mut bus = test_bus();
    assert_eq!(bus.write_byte(0xFF0F, 0x10), Ok(()));
    let mut renderer = TestRenderer { report: 0x02 };
    bus.run(&mut renderer, 1);
    assert_eq!(bus.read_byte(0xFF0F), Ok(0x12));
}

#[test]
fn pre_latched_video_request_is_not_lost() {
    let mut bus = test_bus();
    bus.gpu.request_interrupt(0x02);
    let mut renderer = TestRenderer { report: 0 };
    bus.run(&mut renderer, 1);
    assert_eq!(bus.read_byte(0xFF0F), Ok(0x02));
    assert_eq!(bus.gpu.interrupt, 0);
}

#[test]
fn timer_is_advanced_by_four_ticks_per_cycle() {
    let mut bus = test_bus();
    let mut renderer = TestRenderer { report: 0 };
    bus.run(&mut renderer, 3);
    assert_eq!(bus.timer.ticks, 12);
    bus.run(&mut renderer, 255);
    assert_eq!(bus.timer.ticks, 12 + 4 * 255);
}

#[test]
fn step_preserves_memories_and_enabled_mask() {
    let mut bus = test_bus();
    assert_eq!(bus.write_byte(0xC000, 0x42), Ok(()));
    assert_eq!(bus.write_byte(0xFF80, 0x43), Ok(()));
    assert_eq!(bus.write_byte(0xFFFF, 0x1F), Ok(()));
    let mut renderer = TestRenderer { report: 0 };
    bus.run(&mut renderer, 4);
    assert_eq!(bus.read_byte(0xC000), Ok(0x42));
    assert_eq!(bus.read_byte(0xFF80), Ok(0x43));
    assert_eq!(bus.read_byte(0xFFFF), Ok(0x1F));
}

#[test]
fn reads_are_idempotent() {
    let mut bus = test_bus();
    assert_eq!(bus.write_byte(0xC777, 0x9D), Ok(()));
    for address in [0x0000u16, 0x8123, 0xC777, 0xFE05, 0xFF00, 0xFF0F, 0xFF44, 0xFF80, 0xFFFF] {
        let first = bus.read_byte(address);
        let second = bus.read_byte(address);
        assert_eq!(first, second);
    }
}

#[test]
fn serial_and_reserved_reads_are_fatal_writes_are_not() {
    let mut bus = test_bus();
    assert_eq!(
        bus.read_byte(0xFF01),
        Err(BusFault::UnsupportedFeatureAccess { address: 0xFF01 })
    );
    assert_eq!(
        bus.read_byte(0xFF4C),
        Err(BusFault::UnsupportedFeatureAccess { address: 0xFF4C })
    );
    assert_eq!(bus.write_byte(0xFF01, 0x55), Ok(()));
    assert_eq!(bus.write_byte(0xFF4C, 0x55), Ok(()));
}

#[test]
fn dma_trigger_read_is_fatal() {
    let bus = test_bus();
    assert_eq!(
        bus.read_byte(0xFF46),
        Err(BusFault::UnknownRegisterAccess { address: 0xFF46 })
    );
}

#[test]
fn unhandled_addresses_read_zero() {
    let bus = test_bus();
    for address in [0xFEA0u16, 0xFEFF, 0xFF03, 0xFF10, 0xFF26, 0xFF30, 0xFF3F, 0xFF7F + 1] {
        assert_eq!(bus.read_byte(address), Ok(0), "address {address:#06X}");
    }
}

#[test]
fn word_round_trips_in_each_plain_window() {
    let mut bus = test_bus();
    assert_eq!(bus.write_word(0xC200, 0xBEEF), Ok(()));
    assert_eq!(bus.read_word(0xC200), Ok(0xBEEF));
    assert_eq!(bus.write_word(0x8ABC, 0x1234), Ok(()));
    assert_eq!(bus.read_word(0x8ABC), Ok(0x1234));
    assert_eq!(bus.write_word(0xFF80, 0xA55A), Ok(()));
    assert_eq!(bus.read_word(0xFF80), Ok(0xA55A));
}

#[test]
fn word_access_is_little_endian() {
    let mut bus = test_bus();
    assert_eq!(bus.write_word(0xC400, 0xCAFE), Ok(()));
    assert_eq!(bus.read_byte(0xC400), Ok(0xFE));
    assert_eq!(bus.read_byte(0xC401), Ok(0xCA));
}

#[test]
fn word_spanning_high_ram_and_enabled_mask_round_trips() {
    let mut bus = test_bus();
    assert_eq!(bus.write_word(0xFFFE, 0xABCD), Ok(()));
    assert_eq!(bus.read_byte(0xFFFE), Ok(0xCD));
    assert_eq!(bus.read_byte(0xFFFF), Ok(0xAB));
    assert_eq!(bus.read_word(0xFFFE), Ok(0xABCD));
}

#[test]
fn word_read_reaching_fatal_byte_is_fatal() {
    let bus = test_bus();
    assert_eq!(
        bus.read_word(0xFF00),
        Err(BusFault::UnsupportedFeatureAccess { address: 0xFF01 })
    );
}

#[test]
fn cartridge_windows_are_dispatched_to_the_cartridge() {
    let mut bus = test_bus();
    bus.cartridge.rom[0x0000] = 0x31;
    bus.cartridge.rom[0x7FFF] = 0x32;
    assert_eq!(bus.read_byte(0x0000), Ok(0x31));
    assert_eq!(bus.read_byte(0x7FFF), Ok(0x32));
    assert_eq!(bus.write_byte(0xA010, 0x66), Ok(()));
    assert_eq!(bus.read_byte(0xA010), Ok(0x66));
}

#[test]
fn input_and_timer_registers_are_dispatched() {
    let mut bus = test_bus();
    bus.input.port = 0x2A;
    assert_eq!(bus.read_byte(0xFF00), Ok(0x2A));
    assert_eq!(bus.write_byte(0xFF00, 0x20), Ok(()));
    assert_eq!(bus.input.written, Some(0x20));
    assert_eq!(bus.write_byte(0xFF06, 0x9C), Ok(()));
    assert_eq!(bus.read_byte(0xFF06), Ok(0x9C));
}

#[test]
fn interrupt_registers_store_bytes() {
    let mut bus = test_bus();
    assert_eq!(bus.write_byte(0xFF0F, 0x1F), Ok(()));
    assert_eq!(bus.read_byte(0xFF0F), Ok(0x1F));
    assert_eq!(bus.write_byte(0xFFFF, 0x15), Ok(()));
    assert_eq!(bus.read_byte(0xFFFF), Ok(0x15));
}

#[test]
fn init_writes_the_power_on_register_table() {
    let mut bus = test_bus();
    bus.init();
    assert_eq!(bus.read_byte(0xFF05), Ok(0));
    assert_eq!(bus.read_byte(0xFF06), Ok(0));
    assert_eq!(bus.read_byte(0xFF07), Ok(0));
    assert_eq!(bus.read_byte(0xFF40), Ok(0x91));
    assert_eq!(bus.read_byte(0xFF42), Ok(0));
    assert_eq!(bus.read_byte(0xFF43), Ok(0));
    assert_eq!(bus.read_byte(0xFF45), Ok(0));
    assert_eq!(bus.read_byte(0xFF47), Ok(0xFC));
    assert_eq!(bus.read_byte(0xFF48), Ok(0xFF));
    assert_eq!(bus.read_byte(0xFF49), Ok(0xFF));
    assert_eq!(bus.read_byte(0xFF4A), Ok(0));
    assert_eq!(bus.read_byte(0xFF4B), Ok(0));
    // The sound registers are not dispatched: the table's sound writes land
    // nowhere and the block still reads as 0.
    assert_eq!(bus.read_byte(0xFF10), Ok(0));
    assert_eq!(bus.read_byte(0xFF26), Ok(0));
}

#[test]
fn sprite_memory_round_trips_through_bus() {
    let mut bus = test_bus();
    assert_eq!(bus.write_byte(0xFE10, 0xD4), Ok(()));
    assert_eq!(bus.read_byte(0xFE10), Ok(0xD4));
    assert_eq!(bus.write_byte(0xFE9F, 0x21), Ok(()));
    assert_eq!(bus.read_byte(0xFE9F), Ok(0x21));
}
