use gb_bus::fault::BusFault;
use gb_bus::gpu::GPU;

#[test]
fn new_gpu_is_zeroed() {
    let gpu = GPU::new();
    assert_eq!(gpu.read_vram(0x8000), 0);
    assert_eq!(gpu.read_oam(0xFE00), 0);
    assert_eq!(gpu.read_lcd_reg(0xFF40), Ok(0));
    assert_eq!(gpu.read_lcd_reg(0xFF41), Ok(0));
    assert_eq!(gpu.interrupt, 0);
}

#[test]
fn lcd_registers_round_trip_except_scanline() {
    let mut gpu = GPU::new();
    for (address, value) in [
        (0xFF40u16, 0x91u8),
        (0xFF41, 0x85),
        (0xFF42, 0x12),
        (0xFF43, 0x34),
        (0xFF45, 0x56),
        (0xFF47, 0xFC),
        (0xFF48, 0xFF),
        (0xFF49, 0xC3),
        (0xFF4A, 0x78),
        (0xFF4B, 0x9A),
    ] {
        assert_eq!(gpu.write_lcd_reg(address, value), Ok(()));
        assert_eq!(gpu.read_lcd_reg(address), Ok(value));
    }
    assert_eq!(gpu.write_lcd_reg(0xFF44, 0x3B), Ok(()));
    assert_eq!(gpu.read_lcd_reg(0xFF44), Ok(148));
    assert_eq!(gpu.ly, 0x3B);
}

#[test]
fn unknown_lcd_register_access_is_fatal() {
    let mut gpu = GPU::new();
    assert_eq!(
        gpu.read_lcd_reg(0xFF46),
        Err(BusFault::UnknownRegisterAccess { address: 0xFF46 })
    );
    assert_eq!(
        gpu.read_lcd_reg(0xFF4C),
        Err(BusFault::UnknownRegisterAccess { address: 0xFF4C })
    );
    assert_eq!(
        gpu.write_lcd_reg(0xFF4D, 1),
        Err(BusFault::UnknownRegisterAccess { address: 0xFF4D })
    );
    // A refused write leaves the register file as it was.
    assert_eq!(gpu.read_lcd_reg(0xFF40), Ok(0));
}

#[test]
fn video_ram_is_masked_to_thirteen_bits() {
    let mut gpu = GPU::new();
    gpu.write_vram(0x8004, 0xEE);
    assert_eq!(gpu.read_vram(0x8004), 0xEE);
    // 0xA004 has the same low 13 bits as 0x8004.
    assert_eq!(gpu.read_vram(0xA004), 0xEE);
}

#[test]
fn sprite_memory_is_masked_to_eight_bits() {
    let mut gpu = GPU::new();
    gpu.write_oam(0xFE3C, 0x4D);
    assert_eq!(gpu.read_oam(0xFE3C), 0x4D);
    // 0x003C has the same low 8 bits as 0xFE3C.
    assert_eq!(gpu.read_oam(0x003C), 0x4D);
}

#[test]
fn interrupt_requests_accumulate_in_the_latch() {
    let mut gpu = GPU::new();
    gpu.request_interrupt(0x01);
    gpu.request_interrupt(0x02);
    assert_eq!(gpu.interrupt, 0x03);
    gpu.request_interrupt(0x02);
    assert_eq!(gpu.interrupt, 0x03);
}

#[test]
fn fault_carries_the_offending_address() {
    let fault = BusFault::UnsupportedFeatureAccess { address: 0xFF01 };
    assert_eq!(fault.address(), 0xFF01);
    let fault = BusFault::UnknownRegisterAccess { address: 0xFF46 };
    assert_eq!(fault.address(), 0xFF46);
}
