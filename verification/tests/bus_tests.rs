use gameboy_bus::bus::Bus;
use gameboy_bus::cartridge::create;

/// A bus over an MBC1 cartridge with 8 ROM banks and 1 RAM bank.
fn make_bus() -> Bus {
    let mut rom = vec![0u8; 8 * 0x4000];
    rom[0x147] = 0x03;
    rom[0x148] = 0x02;
    rom[0x149] = 0x02;
    for b in 0..8 {
        rom[b * 0x4000] = b as u8;
    }
    let cart = create("game.gb", rom, None).unwrap();
    Bus::new(cart)
}

#[test]
fn echo_ram_shares_work_ram() {
    let mut bus = make_bus();
    // A byte written to work RAM reads back at the echo address.
    bus.write_u8(0xC010, 0x5C);
    assert_eq!(bus.read_u8(0xC010), 0x5C);
    assert_eq!(bus.read_u8(0xE010), 0x5C);
    // And the reverse: a write to the echo lands in work RAM.
    bus.write_u8(0xE010, 0xC3);
    assert_eq!(bus.read_u8(0xC010), 0xC3);
    assert_eq!(bus.read_u8(0xE010), 0xC3);
    // The echo covers up to 0xFDFF, backed by 0xDDFF.
    bus.write_u8(0xFDFF, 0x99);
    assert_eq!(bus.read_u8(0xDDFF), 0x99);
}

#[test]
fn dma_copies_160_bytes_into_sprite_table() {
    let mut bus = make_bus();
    for i in 0u16..160 {
        bus.write_u8(0xC000 + i, (i as u8).wrapping_mul(3).wrapping_add(7));
    }
    // What direct reads of the source return beforehand.
    let expected: Vec<u8> = (0u16..160).map(|i| bus.read_u8(0xC000 + i)).collect();
    bus.write_u8(0xFF46, 0xC0);
    for i in 0u16..160 {
        assert_eq!(bus.read_u8(0xFE00 + i), expected[i as usize]);
    }
}

#[test]
fn dma_reads_through_normal_bus_path() {
    // Cartridge ROM can feed the sprite table: source page 0x4000 is the
    // switchable bank.
    let mut bus = make_bus();
    bus.write_u8(0x2000, 0x05);
    let expected: Vec<u8> = (0u16..160).map(|i| bus.read_u8(0x4000 + i)).collect();
    bus.write_u8(0xFF46, 0x40);
    assert_eq!(bus.read_u8(0xFE00), 5);
    for i in 0u16..160 {
        assert_eq!(bus.read_u8(0xFE00 + i), expected[i as usize]);
    }
}

#[test]
fn boot_overlay_shadows_low_rom_until_disabled() {
    let mut bus = make_bus();
    // While enabled, reads below 0x100 come from the internal boot image.
    assert_eq!(bus.read_u8(0x0000), 0x31);
    assert_eq!(bus.read_u8(0x00FF), 0x50);
    // Addresses at and above 0x100 already read the cartridge.
    assert_eq!(bus.read_u8(0x0147), 0x03);
    // The dedicated register write disables the overlay, one-way.
    bus.write_u8(0xFF50, 0x01);
    assert_eq!(bus.read_u8(0x0000), 0x00);
    bus.write_u8(0xFF50, 0x00);
    assert_eq!(bus.read_u8(0x0000), 0x00);
}

#[test]
fn cartridge_windows_are_routed() {
    let mut bus = make_bus();
    // Register writes through the ROM window drive the mapper.
    bus.write_u8(0x2000, 0x04);
    bus.write_u8(0xFF50, 0x01);
    assert_eq!(bus.read_u8(0x4000), 4);
    // The external-RAM window is gated by the enable latch.
    bus.write_u8(0xA123, 0x66);
    assert_eq!(bus.read_u8(0xA123), 0xFF);
    bus.write_u8(0x0000, 0x0A);
    bus.write_u8(0xA123, 0x66);
    assert_eq!(bus.read_u8(0xA123), 0x66);
    bus.write_u8(0x0000, 0x00);
    assert_eq!(bus.read_u8(0xA123), 0xFF);
}

#[test]
fn vram_and_high_ram_are_routed() {
    let mut bus = make_bus();
    bus.write_u8(0x8ABC, 0x12);
    assert_eq!(bus.read_u8(0x8ABC), 0x12);
    bus.write_u8(0xFF80, 0x34);
    assert_eq!(bus.read_u8(0xFF80), 0x34);
    bus.write_u8(0xFFFE, 0x56);
    assert_eq!(bus.read_u8(0xFFFE), 0x56);
}

#[test]
fn interrupt_registers() {
    let mut bus = make_bus();
    bus.write_u8(0xFF0F, 0xAB);
    // The upper three bits of the flag register read as ones.
    assert_eq!(bus.read_u8(0xFF0F), 0xE0 | (0xAB & 0x1F));
    bus.write_u8(0xFFFF, 0x1D);
    assert_eq!(bus.read_u8(0xFFFF), 0x1D);
}

#[test]
fn unmapped_region_reads_sentinel_and_drops_writes() {
    let mut bus = make_bus();
    for addr in [0xFEA0u16, 0xFEC3, 0xFEFF] {
        bus.write_u8(addr, 0x42);
        assert_eq!(bus.read_u8(addr), 0xFF);
    }
}

#[test]
fn serial_diagnostic_sink_buffers_lines() {
    let mut bus = make_bus();
    for &b in b"Hi" {
        bus.write_u8(0xFF01, b);
    }
    assert!(bus.serial_lines.is_empty());
    bus.write_u8(0xFF01, b'\n');
    assert_eq!(bus.serial_lines.len(), 1);
    assert_eq!(bus.serial_lines[0], b"Hi".to_vec());
    assert!(bus.serial_buffer.is_empty());
    bus.write_u8(0xFF01, b'!');
    bus.write_u8(0xFF01, b'\n');
    assert_eq!(bus.serial_lines.len(), 2);
    assert_eq!(bus.serial_lines[1], b"!".to_vec());
}

#[test]
fn sixteen_bit_accesses_are_little_endian() {
    let mut bus = make_bus();
    bus.write_u16(0xC100, 0xBEEF);
    assert_eq!(bus.read_u8(0xC100), 0xEF);
    assert_eq!(bus.read_u8(0xC101), 0xBE);
    assert_eq!(bus.read_u16(0xC100), 0xBEEF);
}

#[test]
fn speed_switch_register_through_bus() {
    let mut bus = make_bus();
    // Reserved bits read as ones; single speed, nothing prepared.
    assert_eq!(bus.read_u8(0xFF4D), 0x7E);
    bus.write_u8(0xFF4D, 0x01);
    assert_eq!(bus.read_u8(0xFF4D), 0x7F);
    assert!(bus.speed.is_speed_switch_prepared());
    bus.speed.switch_speed();
    assert!(bus.speed.is_double_speed());
    assert_eq!(bus.read_u8(0xFF4D), 0xFE);
}

#[test]
fn sixteen_bit_access_at_top_of_memory() {
    let mut bus = make_bus();
    bus.write_u16(0xFFFE, 0x12EF);
    assert_eq!(bus.read_u8(0xFFFE), 0xEF);
    assert_eq!(bus.read_u8(0xFFFF), 0x12);
    assert_eq!(bus.read_u16(0xFFFE), 0x12EF);
}

#[test]
fn dma_from_sprite_table_page_is_identity() {
    let mut bus = make_bus();
    for i in 0u16..160 {
        bus.write_u8(0xFE00 + i, i as u8);
    }
    bus.write_u8(0xFF46, 0xFE);
    for i in 0u16..160 {
        assert_eq!(bus.read_u8(0xFE00 + i), i as u8);
    }
}
