use gameboy_bus::cartridge::create;
use gameboy_bus::cartridge::get_save_file_path_from_rom_path;
use gameboy_bus::cartridge::load_new_ram;
use gameboy_bus::cartridge::ram_bank_count;
use gameboy_bus::cartridge::rom_bank_count;
use gameboy_bus::cartridge::try_read_save_file;
use gameboy_bus::cartridge::Cartridge;
use gameboy_bus::cartridge::CartridgeError;
use gameboy_bus::cartridge::RamIter;
use gameboy_bus::cartridge::RtcRegisters;

/// A ROM image of `banks` 16 KiB banks whose first byte in each bank is
/// the bank index, with the given header codes.
fn make_rom(type_code: u8, rom_size_code: u8, ram_size_code: u8, banks: usize) -> Vec<u8> {
    let mut rom = vec![0u8; banks * 0x4000];
    rom[0x147] = type_code;
    rom[0x148] = rom_size_code;
    rom[0x149] = ram_size_code;
    for b in 0..banks {
        rom[b * 0x4000] = b as u8;
        rom[b * 0x4000 + 1] = (b >> 8) as u8;
    }
    rom
}

fn make_cart(type_code: u8, rom_size_code: u8, ram_size_code: u8, banks: usize) -> Cartridge {
    create("game.gb", make_rom(type_code, rom_size_code, ram_size_code, banks), None).unwrap()
}

#[test]
fn rom_size_table_defined_codes() {
    let table = [
        (0x00u8, 2u16),
        (0x01, 4),
        (0x02, 8),
        (0x03, 16),
        (0x04, 32),
        (0x05, 64),
        (0x06, 128),
        (0x07, 256),
        (0x08, 512),
        (0x09, 1024),
        (0x52, 72),
        (0x53, 80),
        (0x54, 96),
    ];
    for (code, banks) in table {
        assert_eq!(rom_bank_count(code), Some(banks));
        let cart = create("game.gb", make_rom(0x00, code, 0x00, 2), None).unwrap();
        assert_eq!(cart.num_rom_banks, banks);
    }
}

#[test]
fn rom_size_table_undefined_codes_fail() {
    for code in [0x0Au8, 0x10, 0x51, 0x55, 0xFF] {
        assert_eq!(rom_bank_count(code), None);
        let r = create("game.gb", make_rom(0x00, code, 0x00, 2), None);
        assert!(matches!(r, Err(CartridgeError::InvalidRomSizeCode(c)) if c == code));
    }
}

#[test]
fn ram_size_table() {
    let table = [(0x00u8, 0u16), (0x02, 1), (0x03, 4), (0x04, 16), (0x05, 8)];
    for (code, banks) in table {
        assert_eq!(ram_bank_count(code), Some(banks));
    }
    for code in [0x01u8, 0x06, 0xFF] {
        assert_eq!(ram_bank_count(code), None);
        let r = create("game.gb", make_rom(0x00, 0x00, code, 2), None);
        assert!(matches!(r, Err(CartridgeError::InvalidRamSizeCode(c)) if c == code));
    }
}

#[test]
fn unsupported_cartridge_type_fails() {
    for code in [0x04u8, 0x0B, 0x20, 0xFF] {
        let r = create("game.gb", make_rom(code, 0x00, 0x00, 2), None);
        assert!(matches!(r, Err(CartridgeError::UnsupportedCartridgeType(c)) if c == code));
    }
}

#[test]
fn header_scenario_mbc1_eight_banks() {
    // Controller 0x01, ROM code 0x02 (8 banks), RAM code 0x02 (1 bank).
    let cart = create("roms/mario.gb", make_rom(0x01, 0x02, 0x02, 8), None).unwrap();
    assert_eq!(cart.num_rom_banks, 8);
    assert_eq!(cart.num_ram_banks, 1);
    assert_eq!(cart.ram.len(), 8192);
    assert_eq!(cart.save_file_path().map(|s| s.as_str()), Some("roms/mario.sav"));
    // All 8 banks are addressable.
    for b in 1u8..8 {
        let mut cart = make_cart(0x01, 0x02, 0x02, 8);
        cart.write_rom(0x2000, b);
        assert_eq!(cart.read_rom(0x4000), b);
    }
}

#[test]
fn save_path_derivation() {
    assert_eq!(get_save_file_path_from_rom_path("dir/game.gb"), "dir/game.sav");
    assert_eq!(get_save_file_path_from_rom_path("game.gb"), "game.sav");
    assert_eq!(get_save_file_path_from_rom_path("game"), "game.sav");
    assert_eq!(get_save_file_path_from_rom_path("a/b/x.tar.gz"), "a/b/x.tar.sav");
    assert_eq!(get_save_file_path_from_rom_path("a/.hidden"), "a/.hidden.sav");
    assert_eq!(get_save_file_path_from_rom_path("/abs/path/rom.gbc"), "/abs/path/rom.sav");
}

#[test]
fn rom_only_cartridge() {
    let mut cart = make_cart(0x00, 0x00, 0x00, 2);
    assert_eq!(cart.read_rom(0x0000), 0);
    // Bank 1 is fixed at the switchable window.
    assert_eq!(cart.read_rom(0x4000), 1);
    // Register writes are ignored, RAM is absent.
    cart.write_rom(0x2000, 7);
    assert_eq!(cart.read_rom(0x4000), 1);
    assert!(!cart.has_ram());
    assert_eq!(cart.read_ram(0), 0xFF);
    cart.write_ram(0, 0x55);
    assert_eq!(cart.read_ram(0), 0xFF);
    assert!(cart.save_file_path().is_none());
}

#[test]
fn mbc1_bank_switching_masks_into_range() {
    let mut cart = make_cart(0x01, 0x02, 0x00, 8);
    // Bank 0 is promoted to 1.
    cart.write_rom(0x2000, 0);
    assert_eq!(cart.read_rom(0x4000), 1);
    // A request beyond the bank count wraps: 9 % 8 == 1.
    cart.write_rom(0x2000, 9);
    assert_eq!(cart.read_rom(0x4000), 1);
    // The two secondary bits extend the selector: (1 << 5 | 2) % 8 == 2.
    cart.write_rom(0x2000, 2);
    cart.write_rom(0x4000, 1);
    assert_eq!(cart.read_rom(0x4000), 2);
}

#[test]
fn mbc1_ram_enable_gate() {
    let mut cart = make_cart(0x03, 0x02, 0x02, 8);
    // Disabled RAM reads the sentinel and drops writes.
    cart.write_ram(0x10, 0x77);
    assert_eq!(cart.read_ram(0x10), 0xFF);
    // Only a low nibble of 0xA enables.
    cart.write_rom(0x0000, 0x0B);
    assert_eq!(cart.read_ram(0x10), 0xFF);
    cart.write_rom(0x0000, 0x1A);
    cart.write_ram(0x10, 0x77);
    assert_eq!(cart.read_ram(0x10), 0x77);
}

#[test]
fn ram_disabled_reads_sentinel_not_stored_byte() {
    // Write, then disable, then read: the sentinel comes back.
    let mut cart = make_cart(0x03, 0x02, 0x02, 8);
    cart.write_rom(0x0000, 0x0A);
    cart.write_ram(0x123, 0x42);
    assert_eq!(cart.read_ram(0x123), 0x42);
    cart.write_rom(0x0000, 0x00);
    assert_eq!(cart.read_ram(0x123), 0xFF);
    // The byte is still there after re-enabling.
    cart.write_rom(0x0000, 0x0A);
    assert_eq!(cart.read_ram(0x123), 0x42);
}

#[test]
fn save_round_trip_reproduces_ram() {
    let mut cart = make_cart(0x03, 0x02, 0x03, 8);
    cart.write_rom(0x0000, 0x0A);
    // RAM-banking mode, so the secondary bits select the RAM bank.
    cart.write_rom(0x6000, 0x01);
    // Write a pattern into bank 0, one byte into bank 1.
    for i in 0u16..32 {
        cart.write_ram(i, (i as u8) ^ 0xA5);
    }
    cart.write_rom(0x4000, 1);
    cart.write_ram(0, 0xEE);
    let saved: Vec<u8> = cart.iter_ram().as_slice().to_vec();
    assert_eq!(saved.len(), 4 * 8192);

    // A fresh cartridge of the same size loads it byte-identically.
    let mut fresh =
        create("game.gb", make_rom(0x03, 0x02, 0x03, 8), Some(&saved)).unwrap();
    assert_eq!(fresh.iter_ram().as_slice(), saved.as_slice());
    fresh.write_rom(0x0000, 0x0A);
    fresh.write_rom(0x6000, 0x01);
    for i in 0u16..32 {
        assert_eq!(fresh.read_ram(i), (i as u8) ^ 0xA5);
    }
    fresh.write_rom(0x4000, 1);
    assert_eq!(fresh.read_ram(0), 0xEE);
}

#[test]
fn save_wrong_length_is_ignored() {
    // One byte short of num_ram_banks * 8192: discarded whole.
    let short = vec![0xAAu8; 4 * 8192 - 1];
    let mut cart = create("game.gb", make_rom(0x03, 0x02, 0x03, 8), Some(&short)).unwrap();
    cart.write_rom(0x0000, 0x0A);
    assert_eq!(cart.read_ram(0), 0x00);
    assert!(cart.iter_ram().as_slice().iter().all(|&b| b == 0));

    let long = vec![0xAAu8; 4 * 8192 + 1];
    let cart = create("game.gb", make_rom(0x03, 0x02, 0x03, 8), Some(&long)).unwrap();
    assert!(cart.iter_ram().as_slice().iter().all(|&b| b == 0));
}

#[test]
fn load_helpers() {
    let mut ram: Vec<u8> = Vec::new();
    load_new_ram(&mut ram, 2);
    assert_eq!(ram.len(), 2 * 8192);
    assert!(ram.iter().all(|&b| b == 0));

    let save = vec![0x5Au8; 8192];
    let mut ram: Vec<u8> = Vec::new();
    try_read_save_file(Some(&save), 1, &mut ram);
    assert_eq!(ram, save);

    let mut ram: Vec<u8> = Vec::new();
    try_read_save_file(Some(&save), 2, &mut ram);
    assert_eq!(ram.len(), 2 * 8192);
    assert!(ram.iter().all(|&b| b == 0));

    let mut ram: Vec<u8> = Vec::new();
    try_read_save_file(None, 1, &mut ram);
    assert_eq!(ram.len(), 8192);
    assert!(ram.iter().all(|&b| b == 0));

    assert_eq!(RamIter::empty().as_slice().len(), 0);
}

#[test]
fn mbc2_nibble_ram() {
    let mut cart = make_cart(0x06, 0x01, 0x00, 4);
    assert!(cart.has_ram());
    assert_eq!(cart.ram.len(), 512);
    // Address bit 8 clear: RAM-enable window.
    cart.write_rom(0x0000, 0x0A);
    cart.write_ram(3, 0xAB);
    // Only the low nibble is stored; the high nibble reads as ones.
    assert_eq!(cart.read_ram(3), 0xFB);
    // The 512-byte RAM echoes through the whole window.
    assert_eq!(cart.read_ram(3 + 512), 0xFB);
    // Address bit 8 set: ROM-bank window.
    cart.write_rom(0x0100, 3);
    assert_eq!(cart.read_rom(0x4000), 3);
    cart.write_rom(0x0100, 0);
    assert_eq!(cart.read_rom(0x4000), 1);
}

#[test]
fn mbc3_rtc_latch_scenario() {
    let mut cart = make_cart(0x10, 0x02, 0x03, 8);
    cart.set_clock(RtcRegisters {
        seconds: 10,
        minutes: 20,
        hours: 3,
        day_low: 4,
        day_high: 0,
    });
    cart.write_rom(0x0000, 0x0A);
    // Select the seconds register.
    cart.write_rom(0x4000, 0x08);
    // Latch: write 0 then 1.
    cart.write_rom(0x6000, 0x00);
    cart.write_rom(0x6000, 0x01);
    assert_eq!(cart.read_ram(0), 10);
    // The live clock moves on; the latched value does not.
    cart.set_clock(RtcRegisters {
        seconds: 42,
        minutes: 21,
        hours: 3,
        day_low: 4,
        day_high: 0,
    });
    assert_eq!(cart.read_ram(0), 10);
    // Latching again captures the new value.
    cart.write_rom(0x6000, 0x00);
    cart.write_rom(0x6000, 0x01);
    assert_eq!(cart.read_ram(0), 42);
    // Minutes register reads through the same latch.
    cart.write_rom(0x4000, 0x09);
    assert_eq!(cart.read_ram(0), 21);
}

#[test]
fn mbc3_ram_banking() {
    let mut cart = make_cart(0x13, 0x02, 0x03, 8);
    cart.write_rom(0x0000, 0x0A);
    cart.write_rom(0x4000, 0x02);
    cart.write_ram(7, 0x99);
    cart.write_rom(0x4000, 0x00);
    assert_eq!(cart.read_ram(7), 0x00);
    cart.write_rom(0x4000, 0x02);
    assert_eq!(cart.read_ram(7), 0x99);
    // ROM bank select is 7 bits wide, zero promoted to one.
    cart.write_rom(0x2000, 0x00);
    assert_eq!(cart.read_rom(0x4000), 1);
    cart.write_rom(0x2000, 0x05);
    assert_eq!(cart.read_rom(0x4000), 5);
}

#[test]
fn mbc5_wide_banking() {
    let mut cart = make_cart(0x19, 0x08, 0x04, 512);
    // Low 8 bits alone.
    cart.write_rom(0x2000, 0x2A);
    assert_eq!(cart.read_rom(0x4000), 0x2A);
    assert_eq!(cart.read_rom(0x4001), 0x00);
    // Bit 8 extends the selector to 0x12A.
    cart.write_rom(0x3000, 0x01);
    assert_eq!(cart.read_rom(0x4000), 0x2A);
    assert_eq!(cart.read_rom(0x4001), 0x01);
    // Unlike the other protocols, bank 0 is selectable.
    cart.write_rom(0x3000, 0x00);
    cart.write_rom(0x2000, 0x00);
    assert_eq!(cart.read_rom(0x4000), 0);
    // 4-bit RAM banking.
    cart.write_rom(0x0000, 0x0A);
    cart.write_rom(0x4000, 0x0F);
    cart.write_ram(1, 0x31);
    cart.write_rom(0x4000, 0x00);
    assert_eq!(cart.read_ram(1), 0x00);
    cart.write_rom(0x4000, 0x0F);
    assert_eq!(cart.read_ram(1), 0x31);
}

#[test]
fn oversize_rom_codes_round_up_and_mask() {
    // 72 banks: a request of 75 resolves to 75 % 72 == 3.
    let mut cart = make_cart(0x19, 0x52, 0x00, 72);
    cart.write_rom(0x2000, 75);
    assert_eq!(cart.read_rom(0x4000), 3);
}

#[test]
fn short_image_is_zero_padded() {
    // An image shorter than the declared size reads as zeroes past its end.
    let mut rom = vec![0u8; 0x4000];
    rom[0x147] = 0x00;
    rom[0x148] = 0x00;
    rom[0x149] = 0x00;
    let cart = create("game.gb", rom, None).unwrap();
    assert_eq!(cart.read_rom(0x4000), 0);
    assert_eq!(cart.read_rom(0x7FFF), 0);
}
