//! Cartridge model: header parsing, the five bank-controller protocols,
//! banked ROM/RAM storage, and battery-backed save RAM.
//!
//! A cartridge is a closed sum over one mapper register file
//! ([`MapperState`]) plus the byte storage it banks over.  Every write into
//! the ROM window `0x0000..0x8000` is a register write that drives the
//! mapper state machine; ROM bytes themselves are never mutated.

use vstd::prelude::*;
use vstd::string::StrSliceExecFns;
use vstd::string::StringExecFns;

verus! {

/// Size of one ROM bank in bytes.
pub const ROM_BANK_SIZE: usize = 0x4000;

/// Size of one RAM bank in bytes.
pub const RAM_BANK_SIZE: usize = 0x2000;

/// The MBC2 protocol carries a fixed built-in 512 x 4-bit RAM.
pub const MBC2_RAM_SIZE: usize = 512;

/// Value returned when no enabled device drives a read (open bus).
pub const OPEN_BUS: u8 = 0xFF;

/// The fixed ROM-size table: how many 16 KiB banks (bank 0 included) each
/// defined ROM-size code declares.  Undefined codes have no entry.
pub open spec fn spec_rom_bank_count(code: u8) -> Option<u16> {
    match code {
        0x00 => Some(2u16),
        0x01 => Some(4u16),
        0x02 => Some(8u16),
        0x03 => Some(16u16),
        0x04 => Some(32u16),
        0x05 => Some(64u16),
        0x06 => Some(128u16),
        0x07 => Some(256u16),
        0x08 => Some(512u16),
        0x09 => Some(1024u16),
        0x52 => Some(72u16),
        0x53 => Some(80u16),
        0x54 => Some(96u16),
        _ => None,
    }
}

/// The fixed RAM-size table: how many 8 KiB banks each defined RAM-size
/// code declares (0 is a valid count: no save RAM).
pub open spec fn spec_ram_bank_count(code: u8) -> Option<u16> {
    match code {
        0x00 => Some(0u16),
        0x02 => Some(1u16),
        0x03 => Some(4u16),
        0x04 => Some(16u16),
        0x05 => Some(8u16),
        _ => None,
    }
}

/// Looks up the ROM-size code in the fixed bank table.
pub fn rom_bank_count(code: u8) -> (r: Option<u16>)
    ensures
        r == spec_rom_bank_count(code),
{
    match code {
        0x00 => Some(2),
        0x01 => Some(4),
        0x02 => Some(8),
        0x03 => Some(16),
        0x04 => Some(32),
        0x05 => Some(64),
        0x06 => Some(128),
        0x07 => Some(256),
        0x08 => Some(512),
        0x09 => Some(1024),
        0x52 => Some(72),
        0x53 => Some(80),
        0x54 => Some(96),
        _ => None,
    }
}

/// Looks up the RAM-size code in the fixed bank table.
pub fn ram_bank_count(code: u8) -> (r: Option<u16>)
    ensures
        r == spec_ram_bank_count(code),
{
    match code {
        0x00 => Some(0),
        0x02 => Some(1),
        0x03 => Some(4),
        0x04 => Some(16),
        0x05 => Some(8),
        _ => None,
    }
}

/// The four header bytes this core reads, parsed once from the first bank
/// of the cartridge image and immutable afterwards.
#[derive(Clone, Copy, PartialEq, Eq, Structural, Debug)]
pub struct CartridgeHeader {
    pub cgb_flag: u8,
    pub cartridge_type_code: u8,
    pub rom_size_code: u8,
    pub ram_size_code: u8,
}

/// Byte `i` of an image, reading past the end as zero (the loader pads a
/// short image with zeroes).
pub open spec fn spec_byte_at(image: Seq<u8>, i: int) -> u8 {
    if 0 <= i < image.len() {
        image[i]
    } else {
        0u8
    }
}

pub open spec fn spec_parsed_header(image: Seq<u8>) -> CartridgeHeader {
    CartridgeHeader {
        cgb_flag: spec_byte_at(image, 0x143),
        cartridge_type_code: spec_byte_at(image, 0x147),
        rom_size_code: spec_byte_at(image, 0x148),
        ram_size_code: spec_byte_at(image, 0x149),
    }
}

/// Reads the CGB flag, controller-type code, ROM-size code and RAM-size
/// code from their fixed offsets in the image.
pub fn parse_header(image: &Vec<u8>) -> (h: CartridgeHeader)
    ensures
        h == spec_parsed_header(image@),
{
    CartridgeHeader {
        cgb_flag: byte_at(image, 0x143),
        cartridge_type_code: byte_at(image, 0x147),
        rom_size_code: byte_at(image, 0x148),
        ram_size_code: byte_at(image, 0x149),
    }
}

fn byte_at(image: &Vec<u8>, i: usize) -> (b: u8)
    ensures
        b == spec_byte_at(image@, i as int),
{
    if i < image.len() {
        image[i]
    } else {
        0
    }
}

/// The real-time-clock register set of the RTC-augmented protocol.
#[derive(Clone, Copy, PartialEq, Eq, Structural, Debug)]
pub struct RtcRegisters {
    pub seconds: u8,
    pub minutes: u8,
    pub hours: u8,
    pub day_low: u8,
    pub day_high: u8,
}

impl RtcRegisters {
    pub fn zeroed() -> (r: RtcRegisters)
        ensures
            r == spec_rtc_zeroed(),
    {
        RtcRegisters { seconds: 0, minutes: 0, hours: 0, day_low: 0, day_high: 0 }
    }
}

pub open spec fn spec_rtc_zeroed() -> RtcRegisters {
    RtcRegisters { seconds: 0u8, minutes: 0u8, hours: 0u8, day_low: 0u8, day_high: 0u8 }
}

/// The variant-specific register file of each bank-controller protocol.
/// All fields are driven only by writes into the controller's designated
/// address windows.
#[derive(Clone, Copy, PartialEq, Eq, Structural, Debug)]
pub enum MapperState {
    /// No controller: bank 1 is fixed at `0x4000..0x8000`, no RAM.
    RomOnly,
    /// 5-bit ROM bank, 2-bit secondary bank, banking-mode flag.
    Mbc1 { ram_enabled: bool, bank_low5: u8, bank2: u8, ram_banking_mode: bool },
    /// 4-bit ROM bank and a built-in 512 x 4-bit RAM.
    Mbc2 { ram_enabled: bool, rom_bank: u8 },
    /// 7-bit ROM bank, RAM-bank / RTC-register select, RTC latch flip-flop.
    Mbc3 {
        ram_enabled: bool,
        rom_bank: u8,
        ram_rtc_select: u8,
        latch_prev: u8,
        clock: RtcRegisters,
        latched: RtcRegisters,
    },
    /// 9-bit ROM bank and 4-bit RAM bank.
    Mbc5 { ram_enabled: bool, rom_bank_low8: u8, rom_bank_high1: u8, ram_bank: u8 },
}

impl MapperState {
    /// Field ranges every reachable register file satisfies.
    pub open spec fn wf(self) -> bool {
        match self {
            MapperState::RomOnly => true,
            MapperState::Mbc1 { bank_low5, bank2, .. } => 1 <= bank_low5 < 32 && bank2 < 4,
            MapperState::Mbc2 { rom_bank, .. } => 1 <= rom_bank < 16,
            MapperState::Mbc3 { rom_bank, .. } => 1 <= rom_bank < 128,
            MapperState::Mbc5 { rom_bank_high1, ram_bank, .. } => rom_bank_high1 <= 1 && ram_bank
                < 16,
        }
    }
}

/// Whether the RAM-enable latch is set (the ROM-only variant has none).
pub open spec fn spec_ram_enabled(m: MapperState) -> bool {
    match m {
        MapperState::RomOnly => false,
        MapperState::Mbc1 { ram_enabled, .. } => ram_enabled,
        MapperState::Mbc2 { ram_enabled, .. } => ram_enabled,
        MapperState::Mbc3 { ram_enabled, .. } => ram_enabled,
        MapperState::Mbc5 { ram_enabled, .. } => ram_enabled,
    }
}

/// The abstract value of a [`Cartridge`]: the same state with the byte
/// storage as mathematical sequences.
#[verifier::ext_equal]
pub ghost struct CartridgeModel {
    pub header: CartridgeHeader,
    pub num_rom_banks: u16,
    pub num_ram_banks: u16,
    pub rom: Seq<u8>,
    pub ram: Seq<u8>,
    pub save_path: Option<Seq<char>>,
    pub mapper: MapperState,
}

impl CartridgeModel {
    /// Length the RAM storage must have: the built-in 512 bytes for the
    /// MBC2 protocol, the declared bank count times 8 KiB otherwise.
    pub open spec fn spec_ram_len(self) -> int {
        if self.mapper is Mbc2 {
            MBC2_RAM_SIZE as int
        } else {
            self.num_ram_banks as int * RAM_BANK_SIZE as int
        }
    }

    /// Cartridge invariant: the bank counts agree with the header's size
    /// codes, the storage has exactly the declared size, and the mapper
    /// registers are in range.
    pub open spec fn inv(self) -> bool {
        &&& spec_rom_bank_count(self.header.rom_size_code) == Some(self.num_rom_banks)
        &&& (self.mapper is Mbc2 || spec_ram_bank_count(self.header.ram_size_code) == Some(
            self.num_ram_banks,
        ))
        &&& 2 <= self.num_rom_banks
        &&& self.rom.len() == self.num_rom_banks as int * ROM_BANK_SIZE as int
        &&& self.ram.len() == self.spec_ram_len()
        &&& self.mapper.wf()
    }

    /// The ROM bank resolved for the switchable window `0x4000..0x8000`:
    /// the selector the mapper registers encode, reduced into
    /// `[0, num_rom_banks)`.
    pub open spec fn spec_rom_bank(self) -> int {
        let n = self.num_rom_banks as int;
        match self.mapper {
            MapperState::RomOnly => 1int % n,
            MapperState::Mbc1 { bank_low5, bank2, .. } => (bank2 as int * 32 + bank_low5 as int)
                % n,
            MapperState::Mbc2 { rom_bank, .. } => rom_bank as int % n,
            MapperState::Mbc3 { rom_bank, .. } => rom_bank as int % n,
            MapperState::Mbc5 { rom_bank_low8, rom_bank_high1, .. } => (rom_bank_high1 as int * 256
                + rom_bank_low8 as int) % n,
        }
    }

    /// The RAM bank resolved for the external-RAM window, reduced into
    /// `[0, num_ram_banks)`; 0 whenever the protocol has a single bank.
    pub open spec fn spec_ram_bank(self) -> int {
        let n = self.num_ram_banks as int;
        match self.mapper {
            MapperState::RomOnly => 0,
            MapperState::Mbc1 { bank2, ram_banking_mode, .. } => if ram_banking_mode && n > 0 {
                bank2 as int % n
            } else {
                0
            },
            MapperState::Mbc2 { .. } => 0,
            MapperState::Mbc3 { ram_rtc_select, .. } => if n > 0 {
                ram_rtc_select as int % n
            } else {
                0
            },
            MapperState::Mbc5 { ram_bank, .. } => if n > 0 {
                ram_bank as int % n
            } else {
                0
            },
        }
    }

    /// What a read of ROM address `addr` (below `0x8000`) returns: bank 0
    /// below `0x4000`, the resolved switchable bank above.
    pub open spec fn spec_read_rom(self, addr: u16) -> u8 {
        if addr < 0x4000 {
            self.rom[addr as int]
        } else {
            self.rom[self.spec_rom_bank() * ROM_BANK_SIZE as int + (addr - 0x4000)]
        }
    }

    /// What a read of external-RAM offset `addr` (below `0x2000`) returns.
    /// A disabled or absent RAM reads as the open-bus sentinel; the MBC2
    /// protocol returns only the stored low nibble with the high nibble
    /// set; an RTC register select returns the latched clock register.
    pub open spec fn spec_read_ram(self, addr: u16) -> u8 {
        match self.mapper {
            MapperState::RomOnly => OPEN_BUS,
            MapperState::Mbc1 { ram_enabled, .. } => if ram_enabled && self.num_ram_banks > 0 {
                self.ram[self.spec_ram_bank() * RAM_BANK_SIZE as int + addr as int]
            } else {
                OPEN_BUS
            },
            MapperState::Mbc2 { ram_enabled, .. } => if ram_enabled {
                (self.ram[addr as int % MBC2_RAM_SIZE as int] & 0x0F) | 0xF0
            } else {
                OPEN_BUS
            },
            MapperState::Mbc3 { ram_enabled, ram_rtc_select, latched, .. } => if !ram_enabled {
                OPEN_BUS
            } else if ram_rtc_select <= 3 {
                if self.num_ram_banks > 0 {
                    self.ram[self.spec_ram_bank() * RAM_BANK_SIZE as int + addr as int]
                } else {
                    OPEN_BUS
                }
            } else if 0x08 <= ram_rtc_select <= 0x0C {
                spec_rtc_reg(latched, ram_rtc_select)
            } else {
                OPEN_BUS
            },
            MapperState::Mbc5 { ram_enabled, .. } => if ram_enabled && self.num_ram_banks > 0 {
                self.ram[self.spec_ram_bank() * RAM_BANK_SIZE as int + addr as int]
            } else {
                OPEN_BUS
            },
        }
    }
}

/// The RTC register a select value in `0x08..=0x0C` addresses.
pub open spec fn spec_rtc_reg(r: RtcRegisters, sel: u8) -> u8 {
    if sel == 0x08 {
        r.seconds
    } else if sel == 0x09 {
        r.minutes
    } else if sel == 0x0A {
        r.hours
    } else if sel == 0x0B {
        r.day_low
    } else {
        r.day_high
    }
}

/// A cartridge: the parsed header, the banked ROM/RAM storage, the derived
/// save-file path, and the mapper register file.
pub struct Cartridge {
    pub header: CartridgeHeader,
    pub num_rom_banks: u16,
    pub num_ram_banks: u16,
    pub rom: Vec<u8>,
    pub ram: Vec<u8>,
    pub save_path: Option<String>,
    pub mapper: MapperState,
}

impl View for Cartridge {
    type V = CartridgeModel;

    open spec fn view(&self) -> CartridgeModel {
        CartridgeModel {
            header: self.header,
            num_rom_banks: self.num_rom_banks,
            num_ram_banks: self.num_ram_banks,
            rom: self.rom@,
            ram: self.ram@,
            save_path: match self.save_path {
                Some(p) => Some(p@),
                None => None,
            },
            mapper: self.mapper,
        }
    }
}

impl Cartridge {
    /// Exec-level alias of the model invariant.
    pub open spec fn wf(self) -> bool {
        self@.inv()
    }

    /// The ROM bank currently mapped at `0x4000..0x8000`, always in
    /// `[0, num_rom_banks)`.
    pub fn current_rom_bank(&self) -> (b: usize)
        requires
            self.wf(),
        ensures
            b as int == self@.spec_rom_bank(),
            b < self.num_rom_banks,
    {
        let n = self.num_rom_banks as usize;
        match self.mapper {
            MapperState::RomOnly => 1 % n,
            MapperState::Mbc1 { bank_low5, bank2, .. } => ((bank2 as usize) * 32 + (
            bank_low5 as usize)) % n,
            MapperState::Mbc2 { rom_bank, .. } => (rom_bank as usize) % n,
            MapperState::Mbc3 { rom_bank, .. } => (rom_bank as usize) % n,
            MapperState::Mbc5 { rom_bank_low8, rom_bank_high1, .. } => ((rom_bank_high1 as usize)
                * 256 + (rom_bank_low8 as usize)) % n,
        }
    }

    /// The RAM bank currently mapped at the external-RAM window, always in
    /// `[0, num_ram_banks)` when RAM is present.
    pub fn current_ram_bank(&self) -> (b: usize)
        requires
            self.wf(),
            self.num_ram_banks > 0,
        ensures
            b as int == self@.spec_ram_bank(),
            b < self.num_ram_banks,
    {
        let n = self.num_ram_banks as usize;
        match self.mapper {
            MapperState::RomOnly => 0,
            MapperState::Mbc1 { bank2, ram_banking_mode, .. } => if ram_banking_mode {
                (bank2 as usize) % n
            } else {
                0
            },
            MapperState::Mbc2 { .. } => 0,
            MapperState::Mbc3 { ram_rtc_select, .. } => (ram_rtc_select as usize) % n,
            MapperState::Mbc5 { ram_bank, .. } => (ram_bank as usize) % n,
        }
    }

    /// Reads cartridge ROM.  `addr` is the bus address, below `0x8000`.
    pub fn read_rom(&self, addr: u16) -> (r: u8)
        requires
            self.wf(),
            addr < 0x8000,
        ensures
            r == self@.spec_read_rom(addr),
    {
        if addr < 0x4000 {
            self.rom[addr as usize]
        } else {
            let bank = self.current_rom_bank();
            assert(bank * ROM_BANK_SIZE + (addr - 0x4000) < self.rom@.len()) by {
                assert(bank as int * ROM_BANK_SIZE as int <= (self.num_rom_banks as int - 1)
                    * ROM_BANK_SIZE as int) by (nonlinear_arith)
                    requires
                        bank as int <= self.num_rom_banks as int - 1,
                ;
            }
            self.rom[bank * ROM_BANK_SIZE + (addr as usize - 0x4000)]
        }
    }

    /// Reads external cartridge RAM.  `addr` is the offset into the RAM
    /// window, below `0x2000`.
    pub fn read_ram(&self, addr: u16) -> (r: u8)
        requires
            self.wf(),
            addr < 0x2000,
        ensures
            r == self@.spec_read_ram(addr),
    {
        match self.mapper {
            MapperState::RomOnly => OPEN_BUS,
            MapperState::Mbc1 { ram_enabled, .. } => {
                if ram_enabled && self.num_ram_banks > 0 {
                    let bank = self.current_ram_bank();
                    self.ram[self.checked_ram_index(bank, addr)]
                } else {
                    OPEN_BUS
                }
            },
            MapperState::Mbc2 { ram_enabled, .. } => {
                if ram_enabled {
                    (self.ram[(addr as usize) % MBC2_RAM_SIZE] & 0x0F) | 0xF0
                } else {
                    OPEN_BUS
                }
            },
            MapperState::Mbc3 { ram_enabled, ram_rtc_select, latched, .. } => {
                if !ram_enabled {
                    OPEN_BUS
                } else if ram_rtc_select <= 3 {
                    if self.num_ram_banks > 0 {
                        let bank = self.current_ram_bank();
                        self.ram[self.checked_ram_index(bank, addr)]
                    } else {
                        OPEN_BUS
                    }
                } else if 0x08 <= ram_rtc_select && ram_rtc_select <= 0x0C {
                    rtc_reg(&latched, ram_rtc_select)
                } else {
                    OPEN_BUS
                }
            },
            MapperState::Mbc5 { ram_enabled, .. } => {
                if ram_enabled && self.num_ram_banks > 0 {
                    let bank = self.current_ram_bank();
                    self.ram[self.checked_ram_index(bank, addr)]
                } else {
                    OPEN_BUS
                }
            },
        }
    }

    /// Flat index of `addr` within the selected RAM bank, shown in bounds.
    fn checked_ram_index(&self, bank: usize, addr: u16) -> (i: usize)
        requires
            self.wf(),
            !(self@.mapper is Mbc2),
            bank < self.num_ram_banks,
            addr < 0x2000,
        ensures
            i == bank * RAM_BANK_SIZE as int + addr as int,
            i < self.ram@.len(),
    {
        assert(bank * RAM_BANK_SIZE + addr < self.num_ram_banks as int * RAM_BANK_SIZE as int) by {
            assert(bank as int * RAM_BANK_SIZE as int <= (self.num_ram_banks as int - 1)
                * RAM_BANK_SIZE as int) by (nonlinear_arith)
                requires
                    bank as int <= self.num_ram_banks as int - 1,
            ;
        }
        bank * RAM_BANK_SIZE + addr as usize
    }
}

/// A masked bank field is always in range; one proof serves every window.
proof fn lemma_mask_bounds(v: u8)
    ensures
        v & 0x01 < 2,
        v & 0x03 < 4,
        v & 0x0F < 16,
        v & 0x1F < 32,
        v & 0x7F < 128,
{
    assert(v & 0x01 < 2 && v & 0x03 < 4 && v & 0x0F < 16 && v & 0x1F < 32 && v & 0x7F < 128)
        by (bit_vector);
}

/// A 5-bit bank select with zero promoted to one.
pub open spec fn spec_low5_or_one(val: u8) -> u8 {
    if val & 0x1F == 0 {
        1u8
    } else {
        val & 0x1F
    }
}

/// A 4-bit bank select with zero promoted to one.
pub open spec fn spec_low4_or_one(val: u8) -> u8 {
    if val & 0x0F == 0 {
        1u8
    } else {
        val & 0x0F
    }
}

/// A 7-bit bank select with zero promoted to one.
pub open spec fn spec_low7_or_one(val: u8) -> u8 {
    if val & 0x7F == 0 {
        1u8
    } else {
        val & 0x7F
    }
}

/// The register file after a write into the ROM window `0x0000..0x8000`.
/// Writes to windows a protocol does not implement are accepted and
/// ignored.
pub open spec fn spec_mapper_after_rom_write(m: MapperState, addr: u16, val: u8) -> MapperState {
    match m {
        MapperState::RomOnly => m,
        MapperState::Mbc1 { ram_enabled, bank_low5, bank2, ram_banking_mode } => {
            if addr < 0x2000 {
                MapperState::Mbc1 {
                    ram_enabled: val & 0x0F == 0x0A,
                    bank_low5,
                    bank2,
                    ram_banking_mode,
                }
            } else if addr < 0x4000 {
                MapperState::Mbc1 {
                    ram_enabled,
                    bank_low5: spec_low5_or_one(val),
                    bank2,
                    ram_banking_mode,
                }
            } else if addr < 0x6000 {
                MapperState::Mbc1 { ram_enabled, bank_low5, bank2: val & 0x03, ram_banking_mode }
            } else {
                MapperState::Mbc1 {
                    ram_enabled,
                    bank_low5,
                    bank2,
                    ram_banking_mode: val & 0x01 == 1,
                }
            }
        },
        MapperState::Mbc2 { ram_enabled, rom_bank } => {
            if addr < 0x4000 {
                if addr & 0x0100 == 0 {
                    MapperState::Mbc2 { ram_enabled: val & 0x0F == 0x0A, rom_bank }
                } else {
                    MapperState::Mbc2 { ram_enabled, rom_bank: spec_low4_or_one(val) }
                }
            } else {
                m
            }
        },
        MapperState::Mbc3 { ram_enabled, rom_bank, ram_rtc_select, latch_prev, clock, latched } => {
            if addr < 0x2000 {
                MapperState::Mbc3 {
                    ram_enabled: val & 0x0F == 0x0A,
                    rom_bank,
                    ram_rtc_select,
                    latch_prev,
                    clock,
                    latched,
                }
            } else if addr < 0x4000 {
                MapperState::Mbc3 {
                    ram_enabled,
                    rom_bank: spec_low7_or_one(val),
                    ram_rtc_select,
                    latch_prev,
                    clock,
                    latched,
                }
            } else if addr < 0x6000 {
                MapperState::Mbc3 {
                    ram_enabled,
                    rom_bank,
                    ram_rtc_select: val,
                    latch_prev,
                    clock,
                    latched,
                }
            } else {
                MapperState::Mbc3 {
                    ram_enabled,
                    rom_bank,
                    ram_rtc_select,
                    latch_prev: val,
                    clock,
                    latched: if latch_prev == 0 && val == 1 {
                        clock
                    } else {
                        latched
                    },
                }
            }
        },
        MapperState::Mbc5 { ram_enabled, rom_bank_low8, rom_bank_high1, ram_bank } => {
            if addr < 0x2000 {
                MapperState::Mbc5 {
                    ram_enabled: val & 0x0F == 0x0A,
                    rom_bank_low8,
                    rom_bank_high1,
                    ram_bank,
                }
            } else if addr < 0x3000 {
                MapperState::Mbc5 { ram_enabled, rom_bank_low8: val, rom_bank_high1, ram_bank }
            } else if addr < 0x4000 {
                MapperState::Mbc5 {
                    ram_enabled,
                    rom_bank_low8,
                    rom_bank_high1: val & 0x01,
                    ram_bank,
                }
            } else if addr < 0x6000 {
                MapperState::Mbc5 { ram_enabled, rom_bank_low8, rom_bank_high1, ram_bank: val
                    & 0x0F }
            } else {
                m
            }
        },
    }
}

/// The whole cartridge after a register write: only the mapper changes.
pub open spec fn spec_cart_after_rom_write(m: CartridgeModel, addr: u16, val: u8) -> CartridgeModel {
    CartridgeModel { mapper: spec_mapper_after_rom_write(m.mapper, addr, val), ..m }
}

/// The RAM storage after a write into the external-RAM window.  Disabled
/// or absent RAM drops the write; the MBC2 protocol stores only the low
/// nibble into its 512-entry RAM; an RTC register select leaves the byte
/// storage unchanged.
pub open spec fn spec_ram_after_ram_write(m: CartridgeModel, addr: u16, val: u8) -> Seq<u8> {
    match m.mapper {
        MapperState::RomOnly => m.ram,
        MapperState::Mbc1 { ram_enabled, .. } => if ram_enabled && m.num_ram_banks > 0 {
            m.ram.update(m.spec_ram_bank() * RAM_BANK_SIZE as int + addr as int, val)
        } else {
            m.ram
        },
        MapperState::Mbc2 { ram_enabled, .. } => if ram_enabled {
            m.ram.update(addr as int % MBC2_RAM_SIZE as int, val & 0x0F)
        } else {
            m.ram
        },
        MapperState::Mbc3 { ram_enabled, ram_rtc_select, .. } => if ram_enabled && ram_rtc_select
            <= 3 && m.num_ram_banks > 0 {
            m.ram.update(m.spec_ram_bank() * RAM_BANK_SIZE as int + addr as int, val)
        } else {
            m.ram
        },
        MapperState::Mbc5 { ram_enabled, .. } => if ram_enabled && m.num_ram_banks > 0 {
            m.ram.update(m.spec_ram_bank() * RAM_BANK_SIZE as int + addr as int, val)
        } else {
            m.ram
        },
    }
}

/// The RTC register file with the selected register replaced.
pub open spec fn spec_rtc_with(r: RtcRegisters, sel: u8, val: u8) -> RtcRegisters {
    if sel == 0x08 {
        RtcRegisters { seconds: val, ..r }
    } else if sel == 0x09 {
        RtcRegisters { minutes: val, ..r }
    } else if sel == 0x0A {
        RtcRegisters { hours: val, ..r }
    } else if sel == 0x0B {
        RtcRegisters { day_low: val, ..r }
    } else {
        RtcRegisters { day_high: val, ..r }
    }
}

/// The register file after a write into the external-RAM window: only an
/// enabled RTC register select changes it (the write lands in the live
/// clock register).
pub open spec fn spec_mapper_after_ram_write(m: CartridgeModel, addr: u16, val: u8) -> MapperState {
    match m.mapper {
        MapperState::Mbc3 { ram_enabled, rom_bank, ram_rtc_select, latch_prev, clock, latched } => {
            if ram_enabled && 0x08 <= ram_rtc_select <= 0x0C {
                MapperState::Mbc3 {
                    ram_enabled,
                    rom_bank,
                    ram_rtc_select,
                    latch_prev,
                    clock: spec_rtc_with(clock, ram_rtc_select, val),
                    latched,
                }
            } else {
                m.mapper
            }
        },
        _ => m.mapper,
    }
}

/// The whole cartridge after a RAM write: only the byte storage and (for
/// an RTC write) the mapper change.
pub open spec fn spec_cart_after_ram_write(m: CartridgeModel, addr: u16, val: u8) -> CartridgeModel {
    CartridgeModel {
        ram: spec_ram_after_ram_write(m, addr, val),
        mapper: spec_mapper_after_ram_write(m, addr, val),
        ..m
    }
}

impl Cartridge {
    /// A write into the ROM window: interpreted as a register write that
    /// drives the mapper state machine; ROM content is never mutated.
    pub fn write_rom(&mut self, addr: u16, val: u8)
        requires
            old(self).wf(),
            addr < 0x8000,
        ensures
            final(self)@ == spec_cart_after_rom_write(old(self)@, addr, val),
            final(self).wf(),
    {
        proof {
            lemma_mask_bounds(val);
        }
        let m = self.mapper;
        self.mapper = match m {
            MapperState::RomOnly => m,
            MapperState::Mbc1 { ram_enabled, bank_low5, bank2, ram_banking_mode } => {
                if addr < 0x2000 {
                    MapperState::Mbc1 {
                        ram_enabled: val & 0x0F == 0x0A,
                        bank_low5,
                        bank2,
                        ram_banking_mode,
                    }
                } else if addr < 0x4000 {
                    let low5 = val & 0x1F;
                    MapperState::Mbc1 {
                        ram_enabled,
                        bank_low5: if low5 == 0 {
                            1
                        } else {
                            low5
                        },
                        bank2,
                        ram_banking_mode,
                    }
                } else if addr < 0x6000 {
                    MapperState::Mbc1 {
                        ram_enabled,
                        bank_low5,
                        bank2: val & 0x03,
                        ram_banking_mode,
                    }
                } else {
                    MapperState::Mbc1 {
                        ram_enabled,
                        bank_low5,
                        bank2,
                        ram_banking_mode: val & 0x01 == 1,
                    }
                }
            },
            MapperState::Mbc2 { ram_enabled, rom_bank } => {
                if addr < 0x4000 {
                    if addr & 0x0100 == 0 {
                        MapperState::Mbc2 { ram_enabled: val & 0x0F == 0x0A, rom_bank }
                    } else {
                        let low4 = val & 0x0F;
                        MapperState::Mbc2 {
                            ram_enabled,
                            rom_bank: if low4 == 0 {
                                1
                            } else {
                                low4
                            },
                        }
                    }
                } else {
                    m
                }
            },
            MapperState::Mbc3 {
                ram_enabled,
                rom_bank,
                ram_rtc_select,
                latch_prev,
                clock,
                latched,
            } => {
                if addr < 0x2000 {
                    MapperState::Mbc3 {
                        ram_enabled: val & 0x0F == 0x0A,
                        rom_bank,
                        ram_rtc_select,
                        latch_prev,
                        clock,
                        latched,
                    }
                } else if addr < 0x4000 {
                    let low7 = val & 0x7F;
                    MapperState::Mbc3 {
                        ram_enabled,
                        rom_bank: if low7 == 0 {
                            1
                        } else {
                            low7
                        },
                        ram_rtc_select,
                        latch_prev,
                        clock,
                        latched,
                    }
                } else if addr < 0x6000 {
                    MapperState::Mbc3 {
                        ram_enabled,
                        rom_bank,
                        ram_rtc_select: val,
                        latch_prev,
                        clock,
                        latched,
                    }
                } else {
                    MapperState::Mbc3 {
                        ram_enabled,
                        rom_bank,
                        ram_rtc_select,
                        latch_prev: val,
                        clock,
                        latched: if latch_prev == 0 && val == 1 {
                            clock
                        } else {
                            latched
                        },
                    }
                }
            },
            MapperState::Mbc5 { ram_enabled, rom_bank_low8, rom_bank_high1, ram_bank } => {
                if addr < 0x2000 {
                    MapperState::Mbc5 {
                        ram_enabled: val & 0x0F == 0x0A,
                        rom_bank_low8,
                        rom_bank_high1,
                        ram_bank,
                    }
                } else if addr < 0x3000 {
                    MapperState::Mbc5 { ram_enabled, rom_bank_low8: val, rom_bank_high1, ram_bank }
                } else if addr < 0x4000 {
                    MapperState::Mbc5 {
                        ram_enabled,
                        rom_bank_low8,
                        rom_bank_high1: val & 0x01,
                        ram_bank,
                    }
                } else if addr < 0x6000 {
                    MapperState::Mbc5 {
                        ram_enabled,
                        rom_bank_low8,
                        rom_bank_high1,
                        ram_bank: val & 0x0F,
                    }
                } else {
                    m
                }
            },
        };
    }

    /// A write into the external-RAM window: stores into the selected RAM
    /// bank, or into the selected live RTC register, or is dropped when
    /// RAM is disabled or absent.
    pub fn write_ram(&mut self, addr: u16, val: u8)
        requires
            old(self).wf(),
            addr < 0x2000,
        ensures
            final(self)@ == spec_cart_after_ram_write(old(self)@, addr, val),
            final(self).wf(),
    {
        match self.mapper {
            MapperState::RomOnly => {},
            MapperState::Mbc1 { ram_enabled, .. } => {
                if ram_enabled && self.num_ram_banks > 0 {
                    let bank = self.current_ram_bank();
                    let i = self.checked_ram_index(bank, addr);
                    self.ram[i] = val;
                }
            },
            MapperState::Mbc2 { ram_enabled, .. } => {
                if ram_enabled {
                    let i = (addr as usize) % MBC2_RAM_SIZE;
                    self.ram[i] = val & 0x0F;
                }
            },
            MapperState::Mbc3 { ram_enabled, rom_bank, ram_rtc_select, latch_prev, clock, latched
            } => {
                if ram_enabled {
                    if ram_rtc_select <= 3 {
                        if self.num_ram_banks > 0 {
                            let bank = self.current_ram_bank();
                            let i = self.checked_ram_index(bank, addr);
                            self.ram[i] = val;
                        }
                    } else if 0x08 <= ram_rtc_select && ram_rtc_select <= 0x0C {
                        self.mapper = MapperState::Mbc3 {
                            ram_enabled,
                            rom_bank,
                            ram_rtc_select,
                            latch_prev,
                            clock: rtc_with(&clock, ram_rtc_select, val),
                            latched,
                        };
                    }
                }
            },
            MapperState::Mbc5 { ram_enabled, .. } => {
                if ram_enabled && self.num_ram_banks > 0 {
                    let bank = self.current_ram_bank();
                    let i = self.checked_ram_index(bank, addr);
                    self.ram[i] = val;
                }
            },
        }
    }

    /// Replaces the live RTC clock registers.  The core has no timing
    /// behavior of its own: the host supplies the running clock value.
    /// Protocols without an RTC ignore the call.
    pub fn set_clock(&mut self, clock: RtcRegisters)
        requires
            old(self).wf(),
        ensures
            final(self)@ == (CartridgeModel {
                mapper: spec_mapper_with_clock(old(self)@.mapper, clock),
                ..old(self)@
            }),
            final(self).wf(),
    {
        let m = self.mapper;
        self.mapper = match m {
            MapperState::Mbc3 { ram_enabled, rom_bank, ram_rtc_select, latch_prev, latched, .. } => {
                MapperState::Mbc3 {
                    ram_enabled,
                    rom_bank,
                    ram_rtc_select,
                    latch_prev,
                    clock,
                    latched,
                }
            },
            _ => m,
        };
    }
}

/// The register file with the live clock replaced (RTC protocol only).
pub open spec fn spec_mapper_with_clock(m: MapperState, clock: RtcRegisters) -> MapperState {
    match m {
        MapperState::Mbc3 { ram_enabled, rom_bank, ram_rtc_select, latch_prev, latched, .. } => {
            MapperState::Mbc3 { ram_enabled, rom_bank, ram_rtc_select, latch_prev, clock, latched }
        },
        _ => m,
    }
}

/// The RTC register file with the selected register replaced.
fn rtc_with(r: &RtcRegisters, sel: u8, val: u8) -> (out: RtcRegisters)
    requires
        0x08 <= sel <= 0x0C,
    ensures
        out == spec_rtc_with(*r, sel, val),
{
    let mut out = *r;
    if sel == 0x08 {
        out.seconds = val;
    } else if sel == 0x09 {
        out.minutes = val;
    } else if sel == 0x0A {
        out.hours = val;
    } else if sel == 0x0B {
        out.day_low = val;
    } else {
        out.day_high = val;
    }
    out
}

/// Reads the RTC register a select value in `0x08..=0x0C` addresses.
fn rtc_reg(r: &RtcRegisters, sel: u8) -> (v: u8)
    requires
        0x08 <= sel <= 0x0C,
    ensures
        v == spec_rtc_reg(*r, sel),
{
    if sel == 0x08 {
        r.seconds
    } else if sel == 0x09 {
        r.minutes
    } else if sel == 0x0A {
        r.hours
    } else if sel == 0x0B {
        r.day_low
    } else {
        r.day_high
    }
}

/// A sequence of `n` zero bytes: the content of freshly allocated RAM.
pub open spec fn zero_bytes(n: int) -> Seq<u8> {
    Seq::new(n as nat, |i: int| 0u8)
}

/// What RAM holds after construction: the save bytes when their length
/// matches exactly, zeroed RAM otherwise.  A mismatched save is never
/// partially loaded.
pub open spec fn spec_loaded_ram(save: Option<Seq<u8>>, expected: int) -> Seq<u8> {
    match save {
        Some(s) => if s.len() == expected {
            s
        } else {
            zero_bytes(expected)
        },
        None => zero_bytes(expected),
    }
}

/// The bytes of an optional save-file buffer.
pub open spec fn spec_opt_bytes(o: Option<&Vec<u8>>) -> Option<Seq<u8>> {
    match o {
        Some(b) => Some(b@),
        None => None,
    }
}

/// Appends `num_ram_banks` zeroed 8 KiB banks: blank memory for a
/// cartridge with no usable save file.
pub fn load_new_ram(ram_banks: &mut Vec<u8>, num_ram_banks: u16)
    ensures
        final(ram_banks)@ == old(ram_banks)@ + zero_bytes(num_ram_banks as int
            * RAM_BANK_SIZE as int),
{
    let target: usize = (num_ram_banks as usize) * RAM_BANK_SIZE;
    push_zeros(ram_banks, target);
}

pub(crate) fn push_zeros(v: &mut Vec<u8>, count: usize)
    ensures
        final(v)@ == old(v)@ + zero_bytes(count as int),
{
    let mut i: usize = 0;
    while i < count
        invariant
            i <= count,
            v@.len() == old(v)@.len() + i,
            v@ == old(v)@ + zero_bytes(i as int),
        decreases count - i,
    {
        v.push(0u8);
        proof {
            assert(v@ =~= old(v)@ + zero_bytes(i as int + 1));
        }
        i = i + 1;
    }
}

/// Loads RAM from an optional save-file buffer.  The buffer is copied
/// whole when its length equals `num_ram_banks * 8192`; any other length
/// is ignored and the appended banks stay zeroed.
pub fn try_read_save_file(save_data: Option<&Vec<u8>>, num_ram_banks: u16, ram_banks: &mut Vec<u8>)
    ensures
        final(ram_banks)@ == old(ram_banks)@ + spec_loaded_ram(
            spec_opt_bytes(save_data),
            num_ram_banks as int * RAM_BANK_SIZE as int,
        ),
{
    let target: usize = (num_ram_banks as usize) * RAM_BANK_SIZE;
    match save_data {
        Some(buf) => {
            if buf.len() == target {
                push_copy(ram_banks, buf);
            } else {
                push_zeros(ram_banks, target);
            }
        },
        None => {
            push_zeros(ram_banks, target);
        },
    }
}

fn push_copy(v: &mut Vec<u8>, src: &Vec<u8>)
    ensures
        final(v)@ == old(v)@ + src@,
{
    let mut i: usize = 0;
    while i < src.len()
        invariant
            i <= src@.len(),
            v@.len() == old(v)@.len() + i,
            v@ == old(v)@ + src@.take(i as int),
        decreases src@.len() - i,
    {
        v.push(src[i]);
        proof {
            assert(v@ =~= old(v)@ + src@.take(i as int + 1));
        }
        i = i + 1;
    }
    proof {
        assert(v@ =~= old(v)@ + src@);
    }
}

/// The battery-backed RAM exposed for persistence: the raw concatenation
/// of all RAM banks in index order.
pub struct RamIter {
    ram: Vec<u8>,
}

impl View for RamIter {
    type V = Seq<u8>;

    closed spec fn view(&self) -> Seq<u8> {
        self.ram@
    }
}

impl RamIter {
    /// An empty RAM image, for cartridges without save RAM.
    pub fn empty() -> (r: RamIter)
        ensures
            r@ == Seq::<u8>::empty(),
    {
        RamIter { ram: Vec::new() }
    }

    /// The RAM bytes, in bank order.
    pub fn as_slice(&self) -> (r: &[u8])
        ensures
            r@ == self@,
    {
        self.ram.as_slice()
    }
}

impl Cartridge {
    /// Whether the cartridge declares battery-backed RAM worth persisting.
    pub fn has_ram(&self) -> (r: bool)
        ensures
            r == spec_has_ram(self@),
    {
        match self.mapper {
            MapperState::RomOnly => false,
            MapperState::Mbc2 { .. } => true,
            _ => self.num_ram_banks > 0,
        }
    }

    /// A copy of the RAM banks in index order, ready to be written to the
    /// save file.
    pub fn iter_ram(&self) -> (r: RamIter)
        ensures
            r@ == self@.ram,
    {
        let mut out: Vec<u8> = Vec::new();
        push_copy(&mut out, &self.ram);
        RamIter { ram: out }
    }

    /// The save-file path derived from the ROM path at construction, if
    /// this cartridge variant persists at all.
    pub fn save_file_path(&self) -> (r: Option<&String>)
        ensures
            match r {
                Some(p) => self@.save_path == Some(p@),
                None => self@.save_path is None,
            },
    {
        self.save_path.as_ref()
    }
}

/// Whether a cartridge model declares persistable RAM.
pub open spec fn spec_has_ram(m: CartridgeModel) -> bool {
    match m.mapper {
        MapperState::RomOnly => false,
        MapperState::Mbc2 { .. } => true,
        _ => m.num_ram_banks > 0,
    }
}

/// Index one past the last `/` of `p`, or 0: where the file name starts.
pub open spec fn spec_file_name_start(p: Seq<char>) -> int
    decreases p.len(),
{
    if p.len() == 0 {
        0
    } else if p.last() == '/' {
        p.len() as int
    } else {
        spec_file_name_start(p.drop_last())
    }
}

/// Index of the last `.` strictly after `lo`, or -1.  A dot that opens the
/// file name (a hidden file) does not start an extension.
pub open spec fn spec_last_dot_after(p: Seq<char>, lo: int) -> int
    decreases p.len(),
{
    if p.len() == 0 {
        -1
    } else if p.len() - 1 > lo && p.last() == '.' {
        p.len() - 1
    } else {
        spec_last_dot_after(p.drop_last(), lo)
    }
}

/// Index one past the stem of the path's file name: the whole path up to
/// (not including) the extension dot, or the whole path when the name has
/// no extension.
pub open spec fn spec_stem_end(p: Seq<char>) -> int {
    let d = spec_last_dot_after(p, spec_file_name_start(p));
    if d >= 0 {
        d
    } else {
        p.len() as int
    }
}

/// The derived save-file path: same directory, same stem, `.sav` extension.
pub open spec fn spec_save_file_path(p: Seq<char>) -> Seq<char> {
    p.take(spec_stem_end(p)) + ".sav"@
}

/// Derives the save-file path from the ROM file path: the directory and
/// base name are kept, the extension becomes `.sav`.
pub fn get_save_file_path_from_rom_path(path: &str) -> (r: String)
    ensures
        r@ == spec_save_file_path(path@),
{
    let n = path.unicode_len();
    let ghost p = path@;

    // Where the file name starts: one past the last '/'.
    let mut name_start: usize = 0;
    let mut i: usize = 0;
    while i < n
        invariant
            i <= n,
            n == p.len(),
            p == path@,
            name_start as int == spec_file_name_start(p.take(i as int)),
            name_start <= i,
        decreases n - i,
    {
        let c = path.get_char(i);
        proof {
            assert(p.take(i as int + 1).drop_last() =~= p.take(i as int));
            assert(p.take(i as int + 1).last() == p[i as int]);
        }
        if c == '/' {
            name_start = i + 1;
        }
        i = i + 1;
    }
    proof {
        assert(p.take(n as int) =~= p);
    }

    // The last '.' strictly after the name start, if any.
    let mut dot: usize = 0;
    let mut has_dot: bool = false;
    let mut j: usize = 0;
    while j < n
        invariant
            j <= n,
            n == p.len(),
            p == path@,
            name_start as int == spec_file_name_start(p),
            has_dot ==> dot as int == spec_last_dot_after(p.take(j as int), name_start as int)
                && dot < j,
            !has_dot ==> spec_last_dot_after(p.take(j as int), name_start as int) == -1,
        decreases n - j,
    {
        let c = path.get_char(j);
        proof {
            assert(p.take(j as int + 1).drop_last() =~= p.take(j as int));
            assert(p.take(j as int + 1).last() == p[j as int]);
        }
        if c == '.' && j > name_start {
            dot = j;
            has_dot = true;
        }
        j = j + 1;
    }
    proof {
        assert(p.take(n as int) =~= p);
    }

    let stem_end: usize = if has_dot {
        dot
    } else {
        n
    };
    let stem = path.substring_char(0, stem_end);
    let base = String::from_str(stem);
    base.concat(".sav")
}


/// Why a cartridge image is rejected at load.  An unrecognized size code
/// or controller type is fatal: the machine cannot be constructed.
#[derive(Clone, Copy, PartialEq, Eq, Structural, Debug)]
pub enum CartridgeError {
    InvalidRomSizeCode(u8),
    InvalidRamSizeCode(u8),
    UnsupportedCartridgeType(u8),
}

/// The mapper register file a controller-type code starts with, or `None`
/// for a type this core does not handle.
pub open spec fn spec_initial_mapper(code: u8) -> Option<MapperState> {
    if code == 0x00 {
        Some(MapperState::RomOnly)
    } else if 0x01 <= code <= 0x03 {
        Some(
            MapperState::Mbc1 {
                ram_enabled: false,
                bank_low5: 1u8,
                bank2: 0u8,
                ram_banking_mode: false,
            },
        )
    } else if code == 0x05 || code == 0x06 {
        Some(MapperState::Mbc2 { ram_enabled: false, rom_bank: 1u8 })
    } else if 0x0F <= code <= 0x13 {
        Some(
            MapperState::Mbc3 {
                ram_enabled: false,
                rom_bank: 1u8,
                ram_rtc_select: 0u8,
                latch_prev: 0xFFu8,
                clock: spec_rtc_zeroed(),
                latched: spec_rtc_zeroed(),
            },
        )
    } else if 0x19 <= code <= 0x1E {
        Some(
            MapperState::Mbc5 {
                ram_enabled: false,
                rom_bank_low8: 1u8,
                rom_bank_high1: 0u8,
                ram_bank: 0u8,
            },
        )
    } else {
        None
    }
}

fn initial_mapper(code: u8) -> (r: Option<MapperState>)
    ensures
        r == spec_initial_mapper(code),
{
    if code == 0x00 {
        Some(MapperState::RomOnly)
    } else if 0x01 <= code && code <= 0x03 {
        Some(
            MapperState::Mbc1 { ram_enabled: false, bank_low5: 1, bank2: 0, ram_banking_mode: false },
        )
    } else if code == 0x05 || code == 0x06 {
        Some(MapperState::Mbc2 { ram_enabled: false, rom_bank: 1 })
    } else if 0x0F <= code && code <= 0x13 {
        Some(
            MapperState::Mbc3 {
                ram_enabled: false,
                rom_bank: 1,
                ram_rtc_select: 0,
                latch_prev: 0xFF,
                clock: RtcRegisters::zeroed(),
                latched: RtcRegisters::zeroed(),
            },
        )
    } else if 0x19 <= code && code <= 0x1E {
        Some(
            MapperState::Mbc5 { ram_enabled: false, rom_bank_low8: 1, rom_bank_high1: 0, ram_bank: 0 },
        )
    } else {
        None
    }
}

/// The image padded (or cut) to exactly `n` bytes: a short file reads as
/// zeroes past its end.
pub open spec fn spec_padded_image(image: Seq<u8>, n: int) -> Seq<u8> {
    Seq::new(n as nat, |i: int| spec_byte_at(image, i))
}

/// Builds a cartridge from a ROM image, the path the image was read from,
/// and the raw bytes of the save file beside it, if one exists.
///
/// Construction fails exactly on an unknown ROM-size code, RAM-size code
/// or controller-type code, checked in that order.  Save bytes are taken
/// whole when their length matches the declared RAM size and ignored
/// otherwise; a variant with a controller derives its save path from the
/// ROM path.
pub fn create(rom_path: &str, rom_data: Vec<u8>, save_data: Option<&Vec<u8>>) -> (r: Result<
    Cartridge,
    CartridgeError,
>)
    ensures
        ({
            let h = spec_parsed_header(rom_data@);
            match r {
                Ok(c) => {
                    &&& c.wf()
                    &&& c@.header == h
                    &&& Some(c@.num_rom_banks) == spec_rom_bank_count(h.rom_size_code)
                    &&& Some(c@.num_ram_banks) == spec_ram_bank_count(h.ram_size_code)
                    &&& Some(c@.mapper) == spec_initial_mapper(h.cartridge_type_code)
                    &&& c@.rom == spec_padded_image(
                        rom_data@,
                        c@.num_rom_banks as int * ROM_BANK_SIZE as int,
                    )
                    &&& c@.ram == spec_loaded_ram(spec_opt_bytes(save_data), c@.spec_ram_len())
                    &&& c@.save_path == (if h.cartridge_type_code == 0 {
                        Option::<Seq<char>>::None
                    } else {
                        Some(spec_save_file_path(rom_path@))
                    })
                },
                Err(e) => {
                    &&& e == CartridgeError::InvalidRomSizeCode(h.rom_size_code)
                        <==> spec_rom_bank_count(h.rom_size_code) is None
                    &&& e == CartridgeError::InvalidRamSizeCode(h.ram_size_code)
                        <==> spec_rom_bank_count(h.rom_size_code) is Some && spec_ram_bank_count(
                        h.ram_size_code,
                    ) is None
                    &&& e == CartridgeError::UnsupportedCartridgeType(h.cartridge_type_code)
                        <==> spec_rom_bank_count(h.rom_size_code) is Some && spec_ram_bank_count(
                        h.ram_size_code,
                    ) is Some && spec_initial_mapper(h.cartridge_type_code) is None
                },
            }
        }),
        r is Ok <==> {
            let h = spec_parsed_header(rom_data@);
            &&& spec_rom_bank_count(h.rom_size_code) is Some
            &&& spec_ram_bank_count(h.ram_size_code) is Some
            &&& spec_initial_mapper(h.cartridge_type_code) is Some
        },
{
    let header = parse_header(&rom_data);
    let num_rom_banks = match rom_bank_count(header.rom_size_code) {
        Some(n) => n,
        None => {
            return Err(CartridgeError::InvalidRomSizeCode(header.rom_size_code));
        },
    };
    let num_ram_banks = match ram_bank_count(header.ram_size_code) {
        Some(n) => n,
        None => {
            return Err(CartridgeError::InvalidRamSizeCode(header.ram_size_code));
        },
    };
    let mapper = match initial_mapper(header.cartridge_type_code) {
        Some(m) => m,
        None => {
            return Err(CartridgeError::UnsupportedCartridgeType(header.cartridge_type_code));
        },
    };

    let ghost image = rom_data@;
    let rom_target: usize = (num_rom_banks as usize) * ROM_BANK_SIZE;
    let mut rom = rom_data;
    if rom.len() > rom_target {
        rom.truncate(rom_target);
    }
    while rom.len() < rom_target
        invariant
            rom@.len() <= rom_target,
            image.len() <= rom@.len() || rom@.len() == rom_target,
            forall|i: int| 0 <= i < rom@.len() ==> rom@[i] == spec_byte_at(image, i),
        decreases rom_target - rom@.len(),
    {
        rom.push(0u8);
    }
    proof {
        assert(rom@ =~= spec_padded_image(image, rom_target as int));
    }

    let is_mbc2 = matches!(mapper, MapperState::Mbc2 { .. });
    let ram_target: usize = if is_mbc2 {
        MBC2_RAM_SIZE
    } else {
        (num_ram_banks as usize) * RAM_BANK_SIZE
    };
    let mut ram: Vec<u8> = Vec::new();
    match save_data {
        Some(buf) => {
            if buf.len() == ram_target {
                push_copy(&mut ram, buf);
            } else {
                push_zeros(&mut ram, ram_target);
            }
        },
        None => {
            push_zeros(&mut ram, ram_target);
        },
    }

    let save_path = if header.cartridge_type_code == 0 {
        None
    } else {
        Some(get_save_file_path_from_rom_path(rom_path))
    };

    Ok(Cartridge { header, num_rom_banks, num_ram_banks, rom, ram, save_path, mapper })
}


/// Law: the ROM bank resolved for the switchable window is always reduced
/// into `[0, num_rom_banks)` — a requested index `b` maps to
/// `b % num_rom_banks`, never out of range.
pub proof fn lemma_rom_bank_in_range(m: CartridgeModel)
    requires
        m.inv(),
    ensures
        0 <= m.spec_rom_bank() < m.num_rom_banks,
{
}

/// Law: the RAM bank resolved for the external-RAM window is always
/// reduced into `[0, num_ram_banks)` when RAM is present.
pub proof fn lemma_ram_bank_in_range(m: CartridgeModel)
    requires
        m.inv(),
        m.num_ram_banks > 0,
    ensures
        0 <= m.spec_ram_bank() < m.num_ram_banks,
{
}

/// Law: while the RAM-enable latch is clear, every RAM read returns the
/// open-bus sentinel, whatever the storage holds.
pub proof fn lemma_ram_reads_gated(m: CartridgeModel, addr: u16)
    requires
        m.inv(),
        addr < 0x2000,
        !spec_ram_enabled(m.mapper),
    ensures
        m.spec_read_ram(addr) == OPEN_BUS,
{
}

/// Law: while the RAM-enable latch is clear, a RAM write is silently
/// dropped: neither the byte storage nor the register file changes.
pub proof fn lemma_ram_writes_gated(m: CartridgeModel, addr: u16, val: u8)
    requires
        m.inv(),
        addr < 0x2000,
        !spec_ram_enabled(m.mapper),
    ensures
        spec_cart_after_ram_write(m, addr, val) == m,
{
    assert(spec_cart_after_ram_write(m, addr, val) =~~= m);
}

/// Law: writing a byte into RAM and then disabling the RAM-enable latch
/// (any enable-window write whose low nibble is not `0xA`) makes every
/// subsequent RAM read return the open-bus sentinel, not the stored byte.
pub proof fn lemma_ram_disabled_reads_sentinel(
    m: CartridgeModel,
    write_addr: u16,
    write_val: u8,
    disable_val: u8,
    read_addr: u16,
)
    requires
        m.inv(),
        write_addr < 0x2000,
        read_addr < 0x2000,
        disable_val & 0x0F != 0x0A,
    ensures
        ({
            let written = spec_cart_after_ram_write(m, write_addr, write_val);
            let disabled = spec_cart_after_rom_write(written, 0, disable_val);
            disabled.spec_read_ram(read_addr) == OPEN_BUS
        }),
{
    assert(0u16 & 0x0100 == 0) by (bit_vector);
}

/// Law: a save image whose length matches the declared RAM size is loaded
/// byte-identically, so persisting RAM and reloading it on a fresh
/// cartridge of the same size reproduces the same RAM contents.
pub proof fn lemma_save_round_trip(m: CartridgeModel)
    requires
        m.inv(),
    ensures
        spec_loaded_ram(Some(m.ram), m.spec_ram_len()) == m.ram,
{
}

/// Law: a save image of any other length is ignored whole — RAM stays
/// zero-initialized, never partially loaded.
pub proof fn lemma_save_length_mismatch_ignored(save: Seq<u8>, expected: int)
    requires
        save.len() != expected,
    ensures
        spec_loaded_ram(Some(save), expected) == zero_bytes(expected),
{
}

/// Law: on the RTC protocol, writing 0 and then 1 into the latch window
/// copies the live clock into the latched registers, and later live-clock
/// changes do not disturb an RTC register read until latched again.
pub proof fn lemma_rtc_latch(
    m: CartridgeModel,
    latch_addr1: u16,
    latch_addr2: u16,
    later_clock: RtcRegisters,
    sel: u8,
)
    requires
        m.inv(),
        m.mapper is Mbc3,
        0x6000 <= latch_addr1 < 0x8000,
        0x6000 <= latch_addr2 < 0x8000,
        0x08 <= sel <= 0x0C,
    ensures
        ({
            let armed = spec_cart_after_rom_write(m, latch_addr1, 0);
            let latched = spec_cart_after_rom_write(armed, latch_addr2, 1);
            let selected = spec_cart_after_rom_write(latched, 0x4000, sel);
            let enabled = spec_cart_after_rom_write(selected, 0, 0x0A);
            let ticked = CartridgeModel {
                mapper: spec_mapper_with_clock(enabled.mapper, later_clock),
                ..enabled
            };
            &&& ticked.spec_read_ram(0) == spec_rtc_reg(spec_mbc3_clock(m.mapper), sel)
            &&& enabled.spec_read_ram(0) == spec_rtc_reg(spec_mbc3_clock(m.mapper), sel)
        }),
{
    assert(0x0A & 0x0F == 0x0A) by (bit_vector);
}

/// The live clock registers of an RTC register file (zeroed elsewhere).
pub open spec fn spec_mbc3_clock(m: MapperState) -> RtcRegisters {
    match m {
        MapperState::Mbc3 { clock, .. } => clock,
        _ => spec_rtc_zeroed(),
    }
}

} // verus!
