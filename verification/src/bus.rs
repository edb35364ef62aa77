//! The memory-mapped bus: the single arbitration point every component
//! goes through for every memory access.
//!
//! A 16-bit address is routed by region: cartridge ROM (shadowed by the
//! boot overlay while enabled), video RAM, cartridge RAM, work RAM and its
//! echo, the sprite table, the peripheral registers, high RAM, and the
//! interrupt-enable register.  Unmapped sub-addresses read the open-bus
//! sentinel and drop writes instead of aborting.

use vstd::prelude::*;
use crate::cartridge::Cartridge;
use crate::cartridge::CartridgeModel;
use crate::cartridge::OPEN_BUS;
use crate::cartridge::spec_cart_after_ram_write;
use crate::cartridge::spec_cart_after_rom_write;
use crate::speed_controller::CgbCompatibility;
use crate::speed_controller::CpuSpeedController;
use crate::speed_controller::CpuSpeedMode;
use crate::speed_controller::spec_key1;

verus! {

/// Number of bytes the sprite-table DMA transfers, which is also the size
/// of the sprite table itself.
pub const DMA_LENGTH: usize = 160;

/// The abstract value of a [`Bus`]: every register block and byte store
/// as mathematical state.
#[verifier::ext_equal]
pub ghost struct BusModel {
    pub cart: CartridgeModel,
    pub vram: Seq<u8>,
    pub oam: Seq<u8>,
    pub working_ram: Seq<u8>,
    pub io: Seq<u8>,
    pub zero_page: Seq<u8>,
    pub bios: Seq<u8>,
    pub bios_enabled: bool,
    pub interrupt_flags: u8,
    pub interrupt_enable: u8,
    pub serial_buffer: Seq<u8>,
    pub serial_lines: Seq<Seq<u8>>,
    pub speed: CpuSpeedController,
}

impl BusModel {
    /// Bus invariant: the cartridge invariant plus the fixed sizes of
    /// every byte store.
    pub open spec fn inv(self) -> bool {
        &&& self.cart.inv()
        &&& self.vram.len() == 0x2000
        &&& self.oam.len() == DMA_LENGTH as int
        &&& self.working_ram.len() == 0x2000
        &&& self.io.len() == 0x80
        &&& self.zero_page.len() == 0x80
        &&& self.bios.len() == 0x100
    }
}

/// What a read of `addr` returns, for every 16-bit address.
pub open spec fn spec_read(m: BusModel, addr: u16) -> u8 {
    if addr < 0x8000 {
        if m.bios_enabled && addr < 0x100 {
            m.bios[addr as int]
        } else {
            m.cart.spec_read_rom(addr)
        }
    } else if addr < 0xA000 {
        m.vram[addr - 0x8000]
    } else if addr < 0xC000 {
        m.cart.spec_read_ram((addr - 0xA000) as u16)
    } else if addr < 0xE000 {
        m.working_ram[addr - 0xC000]
    } else if addr < 0xFE00 {
        m.working_ram[addr - 0xE000]
    } else if addr < 0xFEA0 {
        m.oam[addr - 0xFE00]
    } else if addr < 0xFF00 {
        OPEN_BUS
    } else if addr == 0xFF0F {
        (m.interrupt_flags & 0x1F) | 0xE0
    } else if addr == 0xFF4D {
        spec_key1(m.speed)
    } else if addr < 0xFF80 {
        m.io[addr - 0xFF00]
    } else if addr < 0xFFFF {
        m.zero_page[addr - 0xFF80]
    } else {
        m.interrupt_enable
    }
}

/// The source address byte `i` of a DMA transfer triggered with `val`:
/// the copy reads the 160 bytes starting at `val << 8`.
pub open spec fn spec_dma_source(val: u8, i: int) -> u16 {
    (val as int * 256 + i) as u16
}

/// The whole bus after a write of `val` to `addr`, for every 16-bit
/// address.  Everything not named in the selected arm is unchanged.
pub open spec fn spec_write(m: BusModel, addr: u16, val: u8) -> BusModel {
    if addr < 0x8000 {
        BusModel { cart: spec_cart_after_rom_write(m.cart, addr, val), ..m }
    } else if addr < 0xA000 {
        BusModel { vram: m.vram.update(addr - 0x8000, val), ..m }
    } else if addr < 0xC000 {
        BusModel { cart: spec_cart_after_ram_write(m.cart, (addr - 0xA000) as u16, val), ..m }
    } else if addr < 0xE000 {
        BusModel { working_ram: m.working_ram.update(addr - 0xC000, val), ..m }
    } else if addr < 0xFE00 {
        BusModel { working_ram: m.working_ram.update(addr - 0xE000, val), ..m }
    } else if addr < 0xFEA0 {
        BusModel { oam: m.oam.update(addr - 0xFE00, val), ..m }
    } else if addr < 0xFF00 {
        m
    } else if addr == 0xFF01 {
        if val == 0x0A {
            BusModel {
                serial_lines: m.serial_lines.push(m.serial_buffer),
                serial_buffer: Seq::empty(),
                ..m
            }
        } else {
            BusModel { serial_buffer: m.serial_buffer.push(val), ..m }
        }
    } else if addr == 0xFF0F {
        BusModel { interrupt_flags: val, ..m }
    } else if addr == 0xFF46 {
        BusModel {
            oam: Seq::new(DMA_LENGTH as nat, |i: int| spec_read(m, spec_dma_source(val, i))),
            ..m
        }
    } else if addr == 0xFF4D {
        BusModel {
            speed: CpuSpeedController {
                prepare_speed_switch: val & 0x01 == 1,
                ..m.speed
            },
            ..m
        }
    } else if addr == 0xFF50 {
        BusModel { bios_enabled: false, io: m.io.update(0x50, val), ..m }
    } else if addr < 0xFF80 {
        BusModel { io: m.io.update(addr - 0xFF00, val), ..m }
    } else if addr < 0xFFFF {
        BusModel { zero_page: m.zero_page.update(addr - 0xFF80, val), ..m }
    } else {
        BusModel { interrupt_enable: val, ..m }
    }
}

/// The bus: exclusive owner of the cartridge, the RAM arrays, the
/// peripheral register blocks, the boot overlay, and the speed controller.
pub struct Bus {
    pub cartridge: Cartridge,
    pub vram: Vec<u8>,
    pub oam: Vec<u8>,
    pub working_ram: Vec<u8>,
    pub io: Vec<u8>,
    pub zero_page: Vec<u8>,
    pub bios: Vec<u8>,
    pub bios_enabled: bool,
    pub interrupt_flags: u8,
    pub interrupt_enable: u8,
    pub serial_buffer: Vec<u8>,
    pub serial_lines: Vec<Vec<u8>>,
    pub speed: CpuSpeedController,
}

impl View for Bus {
    type V = BusModel;

    open spec fn view(&self) -> BusModel {
        BusModel {
            cart: self.cartridge@,
            vram: self.vram@,
            oam: self.oam@,
            working_ram: self.working_ram@,
            io: self.io@,
            zero_page: self.zero_page@,
            bios: self.bios@,
            bios_enabled: self.bios_enabled,
            interrupt_flags: self.interrupt_flags,
            interrupt_enable: self.interrupt_enable,
            serial_buffer: self.serial_buffer@,
            serial_lines: self.serial_lines@.map_values(|v: Vec<u8>| v@),
            speed: self.speed,
        }
    }
}

impl Bus {
    /// Exec-level alias of the model invariant.
    pub open spec fn wf(self) -> bool {
        self@.inv()
    }

    /// Reads one byte: the single entry point every component's reads go
    /// through.
    pub fn read_u8(&self, addr: u16) -> (r: u8)
        requires
            self.wf(),
        ensures
            r == spec_read(self@, addr),
    {
        if addr < 0x8000 {
            if self.bios_enabled && addr < 0x100 {
                self.bios[addr as usize]
            } else {
                self.cartridge.read_rom(addr)
            }
        } else if addr < 0xA000 {
            self.vram[(addr - 0x8000) as usize]
        } else if addr < 0xC000 {
            self.cartridge.read_ram(addr - 0xA000)
        } else if addr < 0xE000 {
            self.working_ram[(addr - 0xC000) as usize]
        } else if addr < 0xFE00 {
            self.working_ram[(addr - 0xE000) as usize]
        } else if addr < 0xFEA0 {
            self.oam[(addr - 0xFE00) as usize]
        } else if addr < 0xFF00 {
            OPEN_BUS
        } else if addr == 0xFF0F {
            (self.interrupt_flags & 0x1F) | 0xE0
        } else if addr == 0xFF4D {
            self.speed.read_key1()
        } else if addr < 0xFF80 {
            self.io[(addr - 0xFF00) as usize]
        } else if addr < 0xFFFF {
            self.zero_page[(addr - 0xFF80) as usize]
        } else {
            self.interrupt_enable
        }
    }

    /// Writes one byte: routes to the owning region, drives the cartridge
    /// register machine, the diagnostic sink, the boot-overlay disable,
    /// the speed-switch prepare flag, and the sprite-table DMA.
    pub fn write_u8(&mut self, addr: u16, val: u8)
        requires
            old(self).wf(),
        ensures
            final(self)@ == spec_write(old(self)@, addr, val),
            final(self).wf(),
    {
        if addr < 0x8000 {
            self.cartridge.write_rom(addr, val);
        } else if addr < 0xA000 {
            self.vram[(addr - 0x8000) as usize] = val;
        } else if addr < 0xC000 {
            self.cartridge.write_ram(addr - 0xA000, val);
        } else if addr < 0xE000 {
            self.working_ram[(addr - 0xC000) as usize] = val;
        } else if addr < 0xFE00 {
            self.working_ram[(addr - 0xE000) as usize] = val;
        } else if addr < 0xFEA0 {
            self.oam[(addr - 0xFE00) as usize] = val;
        } else if addr < 0xFF00 {
            // Not driven by any device: the write is dropped.
        } else if addr == 0xFF01 {
            // Diagnostic sink: conformance test ROMs print through the
            // serial-data register; a newline completes one line.
            if val == 0x0A {
                let mut line: Vec<u8> = Vec::new();
                core::mem::swap(&mut line, &mut self.serial_buffer);
                self.serial_lines.push(line);
                proof {
                    assert(self@.serial_lines =~= old(self)@.serial_lines.push(
                        old(self)@.serial_buffer,
                    ));
                }
            } else {
                self.serial_buffer.push(val);
            }
        } else if addr == 0xFF0F {
            self.interrupt_flags = val;
        } else if addr == 0xFF46 {
            self.run_dma(val);
        } else if addr == 0xFF4D {
            self.speed.set_prepare_speed_switch(val & 0x01 == 1);
        } else if addr == 0xFF50 {
            // Boot-overlay disable: one-way for the session.
            self.bios_enabled = false;
            self.io[0x50] = val;
        } else if addr < 0xFF80 {
            self.io[(addr - 0xFF00) as usize] = val;
        } else if addr < 0xFFFF {
            self.zero_page[(addr - 0xFF80) as usize] = val;
        } else {
            self.interrupt_enable = val;
        }
    }

    /// Sprite-table DMA: synchronously copies 160 bytes from the source
    /// page `val << 8` into the sprite table, each byte fetched through
    /// the normal read path, so any addressable source can feed it.
    fn run_dma(&mut self, val: u8)
        requires
            old(self).wf(),
        ensures
            final(self)@ == spec_write(old(self)@, 0xFF46, val),
            final(self).wf(),
    {
        let source: u16 = (val as u16) * 256;
        let mut i: u16 = 0;
        while i < 160
            invariant
                i <= 160,
                source == val as int * 256,
                self@ == (BusModel { oam: self@.oam, ..old(self)@ }),
                self@.oam.len() == DMA_LENGTH as int,
                self@.inv(),
                forall|j: int|
                    0 <= j < i ==> self@.oam[j] == spec_read(old(self)@, spec_dma_source(val, j)),
                forall|j: int| i <= j < DMA_LENGTH as int ==> self@.oam[j] == old(self)@.oam[j],
            decreases 160 - i,
        {
            let ghost pre = self@;
            let b = self.read_u8(source + i);
            proof {
                // The source either misses the sprite table entirely, or
                // is the sprite table itself, where entry i is not yet
                // overwritten; either way the fetch sees the pre-DMA byte.
                assert(spec_read(pre, (source + i) as u16) == spec_read(
                    old(self)@,
                    spec_dma_source(val, i as int),
                ));
            }
            self.oam[i as usize] = b;
            i = i + 1;
        }
        proof {
            assert(self@.oam =~= Seq::new(
                DMA_LENGTH as nat,
                |j: int| spec_read(old(self)@, spec_dma_source(val, j)),
            ));
            assert(self@ =~~= spec_write(old(self)@, 0xFF46, val));
        }
    }

    /// Reads a 16-bit value as two byte reads in little-endian order.
    pub fn read_u16(&self, addr: u16) -> (r: u16)
        requires
            self.wf(),
            addr < 0xFFFF,
        ensures
            r == spec_read(self@, addr) + spec_read(self@, (addr + 1) as u16) * 256,
    {
        let lo = self.read_u8(addr);
        let hi = self.read_u8(addr + 1);
        lo as u16 + (hi as u16) * 256
    }

    /// Writes a 16-bit value as two byte writes in little-endian order.
    pub fn write_u16(&mut self, addr: u16, val: u16)
        requires
            old(self).wf(),
            addr < 0xFFFF,
        ensures
            final(self)@ == spec_write(
                spec_write(old(self)@, addr, (val & 0xFF) as u8),
                (addr + 1) as u16,
                (val >> 8) as u8,
            ),
            final(self).wf(),
    {
        let lower: u8 = (val & 0x00FF) as u8;
        let higher: u8 = (val >> 8) as u8;
        self.write_u8(addr, lower);
        self.write_u8(addr + 1, higher);
    }
}


impl Bus {
    /// Builds the bus around a loaded cartridge: zeroed RAM arrays and
    /// register blocks, the boot overlay enabled, and the speed
    /// controller set from the cartridge's compatibility flag.
    pub fn new(cartridge: Cartridge) -> (r: Bus)
        requires
            cartridge.wf(),
        ensures
            r.wf(),
            r@.cart == cartridge@,
            r@.vram == crate::cartridge::zero_bytes(0x2000),
            r@.oam == crate::cartridge::zero_bytes(DMA_LENGTH as int),
            r@.working_ram == crate::cartridge::zero_bytes(0x2000),
            r@.io == crate::cartridge::zero_bytes(0x80),
            r@.zero_page == crate::cartridge::zero_bytes(0x80),
            r@.bios_enabled,
            r@.interrupt_flags == 0,
            r@.interrupt_enable == 0,
            r@.serial_buffer == Seq::<u8>::empty(),
            r@.serial_lines == Seq::<Seq<u8>>::empty(),
            r@.speed.cpu_speed_mode == CpuSpeedMode::Single,
            !r@.speed.prepare_speed_switch,
            r@.speed.cgb_compatibility == crate::speed_controller::spec_cgb_compatibility(
                cartridge@.header.cgb_flag,
            ),
    {
        let compatibility = CgbCompatibility::from_code(cartridge.header.cgb_flag);
        let mut vram: Vec<u8> = Vec::new();
        crate::cartridge::push_zeros(&mut vram, 0x2000);
        let mut oam: Vec<u8> = Vec::new();
        crate::cartridge::push_zeros(&mut oam, DMA_LENGTH);
        let mut working_ram: Vec<u8> = Vec::new();
        crate::cartridge::push_zeros(&mut working_ram, 0x2000);
        let mut io: Vec<u8> = Vec::new();
        crate::cartridge::push_zeros(&mut io, 0x80);
        let mut zero_page: Vec<u8> = Vec::new();
        crate::cartridge::push_zeros(&mut zero_page, 0x80);
        let bios = boot_rom();
        let r = Bus {
            cartridge,
            vram,
            oam,
            working_ram,
            io,
            zero_page,
            bios,
            bios_enabled: true,
            interrupt_flags: 0,
            interrupt_enable: 0,
            serial_buffer: Vec::new(),
            serial_lines: Vec::new(),
            speed: CpuSpeedController::new(compatibility),
        };
        proof {
            assert(r@.serial_lines =~= Seq::<Seq<u8>>::empty());
        }
        r
    }
}

/// The fixed internal boot ROM image the overlay exposes at `0x0000..0x0100`
/// until software disables it.
fn boot_rom() -> (r: Vec<u8>)
    ensures
        r@.len() == 0x100,
{
    let r: Vec<u8> = vec![
        0x31, 0xFE, 0xFF, 0x21, 0xFF, 0x9F, 0xAF, 0x32, 0xCB, 0x7C, 0x20, 0xFA, 0x0E, 0x11,
        0x21, 0x26, 0xFF, 0x3E, 0x80, 0x32, 0xE2, 0x0C, 0x3E, 0xF3, 0x32, 0xE2, 0x0C, 0x3E,
        0x77, 0x32, 0xE2, 0x11, 0x04, 0x01, 0x21, 0x10, 0x80, 0x1A, 0xCD, 0xB8, 0x00, 0x1A,
        0xCB, 0x37, 0xCD, 0xB8, 0x00, 0x13, 0x7B, 0xFE, 0x34, 0x20, 0xF0, 0x11, 0xCC, 0x00,
        0x06, 0x08, 0x1A, 0x13, 0x22, 0x23, 0x05, 0x20, 0xF9, 0x21, 0x04, 0x99, 0x01, 0x0C,
        0x01, 0xCD, 0xB1, 0x00, 0x3E, 0x19, 0x77, 0x21, 0x24, 0x99, 0x0E, 0x0C, 0xCD, 0xB1,
        0x00, 0x3E, 0x91, 0xE0, 0x40, 0x06, 0x10, 0x11, 0xD4, 0x00, 0x78, 0xE0, 0x43, 0x05,
        0x7B, 0xFE, 0xD8, 0x28, 0x04, 0x1A, 0xE0, 0x47, 0x13, 0x0E, 0x1C, 0xCD, 0xA7, 0x00,
        0xAF, 0x90, 0xE0, 0x43, 0x05, 0x0E, 0x1C, 0xCD, 0xA7, 0x00, 0xAF, 0xB0, 0x20, 0xE0,
        0xE0, 0x43, 0x3E, 0x83, 0xCD, 0x9F, 0x00, 0x0E, 0x27, 0xCD, 0xA7, 0x00, 0x3E, 0xC1,
        0xCD, 0x9F, 0x00, 0x11, 0x8A, 0x01, 0xF0, 0x44, 0xFE, 0x90, 0x20, 0xFA, 0x1B, 0x7A,
        0xB3, 0x20, 0xF5, 0x18, 0x49, 0x0E, 0x13, 0xE2, 0x0C, 0x3E, 0x87, 0xE2, 0xC9, 0xF0,
        0x44, 0xFE, 0x90, 0x20, 0xFA, 0x0D, 0x20, 0xF7, 0xC9, 0x78, 0x22, 0x04, 0x0D, 0x20,
        0xFA, 0xC9, 0x47, 0x0E, 0x04, 0xAF, 0xC5, 0xCB, 0x10, 0x17, 0xC1, 0xCB, 0x10, 0x17,
        0x0D, 0x20, 0xF5, 0x22, 0x23, 0x22, 0x23, 0xC9, 0x3C, 0x42, 0xB9, 0xA5, 0xB9, 0xA5,
        0x42, 0x3C, 0x00, 0x54, 0xA8, 0xFC, 0x42, 0x4F, 0x4F, 0x54, 0x49, 0x58, 0x2E, 0x44,
        0x4D, 0x47, 0x20, 0x76, 0x31, 0x2E, 0x32, 0x00, 0x3E, 0xFF, 0xC6, 0x01, 0x0B, 0x1E,
        0xD8, 0x21, 0x4D, 0x01, 0x00, 0x00, 0x00, 0x00, 0x00, 0x00, 0x00, 0x00, 0x00, 0x00,
        0x3E, 0x01, 0xE0, 0x50,
    ];
    r
}

/// Law: a write to the boot-overlay disable register turns the overlay
/// off, and no write whatsoever turns it back on: the transition is
/// one-way for the session.
pub proof fn lemma_boot_overlay_disable_is_one_way(m: BusModel, addr: u16, val: u8)
    ensures
        !spec_write(m, 0xFF50, val).bios_enabled,
        !m.bios_enabled ==> !spec_write(m, addr, val).bios_enabled,
{
}

/// Law: the echo region and work RAM share one backing store — a byte
/// written at `addr` in `0xC000..=0xDDFF` reads back at `addr + 0x2000`,
/// and a byte written at the echo address reads back at `addr`.
pub proof fn lemma_echo_ram(m: BusModel, addr: u16, val: u8)
    requires
        m.inv(),
        0xC000 <= addr <= 0xDDFF,
    ensures
        spec_read(spec_write(m, addr, val), (addr + 0x2000) as u16) == val,
        spec_read(spec_write(m, (addr + 0x2000) as u16, val), addr) == val,
{
}

/// Law: a write of `val` to the DMA-trigger register fills the sprite
/// table with exactly the 160 bytes that direct reads of
/// `val << 8 ..= val << 8 + 159` return beforehand.
pub proof fn lemma_dma_copies_oam(m: BusModel, val: u8, i: int)
    requires
        m.inv(),
        0 <= i < DMA_LENGTH as int,
    ensures
        spec_write(m, 0xFF46, val).oam.len() == DMA_LENGTH as int,
        spec_write(m, 0xFF46, val).oam[i] == spec_read(m, spec_dma_source(val, i)),
{
}

} // verus!
