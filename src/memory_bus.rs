//! The memory bus: routes every read and write of the 16-bit address space to
//! the store or device that owns the address.
use crate::gpu::{zeroed, Gpu};
use crate::memory_map::{
    region_of, region_spec, region_start, Region, BOOT_ROM_SIZE, BOOT_ROM_START,
    CARTRIDGE_RAM_SIZE, CARTRIDGE_RAM_START, ECHO_RAM_START, GAME_ROM_BANK_0_SIZE,
    GAME_ROM_BANK_0_START, GAME_ROM_BANK_N_SIZE, GAME_ROM_BANK_N_START, HIGH_RAM_SIZE,
    HIGH_RAM_START, INTERRUPT_ENABLE_REGISTER, ECHO_RAM_END, IO_REGISTER_START, OAM_SIZE, OAM_START,
    UNUSED_MEMORY_START, VRAM_BEGIN, VRAM_SIZE, WORKING_RAM_SIZE, WORKING_RAM_START,
};
use vstd::prelude::*;

verus! {

/// Whether an access reads or writes.
#[derive(Clone, Copy, Debug, PartialEq, Eq, Structural)]
pub enum Access {
    Read,
    Write,
}

/// An access to a region that this core does not back with storage yet: the
/// I/O registers and the interrupt-enable register.
#[derive(Clone, Copy, Debug, PartialEq, Eq, Structural)]
pub struct Unimplemented {
    pub access: Access,
    pub address: u16,
}

/// The contents of the address space, store by store.
pub struct MemoryView {
    pub boot_rom: Option<Seq<u8>>,
    pub rom_bank_0: Seq<u8>,
    pub rom_bank_n: Seq<u8>,
    pub vram: Seq<u8>,
    pub cartridge_ram: Seq<u8>,
    pub working_ram: Seq<u8>,
    pub oam: Seq<u8>,
    pub high_ram: Seq<u8>,
}

impl MemoryView {
    /// A zeroed boot ROM mapped over zeroed ROM banks, and every store zero.
    pub open spec fn zeroed() -> MemoryView {
        MemoryView {
            boot_rom: Some(Seq::new(BOOT_ROM_SIZE as nat, |i: int| 0u8)),
            rom_bank_0: Seq::new(GAME_ROM_BANK_0_SIZE as nat, |i: int| 0u8),
            rom_bank_n: Seq::new(GAME_ROM_BANK_N_SIZE as nat, |i: int| 0u8),
            vram: Seq::new(VRAM_SIZE as nat, |i: int| 0u8),
            cartridge_ram: Seq::new(CARTRIDGE_RAM_SIZE as nat, |i: int| 0u8),
            working_ram: Seq::new(WORKING_RAM_SIZE as nat, |i: int| 0u8),
            oam: Seq::new(OAM_SIZE as nat, |i: int| 0u8),
            high_ram: Seq::new(HIGH_RAM_SIZE as nat, |i: int| 0u8),
        }
    }

    /// What a read of `address` returns.
    pub open spec fn read(self, address: u16) -> Result<u8, Unimplemented> {
        let offset = address - region_start(region_spec(address));
        match region_spec(address) {
            Region::BootOverlay => Ok(
                match self.boot_rom {
                    Some(boot) => boot[offset],
                    None => self.rom_bank_0[offset],
                },
            ),
            Region::FixedRomBank => Ok(self.rom_bank_0[offset]),
            Region::SwitchableRomBank => Ok(self.rom_bank_n[offset]),
            Region::VideoMemory => Ok(self.vram[offset]),
            Region::CartridgeRam => Ok(self.cartridge_ram[offset]),
            Region::WorkingRam => Ok(self.working_ram[offset]),
            Region::EchoRam => Ok(self.working_ram[offset]),
            Region::ObjectAttributeMemory => Ok(self.oam[offset]),
            Region::Unusable => Ok(0),
            Region::HighRam => Ok(self.high_ram[offset]),
            Region::IoRegisters | Region::InterruptEnable => Err(
                Unimplemented { access: Access::Read, address },
            ),
        }
    }

    /// The contents after a write of `value` at `address`. A write to the
    /// boot overlay lands in the fixed ROM bank; one to the unusable region is
    /// dropped.
    pub open spec fn write(self, address: u16, value: u8) -> Result<MemoryView, Unimplemented> {
        let offset = address - region_start(region_spec(address));
        match region_spec(address) {
            Region::BootOverlay | Region::FixedRomBank => Ok(
                MemoryView { rom_bank_0: self.rom_bank_0.update(address as int, value), ..self },
            ),
            Region::SwitchableRomBank => Ok(
                MemoryView { rom_bank_n: self.rom_bank_n.update(offset, value), ..self },
            ),
            Region::VideoMemory => Ok(MemoryView { vram: self.vram.update(offset, value), ..self }),
            Region::CartridgeRam => Ok(
                MemoryView { cartridge_ram: self.cartridge_ram.update(offset, value), ..self },
            ),
            Region::WorkingRam | Region::EchoRam => Ok(
                MemoryView { working_ram: self.working_ram.update(offset, value), ..self },
            ),
            Region::ObjectAttributeMemory => Ok(
                MemoryView { oam: self.oam.update(offset, value), ..self },
            ),
            Region::Unusable => Ok(self),
            Region::HighRam => Ok(
                MemoryView { high_ram: self.high_ram.update(offset, value), ..self },
            ),
            Region::IoRegisters | Region::InterruptEnable => Err(
                Unimplemented { access: Access::Write, address },
            ),
        }
    }
}

/// A read in the echo region gives what the same read in working RAM gives:
/// the two ranges are views of one store.
pub proof fn lemma_echo_mirrors_working_ram(m: MemoryView, address: u16)
    requires
        ECHO_RAM_START <= address <= ECHO_RAM_END,
    ensures
        m.read(address) == m.read((address - 0x2000) as u16),
        m.write(address, 0) is Ok,
{
}

/// The stores behind the address space.
pub struct MemoryBus {
    /// Lies over the start of the fixed ROM bank until it is unmapped.
    boot_rom: Option<Vec<u8>>,
    rom_bank_0: Vec<u8>,
    rom_bank_n: Vec<u8>,
    cartridge_ram: Vec<u8>,
    working_ram: Vec<u8>,
    high_ram: Vec<u8>,
    gpu: Gpu,
}

impl View for MemoryBus {
    type V = MemoryView;

    closed spec fn view(&self) -> MemoryView {
        MemoryView {
            boot_rom: match self.boot_rom {
                Some(b) => Some(b@),
                None => None,
            },
            rom_bank_0: self.rom_bank_0@,
            rom_bank_n: self.rom_bank_n@,
            vram: self.gpu.vram_view(),
            cartridge_ram: self.cartridge_ram@,
            working_ram: self.working_ram@,
            oam: self.gpu.oam_view(),
            high_ram: self.high_ram@,
        }
    }
}

impl MemoryBus {
    /// Every store has the size of its region and the tile cache matches video memory.
    pub closed spec fn wf(&self) -> bool {
        &&& match self.boot_rom {
            Some(b) => b@.len() == BOOT_ROM_SIZE,
            None => true,
        }
        &&& self.rom_bank_0@.len() == GAME_ROM_BANK_0_SIZE
        &&& self.rom_bank_n@.len() == GAME_ROM_BANK_N_SIZE
        &&& self.cartridge_ram@.len() == CARTRIDGE_RAM_SIZE
        &&& self.working_ram@.len() == WORKING_RAM_SIZE
        &&& self.high_ram@.len() == HIGH_RAM_SIZE
        &&& self.gpu.wf()
    }

    /// A bus with a zeroed boot ROM mapped, and every store zero.
    pub fn new() -> (r: MemoryBus)
        ensures
            r.wf(),
            r@ == MemoryView::zeroed(),
    {
        MemoryBus::with_cartridge(
            Some(zeroed(BOOT_ROM_SIZE)),
            zeroed(GAME_ROM_BANK_0_SIZE),
            zeroed(GAME_ROM_BANK_N_SIZE),
        )
    }

    /// A bus over a cartridge's two ROM banks, with `boot_rom` lying over the
    /// first one when it is given; RAM and video memory start zeroed.
    pub fn with_cartridge(boot_rom: Option<Vec<u8>>, rom_bank_0: Vec<u8>, rom_bank_n: Vec<u8>) -> (r:
        MemoryBus)
        requires
            match boot_rom {
                Some(b) => b@.len() == BOOT_ROM_SIZE,
                None => true,
            },
            rom_bank_0@.len() == GAME_ROM_BANK_0_SIZE,
            rom_bank_n@.len() == GAME_ROM_BANK_N_SIZE,
        ensures
            r.wf(),
            r@.boot_rom == (match boot_rom {
                Some(b) => Some(b@),
                None => None,
            }),
            r@.rom_bank_0 == rom_bank_0@,
            r@.rom_bank_n == rom_bank_n@,
            r@.vram == Seq::new(VRAM_SIZE as nat, |i: int| 0u8),
            r@.cartridge_ram == Seq::new(CARTRIDGE_RAM_SIZE as nat, |i: int| 0u8),
            r@.working_ram == Seq::new(WORKING_RAM_SIZE as nat, |i: int| 0u8),
            r@.oam == Seq::new(OAM_SIZE as nat, |i: int| 0u8),
            r@.high_ram == Seq::new(HIGH_RAM_SIZE as nat, |i: int| 0u8),
    {
        MemoryBus {
            boot_rom,
            rom_bank_0,
            rom_bank_n,
            cartridge_ram: zeroed(CARTRIDGE_RAM_SIZE),
            working_ram: zeroed(WORKING_RAM_SIZE),
            high_ram: zeroed(HIGH_RAM_SIZE),
            gpu: Gpu::new(),
        }
    }

    /// Takes the boot ROM off the address space: the fixed ROM bank shows through.
    pub fn unmap_boot_rom(&mut self)
        requires
            old(self).wf(),
        ensures
            final(self).wf(),
            final(self)@ == (MemoryView { boot_rom: None, ..old(self)@ }),
    {
        self.boot_rom = None;
    }

    /// Reads the byte at `address`.
    pub fn read_byte(&self, address: u16) -> (r: Result<u8, Unimplemented>)
        requires
            self.wf(),
        ensures
            r == self@.read(address),
    {
        let region = region_of(address);
        let offset = (address - region_start_of(region)) as usize;
        match region {
            Region::BootOverlay => match &self.boot_rom {
                Some(boot) => Ok(boot[offset]),
                None => Ok(self.rom_bank_0[offset]),
            },
            Region::FixedRomBank => Ok(self.rom_bank_0[offset]),
            Region::SwitchableRomBank => Ok(self.rom_bank_n[offset]),
            Region::VideoMemory => Ok(self.gpu.read_vram(offset)),
            Region::CartridgeRam => Ok(self.cartridge_ram[offset]),
            Region::WorkingRam => Ok(self.working_ram[offset]),
            Region::EchoRam => Ok(self.working_ram[offset]),
            Region::ObjectAttributeMemory => Ok(self.gpu.read_oam(offset)),
            Region::Unusable => Ok(0),
            Region::HighRam => Ok(self.high_ram[offset]),
            Region::IoRegisters | Region::InterruptEnable => Err(
                Unimplemented { access: Access::Read, address },
            ),
        }
    }

    /// Writes `value` at `address`. On error nothing is written.
    pub fn write_byte(&mut self, address: u16, value: u8) -> (r: Result<(), Unimplemented>)
        requires
            old(self).wf(),
        ensures
            final(self).wf(),
            match old(self)@.write(address, value) {
                Ok(m) => r == Ok::<(), Unimplemented>(()) && final(self)@ == m,
                Err(e) => r == Err::<(), Unimplemented>(e) && final(self)@ == old(self)@,
            },
    {
        let region = region_of(address);
        let offset = (address - region_start_of(region)) as usize;
        match region {
            Region::BootOverlay | Region::FixedRomBank => {
                self.rom_bank_0.set(address as usize, value);
            },
            Region::SwitchableRomBank => {
                self.rom_bank_n.set(offset, value);
            },
            Region::VideoMemory => {
                self.gpu.write_vram(offset, value);
            },
            Region::CartridgeRam => {
                self.cartridge_ram.set(offset, value);
            },
            Region::WorkingRam | Region::EchoRam => {
                self.working_ram.set(offset, value);
            },
            Region::ObjectAttributeMemory => {
                self.gpu.write_oam(offset, value);
            },
            Region::Unusable => {},
            Region::HighRam => {
                self.high_ram.set(offset, value);
            },
            Region::IoRegisters | Region::InterruptEnable => {
                return Err(Unimplemented { access: Access::Write, address });
            },
        }
        proof {
            assert(self@ =~= old(self)@.write(address, value).unwrap());
        }
        Ok(())
    }

    /// The pixel at `column` of `row` of `tile` in the decoded tile cache.
    pub fn tile_pixel(&self, tile: usize, row: usize, column: usize) -> (r: crate::gpu::TilePixelValue)
        requires
            self.wf(),
            tile < crate::gpu::TILE_COUNT,
            row < 8,
            column < 8,
        ensures
            r == crate::gpu::pixel_from_bits(
                crate::registers::bit_set(self@.vram[tile * 16 + row * 2], (7 - column) as u8),
                crate::registers::bit_set(self@.vram[tile * 16 + row * 2 + 1], (7 - column) as u8),
            ),
    {
        self.gpu.tile_pixel(tile, row, column)
    }
}

impl Default for MemoryBus {
    fn default() -> (r: MemoryBus)
        ensures
            r.wf(),
            r@ == MemoryView::zeroed(),
    {
        MemoryBus::new()
    }
}

/// The first address of a region.
pub fn region_start_of(region: Region) -> (r: u16)
    ensures
        r == region_start(region),
{
    match region {
        Region::BootOverlay => BOOT_ROM_START,
        Region::FixedRomBank => GAME_ROM_BANK_0_START,
        Region::SwitchableRomBank => GAME_ROM_BANK_N_START,
        Region::VideoMemory => VRAM_BEGIN,
        Region::CartridgeRam => CARTRIDGE_RAM_START,
        Region::WorkingRam => WORKING_RAM_START,
        Region::EchoRam => ECHO_RAM_START,
        Region::ObjectAttributeMemory => OAM_START,
        Region::Unusable => UNUSED_MEMORY_START,
        Region::IoRegisters => IO_REGISTER_START,
        Region::HighRam => HIGH_RAM_START,
        Region::InterruptEnable => INTERRUPT_ENABLE_REGISTER,
    }
}

} // verus!
