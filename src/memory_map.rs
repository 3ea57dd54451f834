//! The partition of the 16-bit address space into regions.
use vstd::prelude::*;

verus! {

pub const BOOT_ROM_START: u16 = 0x0000;
pub const BOOT_ROM_END: u16 = 0x00FF;
pub const BOOT_ROM_SIZE: usize = 0x100;

pub const GAME_ROM_BANK_0_START: u16 = 0x0000;
pub const GAME_ROM_BANK_0_END: u16 = 0x3FFF;
pub const GAME_ROM_BANK_0_SIZE: usize = 0x4000;

pub const GAME_ROM_BANK_N_START: u16 = 0x4000;
pub const GAME_ROM_BANK_N_END: u16 = 0x7FFF;
pub const GAME_ROM_BANK_N_SIZE: usize = 0x4000;

pub const VRAM_BEGIN: u16 = 0x8000;
pub const VRAM_END: u16 = 0x9FFF;
pub const VRAM_SIZE: usize = 0x2000;

/// Tile data fills the first part of video memory; the background maps follow.
pub const TILE_RAM_SIZE: usize = 0x1800;

pub const CARTRIDGE_RAM_START: u16 = 0xA000;
pub const CARTRIDGE_RAM_END: u16 = 0xBFFF;
pub const CARTRIDGE_RAM_SIZE: usize = 0x2000;

pub const WORKING_RAM_START: u16 = 0xC000;
pub const WORKING_RAM_END: u16 = 0xDFFF;
pub const WORKING_RAM_SIZE: usize = 0x2000;

pub const ECHO_RAM_START: u16 = 0xE000;
pub const ECHO_RAM_END: u16 = 0xFDFF;

pub const OAM_START: u16 = 0xFE00;
pub const OAM_END: u16 = 0xFE9F;
pub const OAM_SIZE: usize = 0xA0;

pub const UNUSED_MEMORY_START: u16 = 0xFEA0;
pub const UNUSED_MEMORY_END: u16 = 0xFEFF;

pub const IO_REGISTER_START: u16 = 0xFF00;
pub const IO_REGISTER_END: u16 = 0xFF7F;

pub const HIGH_RAM_START: u16 = 0xFF80;
pub const HIGH_RAM_END: u16 = 0xFFFE;
pub const HIGH_RAM_SIZE: usize = 0x7F;

pub const INTERRUPT_ENABLE_REGISTER: u16 = 0xFFFF;

/// The regions of the address space. The boot overlay lies over the start of
/// the fixed ROM bank; every other region has its own range.
#[derive(Clone, Copy, Debug, PartialEq, Eq, Structural)]
pub enum Region {
    BootOverlay,
    FixedRomBank,
    SwitchableRomBank,
    VideoMemory,
    CartridgeRam,
    WorkingRam,
    EchoRam,
    ObjectAttributeMemory,
    Unusable,
    IoRegisters,
    HighRam,
    InterruptEnable,
}

/// The region that owns `address`.
pub open spec fn region_spec(address: u16) -> Region {
    if address <= BOOT_ROM_END {
        Region::BootOverlay
    } else if address <= GAME_ROM_BANK_0_END {
        Region::FixedRomBank
    } else if address <= GAME_ROM_BANK_N_END {
        Region::SwitchableRomBank
    } else if address <= VRAM_END {
        Region::VideoMemory
    } else if address <= CARTRIDGE_RAM_END {
        Region::CartridgeRam
    } else if address <= WORKING_RAM_END {
        Region::WorkingRam
    } else if address <= ECHO_RAM_END {
        Region::EchoRam
    } else if address <= OAM_END {
        Region::ObjectAttributeMemory
    } else if address <= UNUSED_MEMORY_END {
        Region::Unusable
    } else if address <= IO_REGISTER_END {
        Region::IoRegisters
    } else if address <= HIGH_RAM_END {
        Region::HighRam
    } else {
        Region::InterruptEnable
    }
}

/// The first address of a region.
pub open spec fn region_start(region: Region) -> u16 {
    match region {
        Region::BootOverlay => BOOT_ROM_START,
        Region::FixedRomBank => GAME_ROM_BANK_0_START,
        Region::SwitchableRomBank => GAME_ROM_BANK_N_START,
        Region::VideoMemory => VRAM_BEGIN,
        Region::CartridgeRam => CARTRIDGE_RAM_START,
        Region::WorkingRam => WORKING_RAM_START,
        Region::EchoRam => ECHO_RAM_START,
        Region::ObjectAttributeMemory => OAM_START,
        Region::Unusable => UNUSED_MEMORY_START,
        Region::IoRegisters => IO_REGISTER_START,
        Region::HighRam => HIGH_RAM_START,
        Region::InterruptEnable => INTERRUPT_ENABLE_REGISTER,
    }
}

/// The last address of a region.
pub open spec fn region_end(region: Region) -> u16 {
    match region {
        Region::BootOverlay => BOOT_ROM_END,
        Region::FixedRomBank => GAME_ROM_BANK_0_END,
        Region::SwitchableRomBank => GAME_ROM_BANK_N_END,
        Region::VideoMemory => VRAM_END,
        Region::CartridgeRam => CARTRIDGE_RAM_END,
        Region::WorkingRam => WORKING_RAM_END,
        Region::EchoRam => ECHO_RAM_END,
        Region::ObjectAttributeMemory => OAM_END,
        Region::Unusable => UNUSED_MEMORY_END,
        Region::IoRegisters => IO_REGISTER_END,
        Region::HighRam => HIGH_RAM_END,
        Region::InterruptEnable => INTERRUPT_ENABLE_REGISTER,
    }
}

/// Decodes an address to its region.
pub fn region_of(address: u16) -> (r: Region)
    ensures
        r == region_spec(address),
        region_start(r) <= address <= region_end(r),
{
    match address {
        0x0000..=0x00FF => Region::BootOverlay,
        0x0100..=0x3FFF => Region::FixedRomBank,
        0x4000..=0x7FFF => Region::SwitchableRomBank,
        0x8000..=0x9FFF => Region::VideoMemory,
        0xA000..=0xBFFF => Region::CartridgeRam,
        0xC000..=0xDFFF => Region::WorkingRam,
        0xE000..=0xFDFF => Region::EchoRam,
        0xFE00..=0xFE9F => Region::ObjectAttributeMemory,
        0xFEA0..=0xFEFF => Region::Unusable,
        0xFF00..=0xFF7F => Region::IoRegisters,
        0xFF80..=0xFFFE => Region::HighRam,
        0xFFFF => Region::InterruptEnable,
    }
}

/// Every address lies in exactly one region: the one `region_spec` names, and
/// in no other region's range (apart from the fixed ROM bank, which the boot
/// overlay covers).
pub proof fn lemma_regions_partition(address: u16, other: Region)
    requires
        other != region_spec(address),
        !(region_spec(address) == Region::BootOverlay && other == Region::FixedRomBank),
    ensures
        region_start(region_spec(address)) <= address <= region_end(region_spec(address)),
        !(region_start(other) <= address <= region_end(other)),
{
}

} // verus!
