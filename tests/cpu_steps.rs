use gb_core::cpu::{Cpu, CpuError};
use gb_core::gpu::TilePixelValue;
use gb_core::instructions::parameter::{
    JumpTest, LoadByteSource, LoadByteTarget, LoadType, StackTarget, TargetRegister16,
    TargetRegister8,
};
use gb_core::instructions::Instruction;
use gb_core::memory_bus::{Access, MemoryBus, Unimplemented};
use gb_core::registers::U3;

fn cpu_at(pc: u16, program: &[u8]) -> Cpu {
    let mut cpu = Cpu::default();
    cpu.pc = pc;
    for (i, byte) in program.iter().enumerate() {
        cpu.bus.write_byte(pc + i as u16, *byte).unwrap();
    }
    cpu
}

#[test]
fn add_carry_and_half_carry_edges() {
    let mut cpu = Cpu::default();
    cpu.registers.a = 0x80;
    cpu.registers.b = 0x80;
    cpu.execute(Instruction::Add(TargetRegister8::B)).unwrap();
    assert_eq!(cpu.registers.a, 0);
    assert!(cpu.registers.f.zero);
    assert!(cpu.registers.f.carry);
    assert!(!cpu.registers.f.half_carry);
    assert!(!cpu.registers.f.subtract);
}

#[test]
fn adc_wraps_operand_with_carry() {
    let mut cpu = Cpu::default();
    cpu.registers.a = 0x01;
    cpu.registers.b = 0xFF;
    cpu.registers.f.carry = true;
    cpu.execute(Instruction::Adc(TargetRegister8::B)).unwrap();
    assert_eq!(cpu.registers.a, 0x01);
    assert!(!cpu.registers.f.carry);
}

#[test]
fn add_hl_wraps() {
    let mut cpu = Cpu::default();
    cpu.registers.set_hl(0x8000);
    cpu.registers.set_bc(0x8000);
    cpu.execute(Instruction::AddHl(TargetRegister16::BC)).unwrap();
    assert_eq!(cpu.registers.get_hl(), 0);
    assert!(cpu.registers.f.carry);
    assert!(cpu.registers.f.zero);
}

#[test]
fn cpl_scenario() {
    let mut cpu = Cpu::default();
    cpu.registers.a = 0x9F;
    cpu.registers.f.carry = true;
    cpu.execute(Instruction::Cpl).unwrap();
    assert_eq!(cpu.registers.a, 0x60);
    assert!(cpu.registers.f.subtract);
    assert!(cpu.registers.f.half_carry);
    assert!(cpu.registers.f.carry);
}

#[test]
fn and_zero_flag_reads_a_before_update() {
    let mut cpu = Cpu::default();
    cpu.registers.a = 0xF0;
    cpu.registers.b = 0x0F;
    cpu.execute(Instruction::And(TargetRegister8::B)).unwrap();
    assert_eq!(cpu.registers.a, 0);
    assert!(!cpu.registers.f.zero);
    assert!(cpu.registers.f.half_carry);
}

#[test]
fn inc_and_dec_wrap() {
    let mut cpu = Cpu::default();
    cpu.registers.b = 0xFF;
    cpu.execute(Instruction::Inc(TargetRegister8::B)).unwrap();
    assert_eq!(cpu.registers.b, 0);
    assert!(cpu.registers.f.zero);
    assert!(cpu.registers.f.half_carry);
    cpu.execute(Instruction::Dec(TargetRegister8::B)).unwrap();
    assert_eq!(cpu.registers.b, 0xFF);
    assert!(!cpu.registers.f.zero);
    assert!(!cpu.registers.f.half_carry);
    cpu.registers.c = 0x12;
    cpu.execute(Instruction::Dec(TargetRegister8::C)).unwrap();
    assert_eq!(cpu.registers.c, 0x11);
    assert!(cpu.registers.f.half_carry);
}

#[test]
fn bit_on_clear_bit_sets_zero() {
    let mut cpu = Cpu::default();
    cpu.registers.h = 0b1110_1111;
    cpu.execute(Instruction::Bit(U3::wrap(4), TargetRegister8::H)).unwrap();
    assert!(cpu.registers.f.zero);
    assert_eq!(cpu.registers.h, 0b1110_1111);
}

#[test]
fn extended_instructions_advance_two_bytes() {
    let mut cpu = Cpu::default();
    cpu.pc = 0x100;
    assert_eq!(cpu.execute(Instruction::Swap(TargetRegister8::A)).unwrap(), 0x102);
    assert_eq!(cpu.execute(Instruction::Nop).unwrap(), 0x101);
}

#[test]
fn halted_step_changes_nothing() {
    let mut cpu = cpu_at(0xC000, &[0x76, 0x04]);
    cpu.registers.b = 7;
    cpu.step().unwrap();
    assert!(cpu.is_halted);
    assert_eq!(cpu.pc, 0xC001);
    let registers = cpu.registers;
    cpu.step().unwrap();
    cpu.step().unwrap();
    assert_eq!(cpu.pc, 0xC001);
    assert_eq!(cpu.registers, registers);
    assert_eq!(cpu.registers.b, 7);
}

#[test]
fn unknown_opcode_is_reported() {
    assert_eq!(Instruction::from_byte(0xFC, false), None);
    let mut cpu = cpu_at(0xC000, &[0xFC]);
    assert_eq!(cpu.step(), Err(CpuError::UnknownOpcode { byte: 0xFC, prefixed: false }));
    assert_eq!(cpu.pc, 0xC000);
}

#[test]
fn prefixed_memory_operand_is_reported_as_prefixed() {
    let mut cpu = cpu_at(0xC000, &[0xCB, 0x46]);
    assert_eq!(cpu.step(), Err(CpuError::UnknownOpcode { byte: 0x46, prefixed: true }));
}

#[test]
fn decoding_both_tables() {
    assert_eq!(Instruction::from_byte(0x80, false), Some(Instruction::Add(TargetRegister8::B)));
    assert_eq!(Instruction::from_byte(0xBF, false), Some(Instruction::Cp(TargetRegister8::A)));
    assert_eq!(Instruction::from_byte(0x3C, false), Some(Instruction::Inc(TargetRegister8::A)));
    assert_eq!(Instruction::from_byte(0x19, false), Some(Instruction::AddHl(TargetRegister16::DE)));
    assert_eq!(Instruction::from_byte(0xC3, false), Some(Instruction::Jp(JumpTest::Always)));
    assert_eq!(Instruction::from_byte(0xDC, false), Some(Instruction::Call(JumpTest::Carry)));
    assert_eq!(Instruction::from_byte(0xF5, false), Some(Instruction::Push(StackTarget::AF)));
    assert_eq!(Instruction::from_byte(0x76, false), Some(Instruction::Halt));
    assert_eq!(
        Instruction::from_byte(0x7E, false),
        Some(Instruction::Ld(LoadType::Byte(LoadByteTarget::A, LoadByteSource::Hli)))
    );
    assert_eq!(
        Instruction::from_byte(0x06, false),
        Some(Instruction::Ld(LoadType::Byte(LoadByteTarget::B, LoadByteSource::D8)))
    );
    assert_eq!(Instruction::from_byte(0x86, false), None);
    assert_eq!(Instruction::from_byte(0x00, true), Some(Instruction::Rlc(TargetRegister8::B)));
    assert_eq!(Instruction::from_byte(0x37, true), Some(Instruction::Swap(TargetRegister8::A)));
    assert_eq!(
        Instruction::from_byte(0x7C, true),
        Some(Instruction::Bit(U3::wrap(7), TargetRegister8::H))
    );
    assert_eq!(
        Instruction::from_byte(0xD9, true),
        Some(Instruction::SetBit(U3::wrap(3), TargetRegister8::C))
    );
    assert_eq!(Instruction::from_byte(0xFE, true), None);
}

#[test]
fn step_runs_a_small_program() {
    // LD B,5; LD A,3; ADD B; CB SWAP A; NOP
    let mut cpu = cpu_at(0xC000, &[0x06, 0x05, 0x3E, 0x03, 0x80, 0xCB, 0x37, 0x00]);
    cpu.step().unwrap();
    assert_eq!(cpu.registers.b, 5);
    assert_eq!(cpu.pc, 0xC002);
    cpu.step().unwrap();
    cpu.step().unwrap();
    assert_eq!(cpu.registers.a, 8);
    assert_eq!(cpu.pc, 0xC005);
    cpu.step().unwrap();
    assert_eq!(cpu.registers.a, 0x80);
    assert_eq!(cpu.pc, 0xC007);
}

#[test]
fn jump_taken_and_not_taken() {
    let mut cpu = cpu_at(0xC000, &[0xC3, 0x34, 0x12]);
    cpu.step().unwrap();
    assert_eq!(cpu.pc, 0x1234);
    let mut cpu = cpu_at(0xC000, &[0xCA, 0x34, 0x12]);
    cpu.registers.f.zero = false;
    cpu.step().unwrap();
    assert_eq!(cpu.pc, 0xC003);
}

#[test]
fn call_then_ret() {
    let mut cpu = cpu_at(0xC000, &[0xCD, 0x00, 0xD0]);
    cpu.bus.write_byte(0xD000, 0xC9).unwrap();
    cpu.sp = 0xFFFE;
    cpu.step().unwrap();
    assert_eq!(cpu.pc, 0xD000);
    assert_eq!(cpu.sp, 0xFFFC);
    assert_eq!(cpu.bus.read_byte(0xFFFD), Ok(0xC0));
    assert_eq!(cpu.bus.read_byte(0xFFFC), Ok(0x03));
    cpu.step().unwrap();
    assert_eq!(cpu.pc, 0xC003);
    assert_eq!(cpu.sp, 0xFFFE);
}

#[test]
fn push_then_pop() {
    let mut cpu = Cpu::default();
    cpu.sp = 0xFFFE;
    cpu.registers.set_bc(0xBEEF);
    cpu.execute(Instruction::Push(StackTarget::BC)).unwrap();
    assert_eq!(cpu.sp, 0xFFFC);
    assert_eq!(cpu.bus.read_byte(0xFFFD), Ok(0xBE));
    assert_eq!(cpu.bus.read_byte(0xFFFC), Ok(0xEF));
    cpu.execute(Instruction::Pop(StackTarget::DE)).unwrap();
    assert_eq!(cpu.registers.get_de(), 0xBEEF);
    assert_eq!(cpu.sp, 0xFFFE);
}

#[test]
fn load_through_hl() {
    let mut cpu = Cpu::default();
    cpu.pc = 0x200;
    cpu.registers.set_hl(0xC123);
    cpu.registers.a = 0x42;
    let next = cpu
        .execute(Instruction::Ld(LoadType::Byte(LoadByteTarget::Hli, LoadByteSource::A)))
        .unwrap();
    assert_eq!(next, 0x201);
    assert_eq!(cpu.bus.read_byte(0xC123), Ok(0x42));
    assert_eq!(cpu.registers.get_hl(), 0xC123);
    cpu.execute(Instruction::Ld(LoadType::Byte(LoadByteTarget::E, LoadByteSource::Hli))).unwrap();
    assert_eq!(cpu.registers.e, 0x42);
}

#[test]
fn unsupported_load_fails() {
    let mut cpu = Cpu::default();
    assert_eq!(
        cpu.execute(Instruction::Ld(LoadType::Word)),
        Err(CpuError::UnsupportedLoad(LoadType::Word))
    );
}

#[test]
fn io_access_fails() {
    let mut bus = MemoryBus::new();
    assert_eq!(
        bus.read_byte(0xFF40),
        Err(Unimplemented { access: Access::Read, address: 0xFF40 })
    );
    assert_eq!(
        bus.write_byte(0xFFFF, 1),
        Err(Unimplemented { access: Access::Write, address: 0xFFFF })
    );
    let mut cpu = Cpu::default();
    cpu.registers.set_hl(0xFF10);
    assert_eq!(
        cpu.execute(Instruction::Ld(LoadType::Byte(LoadByteTarget::A, LoadByteSource::Hli))),
        Err(CpuError::Memory(Unimplemented { access: Access::Read, address: 0xFF10 }))
    );
}

#[test]
fn echo_ram_mirrors_working_ram() {
    let mut bus = MemoryBus::new();
    bus.write_byte(0xC010, 0x99).unwrap();
    assert_eq!(bus.read_byte(0xE010), Ok(0x99));
    bus.write_byte(0xFDFF, 0x11).unwrap();
    assert_eq!(bus.read_byte(0xDDFF), Ok(0x11));
}

#[test]
fn unusable_region_reads_zero() {
    let mut bus = MemoryBus::new();
    bus.write_byte(0xFEA5, 0x77).unwrap();
    assert_eq!(bus.read_byte(0xFEA5), Ok(0));
}

#[test]
fn boot_rom_overlays_until_unmapped() {
    let mut bank0 = vec![0u8; 0x4000];
    bank0[0x10] = 0xAA;
    bank0[0x200] = 0xBB;
    let mut bank_n = vec![0u8; 0x4000];
    bank_n[0] = 0xCC;
    let mut boot = vec![0u8; 0x100];
    boot[0x10] = 0x55;
    let mut bus = MemoryBus::with_cartridge(Some(boot), bank0, bank_n);
    assert_eq!(bus.read_byte(0x0010), Ok(0x55));
    assert_eq!(bus.read_byte(0x0200), Ok(0xBB));
    assert_eq!(bus.read_byte(0x4000), Ok(0xCC));
    bus.unmap_boot_rom();
    assert_eq!(bus.read_byte(0x0010), Ok(0xAA));
    bus.write_byte(0x0010, 0x01).unwrap();
    assert_eq!(bus.read_byte(0x0010), Ok(0x01));
}

#[test]
fn tile_row_decodes_low_plane() {
    let mut bus = MemoryBus::new();
    bus.write_byte(0x8000, 0xFF).unwrap();
    bus.write_byte(0x8001, 0x00).unwrap();
    for column in 0..8 {
        assert_eq!(bus.tile_pixel(0, 0, column), TilePixelValue::One);
    }
    assert_eq!(bus.tile_pixel(0, 1, 0), TilePixelValue::Zero);
}

#[test]
fn tile_row_decodes_both_planes() {
    let mut bus = MemoryBus::new();
    // Tile 1, row 3: low plane 0b1010_0000, high plane 0b1100_0000.
    bus.write_byte(0x8016, 0b1010_0000).unwrap();
    bus.write_byte(0x8017, 0b1100_0000).unwrap();
    assert_eq!(bus.tile_pixel(1, 3, 0), TilePixelValue::Three);
    assert_eq!(bus.tile_pixel(1, 3, 1), TilePixelValue::Two);
    assert_eq!(bus.tile_pixel(1, 3, 2), TilePixelValue::One);
    assert_eq!(bus.tile_pixel(1, 3, 3), TilePixelValue::Zero);
    // A write in the background map leaves the cache alone.
    bus.write_byte(0x9800, 0xFF).unwrap();
    assert_eq!(bus.read_byte(0x9800), Ok(0xFF));
    assert_eq!(bus.tile_pixel(383, 7, 7), TilePixelValue::Zero);
}
