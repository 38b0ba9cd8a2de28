use std::sync::Arc;

use snes_core::cartridge::info::game_title;
use snes_core::cartridge::info::{self, InfoError};
use snes_core::cartridge::{CartAddr, CartAddrRange, Cartridge};
use snes_core::cpu::{
    Cpu, CpuFault, ACC_8BIT_MODE_FLAG, CARRY_STATUS_FLAG, INDEX_8BIT_MODE_FLAG,
    IRQ_DISABLED_MODE_FLAG, NEGATIVE_STATUS_FLAG, PROGRAM_BREAK_INTERRUPT_FLAG, ZERO_STATUS_FLAG,
};
use snes_core::mem::model::lomem::LoMem;
use snes_core::mem::model::{MemType, Model, RelativeAddr};
use snes_core::mem::{Mem, MemFault};
use snes_core::util::{InstrSize, MemAddr};

/// A LoMem address space whose ROM starts with `code` (visible at $00:8000).
fn mem_with(code: &[u8]) -> Mem<LoMem> {
    let mut rom = vec![0u8; 0x8000];
    rom[..code.len()].copy_from_slice(code);
    Mem { model: LoMem::new(), cartridge: Arc::new(Cartridge::from_bytes(rom)) }
}

/// One step, which must not fault.
fn step(cpu: &mut Cpu, mem: &Mem<LoMem>) {
    assert_eq!(cpu.step_fault(mem), None);
    cpu.next_instr(mem);
}

fn cpu_at(pc: usize, flags: u8, emulation: bool, acc: u16) -> Cpu {
    Cpu { pc: MemAddr(pc), flags, emulation, acc, dp: 0, stop: false }
}

fn header_rom(title: &[u8], reset: [u8; 2]) -> Vec<u8> {
    let mut rom = vec![0u8; 0x8000];
    rom[0x7FC0..0x7FC0 + title.len()].copy_from_slice(title);
    rom[0x7FFC] = reset[0];
    rom[0x7FFD] = reset[1];
    rom
}

#[test]
fn lomem_maps_upper_half_of_low_banks() {
    let m = LoMem::new();
    assert!(m.maps(MemAddr(0x00_8000)));
    assert_eq!(m.map_raw_addr(MemAddr(0x00_8000)), RelativeAddr(MemType::Cartridge, 0x0000));
    assert_eq!(m.map_raw_addr(MemAddr(0x01_8123)), RelativeAddr(MemType::Cartridge, 0x1_0123));
    assert!(m.maps(MemAddr(0x3F_FFFF)));
    assert_eq!(m.map_raw_addr(MemAddr(0x3F_FFFF)), RelativeAddr(MemType::Cartridge, 0x3F_7FFF));
}

#[test]
fn lomem_rejects_lower_half_and_high_banks() {
    let m = LoMem::new();
    assert!(!m.maps(MemAddr(0x00_7FFF)));
    assert!(!m.maps(MemAddr(0x12_0000)));
    assert!(!m.maps(MemAddr(0x40_8000)));
    let mem = mem_with(&[]);
    assert_eq!(mem.check_read(MemAddr(0x00_7FFF), 1), Err(MemFault::Unmapped(MemAddr(0x00_7FFF))));
    assert_eq!(mem.check_read(MemAddr(0x40_8000), 1), Err(MemFault::Unmapped(MemAddr(0x40_8000))));
}

#[test]
fn mem_addr_bank_and_offset() {
    let a = MemAddr(0x3F_8ABC);
    assert_eq!(a.bank(), 0x3F);
    assert_eq!(a.offset(), 0x8ABC);
    assert_eq!(MemAddr(0x00_FFFF).bank(), 0);
    assert_eq!(MemAddr(0x01_0000).bank(), 1);
    assert_eq!(MemAddr(0x01_0000).offset(), 0);
}

#[test]
fn mem_addr_arithmetic() {
    assert_eq!(MemAddr(0x8000).add_size(InstrSize(3)), MemAddr(0x8003));
    assert_eq!(MemAddr(0x8000).checked_offset(1), Some(MemAddr(0x8001)));
    assert_eq!(MemAddr(usize::MAX).checked_offset(1), None);
}

#[test]
fn read_value_is_little_endian() {
    let mem = mem_with(&[0x34, 0x12]);
    assert_eq!(mem.check_read(MemAddr(0x8000), 2), Ok(()));
    assert_eq!(mem.read_value(MemAddr(0x8000), 2), 0x1234);
    assert_eq!(mem.read_value(MemAddr(0x8000), 1), 0x34);
    assert_eq!(mem.read_value(MemAddr(0x8000), 0), 0);
}

#[test]
fn read_addr_combines_like_read_value() {
    let mem = mem_with(&[0x34, 0x12, 0x7E]);
    assert_eq!(mem.read_addr(MemAddr(0x8000), 2), MemAddr(0x1234));
    assert_eq!(mem.read_addr(MemAddr(0x8000), 3), MemAddr(0x7E_1234));
    assert_eq!(mem.read_value(MemAddr(0x8001), 2) as usize, mem.read_addr(MemAddr(0x8001), 2).0);
}

#[test]
fn reads_fail_on_unmapped_or_missing_bytes() {
    let mem = mem_with(&[]);
    assert_eq!(mem.check_read(MemAddr(0x00_1234), 1), Err(MemFault::Unmapped(MemAddr(0x00_1234))));
    // $01:8000 maps to ROM offset 0x10000, past a 32 KiB ROM
    assert_eq!(mem.check_read(MemAddr(0x01_8000), 1), Err(MemFault::OutsideRom(0x1_0000)));
    // the second byte of this read falls off the end of the bank's ROM window
    assert_eq!(mem.check_read(MemAddr(0x00_FFFF), 2), Err(MemFault::Unmapped(MemAddr(0x01_0000))));
    assert_eq!(mem.check_read(MemAddr(usize::MAX), 1), Err(MemFault::Unmapped(MemAddr(usize::MAX))));
    assert_eq!(mem.check_read(MemAddr(usize::MAX - 1), 3), Err(MemFault::Unmapped(MemAddr(usize::MAX - 1))));
    assert_eq!(mem.check_read(MemAddr(0x00_8000), 0), Ok(()));
    assert_eq!(mem.access(MemAddr(0x00_FFFF)), 0);
}

#[test]
fn lda_8bit_0x80_sets_negative() {
    let mem = mem_with(&[0xA9, 0x80]);
    let mut cpu = cpu_at(0x8000, ZERO_STATUS_FLAG, true, 0);
    step(&mut cpu, &mem);
    assert!(cpu.flags & NEGATIVE_STATUS_FLAG != 0);
    assert!(cpu.flags & ZERO_STATUS_FLAG == 0);
    assert_eq!(cpu.acc, 0x0080);
    assert_eq!(cpu.pc, MemAddr(0x8002));
}

#[test]
fn lda_16bit_0x0080_leaves_negative_clear() {
    let mem = mem_with(&[0xA9, 0x80, 0x00]);
    let mut cpu = cpu_at(0x8000, NEGATIVE_STATUS_FLAG, false, 0);
    step(&mut cpu, &mem);
    assert!(cpu.flags & NEGATIVE_STATUS_FLAG == 0);
    assert_eq!(cpu.acc, 0x0080);
    assert_eq!(cpu.pc, MemAddr(0x8003));
}

#[test]
fn lda_16bit_0x8000_sets_negative() {
    let mem = mem_with(&[0xA9, 0x00, 0x80]);
    let mut cpu = cpu_at(0x8000, 0, false, 0);
    step(&mut cpu, &mem);
    assert!(cpu.flags & NEGATIVE_STATUS_FLAG != 0);
    assert_eq!(cpu.acc, 0x8000);
}

#[test]
fn lda_zero_sets_zero_flag() {
    let mem = mem_with(&[0xA9, 0x00]);
    let mut cpu = cpu_at(0x8000, NEGATIVE_STATUS_FLAG, true, 0x1200);
    step(&mut cpu, &mem);
    assert_eq!(cpu.flags, ZERO_STATUS_FLAG);
    assert_eq!(cpu.acc, 0x1200);
}

#[test]
fn lda_8bit_preserves_high_byte() {
    let mem = mem_with(&[0xA9, 0x56]);
    let mut cpu = cpu_at(0x8000, ACC_8BIT_MODE_FLAG, false, 0x1234);
    step(&mut cpu, &mem);
    assert_eq!(cpu.acc, 0x1256);
    let mut emu = cpu_at(0x8000, 0, true, 0x1234);
    step(&mut emu, &mem);
    assert_eq!(emu.acc, 0x1256);
}

#[test]
fn xce_emulation_to_native() {
    let mem = mem_with(&[0xFB]);
    let mut cpu = cpu_at(0x8000, IRQ_DISABLED_MODE_FLAG, true, 0);
    step(&mut cpu, &mem);
    assert!(!cpu.emulation);
    assert!(cpu.flags & CARRY_STATUS_FLAG != 0);
    assert!(cpu.flags & ACC_8BIT_MODE_FLAG != 0);
    assert!(cpu.flags & INDEX_8BIT_MODE_FLAG != 0);
    assert_eq!(cpu.flags, 0b0011_0101);
    assert_eq!(cpu.pc, MemAddr(0x8001));
}

#[test]
fn xce_native_to_emulation() {
    let mem = mem_with(&[0xFB]);
    let mut cpu = cpu_at(0x8000, CARRY_STATUS_FLAG | PROGRAM_BREAK_INTERRUPT_FLAG | ACC_8BIT_MODE_FLAG, false, 0);
    step(&mut cpu, &mem);
    assert!(cpu.emulation);
    assert!(cpu.flags & CARRY_STATUS_FLAG == 0);
    assert!(cpu.flags & PROGRAM_BREAK_INTERRUPT_FLAG == 0);
    assert_eq!(cpu.flags, ACC_8BIT_MODE_FLAG);
}

#[test]
fn pc_advances_by_instruction_size() {
    let mem = mem_with(&[0x18, 0x78, 0xA9, 0x05]);
    let mut cpu = cpu_at(0x8000, 0, true, 0);
    step(&mut cpu, &mem);
    assert_eq!(cpu.pc, MemAddr(0x8001));
    step(&mut cpu, &mem);
    assert_eq!(cpu.pc, MemAddr(0x8002));
    step(&mut cpu, &mem);
    assert_eq!(cpu.pc, MemAddr(0x8004));
    assert_eq!(cpu.acc, 0x05);
    assert!(cpu.flags & IRQ_DISABLED_MODE_FLAG != 0);
}

#[test]
fn unknown_opcode_is_a_fault() {
    let mem = mem_with(&[0x18, 0xFF]);
    let mut cpu = cpu_at(0x8000, CARRY_STATUS_FLAG, true, 0);
    step(&mut cpu, &mem);
    let before = cpu;
    assert_eq!(
        cpu.step_fault(&mem),
        Some(CpuFault::UnknownInstruction { opcode: 0xFF, pc: MemAddr(0x8001) })
    );
    assert_eq!(cpu, before);
    assert!(!Cpu::known_opcode(0xFF));
    assert!(Cpu::known_opcode(0xFB));
}

#[test]
fn fetch_outside_the_map_is_a_fault() {
    let mem = mem_with(&[]);
    let mut cpu = cpu_at(0x40_8000, 0, true, 0);
    assert_eq!(cpu.step_fault(&mem), Some(CpuFault::Memory(MemFault::Unmapped(MemAddr(0x40_8000)))));
}

#[test]
fn tcd_copies_acc_with_16bit_flags() {
    let mem = mem_with(&[0x5B]);
    let mut cpu = cpu_at(0x8000, 0, true, 0x8000);
    assert_eq!(cpu.handle_instr(&mem, 0x5B), InstrSize(1));
    assert_eq!(cpu.dp, 0x8000);
    assert_eq!(cpu.flags, NEGATIVE_STATUS_FLAG);
    let mut low = cpu_at(0x8000, 0, true, 0x0080);
    assert_eq!(low.handle_instr(&mem, 0x5B), InstrSize(1));
    assert_eq!(low.dp, 0x0080);
    assert_eq!(low.flags, 0);
    let mut zero = cpu_at(0x8000, NEGATIVE_STATUS_FLAG, true, 0);
    assert_eq!(zero.handle_instr(&mem, 0x5B), InstrSize(1));
    assert_eq!(zero.flags, ZERO_STATUS_FLAG);
}

#[test]
fn rep_clears_masked_bits() {
    let mem = mem_with(&[0xC2, 0x30]);
    let mut cpu = cpu_at(0x8000, 0xFF, false, 0);
    step(&mut cpu, &mem);
    assert_eq!(cpu.flags, 0xCF);
    assert_eq!(cpu.pc, MemAddr(0x8002));
}

#[test]
fn clc_and_sei() {
    let mem = mem_with(&[]);
    let mut cpu = cpu_at(0x8000, 0xFF, true, 0);
    assert_eq!(cpu.handle_instr(&mem, 0x18), InstrSize(1));
    assert_eq!(cpu.flags, 0xFE);
    let mut other = cpu_at(0x8000, 0, true, 0);
    assert_eq!(other.handle_instr(&mem, 0x78), InstrSize(1));
    assert_eq!(other.flags, IRQ_DISABLED_MODE_FLAG);
}

#[test]
fn sta_and_stz_decode_three_bytes_without_effect() {
    let mem = mem_with(&[0x8D, 0x00, 0x21, 0x9C, 0x00, 0x42]);
    let mut cpu = cpu_at(0x8000, 0, true, 0x1234);
    step(&mut cpu, &mem);
    assert_eq!(cpu.pc, MemAddr(0x8003));
    step(&mut cpu, &mem);
    assert_eq!(cpu.pc, MemAddr(0x8006));
    assert_eq!(cpu.acc, 0x1234);
    assert_eq!(cpu.flags, 0);
}

#[test]
fn operand_fetch_fault_keeps_state() {
    let mut rom = vec![0u8; 0x8000];
    rom[0x7FFF] = 0xA9;
    let mem = Mem { model: LoMem::new(), cartridge: Arc::new(Cartridge::from_bytes(rom)) };
    let cpu = cpu_at(0x00_FFFF, 0, true, 0);
    assert_eq!(cpu.step_fault(&mem), Some(CpuFault::Memory(MemFault::Unmapped(MemAddr(0x01_0000)))));
    assert_eq!(cpu.operand_bytes(0xA9), 1);
    assert_eq!(cpu_at(0, 0, false, 0).operand_bytes(0xA9), 2);
    assert_eq!(cpu.operand_bytes(0x8D), 2);
    assert_eq!(cpu.operand_bytes(0xFB), 0);
}

#[test]
fn flag_helpers() {
    let mut cpu = cpu_at(0, 0, false, 0);
    cpu.set_flag(ACC_8BIT_MODE_FLAG);
    assert!(cpu.is_flag_set(ACC_8BIT_MODE_FLAG));
    assert!(cpu.m());
    cpu.clear_flag(ACC_8BIT_MODE_FLAG);
    assert!(!cpu.m());
    cpu.emulation = true;
    assert!(cpu.m());
    cpu.set_transfer_flags(0x0080, 1);
    assert_eq!(cpu.flags, NEGATIVE_STATUS_FLAG);
    cpu.set_transfer_flags(0x0080, 2);
    assert_eq!(cpu.flags, 0);
}

#[test]
fn cartridge_byte_access() {
    let cart = Cartridge::from_bytes(vec![1, 2, 3, 4]);
    assert_eq!(cart.len(), 4);
    assert_eq!(cart.byte_at(CartAddr(2)), 3);
    assert_eq!(cart.bytes_in(CartAddrRange(CartAddr(1), CartAddr(3))), &[2, 3]);
}

#[test]
fn title_and_reset_vector_extraction() {
    let mut title = b"TESTGAME".to_vec();
    title.resize(21, b' ');
    let cart = Cartridge::from_bytes(header_rom(&title, [0x00, 0x80]));
    assert!(game_title::title_is_text(&cart));
    let info = info::from_cartridge(&cart);
    assert_eq!(info::read_header(&cart).map(|i| (i.game_title.title, i.reset_vector)),
        Ok(("TESTGAME             ".to_string(), MemAddr(0x8000))));
    assert_eq!(info.game_title.title, "TESTGAME             ");
    assert_eq!(info.reset_vector, MemAddr(0x8000));
    let cpu = Cpu::new(&info);
    assert_eq!(cpu, cpu_at(0x8000, IRQ_DISABLED_MODE_FLAG, true, 0));
}

#[test]
fn title_must_be_text() {
    let mut title = vec![b'A'; 21];
    title[3] = 0xFF;
    let cart = Cartridge::from_bytes(header_rom(&title, [0x00, 0x80]));
    assert!(!game_title::title_is_text(&cart));
    assert_eq!(info::read_header(&cart).err(), Some(InfoError::TitleNotText));
}

#[test]
fn short_rom_has_no_header() {
    let cart = Cartridge::from_bytes(vec![b'A'; 0x7FD0]);
    assert_eq!(info::read_header(&cart).err(), Some(InfoError::RomTooShort));
    let cart = Cartridge::from_bytes(vec![b'A'; 0x7FFD]);
    assert_eq!(game_title::from_cartridge(&cart).title, "AAAAAAAAAAAAAAAAAAAAA");
    assert_eq!(info::read_header(&cart).err(), Some(InfoError::RomTooShort));
}

#[test]
fn mem_addr_as_text() {
    assert_eq!(MemAddr(0x01_8ABC).to_text(), "$01:8ABC");
    assert_eq!(MemAddr(0x00_0000).to_text(), "$00:0000");
    assert_eq!(MemAddr(0x3F_00FF).to_text(), "$3F:00FF");
    assert_eq!(MemAddr(0x1FE_0001).to_text(), "$1FE:0001");
}
