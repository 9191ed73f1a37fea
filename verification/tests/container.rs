//! Tests of the container parser, the flat memory, and the reset state.

use mpu_core::cpu::Cpu;
use mpu_core::mem::Memory;
use mpu_core::rom::{Rom, RomError};

/// A container image with the given bank counts and payload bytes.
fn image(prg_units: u8, chr_units: u8, payload: &[u8]) -> Vec<u8> {
    let mut data: Vec<u8> = vec![0u8; 16];
    data[0] = 0x4e;
    data[1] = 0x45;
    data[2] = 0x53;
    data[3] = 0x1a;
    data[4] = prg_units;
    data[5] = chr_units;
    data.extend_from_slice(payload);
    data
}

#[test]
fn rom_splits_program_and_character_banks() {
    let mut payload: Vec<u8> = vec![0u8; 16384 + 8192];
    payload[0] = 0xaa;
    payload[16383] = 0xbb;
    payload[16384] = 0xcc;
    let rom = Rom::new(image(1, 1, &payload)).expect("well-formed container");
    assert_eq!(rom.prg_rom.len(), 16384);
    assert_eq!(rom.chr_rom.len(), 8192);
    assert_eq!(rom.read(0), 0xaa);
    assert_eq!(rom.read(16383), 0xbb);
    assert_eq!(rom.chr_rom[0], 0xcc);
}

#[test]
fn rom_rejects_input_shorter_than_header() {
    let short = Rom::new(vec![0u8; 15]);
    assert!(matches!(short, Err(RomError::TooShort)));
}

#[test]
fn rom_rejects_truncated_program_bank() {
    let data = image(1, 0, &[0u8; 100]);
    assert!(matches!(Rom::new(data), Err(RomError::TooShort)));
}

#[test]
fn rom_rejects_truncated_character_bank() {
    let data = image(1, 1, &[0u8; 16384]);
    assert!(matches!(Rom::new(data), Err(RomError::TooShort)));
}

#[test]
fn rom_accepts_empty_banks() {
    let rom = Rom::new(image(0, 0, &[])).expect("header alone is enough");
    assert_eq!(rom.prg_rom.len(), 0);
    assert_eq!(rom.chr_rom.len(), 0);
}

#[test]
fn memory_reads_back_writes_across_the_space() {
    let mut memory = Memory::new();
    assert_eq!(memory.read(0x0000), 0);
    memory.write(0x12, 0x0000);
    memory.write(0x34, 0x8000);
    memory.write(0x56, 0xffff);
    assert_eq!(memory.read(0x0000), 0x12);
    assert_eq!(memory.read(0x8000), 0x34);
    assert_eq!(memory.read(0xffff), 0x56);
}

#[test]
fn reset_state_matches_the_specification() {
    let mut payload: Vec<u8> = vec![0u8; 16384];
    payload[0] = 0x07;
    payload[1] = 0x09;
    let rom = Rom::new(image(1, 0, &payload)).expect("well-formed container");
    let cpu = Cpu::new(rom);
    assert_eq!(cpu.a, 0);
    assert_eq!(cpu.x, 0);
    assert_eq!(cpu.y, 0);
    assert_eq!(cpu.pc, 0x4020);
    assert_eq!(cpu.sp, 0xfd);
    assert!(!cpu.c);
    assert!(!cpu.z);
    assert!(cpu.i);
    assert!(cpu.d);
    assert!(!cpu.b);
    assert!(cpu.v);
    assert!(!cpu.n);
    assert_eq!(cpu.memory.read(0x401f), 0x00);
    assert_eq!(cpu.memory.read(0x4020), 0x07);
    assert_eq!(cpu.memory.read(0x4021), 0x09);
}

#[test]
fn packed_status_byte_at_reset_is_0x34() {
    let rom = Rom::new(image(0, 0, &[])).expect("header alone is enough");
    let cpu = Cpu::new(rom);
    assert_eq!(cpu.flags_to_byte(), 0x34);
}
