use hayate::bus::Cps3Bus;
use hayate::cps3::reset;
use hayate::game_info::GameRom;
use hayate::mem::{Cps3Mem, VIDEO_REG_IGNORED};
use hayate::mem_defs::{
    BIOS_INSTR_END, GAME_INSTR_END, GAME_INSTR_START, MAIN_RAM_END, MAIN_RAM_LEN, MAIN_RAM_START,
};

fn small_rom() -> GameRom {
    GameRom {
        bios: vec![0u8; 4].into_boxed_slice(),
        instr: vec![0x06, 0x00, 0x01, 0x00, 0x06, 0x0F, 0xFF, 0xF0, 0xAA, 0xBB].into_boxed_slice(),
        gfx: vec![0u8; 4].into_boxed_slice(),
    }
}

#[test]
fn window_ends() {
    assert_eq!(BIOS_INSTR_END, 0x00080000);
    assert_eq!(GAME_INSTR_END, 0x07000000);
    assert_eq!(MAIN_RAM_END, 0x02080000);
}

#[test]
fn new_bus_has_cleared_ram() {
    let bus = Cps3Bus::new(small_rom());
    assert_eq!(bus.main_ram.len(), MAIN_RAM_LEN as usize);
    assert!(bus.main_ram.iter().all(|b| *b == 0));
    assert_eq!(&*bus.rom.instr, &[0x06, 0x00, 0x01, 0x00, 0x06, 0x0F, 0xFF, 0xF0, 0xAA, 0xBB][..]);
}

#[test]
fn bus_reads_back_ram_write() {
    let mut bus = Cps3Bus::new(small_rom());
    bus.write_long(MAIN_RAM_START + 0x100, 0xCAFEBABE);
    assert_eq!(bus.read_long(MAIN_RAM_START + 0x100), 0xCAFEBABE);
    assert_eq!(bus.read_word(MAIN_RAM_START + 0x100), 0xCAFE);
    assert_eq!(bus.read_word(MAIN_RAM_START + 0x102), 0xBABE);
    assert_eq!(bus.main_ram[0x100..0x104], [0xCA, 0xFE, 0xBA, 0xBE]);
    assert_eq!(bus.read_long(MAIN_RAM_START + 0x104), 0);
}

#[test]
fn bus_reads_program_rom() {
    let bus = Cps3Bus::new(small_rom());
    assert_eq!(bus.read_long(GAME_INSTR_START), 0x06000100);
    assert_eq!(bus.read_word(GAME_INSTR_START + 8), 0xAABB);
}

#[test]
fn bus_generic_access() {
    let mut bus = Cps3Bus::new(small_rom());
    bus.write_mem::<u16>(MAIN_RAM_START + 6, 0x1234);
    assert_eq!(bus.read_mem::<u16>(MAIN_RAM_START + 6), 0x1234);
    assert_eq!(bus.read_mem::<u8>(MAIN_RAM_START + 7), 0x34);
}

#[test]
fn bus_mapping_checks() {
    let bus = Cps3Bus::new(small_rom());
    assert!(bus.is_readable(MAIN_RAM_START, 4));
    assert!(bus.is_readable(MAIN_RAM_END - 4, 4));
    assert!(!bus.is_readable(MAIN_RAM_END - 2, 4));
    assert!(!bus.is_readable(MAIN_RAM_END, 1));
    assert!(bus.is_readable(GAME_INSTR_START + 6, 4));
    assert!(!bus.is_readable(GAME_INSTR_START + 8, 4));
    assert!(!bus.is_readable(0x04000000, 1));
    assert!(bus.is_writable(MAIN_RAM_START + 8, 4));
    assert!(!bus.is_writable(GAME_INSTR_START, 4));
    assert!(!bus.is_writable(0x00000010, 2));
}

#[test]
fn mem_byte_word_long_access() {
    let mut mem = Cps3Mem::new(small_rom());
    mem.write_byte(MAIN_RAM_START + 3, 0x7F);
    assert_eq!(mem.read_byte(MAIN_RAM_START + 3), 0x7F);
    mem.write_word(MAIN_RAM_START + 4, 0xBEEF);
    assert_eq!(mem.read_word(MAIN_RAM_START + 4), 0xBEEF);
    mem.write_long(MAIN_RAM_START, 0x01020304);
    assert_eq!(mem.read_long(MAIN_RAM_START), 0x01020304);
    assert_eq!(mem.read_long(MAIN_RAM_START + 4), 0xBEEF0000);
    assert_eq!(mem.read_byte(GAME_INSTR_START + 9), 0xBB);
}

#[test]
fn mem_drops_video_register_write() {
    let mut mem = Cps3Mem::new(small_rom());
    mem.write_word(VIDEO_REG_IGNORED, 0xFFFF);
    assert!(mem.main_ram.iter().all(|b| *b == 0));
    assert_eq!(VIDEO_REG_IGNORED, 0x040c0082);
}

#[test]
fn mem_write_leaves_rom() {
    let mut mem = Cps3Mem::new(small_rom());
    mem.write_long(MAIN_RAM_START, 0xFFFFFFFF);
    assert_eq!(mem.read_long(GAME_INSTR_START + 4), 0x060FFFF0);
}

#[test]
fn unmapped_addresses_are_not_readable() {
    let mem = Cps3Mem::new(small_rom());
    assert!(!mem.is_readable(0x05000000, 4));
    assert!(!mem.is_readable(GAME_INSTR_END + 1, 1));
    assert!(mem.is_readable(MAIN_RAM_END - 1, 1));
}

#[test]
fn reset_takes_vectors_from_program_rom() {
    let mem = Cps3Mem::new(small_rom());
    let r = reset(&mem);
    assert_eq!(r.pc, 0x06000100);
    assert_eq!(r.sp, 0x060FFFF0);
    assert_eq!(r.vbr, GAME_INSTR_START);
}
