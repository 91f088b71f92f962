//! The CPS-3 address map.

use vstd::prelude::*;

verus! {

/// First address of the BIOS flash.
pub const BIOS_INSTR_START: u32 = 0x00000000;
/// Size in bytes of the BIOS flash.
pub const BIOS_INSTR_LEN: u32 = 0x00080000;
/// End of the BIOS flash window.
pub const BIOS_INSTR_END: u32 = BIOS_INSTR_START + BIOS_INSTR_LEN;

/// First address of the game program flash (the SIMM instruction roms).
pub const GAME_INSTR_START: u32 = 0x06000000;
/// Size in bytes of the game program window.
pub const GAME_INSTR_LEN: u32 = 0x01000000;
/// End of the game program window.
pub const GAME_INSTR_END: u32 = GAME_INSTR_START + GAME_INSTR_LEN;

/// First address of the main work ram.
pub const MAIN_RAM_START: u32 = 0x02000000;
/// Size in bytes of the main work ram.
pub const MAIN_RAM_LEN: u32 = 0x00080000;
/// End of the main work ram window.
pub const MAIN_RAM_END: u32 = MAIN_RAM_START + MAIN_RAM_LEN;

/// `addr` lies in the main ram window. The bus decodes the window with both
/// ends included, so `MAIN_RAM_END` itself is decoded as ram.
pub open spec fn in_main_ram(addr: u32) -> bool {
    MAIN_RAM_START <= addr <= MAIN_RAM_END
}

/// `addr` lies in the game program window, both ends included.
pub open spec fn in_game_instr(addr: u32) -> bool {
    GAME_INSTR_START <= addr <= GAME_INSTR_END
}

/// Inside each window, clearing the window's base bits with an exclusive or
/// gives the offset from the window's start.
pub proof fn lemma_window_offset(addr: u32)
    ensures
        in_main_ram(addr) ==> addr ^ MAIN_RAM_START == addr - MAIN_RAM_START,
        in_game_instr(addr) ==> addr ^ GAME_INSTR_START == addr - GAME_INSTR_START,
{
    assert(0x02000000u32 <= addr <= 0x02080000u32 ==> addr ^ 0x02000000u32 == addr - 0x02000000u32)
        by (bit_vector);
    assert(0x06000000u32 <= addr <= 0x07000000u32 ==> addr ^ 0x06000000u32 == addr - 0x06000000u32)
        by (bit_vector);
}

/// The two windows do not overlap.
pub proof fn lemma_windows_disjoint(addr: u32)
    ensures
        !(in_main_ram(addr) && in_game_instr(addr)),
{
}

} // verus!
