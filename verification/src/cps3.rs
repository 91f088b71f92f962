//! Bringing the board up: what a reset loads into the cpu.

use vstd::prelude::*;

use crate::common::MemAccess;
use crate::mem::Cps3Mem;
use crate::mem_defs::GAME_INSTR_START;

verus! {

/// The cpu registers that a reset sets: program counter, stack pointer and
/// vector base register.
pub struct ResetState {
    pub pc: u32,
    pub sp: u32,
    pub vbr: u32,
}

/// The reset of the cpu on the board: the program counter and the stack
/// pointer come from the first two long words of the game program, and the
/// vector table is the start of the game program window.
pub fn reset(mem: &Cps3Mem) -> (r: ResetState)
    requires
        mem.rom.instr@.len() >= 8,
    ensures
        r.pc == u32::value_of(mem.rom.instr@.subrange(0, 4)),
        r.sp == u32::value_of(mem.rom.instr@.subrange(4, 8)),
        r.vbr == GAME_INSTR_START,
{
    let pc = u32::read_mem(&mem.rom.instr, 0);
    let sp = u32::read_mem(&mem.rom.instr, 4);
    ResetState { pc: pc, sp: sp, vbr: GAME_INSTR_START }
}

} // verus!
