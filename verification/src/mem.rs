//! The CPS-3 memory as the SH-2 sees it through its SH7604 bus interface:
//! main ram, readable and writable in bytes, words and long words, the game
//! program flash, readable only, and a video register whose word writes are
//! dropped.

use vstd::prelude::*;

use crate::common::{
    into_boxed_bytes, lemma_disjoint_read_unchanged, lemma_read_after_write, store_bytes, MemAccess,
};
use crate::game_info::GameRom;
use crate::mem_defs::{
    in_game_instr, in_main_ram, lemma_window_offset, GAME_INSTR_START, MAIN_RAM_END,
    MAIN_RAM_LEN, MAIN_RAM_START,
};

verus! {

/// A video register whose purpose is not known yet; word writes to it are
/// accepted and dropped.
pub const VIDEO_REG_IGNORED: u32 = 0x040c0082;

/// The flash roms and the main ram as the cpu sees them.
pub struct Cps3Mem {
    pub rom: GameRom,
    pub main_ram: Box<[u8]>,
}

impl Cps3Mem {
    /// `len` bytes from `addr` on are all in one readable window.
    pub open spec fn readable(&self, addr: u32, len: nat) -> bool {
        ||| in_main_ram(addr) && addr - MAIN_RAM_START + len <= self.main_ram@.len()
        ||| in_game_instr(addr) && addr - GAME_INSTR_START + len <= self.rom.instr@.len()
    }

    /// `len` bytes from `addr` on are all in main ram.
    pub open spec fn writable(&self, addr: u32, len: nat) -> bool {
        in_main_ram(addr) && addr - MAIN_RAM_START + len <= self.main_ram@.len()
    }

    /// The `len` bytes that the memory shows from `addr` on.
    pub open spec fn bytes_at(&self, addr: u32, len: nat) -> Seq<u8> {
        if in_main_ram(addr) {
            let off = addr - MAIN_RAM_START;
            self.main_ram@.subrange(off, off + len)
        } else {
            let off = addr - GAME_INSTR_START;
            self.rom.instr@.subrange(off, off + len)
        }
    }

    /// `self` is `pre` with `data` stored in main ram at bus address `addr`.
    pub open spec fn wrote(&self, pre: &Self, addr: u32, data: Seq<u8>) -> bool {
        &&& self.rom == pre.rom
        &&& self.main_ram@ == store_bytes(pre.main_ram@, addr - MAIN_RAM_START, data)
    }

    /// A memory over `rom`, with all of main ram cleared.
    pub fn new(rom: GameRom) -> (mem: Cps3Mem)
        ensures
            mem.rom == rom,
            mem.main_ram@ == Seq::new(MAIN_RAM_LEN as nat, |i: int| 0u8),
    {
        let ram = vec![0u8; MAIN_RAM_LEN as usize];
        let mem = Cps3Mem { rom: rom, main_ram: into_boxed_bytes(ram) };
        assert(mem.main_ram@ =~= Seq::new(MAIN_RAM_LEN as nat, |i: int| 0u8));
        mem
    }

    /// Whether `len` bytes from `addr` on can be read.
    pub fn is_readable(&self, addr: u32, len: u32) -> (b: bool)
        ensures
            b == self.readable(addr, len as nat),
    {
        if MAIN_RAM_START <= addr && addr <= MAIN_RAM_END {
            (addr - MAIN_RAM_START) as u64 + len as u64 <= self.main_ram.len() as u64
        } else if GAME_INSTR_START <= addr && addr <= crate::mem_defs::GAME_INSTR_END {
            (addr - GAME_INSTR_START) as u64 + len as u64 <= self.rom.instr.len() as u64
        } else {
            false
        }
    }

    /// Whether `len` bytes from `addr` on can be written.
    pub fn is_writable(&self, addr: u32, len: u32) -> (b: bool)
        ensures
            b == self.writable(addr, len as nat),
    {
        if MAIN_RAM_START <= addr && addr <= MAIN_RAM_END {
            (addr - MAIN_RAM_START) as u64 + len as u64 <= self.main_ram.len() as u64
        } else {
            false
        }
    }

    /// Loads a big-endian value from bus address `addr`.
    pub fn read_mem<T: MemAccess>(&self, addr: u32) -> (r: T)
        requires
            self.readable(addr, T::byte_len()),
        ensures
            r == T::value_of(self.bytes_at(addr, T::byte_len())),
    {
        proof {
            lemma_window_offset(addr);
        }
        if MAIN_RAM_START <= addr && addr <= MAIN_RAM_END {
            let offset = (addr ^ MAIN_RAM_START) as usize;
            T::read_mem(&self.main_ram, offset)
        } else {
            let offset = (addr ^ GAME_INSTR_START) as usize;
            T::read_mem(&self.rom.instr, offset)
        }
    }

    /// Stores a big-endian value in main ram at bus address `addr`.
    pub fn write_mem<T: MemAccess>(&mut self, addr: u32, val: T)
        requires
            old(self).writable(addr, T::byte_len()),
        ensures
            final(self).wrote(old(self), addr, T::bytes_of(val)),
    {
        proof {
            lemma_window_offset(addr);
        }
        let offset = (addr ^ MAIN_RAM_START) as usize;
        T::write_mem(&mut self.main_ram, offset, val);
    }

    /// Loads the byte at `addr`.
    pub fn read_byte(&self, addr: u32) -> (r: u8)
        requires
            self.readable(addr, 1),
        ensures
            r == u8::value_of(self.bytes_at(addr, 1)),
    {
        self.read_mem::<u8>(addr)
    }

    /// Stores the byte `val` at `addr`.
    pub fn write_byte(&mut self, addr: u32, val: u8)
        requires
            old(self).writable(addr, 1),
        ensures
            final(self).wrote(old(self), addr, u8::bytes_of(val)),
    {
        self.write_mem::<u8>(addr, val)
    }

    /// Loads the 16-bit word at `addr`.
    pub fn read_word(&self, addr: u32) -> (r: u16)
        requires
            self.readable(addr, 2),
        ensures
            r == u16::value_of(self.bytes_at(addr, 2)),
    {
        self.read_mem::<u16>(addr)
    }

    /// Stores the 16-bit word `val` at `addr`; a write to the video register
    /// at `VIDEO_REG_IGNORED` is dropped.
    pub fn write_word(&mut self, addr: u32, val: u16)
        requires
            addr == VIDEO_REG_IGNORED || old(self).writable(addr, 2),
        ensures
            addr == VIDEO_REG_IGNORED ==> *final(self) == *old(self),
            addr != VIDEO_REG_IGNORED ==> final(self).wrote(old(self), addr, u16::bytes_of(val)),
    {
        if addr == VIDEO_REG_IGNORED {
        } else {
            self.write_mem::<u16>(addr, val)
        }
    }

    /// Loads the 32-bit long word at `addr`.
    pub fn read_long(&self, addr: u32) -> (r: u32)
        requires
            self.readable(addr, 4),
        ensures
            r == u32::value_of(self.bytes_at(addr, 4)),
    {
        self.read_mem::<u32>(addr)
    }

    /// Stores the 32-bit long word `val` at `addr`.
    pub fn write_long(&mut self, addr: u32, val: u32)
        requires
            old(self).writable(addr, 4),
        ensures
            final(self).wrote(old(self), addr, u32::bytes_of(val)),
    {
        self.write_mem::<u32>(addr, val)
    }
}

/// A load from an address just written through the memory gives back the
/// written value.
pub proof fn lemma_mem_read_after_write<T: MemAccess>(pre: Cps3Mem, post: Cps3Mem, addr: u32, val: T)
    requires
        pre.writable(addr, T::byte_len()),
        post.wrote(&pre, addr, T::bytes_of(val)),
    ensures
        post.readable(addr, T::byte_len()),
        T::value_of(post.bytes_at(addr, T::byte_len())) == val,
{
    T::lemma_value_roundtrip(val);
    lemma_read_after_write(pre.main_ram@, addr - MAIN_RAM_START, val);
}

/// A write through the memory changes neither the roms nor what a load of any
/// range that does not overlap the written bytes gives.
pub proof fn lemma_mem_write_keeps_rest<T: MemAccess, U: MemAccess>(
    pre: Cps3Mem,
    post: Cps3Mem,
    addr: u32,
    val: T,
    other: u32,
)
    requires
        pre.writable(addr, T::byte_len()),
        post.wrote(&pre, addr, T::bytes_of(val)),
        pre.readable(other, U::byte_len()),
        other as int + U::byte_len() <= addr || addr + T::byte_len() <= other,
    ensures
        post.rom == pre.rom,
        post.readable(other, U::byte_len()),
        U::value_of(post.bytes_at(other, U::byte_len())) == U::value_of(
            pre.bytes_at(other, U::byte_len()),
        ),
{
    T::lemma_value_roundtrip(val);
    if in_main_ram(other) {
        lemma_disjoint_read_unchanged::<T, U>(
            pre.main_ram@,
            addr - MAIN_RAM_START,
            val,
            other - MAIN_RAM_START,
        );
    }
}

/// With main ram at its full size, as `new` makes it, every access that lies
/// inside the main ram window can be read and written.
pub proof fn lemma_mem_ram_window_mapped(m: Cps3Mem, addr: u32, len: nat)
    requires
        m.main_ram@.len() == MAIN_RAM_LEN,
        MAIN_RAM_START <= addr,
        addr + len <= MAIN_RAM_END,
    ensures
        m.readable(addr, len),
        m.writable(addr, len),
{
}

/// Exactly the ranges that start inside a window and stay within the memory
/// that backs it can be read: main ram in the main ram window, the program
/// rom in the program window. Exactly those inside main ram can be written.
pub proof fn lemma_mem_mapped_ranges(m: Cps3Mem, addr: u32, len: nat)
    ensures
        m.readable(addr, len) <==> ({
            ||| 0x02000000 <= addr <= 0x02080000 && addr - 0x02000000 + len <= m.main_ram@.len()
            ||| 0x06000000 <= addr <= 0x07000000 && addr - 0x06000000 + len <= m.rom.instr@.len()
        }),
        m.writable(addr, len) <==> (0x02000000 <= addr <= 0x02080000 && addr - 0x02000000 + len
            <= m.main_ram@.len()),
{
}

/// A load sees the memory behind the window at the address's distance from
/// the window's start: main ram in the main ram window, the program rom in
/// the program window.
pub proof fn lemma_mem_window_contents(m: Cps3Mem, addr: u32, len: nat)
    requires
        m.readable(addr, len),
    ensures
        0x02000000 <= addr <= 0x02080000 ==> m.bytes_at(addr, len) == m.main_ram@.subrange(
            addr - 0x02000000,
            addr - 0x02000000 + len,
        ),
        0x06000000 <= addr <= 0x07000000 ==> m.bytes_at(addr, len) == m.rom.instr@.subrange(
            addr - 0x06000000,
            addr - 0x06000000 + len,
        ),
{
}

} // verus!
