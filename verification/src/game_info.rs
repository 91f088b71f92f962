//! The description of the supported game: its decryption key and the roms
//! that make it up, with their sizes and checksums.

use vstd::prelude::*;

verus! {

/// One rom image of a game set: its file name, size in bytes and crc32.
pub struct DataSlice {
    pub name: String,
    pub size: u32,
    pub crc: u32,
}

/// The two words of a game's decryption key.
pub struct GameKey {
    pub a: u32,
    pub b: u32,
}

/// What is known of a game: its short id, where its files are, its title,
/// its key, and the bios, program and graphics roms.
pub struct GameInfo {
    pub id: String,
    pub path: String,
    pub name: String,
    pub key: GameKey,
    pub bios: DataSlice,
    pub instr: Vec<DataSlice>,
    pub gfx: Vec<DataSlice>,
}

/// The contents of a game's flash roms, once loaded.
pub struct GameRom {
    pub bios: Box<[u8]>,
    pub instr: Box<[u8]>,
    pub gfx: Box<[u8]>,
}

/// Size in bytes of each program and graphics SIMM rom.
pub open spec fn simm_rom_size() -> u32 {
    0x200000
}

/// The decimal digit `d` as a character.
pub open spec fn digit_char(d: nat) -> char {
    (48 + d) as char
}

/// File name of SIMM rom `slot` on SIMM `bank`: `sfiii3n-simm<bank>.<slot>`.
pub open spec fn simm_name(bank: nat, slot: nat) -> Seq<char> {
    "sfiii3n-simm"@ + seq![digit_char(bank), '.', digit_char(slot)]
}

/// Crc32 of each of the 8 program roms, SIMM 1 slots 0 to 3 then SIMM 2.
pub open spec fn instr_crcs() -> Seq<u32> {
    seq![
        0x11dfd3cd, 0xc50585e6, 0x8e011d9b, 0xdca8d92f,
        0x06eb969e, 0xe7039f82, 0x645c96f7, 0x610efab1,
    ]
}

/// Crc32 of each of the 32 graphics roms, SIMM 3 slots 0 to 7, then SIMMs 4, 5 and 6.
pub open spec fn gfx_crcs() -> Seq<u32> {
    seq![
        0x7baa1f79, 0x234bf8fe, 0xd9ebc308, 0x293cba77,
        0x6055e747, 0x499aa6fc, 0x6c13879e, 0xcf4f8ede,
        0x091fd5ba, 0x0bca8917, 0xa0fd578b, 0x4bf8c699,
        0x137b8785, 0x4fb70671, 0x832374a4, 0x1c88576d,
        0xc67d9190, 0x6cb79868, 0xdf69930e, 0x333754e0,
        0x78f6d417, 0x8ccad9b1, 0x85de59e5, 0xee7e29b3,
        0x8da69042, 0x1c8c7ac4, 0xa671341d, 0x1a990249,
        0x20cb39ac, 0x5f844b2f, 0x450e8d28, 0xcc5f4187,
    ]
}

/// `d` describes a rom with this name, size and crc.
pub open spec fn slice_is(d: DataSlice, name: Seq<char>, size: u32, crc: u32) -> bool {
    &&& d.name@ == name
    &&& d.size == size
    &&& d.crc == crc
}

/// Program rom `i` (0 to 7) sits on SIMM 1 or 2, four to a SIMM.
pub open spec fn instr_slice_ok(d: DataSlice, i: int) -> bool {
    slice_is(d, simm_name((1 + i / 4) as nat, (i % 4) as nat), simm_rom_size(), instr_crcs()[i])
}

/// Graphics rom `i` (0 to 31) sits on SIMMs 3 to 6, eight to a SIMM.
pub open spec fn gfx_slice_ok(d: DataSlice, i: int) -> bool {
    slice_is(d, simm_name((3 + i / 8) as nat, (i % 8) as nat), simm_rom_size(), gfx_crcs()[i])
}

/// The description of Street Fighter III 3rd Strike (Japan 990608, no CD),
/// whose files are to be found at `path`.
pub fn get_game_info(path: String) -> (info: GameInfo)
    ensures
        info.id@ == "sfiiin"@,
        info.path@ == path@,
        info.name@ == "Street Fighter III 3rd Strike: Fight for the Future (Japan 990608, NO CD)"@,
        info.key.a == 0xa55432b4,
        info.key.b == 0x0c129981,
        slice_is(info.bios, "sfiii3_japan_nocd.29f400.u2"@, 0x080000, 0x1edc6366),
        info.instr@.len() == 8,
        forall|i: int| 0 <= i < 8 ==> instr_slice_ok(#[trigger] info.instr@[i], i),
        info.gfx@.len() == 32,
        forall|i: int| 0 <= i < 32 ==> gfx_slice_ok(#[trigger] info.gfx@[i], i),
{
    let instr = vec![
        DataSlice { name: "sfiii3n-simm1.0".to_owned(), size: 0x200000, crc: 0x11dfd3cd },
        DataSlice { name: "sfiii3n-simm1.1".to_owned(), size: 0x200000, crc: 0xc50585e6 },
        DataSlice { name: "sfiii3n-simm1.2".to_owned(), size: 0x200000, crc: 0x8e011d9b },
        DataSlice { name: "sfiii3n-simm1.3".to_owned(), size: 0x200000, crc: 0xdca8d92f },
        DataSlice { name: "sfiii3n-simm2.0".to_owned(), size: 0x200000, crc: 0x06eb969e },
        DataSlice { name: "sfiii3n-simm2.1".to_owned(), size: 0x200000, crc: 0xe7039f82 },
        DataSlice { name: "sfiii3n-simm2.2".to_owned(), size: 0x200000, crc: 0x645c96f7 },
        DataSlice { name: "sfiii3n-simm2.3".to_owned(), size: 0x200000, crc: 0x610efab1 },
    ];
    let gfx = vec![
        DataSlice { name: "sfiii3n-simm3.0".to_owned(), size: 0x200000, crc: 0x7baa1f79 },
        DataSlice { name: "sfiii3n-simm3.1".to_owned(), size: 0x200000, crc: 0x234bf8fe },
        DataSlice { name: "sfiii3n-simm3.2".to_owned(), size: 0x200000, crc: 0xd9ebc308 },
        DataSlice { name: "sfiii3n-simm3.3".to_owned(), size: 0x200000, crc: 0x293cba77 },
        DataSlice { name: "sfiii3n-simm3.4".to_owned(), size: 0x200000, crc: 0x6055e747 },
        DataSlice { name: "sfiii3n-simm3.5".to_owned(), size: 0x200000, crc: 0x499aa6fc },
        DataSlice { name: "sfiii3n-simm3.6".to_owned(), size: 0x200000, crc: 0x6c13879e },
        DataSlice { name: "sfiii3n-simm3.7".to_owned(), size: 0x200000, crc: 0xcf4f8ede },
        DataSlice { name: "sfiii3n-simm4.0".to_owned(), size: 0x200000, crc: 0x091fd5ba },
        DataSlice { name: "sfiii3n-simm4.1".to_owned(), size: 0x200000, crc: 0x0bca8917 },
        DataSlice { name: "sfiii3n-simm4.2".to_owned(), size: 0x200000, crc: 0xa0fd578b },
        DataSlice { name: "sfiii3n-simm4.3".to_owned(), size: 0x200000, crc: 0x4bf8c699 },
        DataSlice { name: "sfiii3n-simm4.4".to_owned(), size: 0x200000, crc: 0x137b8785 },
        DataSlice { name: "sfiii3n-simm4.5".to_owned(), size: 0x200000, crc: 0x4fb70671 },
        DataSlice { name: "sfiii3n-simm4.6".to_owned(), size: 0x200000, crc: 0x832374a4 },
        DataSlice { name: "sfiii3n-simm4.7".to_owned(), size: 0x200000, crc: 0x1c88576d },
        DataSlice { name: "sfiii3n-simm5.0".to_owned(), size: 0x200000, crc: 0xc67d9190 },
        DataSlice { name: "sfiii3n-simm5.1".to_owned(), size: 0x200000, crc: 0x6cb79868 },
        DataSlice { name: "sfiii3n-simm5.2".to_owned(), size: 0x200000, crc: 0xdf69930e },
        DataSlice { name: "sfiii3n-simm5.3".to_owned(), size: 0x200000, crc: 0x333754e0 },
        DataSlice { name: "sfiii3n-simm5.4".to_owned(), size: 0x200000, crc: 0x78f6d417 },
        DataSlice { name: "sfiii3n-simm5.5".to_owned(), size: 0x200000, crc: 0x8ccad9b1 },
        DataSlice { name: "sfiii3n-simm5.6".to_owned(), size: 0x200000, crc: 0x85de59e5 },
        DataSlice { name: "sfiii3n-simm5.7".to_owned(), size: 0x200000, crc: 0xee7e29b3 },
        DataSlice { name: "sfiii3n-simm6.0".to_owned(), size: 0x200000, crc: 0x8da69042 },
        DataSlice { name: "sfiii3n-simm6.1".to_owned(), size: 0x200000, crc: 0x1c8c7ac4 },
        DataSlice { name: "sfiii3n-simm6.2".to_owned(), size: 0x200000, crc: 0xa671341d },
        DataSlice { name: "sfiii3n-simm6.3".to_owned(), size: 0x200000, crc: 0x1a990249 },
        DataSlice { name: "sfiii3n-simm6.4".to_owned(), size: 0x200000, crc: 0x20cb39ac },
        DataSlice { name: "sfiii3n-simm6.5".to_owned(), size: 0x200000, crc: 0x5f844b2f },
        DataSlice { name: "sfiii3n-simm6.6".to_owned(), size: 0x200000, crc: 0x450e8d28 },
        DataSlice { name: "sfiii3n-simm6.7".to_owned(), size: 0x200000, crc: 0xcc5f4187 },
    ];
    // Each rom file name spells the SIMM bank and slot that the rom sits in.
    proof {
        reveal_strlit("sfiii3n-simm");
        reveal_strlit("sfiii3n-simm1.0");
        assert("sfiii3n-simm1.0"@ =~= simm_name(1, 0));
        reveal_strlit("sfiii3n-simm1.1");
        assert("sfiii3n-simm1.1"@ =~= simm_name(1, 1));
        reveal_strlit("sfiii3n-simm1.2");
        assert("sfiii3n-simm1.2"@ =~= simm_name(1, 2));
        reveal_strlit("sfiii3n-simm1.3");
        assert("sfiii3n-simm1.3"@ =~= simm_name(1, 3));
        reveal_strlit("sfiii3n-simm2.0");
        assert("sfiii3n-simm2.0"@ =~= simm_name(2, 0));
        reveal_strlit("sfiii3n-simm2.1");
        assert("sfiii3n-simm2.1"@ =~= simm_name(2, 1));
        reveal_strlit("sfiii3n-simm2.2");
        assert("sfiii3n-simm2.2"@ =~= simm_name(2, 2));
        reveal_strlit("sfiii3n-simm2.3");
        assert("sfiii3n-simm2.3"@ =~= simm_name(2, 3));
        reveal_strlit("sfiii3n-simm3.0");
        assert("sfiii3n-simm3.0"@ =~= simm_name(3, 0));
        reveal_strlit("sfiii3n-simm3.1");
        assert("sfiii3n-simm3.1"@ =~= simm_name(3, 1));
        reveal_strlit("sfiii3n-simm3.2");
        assert("sfiii3n-simm3.2"@ =~= simm_name(3, 2));
        reveal_strlit("sfiii3n-simm3.3");
        assert("sfiii3n-simm3.3"@ =~= simm_name(3, 3));
        reveal_strlit("sfiii3n-simm3.4");
        assert("sfiii3n-simm3.4"@ =~= simm_name(3, 4));
        reveal_strlit("sfiii3n-simm3.5");
        assert("sfiii3n-simm3.5"@ =~= simm_name(3, 5));
        reveal_strlit("sfiii3n-simm3.6");
        assert("sfiii3n-simm3.6"@ =~= simm_name(3, 6));
        reveal_strlit("sfiii3n-simm3.7");
        assert("sfiii3n-simm3.7"@ =~= simm_name(3, 7));
        reveal_strlit("sfiii3n-simm4.0");
        assert("sfiii3n-simm4.0"@ =~= simm_name(4, 0));
        reveal_strlit("sfiii3n-simm4.1");
        assert("sfiii3n-simm4.1"@ =~= simm_name(4, 1));
        reveal_strlit("sfiii3n-simm4.2");
        assert("sfiii3n-simm4.2"@ =~= simm_name(4, 2));
        reveal_strlit("sfiii3n-simm4.3");
        assert("sfiii3n-simm4.3"@ =~= simm_name(4, 3));
        reveal_strlit("sfiii3n-simm4.4");
        assert("sfiii3n-simm4.4"@ =~= simm_name(4, 4));
        reveal_strlit("sfiii3n-simm4.5");
        assert("sfiii3n-simm4.5"@ =~= simm_name(4, 5));
        reveal_strlit("sfiii3n-simm4.6");
        assert("sfiii3n-simm4.6"@ =~= simm_name(4, 6));
        reveal_strlit("sfiii3n-simm4.7");
        assert("sfiii3n-simm4.7"@ =~= simm_name(4, 7));
        reveal_strlit("sfiii3n-simm5.0");
        assert("sfiii3n-simm5.0"@ =~= simm_name(5, 0));
        reveal_strlit("sfiii3n-simm5.1");
        assert("sfiii3n-simm5.1"@ =~= simm_name(5, 1));
        reveal_strlit("sfiii3n-simm5.2");
        assert("sfiii3n-simm5.2"@ =~= simm_name(5, 2));
        reveal_strlit("sfiii3n-simm5.3");
        assert("sfiii3n-simm5.3"@ =~= simm_name(5, 3));
        reveal_strlit("sfiii3n-simm5.4");
        assert("sfiii3n-simm5.4"@ =~= simm_name(5, 4));
        reveal_strlit("sfiii3n-simm5.5");
        assert("sfiii3n-simm5.5"@ =~= simm_name(5, 5));
        reveal_strlit("sfiii3n-simm5.6");
        assert("sfiii3n-simm5.6"@ =~= simm_name(5, 6));
        reveal_strlit("sfiii3n-simm5.7");
        assert("sfiii3n-simm5.7"@ =~= simm_name(5, 7));
        reveal_strlit("sfiii3n-simm6.0");
        assert("sfiii3n-simm6.0"@ =~= simm_name(6, 0));
        reveal_strlit("sfiii3n-simm6.1");
        assert("sfiii3n-simm6.1"@ =~= simm_name(6, 1));
        reveal_strlit("sfiii3n-simm6.2");
        assert("sfiii3n-simm6.2"@ =~= simm_name(6, 2));
        reveal_strlit("sfiii3n-simm6.3");
        assert("sfiii3n-simm6.3"@ =~= simm_name(6, 3));
        reveal_strlit("sfiii3n-simm6.4");
        assert("sfiii3n-simm6.4"@ =~= simm_name(6, 4));
        reveal_strlit("sfiii3n-simm6.5");
        assert("sfiii3n-simm6.5"@ =~= simm_name(6, 5));
        reveal_strlit("sfiii3n-simm6.6");
        assert("sfiii3n-simm6.6"@ =~= simm_name(6, 6));
        reveal_strlit("sfiii3n-simm6.7");
        assert("sfiii3n-simm6.7"@ =~= simm_name(6, 7));
    }
    GameInfo {
        id: "sfiiin".to_owned(),
        path: path,
        name: "Street Fighter III 3rd Strike: Fight for the Future (Japan 990608, NO CD)".to_owned(),
        key: GameKey { a: 0xa55432b4, b: 0x0c129981 },
        bios: DataSlice { name: "sfiii3_japan_nocd.29f400.u2".to_owned(), size: 0x080000, crc: 0x1edc6366 },
        instr: instr,
        gfx: gfx,
    }
}

} // verus!
