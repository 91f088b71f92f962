use hayate::game_info::get_game_info;

#[test]
fn game_info_table() {
    let info = get_game_info(String::from("/roms/sfiii3n.zip"));
    assert_eq!(info.id, "sfiiin");
    assert_eq!(info.path, "/roms/sfiii3n.zip");
    assert_eq!(
        info.name,
        "Street Fighter III 3rd Strike: Fight for the Future (Japan 990608, NO CD)"
    );
    assert_eq!((info.key.a, info.key.b), (0xa55432b4, 0x0c129981));
    assert_eq!(info.bios.name, "sfiii3_japan_nocd.29f400.u2");
    assert_eq!((info.bios.size, info.bios.crc), (0x080000, 0x1edc6366));
    assert_eq!(info.instr.len(), 8);
    assert_eq!(info.gfx.len(), 32);
}

#[test]
fn simm_roms_follow_their_naming() {
    let info = get_game_info(String::new());
    for (i, d) in info.instr.iter().enumerate() {
        assert_eq!(d.name, format!("sfiii3n-simm{}.{}", 1 + i / 4, i % 4));
        assert_eq!(d.size, 0x200000);
    }
    for (i, d) in info.gfx.iter().enumerate() {
        assert_eq!(d.name, format!("sfiii3n-simm{}.{}", 3 + i / 8, i % 8));
        assert_eq!(d.size, 0x200000);
    }
    assert_eq!(info.instr[0].crc, 0x11dfd3cd);
    assert_eq!(info.instr[7].crc, 0x610efab1);
    assert_eq!(info.gfx[0].crc, 0x7baa1f79);
    assert_eq!(info.gfx[13].crc, 0x4fb70671);
    assert_eq!(info.gfx[31].crc, 0xcc5f4187);
}
