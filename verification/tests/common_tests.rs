use hayate::common::MemAccess;

#[test]
fn read_u16_from_vec() {
    let word = vec![0x12, 0x34, 0x56, 0x78];
    let half_word = u16::read_mem(&word, 0);
    assert_eq!(0x1234, half_word);
}

#[test]
fn write_u16_to_vec() {
    let mut vec = vec![1, 2, 3, 4, 5, 6, 7, 8];
    u16::write_mem(&mut vec, 0, 0xEEFF);
    assert_eq!(vec, vec![0xEE, 0xFF, 3, 4, 5, 6, 7, 8]);
}

#[test]
fn read_u32_from_vec() {
    let first_word = vec![0x12, 0x34, 0x56, 0x78];
    let word = u32::read_mem(&first_word, 0);
    assert_eq!(0x12345678, word);
}

#[test]
fn write_u32_to_vec() {
    let mut vec = vec![1, 2, 3, 4, 5, 6, 7, 8];
    u32::write_mem(&mut vec, 0, 0xCCDDEEFF);
    assert_eq!(vec, vec![0xCC, 0xDD, 0xEE, 0xFF, 5, 6, 7, 8]);
}

#[test]
fn read_u8_at_offset() {
    let bytes = vec![0x12, 0x34, 0x56, 0x78];
    assert_eq!(0x56, u8::read_mem(&bytes, 2));
}

#[test]
fn write_u8_at_offset() {
    let mut bytes = vec![1, 2, 3, 4];
    u8::write_mem(&mut bytes, 3, 0xAB);
    assert_eq!(bytes, vec![1, 2, 3, 0xAB]);
}

#[test]
fn read_u16_at_last_pair() {
    let bytes = vec![0x00, 0x11, 0xFE, 0xDC];
    assert_eq!(0xFEDC, u16::read_mem(&bytes, 2));
}

#[test]
fn read_u32_at_offset() {
    let bytes = vec![0, 0xDE, 0xAD, 0xBE, 0xEF, 0];
    assert_eq!(0xDEADBEEF, u32::read_mem(&bytes, 1));
}

#[test]
fn write_u32_in_middle_keeps_neighbours() {
    let mut bytes = vec![9, 9, 9, 9, 9, 9];
    u32::write_mem(&mut bytes, 1, 0x01020304);
    assert_eq!(bytes, vec![9, 1, 2, 3, 4, 9]);
}

#[test]
fn write_then_read_gives_value_back() {
    let mut bytes = vec![0u8; 8];
    u32::write_mem(&mut bytes, 4, 0x89ABCDEF);
    assert_eq!(0x89ABCDEF, u32::read_mem(&bytes, 4));
    u16::write_mem(&mut bytes, 1, 0x8001);
    assert_eq!(0x8001, u16::read_mem(&bytes, 1));
    assert_eq!(0x89ABCDEF, u32::read_mem(&bytes, 4));
}

#[test]
fn write_back_read_value_keeps_bytes() {
    let mut bytes = vec![0x10, 0x20, 0x30, 0x40];
    let v = u32::read_mem(&bytes, 0);
    u32::write_mem(&mut bytes, 0, v);
    assert_eq!(bytes, vec![0x10, 0x20, 0x30, 0x40]);
}
