//! Big-endian loads and stores of 8, 16 and 32 bit values in byte buffers.

use vstd::prelude::*;

verus! {

/// `mem` with the bytes of `data` stored from index `addr` on; every other
/// byte, and the length, stay as they were.
pub open spec fn store_bytes(mem: Seq<u8>, addr: int, data: Seq<u8>) -> Seq<u8> {
    Seq::new(mem.len(), |i: int| if addr <= i < addr + data.len() { data[i - addr] } else { mem[i] })
}

/// A value that can be loaded from and stored to a byte buffer, most
/// significant byte first (the SH-2 is a big-endian cpu).
pub trait MemAccess: Sized {
    /// How many bytes a value occupies in memory.
    spec fn byte_len() -> nat;

    /// The value that a big-endian byte sequence of length `byte_len()` encodes.
    spec fn value_of(bytes: Seq<u8>) -> Self;

    /// The big-endian bytes of a value.
    spec fn bytes_of(v: Self) -> Seq<u8>;

    /// Encoding gives `byte_len()` bytes, and decoding them gives the value back.
    proof fn lemma_value_roundtrip(v: Self)
        ensures
            Self::bytes_of(v).len() == Self::byte_len(),
            Self::value_of(Self::bytes_of(v)) == v,
    ;

    /// Decoding `byte_len()` bytes and encoding the value gives the bytes back.
    proof fn lemma_bytes_roundtrip(bytes: Seq<u8>)
        requires
            bytes.len() == Self::byte_len(),
        ensures
            Self::bytes_of(Self::value_of(bytes)) == bytes,
    ;

    /// Loads the value whose bytes start at `addr`.
    fn read_mem(src: &[u8], addr: usize) -> (r: Self)
        requires
            addr + Self::byte_len() <= src@.len(),
        ensures
            r == Self::value_of(src@.subrange(addr as int, addr + Self::byte_len())),
    ;

    /// Stores `val` at `addr`, most significant byte first.
    fn write_mem(src: &mut [u8], addr: usize, val: Self)
        requires
            addr + Self::byte_len() <= old(src)@.len(),
        ensures
            final(src)@ == store_bytes(old(src)@, addr as int, Self::bytes_of(val)),
    ;
}

impl MemAccess for u8 {
    open spec fn byte_len() -> nat {
        1
    }

    open spec fn value_of(bytes: Seq<u8>) -> u8 {
        bytes[0]
    }

    open spec fn bytes_of(v: u8) -> Seq<u8> {
        seq![v]
    }

    proof fn lemma_value_roundtrip(v: u8) {
    }

    proof fn lemma_bytes_roundtrip(bytes: Seq<u8>) {
        assert(Self::bytes_of(Self::value_of(bytes)) =~= bytes);
    }

    fn read_mem(src: &[u8], addr: usize) -> (r: u8) {
        src[addr]
    }

    fn write_mem(src: &mut [u8], addr: usize, val: u8) {
        src[addr] = val;
        assert(src@ =~= store_bytes(old(src)@, addr as int, Self::bytes_of(val)));
    }
}

impl MemAccess for u16 {
    open spec fn byte_len() -> nat {
        2
    }

    open spec fn value_of(bytes: Seq<u8>) -> u16 {
        (bytes[0] * 0x100 + bytes[1]) as u16
    }

    open spec fn bytes_of(v: u16) -> Seq<u8> {
        seq![(v / 0x100) as u8, (v % 0x100) as u8]
    }

    proof fn lemma_value_roundtrip(v: u16) {
    }

    proof fn lemma_bytes_roundtrip(bytes: Seq<u8>) {
        assert(Self::bytes_of(Self::value_of(bytes)) =~= bytes);
    }

    fn read_mem(src: &[u8], addr: usize) -> (r: u16) {
        let hi = src[addr];
        let lo = src[addr + 1];
        assert((hi as u16) << 8 | lo as u16 == hi * 0x100 + lo) by (bit_vector);
        (hi as u16) << 8 | lo as u16
    }

    fn write_mem(src: &mut [u8], addr: usize, val: u16) {
        assert(((val >> 8) & 0xFF) == val / 0x100) by (bit_vector);
        assert((val & 0xFF) == val % 0x100) by (bit_vector);
        src[addr] = ((val >> 8) & 0xFF) as u8;
        src[addr + 1] = (val & 0xFF) as u8;
        assert(src@ =~= store_bytes(old(src)@, addr as int, Self::bytes_of(val)));
    }
}

impl MemAccess for u32 {
    open spec fn byte_len() -> nat {
        4
    }

    open spec fn value_of(bytes: Seq<u8>) -> u32 {
        (bytes[0] * 0x1000000 + bytes[1] * 0x10000 + bytes[2] * 0x100 + bytes[3]) as u32
    }

    open spec fn bytes_of(v: u32) -> Seq<u8> {
        seq![
            (v / 0x1000000) as u8,
            (v / 0x10000 % 0x100) as u8,
            (v / 0x100 % 0x100) as u8,
            (v % 0x100) as u8,
        ]
    }

    proof fn lemma_value_roundtrip(v: u32) {
        assert(v / 0x1000000 * 0x1000000 + v / 0x10000 % 0x100 * 0x10000 + v / 0x100 % 0x100
            * 0x100 + v % 0x100 == v) by (bit_vector);
        assert(v / 0x1000000 < 0x100) by (bit_vector);
    }

    proof fn lemma_bytes_roundtrip(bytes: Seq<u8>) {
        let (b0, b1, b2, b3) = (bytes[0], bytes[1], bytes[2], bytes[3]);
        let v = Self::value_of(bytes);
        assert(b0 * 0x1000000 + b1 * 0x10000 + b2 * 0x100 + b3 <= u32::MAX) by (nonlinear_arith)
            requires
                b0 < 0x100,
                b1 < 0x100,
                b2 < 0x100,
                b3 < 0x100,
        ;
        assert(v == b0 * 0x1000000 + b1 * 0x10000 + b2 * 0x100 + b3);
        assert(v / 0x1000000 == b0 && v / 0x10000 % 0x100 == b1 && v / 0x100 % 0x100 == b2 && v
            % 0x100 == b3) by (bit_vector)
            requires
                v == b0 * 0x1000000 + b1 * 0x10000 + b2 * 0x100 + b3,
        ;
        assert(Self::bytes_of(v) =~= bytes);
    }

    fn read_mem(src: &[u8], addr: usize) -> (r: u32) {
        let b0 = src[addr];
        let b1 = src[addr + 1];
        let b2 = src[addr + 2];
        let b3 = src[addr + 3];
        assert((b0 as u32) << 24 | (b1 as u32) << 16 | (b2 as u32) << 8 | b3 as u32 == b0
            * 0x1000000 + b1 * 0x10000 + b2 * 0x100 + b3) by (bit_vector);
        (b0 as u32) << 24 | (b1 as u32) << 16 | (b2 as u32) << 8 | b3 as u32
    }

    fn write_mem(src: &mut [u8], addr: usize, val: u32) {
        assert((val >> 24) == val / 0x1000000) by (bit_vector);
        assert(((val >> 16) & 0xFF) == val / 0x10000 % 0x100) by (bit_vector);
        assert(((val >> 8) & 0xFF) == val / 0x100 % 0x100) by (bit_vector);
        assert((val & 0xFF) == val % 0x100) by (bit_vector);
        assert(val >> 24 < 0x100) by (bit_vector);
        src[addr] = (val >> 24) as u8;
        src[addr + 1] = ((val >> 16) & 0xFF) as u8;
        src[addr + 2] = ((val >> 8) & 0xFF) as u8;
        src[addr + 3] = (val & 0xFF) as u8;
        assert(src@ =~= store_bytes(old(src)@, addr as int, Self::bytes_of(val)));
    }
}

/// A load from the bytes just stored gives back the stored value.
pub proof fn lemma_read_after_write<T: MemAccess>(mem: Seq<u8>, addr: int, val: T)
    requires
        0 <= addr,
        addr + T::byte_len() <= mem.len(),
    ensures
        T::value_of(store_bytes(mem, addr, T::bytes_of(val)).subrange(addr, addr + T::byte_len()))
            == val,
{
    T::lemma_value_roundtrip(val);
    assert(store_bytes(mem, addr, T::bytes_of(val)).subrange(addr, addr + T::byte_len())
        =~= T::bytes_of(val));
}

/// A store leaves the length of the buffer, and every byte outside the
/// stored range, as they were.
pub proof fn lemma_write_keeps_other_bytes<T: MemAccess>(mem: Seq<u8>, addr: int, val: T, i: int)
    requires
        0 <= addr,
        addr + T::byte_len() <= mem.len(),
        0 <= i < mem.len(),
        i < addr || addr + T::byte_len() <= i,
    ensures
        store_bytes(mem, addr, T::bytes_of(val)).len() == mem.len(),
        store_bytes(mem, addr, T::bytes_of(val))[i] == mem[i],
{
    T::lemma_value_roundtrip(val);
}

/// A load of a range that does not overlap the stored range sees the same
/// value as before the store.
pub proof fn lemma_disjoint_read_unchanged<T: MemAccess, U: MemAccess>(
    mem: Seq<u8>,
    addr: int,
    val: T,
    other: int,
)
    requires
        0 <= addr,
        addr + T::byte_len() <= mem.len(),
        0 <= other,
        other + U::byte_len() <= mem.len(),
        other + U::byte_len() <= addr || addr + T::byte_len() <= other,
    ensures
        U::value_of(store_bytes(mem, addr, T::bytes_of(val)).subrange(other, other + U::byte_len()))
            == U::value_of(mem.subrange(other, other + U::byte_len())),
{
    T::lemma_value_roundtrip(val);
    assert(store_bytes(mem, addr, T::bytes_of(val)).subrange(other, other + U::byte_len())
        =~= mem.subrange(other, other + U::byte_len()));
}

/// Storing back the value just loaded from a range leaves the buffer as it was.
pub proof fn lemma_write_back_unchanged<T: MemAccess>(mem: Seq<u8>, addr: int)
    requires
        0 <= addr,
        addr + T::byte_len() <= mem.len(),
    ensures
        store_bytes(mem, addr, T::bytes_of(T::value_of(mem.subrange(addr, addr + T::byte_len()))))
            == mem,
{
    T::lemma_bytes_roundtrip(mem.subrange(addr, addr + T::byte_len()));
    assert(store_bytes(mem, addr, T::bytes_of(T::value_of(mem.subrange(addr, addr + T::byte_len()))))
        =~= mem);
}

/// Values are laid out most significant byte first: a byte is itself, a
/// word is its high byte then its low byte, a long word its four bytes from
/// the highest down; and each takes 1, 2 and 4 bytes.
pub proof fn lemma_big_endian_layout(b0: u8, b1: u8, b2: u8, b3: u8)
    ensures
        u8::byte_len() == 1,
        u16::byte_len() == 2,
        u32::byte_len() == 4,
        u8::value_of(seq![b0]) == b0,
        u8::bytes_of(b0) == seq![b0],
        u16::value_of(seq![b0, b1]) == b0 * 0x100 + b1,
        u16::bytes_of((b0 * 0x100 + b1) as u16) == seq![b0, b1],
        u32::value_of(seq![b0, b1, b2, b3]) == b0 * 0x1000000 + b1 * 0x10000 + b2 * 0x100 + b3,
        u32::bytes_of((b0 * 0x1000000 + b1 * 0x10000 + b2 * 0x100 + b3) as u32) == seq![b0, b1, b2, b3],
{
    u16::lemma_bytes_roundtrip(seq![b0, b1]);
    u32::lemma_bytes_roundtrip(seq![b0, b1, b2, b3]);
    assert(b0 * 0x1000000 + b1 * 0x10000 + b2 * 0x100 + b3 <= u32::MAX) by (nonlinear_arith)
        requires
            b0 < 0x100,
            b1 < 0x100,
            b2 < 0x100,
            b3 < 0x100,
    ;
}

/// Converts a byte vector into a boxed slice with the same contents.
#[verifier::external_body]
pub(crate) fn into_boxed_bytes(v: Vec<u8>) -> (b: Box<[u8]>)
    ensures
        b@ == v@,
{
    v.into_boxed_slice()
}

} // verus!
