use vstd::prelude::*;

verus! {

/// The number that two bytes spell, the low byte first.
pub open spec fn le_u16(b: Seq<u8>) -> u16 {
    (b[0] as int + 0x100 * (b[1] as int)) as u16
}

/// The number that four bytes spell, the low byte first.
pub open spec fn le_u32(b: Seq<u8>) -> u32 {
    (b[0] as int + 0x100 * (b[1] as int) + 0x1_0000 * (b[2] as int) + 0x100_0000 * (b[3] as int)) as u32
}

/// The number that eight bytes spell, the low byte first.
pub open spec fn le_u64(b: Seq<u8>) -> u64 {
    (le_u32(b) as int + 0x1_0000_0000 * (le_u32(b.skip(4)) as int)) as u64
}

/// A value that is read from bytes in little-endian order.
pub trait FromLe: Sized {
    /// How many bytes spell one value.
    spec fn width() -> nat;

    /// The value that the first `width()` bytes of `b` spell.
    spec fn of_bytes(b: Seq<u8>) -> Self;

    /// How many bytes spell one value.
    fn byte_width() -> (n: usize)
        ensures
            n == Self::width(),
            n > 0,
    ;

    /// Reads a value from the front of `b`.
    fn from_le_bytes(b: &[u8]) -> (r: Self)
        requires
            b@.len() >= Self::width(),
        ensures
            r == Self::of_bytes(b@),
    ;
}

impl FromLe for u8 {
    open spec fn width() -> nat {
        1
    }

    open spec fn of_bytes(b: Seq<u8>) -> u8 {
        b[0]
    }

    fn byte_width() -> (n: usize) {
        1
    }

    fn from_le_bytes(b: &[u8]) -> (r: u8) {
        b[0]
    }
}

impl FromLe for u16 {
    open spec fn width() -> nat {
        2
    }

    open spec fn of_bytes(b: Seq<u8>) -> u16 {
        le_u16(b)
    }

    fn byte_width() -> (n: usize) {
        2
    }

    fn from_le_bytes(b: &[u8]) -> (r: u16) {
        b[0] as u16 + 0x100 * (b[1] as u16)
    }
}

impl FromLe for u32 {
    open spec fn width() -> nat {
        4
    }

    open spec fn of_bytes(b: Seq<u8>) -> u32 {
        le_u32(b)
    }

    fn byte_width() -> (n: usize) {
        4
    }

    fn from_le_bytes(b: &[u8]) -> (r: u32) {
        b[0] as u32 + 0x100 * (b[1] as u32) + 0x1_0000 * (b[2] as u32) + 0x100_0000 * (b[3] as u32)
    }
}

impl FromLe for i32 {
    open spec fn width() -> nat {
        4
    }

    open spec fn of_bytes(b: Seq<u8>) -> i32 {
        le_u32(b) as i32
    }

    fn byte_width() -> (n: usize) {
        4
    }

    fn from_le_bytes(b: &[u8]) -> (r: i32) {
        <u32 as FromLe>::from_le_bytes(b) as i32
    }
}

impl FromLe for u64 {
    open spec fn width() -> nat {
        8
    }

    open spec fn of_bytes(b: Seq<u8>) -> u64 {
        le_u64(b)
    }

    fn byte_width() -> (n: usize) {
        8
    }

    fn from_le_bytes(b: &[u8]) -> (r: u64) {
        let low: u32 = b[0] as u32 + 0x100 * (b[1] as u32) + 0x1_0000 * (b[2] as u32) + 0x100_0000 * (
        b[3] as u32);
        let high: u32 = b[4] as u32 + 0x100 * (b[5] as u32) + 0x1_0000 * (b[6] as u32) + 0x100_0000
            * (b[7] as u32);
        low as u64 + 0x1_0000_0000 * (high as u64)
    }
}

impl FromLe for i64 {
    open spec fn width() -> nat {
        8
    }

    open spec fn of_bytes(b: Seq<u8>) -> i64 {
        le_u64(b) as i64
    }

    fn byte_width() -> (n: usize) {
        8
    }

    fn from_le_bytes(b: &[u8]) -> (r: i64) {
        <u64 as FromLe>::from_le_bytes(b) as i64
    }
}

impl FromLe for usize {
    open spec fn width() -> nat {
        8
    }

    /// The number that eight bytes spell, cut to the width of the machine.
    open spec fn of_bytes(b: Seq<u8>) -> usize {
        le_u64(b) as usize
    }

    fn byte_width() -> (n: usize) {
        8
    }

    fn from_le_bytes(b: &[u8]) -> (r: usize) {
        <u64 as FromLe>::from_le_bytes(b) as usize
    }
}

} // verus!
