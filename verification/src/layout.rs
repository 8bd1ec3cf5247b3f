//! Integers as stored in bytes, written out digit by digit, and the proof that the decoders
//! read them so. The laws about the logs' layouts are stated with these.
use crate::bytes::{host_is_little_endian, i32_at, i8_at, u16_at, u32_at, u64_at};
use vstd::prelude::*;

verus! {

/// The two bytes at `i` as an unsigned number, in the machine's byte order.
pub open spec fn stored_u16(s: Seq<u8>, i: int) -> int {
    if host_is_little_endian() {
        s[i] + 0x100 * s[i + 1]
    } else {
        0x100 * s[i] + s[i + 1]
    }
}

/// The four bytes at `i` as an unsigned number, in the machine's byte order.
pub open spec fn stored_u32(s: Seq<u8>, i: int) -> int {
    if host_is_little_endian() {
        s[i] + 0x100 * s[i + 1] + 0x1_0000 * s[i + 2] + 0x100_0000 * s[i + 3]
    } else {
        0x100_0000 * s[i] + 0x1_0000 * s[i + 1] + 0x100 * s[i + 2] + s[i + 3]
    }
}

/// The eight bytes at `i` as an unsigned number, in the machine's byte order.
pub open spec fn stored_u64(s: Seq<u8>, i: int) -> int {
    if host_is_little_endian() {
        s[i] + 0x100 * s[i + 1] + 0x1_0000 * s[i + 2] + 0x100_0000 * s[i + 3] + 0x1_0000_0000 * s[i
            + 4] + 0x100_0000_0000 * s[i + 5] + 0x1_0000_0000_0000 * s[i + 6] + 0x100_0000_0000_0000
            * s[i + 7]
    } else {
        0x100_0000_0000_0000 * s[i] + 0x1_0000_0000_0000 * s[i + 1] + 0x100_0000_0000 * s[i + 2]
            + 0x1_0000_0000 * s[i + 3] + 0x100_0000 * s[i + 4] + 0x1_0000 * s[i + 5] + 0x100 * s[i
            + 6] + s[i + 7]
    }
}

/// The four bytes at `i` as a two's-complement number, in the machine's byte order.
pub open spec fn stored_i32(s: Seq<u8>, i: int) -> int {
    if stored_u32(s, i) < 0x8000_0000 {
        stored_u32(s, i)
    } else {
        stored_u32(s, i) - 0x1_0000_0000
    }
}

/// The byte at `i` as a two's-complement number.
pub open spec fn stored_i8(s: Seq<u8>, i: int) -> int {
    if s[i] < 0x80 {
        s[i] as int
    } else {
        s[i] - 0x100
    }
}

/// `u16_at` reads the stored number.
pub broadcast proof fn lemma_u16_at(s: Seq<u8>, i: int)
    ensures
        #[trigger] u16_at(s, i) as int == stored_u16(s, i),
{
}

/// `u32_at` reads the stored number.
pub broadcast proof fn lemma_u32_at(s: Seq<u8>, i: int)
    ensures
        #[trigger] u32_at(s, i) as int == stored_u32(s, i),
{
}

/// `u64_at` reads the stored number.
pub broadcast proof fn lemma_u64_at(s: Seq<u8>, i: int)
    ensures
        #[trigger] u64_at(s, i) as int == stored_u64(s, i),
{
}

/// `i32_at` reads the stored number.
pub broadcast proof fn lemma_i32_at(s: Seq<u8>, i: int)
    ensures
        #[trigger] i32_at(s, i) as int == stored_i32(s, i),
{
    let x: u32 = u32_at(s, i);
    lemma_u32_at(s, i);
    assert((x as i32) as int == if x < 0x8000_0000 { x as int } else { x as int - 0x1_0000_0000 })
        by (bit_vector);
}

/// `i8_at` reads the stored number.
pub broadcast proof fn lemma_i8_at(s: Seq<u8>, i: int)
    ensures
        #[trigger] i8_at(s, i) as int == stored_i8(s, i),
{
    let x: u8 = s[i];
    assert((x as i8) as int == if x < 0x80 { x as int } else { x as int - 0x100 }) by (bit_vector);
}

/// The decoders read the stored numbers.
pub broadcast group group_stored {
    lemma_u16_at,
    lemma_u32_at,
    lemma_u64_at,
    lemma_i32_at,
    lemma_i8_at,
}

} // verus!
