//! Little-endian integers at byte offsets of a buffer.

use vstd::prelude::*;

verus! {

/// The 16-bit value whose little-endian encoding starts at `at`.
pub open spec fn u16_le(bytes: Seq<u8>, at: int) -> int {
    bytes[at] + 256 * bytes[at + 1]
}

/// The 32-bit value whose little-endian encoding starts at `at`.
pub open spec fn u32_le(bytes: Seq<u8>, at: int) -> int {
    bytes[at] + 256 * bytes[at + 1] + 65536 * bytes[at + 2] + 16777216 * bytes[at + 3]
}

/// Byte `index` (0 is the least significant) of the little-endian encoding of
/// `value`.
pub open spec fn le_byte(value: int, index: int) -> u8 {
    if index == 0 {
        (value % 256) as u8
    } else if index == 1 {
        ((value / 256) % 256) as u8
    } else if index == 2 {
        ((value / 65536) % 256) as u8
    } else {
        ((value / 16777216) % 256) as u8
    }
}

/// `bytes` with the four bytes from `at` on replaced by the little-endian
/// encoding of `value`.
pub open spec fn with_u32_le(bytes: Seq<u8>, at: int, value: int) -> Seq<u8> {
    Seq::new(
        bytes.len(),
        |k: int|
            if at <= k < at + 4 {
                le_byte(value, k - at)
            } else {
                bytes[k]
            },
    )
}

/// Each byte of an encoded 32-bit value is the byte it was decoded from.
pub proof fn lemma_le_byte_of_u32_le(bytes: Seq<u8>, at: int)
    requires
        0 <= at,
        at + 4 <= bytes.len(),
    ensures
        0 <= u32_le(bytes, at) <= u32::MAX,
        forall|j: int| 0 <= j < 4 ==> #[trigger] le_byte(u32_le(bytes, at), j) == bytes[at + j],
{
    let v = u32_le(bytes, at);
    let b0 = bytes[at] as int;
    let b1 = bytes[at + 1] as int;
    let b2 = bytes[at + 2] as int;
    let b3 = bytes[at + 3] as int;
    assert(v % 256 == b0);
    assert(v / 256 == b1 + 256 * b2 + 65536 * b3);
    assert(v / 65536 == b2 + 256 * b3);
    assert(v / 16777216 == b3);
}

/// Decoding what `with_u32_le` wrote gives the value back.
pub proof fn lemma_u32_le_of_with_u32_le(bytes: Seq<u8>, at: int, value: int)
    requires
        0 <= at,
        at + 4 <= bytes.len(),
        0 <= value <= u32::MAX,
    ensures
        u32_le(with_u32_le(bytes, at, value), at) == value,
{
    let w = with_u32_le(bytes, at, value);
    assert(w[at] == le_byte(value, 0));
    assert(w[at + 1] == le_byte(value, 1));
    assert(w[at + 2] == le_byte(value, 2));
    assert(w[at + 3] == le_byte(value, 3));
}

/// Reads the 16-bit little-endian integer at offset `at`.
pub fn read_u16_le(bytes: &[u8], at: usize) -> (value: u16)
    requires
        at + 2 <= bytes.len(),
    ensures
        value == u16_le(bytes@, at as int),
{
    let low: u16 = bytes[at] as u16;
    let high: u16 = bytes[at + 1] as u16;
    low + high * 256
}

/// Reads the 32-bit little-endian integer at offset `at`.
pub fn read_u32_le(bytes: &[u8], at: usize) -> (value: u32)
    requires
        at + 4 <= bytes.len(),
    ensures
        value == u32_le(bytes@, at as int),
{
    let b0: u32 = bytes[at] as u32;
    let b1: u32 = bytes[at + 1] as u32;
    let b2: u32 = bytes[at + 2] as u32;
    let b3: u32 = bytes[at + 3] as u32;
    b0 + b1 * 256 + b2 * 65536 + b3 * 16777216
}

/// Writes `value` as a 32-bit little-endian integer at offset `at`; no other
/// byte changes.
pub fn write_u32_le(bytes: &mut Vec<u8>, at: usize, value: u32)
    requires
        at + 4 <= old(bytes).len(),
    ensures
        final(bytes)@ == with_u32_le(old(bytes)@, at as int, value as int),
        final(bytes)@.len() == old(bytes)@.len(),
        u32_le(final(bytes)@, at as int) == value,
        forall|k: int|
            0 <= k < old(bytes)@.len() && !(at <= k < at + 4) ==> final(bytes)@[k] == old(bytes)@[k],
{
    let b0: u8 = (value % 256) as u8;
    let b1: u8 = ((value / 256) % 256) as u8;
    let b2: u8 = ((value / 65536) % 256) as u8;
    let b3: u8 = ((value / 16777216) % 256) as u8;
    bytes.set(at, b0);
    bytes.set(at + 1, b1);
    bytes.set(at + 2, b2);
    bytes.set(at + 3, b3);
    proof {
        assert(bytes@ =~= with_u32_le(old(bytes)@, at as int, value as int));
        lemma_u32_le_of_with_u32_le(old(bytes)@, at as int, value as int);
    }
}

} // verus!
