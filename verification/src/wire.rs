use vstd::prelude::*;

verus! {

/// The `n` bytes of `bytes` that start at `at`.
pub open spec fn span(bytes: Seq<u8>, at: int, n: int) -> Seq<u8> {
    bytes.subrange(at, at + n)
}

/// Whether the `n` bytes that start at `at` all lie within `bytes`.
pub open spec fn in_file(bytes: Seq<u8>, at: int, n: int) -> bool {
    0 <= at && 0 <= n && at + n <= bytes.len()
}

/// The unsigned number that two bytes spell, least significant byte first.
pub open spec fn le_u16(bytes: Seq<u8>) -> int
    recommends
        bytes.len() == 2,
{
    bytes[0] + 0x100 * bytes[1]
}

/// The unsigned number that four bytes spell, least significant byte first.
pub open spec fn le_u32(bytes: Seq<u8>) -> int
    recommends
        bytes.len() == 4,
{
    bytes[0] + 0x100 * bytes[1] + 0x1_0000 * bytes[2] + 0x100_0000 * bytes[3]
}

/// The unsigned number that eight bytes spell, least significant byte first.
pub open spec fn le_u64(bytes: Seq<u8>) -> int
    recommends
        bytes.len() == 8,
{
    le_u32(bytes.subrange(0, 4)) + 0x1_0000_0000 * le_u32(bytes.subrange(4, 8))
}

/// The number that four bytes spell in two's complement, least significant
/// byte first.
pub open spec fn le_i32(bytes: Seq<u8>) -> int
    recommends
        bytes.len() == 4,
{
    let unsigned = le_u32(bytes);
    if unsigned < 0x8000_0000 {
        unsigned
    } else {
        unsigned - 0x1_0000_0000
    }
}

/// The number that eight bytes spell in two's complement, least significant
/// byte first.
pub open spec fn le_i64(bytes: Seq<u8>) -> int
    recommends
        bytes.len() == 8,
{
    let unsigned = le_u64(bytes);
    if unsigned < 0x8000_0000_0000_0000 {
        unsigned
    } else {
        unsigned - 0x1_0000_0000_0000_0000
    }
}

/// Each little-endian number fits the integer type of its width.
pub proof fn lemma_le_ranges(bytes: Seq<u8>)
    ensures
        0 <= le_u16(bytes) <= u16::MAX,
        0 <= le_u32(bytes) <= u32::MAX,
        0 <= le_u64(bytes) <= u64::MAX,
        i32::MIN <= le_i32(bytes) <= i32::MAX,
        i64::MIN <= le_i64(bytes) <= i64::MAX,
{
}

pub(crate) fn u16_le_at(data: &Vec<u8>, at: usize) -> (value: u16)
    requires
        in_file(data@, at as int, 2),
    ensures
        value == le_u16(span(data@, at as int, 2)),
{
    assert(data@.len() == data.len());
    (data[at] as u16) + (data[at + 1] as u16) * 0x100
}

pub(crate) fn u32_le_at(data: &Vec<u8>, at: usize) -> (value: u32)
    requires
        in_file(data@, at as int, 4),
    ensures
        value == le_u32(span(data@, at as int, 4)),
{
    assert(data@.len() == data.len());
    (data[at] as u32) + (data[at + 1] as u32) * 0x100 + (data[at + 2] as u32) * 0x1_0000 + (data[at
        + 3] as u32) * 0x100_0000
}

pub(crate) fn u64_le_at(data: &Vec<u8>, at: usize) -> (value: u64)
    requires
        in_file(data@, at as int, 8),
    ensures
        value == le_u64(span(data@, at as int, 8)),
{
    assert(data@.len() == data.len());
    let low = u32_le_at(data, at);
    let high = u32_le_at(data, at + 4);
    proof {
        let whole = span(data@, at as int, 8);
        assert(whole.subrange(0, 4) =~= span(data@, at as int, 4));
        assert(whole.subrange(4, 8) =~= span(data@, at + 4, 4));
    }
    (low as u64) + (high as u64) * 0x1_0000_0000
}

pub(crate) fn i32_le_at(data: &Vec<u8>, at: usize) -> (value: i32)
    requires
        in_file(data@, at as int, 4),
    ensures
        value == le_i32(span(data@, at as int, 4)),
{
    let unsigned = u32_le_at(data, at);
    if unsigned < 0x8000_0000 {
        unsigned as i32
    } else {
        ((unsigned - 0x8000_0000) as i32) + i32::MIN
    }
}

pub(crate) fn i64_le_at(data: &Vec<u8>, at: usize) -> (value: i64)
    requires
        in_file(data@, at as int, 8),
    ensures
        value == le_i64(span(data@, at as int, 8)),
{
    let unsigned = u64_le_at(data, at);
    if unsigned < 0x8000_0000_0000_0000 {
        unsigned as i64
    } else {
        ((unsigned - 0x8000_0000_0000_0000) as i64) + i64::MIN
    }
}

} // verus!
