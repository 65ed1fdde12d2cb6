//! Little-endian integers as the settings file stores them.
//!
//! Every multi-byte field of the file is little-endian: the byte at the
//! lowest offset carries the lowest eight bits. The functions here state that
//! arithmetically, byte `i` weighing `256^i`, and signed fields are two's
//! complement over 32 bits.

use vstd::prelude::*;

verus! {

/// The `u16` stored in the two bytes at `at`.
pub open spec fn u16_at(bytes: Seq<u8>, at: int) -> u16
    recommends
        0 <= at,
        at + 2 <= bytes.len(),
{
    (bytes[at] as int + 256 * (bytes[at + 1] as int)) as u16
}

/// The `u32` stored in the four bytes at `at`.
pub open spec fn u32_at(bytes: Seq<u8>, at: int) -> u32
    recommends
        0 <= at,
        at + 4 <= bytes.len(),
{
    (bytes[at] as int + 256 * (bytes[at + 1] as int) + 65536 * (bytes[at + 2] as int) + 16777216
        * (bytes[at + 3] as int)) as u32
}

/// The signed reading of a 32-bit pattern (two's complement).
pub open spec fn u32_as_i32(bits: u32) -> i32 {
    if bits < 0x8000_0000 {
        bits as i32
    } else {
        (bits - 0x1_0000_0000) as i32
    }
}

/// The 32-bit pattern of a signed value (two's complement).
pub open spec fn i32_as_u32(value: i32) -> u32 {
    if value >= 0 {
        value as u32
    } else {
        (value + 0x1_0000_0000) as u32
    }
}

/// The `i32` stored in the four bytes at `at`.
pub open spec fn i32_at(bytes: Seq<u8>, at: int) -> i32
    recommends
        0 <= at,
        at + 4 <= bytes.len(),
{
    u32_as_i32(u32_at(bytes, at))
}

/// The two bytes that store `value`.
pub open spec fn u16_le(value: u16) -> Seq<u8> {
    seq![(value % 256) as u8, (value / 256) as u8]
}

/// The four bytes that store `value`.
pub open spec fn u32_le(value: u32) -> Seq<u8> {
    seq![
        (value % 256) as u8,
        (value / 256 % 256) as u8,
        (value / 65536 % 256) as u8,
        (value / 16777216) as u8,
    ]
}

/// The four bytes that store the signed `value`.
pub open spec fn i32_le(value: i32) -> Seq<u8> {
    u32_le(i32_as_u32(value))
}

/// Reading back what `u16_le` wrote gives the value again.
pub proof fn lemma_u16_value_round_trip(value: u16)
    ensures
        u16_le(value).len() == 2,
        u16_at(u16_le(value), 0) == value,
{
}

/// Reading back what `u32_le` wrote gives the value again.
pub proof fn lemma_u32_value_round_trip(value: u32)
    ensures
        u32_le(value).len() == 4,
        u32_at(u32_le(value), 0) == value,
{
}

/// Reading back what `i32_le` wrote gives the value again.
pub proof fn lemma_i32_value_round_trip(value: i32)
    ensures
        i32_le(value).len() == 4,
        i32_at(i32_le(value), 0) == value,
{
    lemma_u32_value_round_trip(i32_as_u32(value));
}

/// Writing the `u16` read at `at` reproduces the two bytes found there.
pub proof fn lemma_u16_bytes_round_trip(bytes: Seq<u8>, at: int)
    requires
        0 <= at,
        at + 2 <= bytes.len(),
    ensures
        u16_le(u16_at(bytes, at)) =~= bytes.subrange(at, at + 2),
{
}

/// The base-256 digits of `b0 + 256 b1 + 256^2 b2 + 256^3 b3` are the four
/// bytes themselves.
pub proof fn lemma_base256_digits(b0: int, b1: int, b2: int, b3: int)
    requires
        0 <= b0 < 256,
        0 <= b1 < 256,
        0 <= b2 < 256,
        0 <= b3 < 256,
    ensures
        ({
            let v = b0 + 256 * b1 + 65536 * b2 + 16777216 * b3;
            &&& 0 <= v < 0x1_0000_0000
            &&& v % 256 == b0
            &&& v / 256 % 256 == b1
            &&& v / 65536 % 256 == b2
            &&& v / 16777216 == b3
        }),
{
    let v = b0 + 256 * b1 + 65536 * b2 + 16777216 * b3;
    let h1 = b1 + 256 * b2 + 65536 * b3;
    let h2 = b2 + 256 * b3;
    assert(v == 256 * h1 + b0);
    assert(v / 256 == h1 && v % 256 == b0);
    assert(h1 == 256 * h2 + b1);
    assert(h1 / 256 == h2 && h1 % 256 == b1);
    assert(v == 65536 * h2 + (256 * b1 + b0));
    assert(v / 65536 == h2);
    assert(h2 / 256 == b3 && h2 % 256 == b2);
    assert(v == 16777216 * b3 + (65536 * b2 + 256 * b1 + b0));
    assert(v / 16777216 == b3);
}

/// Writing the `u32` read at `at` reproduces the four bytes found there.
pub proof fn lemma_u32_bytes_round_trip(bytes: Seq<u8>, at: int)
    requires
        0 <= at,
        at + 4 <= bytes.len(),
    ensures
        u32_le(u32_at(bytes, at)) =~= bytes.subrange(at, at + 4),
{
    lemma_base256_digits(
        bytes[at] as int,
        bytes[at + 1] as int,
        bytes[at + 2] as int,
        bytes[at + 3] as int,
    );
}

/// Writing the `i32` read at `at` reproduces the four bytes found there.
pub proof fn lemma_i32_bytes_round_trip(bytes: Seq<u8>, at: int)
    requires
        0 <= at,
        at + 4 <= bytes.len(),
    ensures
        i32_le(i32_at(bytes, at)) =~= bytes.subrange(at, at + 4),
{
    lemma_u32_bytes_round_trip(bytes, at);
}

/// Reads a little-endian `u16` from the first two bytes of `bytes`;
/// `None` when fewer than two bytes are given.
pub fn bytes_to_u16(bytes: &[u8]) -> (r: Option<u16>)
    ensures
        r == (if bytes@.len() < 2 {
            None
        } else {
            Some(u16_at(bytes@, 0))
        }),
{
    if bytes.len() < 2 {
        return None;
    }
    Some(bytes[0] as u16 + 256 * (bytes[1] as u16))
}

/// Reads a little-endian `u32` from the first four bytes of `bytes`;
/// `None` when fewer than four bytes are given.
pub fn bytes_to_u32(bytes: &[u8]) -> (r: Option<u32>)
    ensures
        r == (if bytes@.len() < 4 {
            None
        } else {
            Some(u32_at(bytes@, 0))
        }),
{
    if bytes.len() < 4 {
        return None;
    }
    Some(
        bytes[0] as u32 + 256 * (bytes[1] as u32) + 65536 * (bytes[2] as u32) + 16777216 * (
        bytes[3] as u32),
    )
}

/// Reads a little-endian two's-complement `i32` from the first four bytes of
/// `bytes`; `None` when fewer than four bytes are given.
pub fn bytes_to_i32(bytes: &[u8]) -> (r: Option<i32>)
    ensures
        r == (if bytes@.len() < 4 {
            None
        } else {
            Some(i32_at(bytes@, 0))
        }),
{
    match bytes_to_u32(bytes) {
        None => None,
        Some(bits) => Some(i32_from_bits(bits)),
    }
}

/// The signed value whose two's-complement pattern is `bits`.
pub fn i32_from_bits(bits: u32) -> (r: i32)
    ensures
        r == u32_as_i32(bits),
{
    if bits < 0x8000_0000 {
        bits as i32
    } else {
        (bits as i64 - 0x1_0000_0000) as i32
    }
}

/// The two's-complement pattern of `value`.
pub fn i32_to_bits(value: i32) -> (r: u32)
    ensures
        r == i32_as_u32(value),
{
    if value >= 0 {
        value as u32
    } else {
        (value as i64 + 0x1_0000_0000) as u32
    }
}

/// Reads the `u16` at offset `at` of `bytes`.
pub fn read_u16(bytes: &[u8], at: usize) -> (r: u16)
    requires
        at + 2 <= bytes.len(),
    ensures
        r == u16_at(bytes@, at as int),
{
    bytes[at] as u16 + 256 * (bytes[at + 1] as u16)
}

/// Reads the `u32` at offset `at` of `bytes`.
pub fn read_u32(bytes: &[u8], at: usize) -> (r: u32)
    requires
        at + 4 <= bytes.len(),
    ensures
        r == u32_at(bytes@, at as int),
{
    bytes[at] as u32 + 256 * (bytes[at + 1] as u32) + 65536 * (bytes[at + 2] as u32) + 16777216
        * (bytes[at + 3] as u32)
}

/// Reads the `i32` at offset `at` of `bytes`.
pub fn read_i32(bytes: &[u8], at: usize) -> (r: i32)
    requires
        at + 4 <= bytes.len(),
    ensures
        r == i32_at(bytes@, at as int),
{
    i32_from_bits(read_u32(bytes, at))
}

/// Appends the two bytes of `value` to `out`.
pub fn push_u16(out: &mut Vec<u8>, value: u16)
    ensures
        final(out)@ == old(out)@ + u16_le(value),
{
    out.push((value % 256) as u8);
    out.push((value / 256) as u8);
    assert(out@ =~= old(out)@ + u16_le(value));
}

/// Appends the four bytes of `value` to `out`.
pub fn push_u32(out: &mut Vec<u8>, value: u32)
    ensures
        final(out)@ == old(out)@ + u32_le(value),
{
    out.push((value % 256) as u8);
    out.push((value / 256 % 256) as u8);
    out.push((value / 65536 % 256) as u8);
    out.push((value / 16777216) as u8);
    assert(out@ =~= old(out)@ + u32_le(value));
}

/// Appends the four bytes of the signed `value` to `out`.
pub fn push_i32(out: &mut Vec<u8>, value: i32)
    ensures
        final(out)@ == old(out)@ + i32_le(value),
{
    push_u32(out, i32_to_bits(value));
}

} // verus!
