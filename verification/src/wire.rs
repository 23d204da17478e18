//! Fixed-width integers as they lie in a byte stream, and the order in which
//! consecutive items follow each other.

use vstd::prelude::*;
use byteorder::ByteOrder;
use vstd::slice::slice_subrange;
use crate::error::DecodeError;

verus! {

/// Whether `n` bytes starting at `at` lie inside `s`.
pub open spec fn fits(s: Seq<u8>, at: int, n: int) -> bool {
    0 <= at && 0 <= n && at + n <= s.len()
}

/// The 16-bit value whose low byte is at `at` and whose high byte follows.
pub open spec fn le_u16(s: Seq<u8>, at: int) -> u16 {
    (s[at] as int + 0x100 * (s[at + 1] as int)) as u16
}

/// The 16-bit value whose high byte is at `at` and whose low byte follows.
pub open spec fn be_u16(s: Seq<u8>, at: int) -> u16 {
    (0x100 * (s[at] as int) + s[at + 1] as int) as u16
}

/// The 32-bit value of the four bytes at `at`, lowest byte first.
pub open spec fn le_u32(s: Seq<u8>, at: int) -> u32 {
    (le_u16(s, at) as int + 0x1_0000 * (le_u16(s, at + 2) as int)) as u32
}

/// The 32-bit value of the four bytes at `at`, highest byte first.
pub open spec fn be_u32(s: Seq<u8>, at: int) -> u32 {
    (0x1_0000 * (be_u16(s, at) as int) + be_u16(s, at + 2) as int) as u32
}

/// The 64-bit value of the eight bytes at `at`, lowest byte first.
pub open spec fn le_u64(s: Seq<u8>, at: int) -> u64 {
    (le_u32(s, at) as int + 0x1_0000_0000 * (le_u32(s, at + 4) as int)) as u64
}

/// The 64-bit value of the eight bytes at `at`, highest byte first.
pub open spec fn be_u64(s: Seq<u8>, at: int) -> u64 {
    (0x1_0000_0000 * (be_u32(s, at) as int) + be_u32(s, at + 4) as int) as u64
}

/// The two's complement reading of an 8-bit pattern.
pub open spec fn signed8(v: u8) -> i8 {
    if v >= 0x80 {
        (v - 0x100) as i8
    } else {
        v as i8
    }
}

/// The two's complement reading of a 16-bit pattern.
pub open spec fn signed16(v: u16) -> i16 {
    if v >= 0x8000 {
        (v - 0x1_0000) as i16
    } else {
        v as i16
    }
}

/// The two's complement reading of a 32-bit pattern.
pub open spec fn signed32(v: u32) -> i32 {
    if v >= 0x8000_0000 {
        (v - 0x1_0000_0000) as i32
    } else {
        v as i32
    }
}

/// The two's complement reading of a 64-bit pattern.
pub open spec fn signed64(v: u64) -> i64 {
    if v >= 0x8000_0000_0000_0000 {
        (v - 0x1_0000_0000_0000_0000) as i64
    } else {
        v as i64
    }
}

/// The signed 16-bit value stored little-endian at `at`.
pub open spec fn le_i16(s: Seq<u8>, at: int) -> i16 {
    signed16(le_u16(s, at))
}

/// The signed 32-bit value stored little-endian at `at`.
pub open spec fn le_i32(s: Seq<u8>, at: int) -> i32 {
    signed32(le_u32(s, at))
}

/// The signed 64-bit value stored little-endian at `at`.
pub open spec fn le_i64(s: Seq<u8>, at: int) -> i64 {
    signed64(le_u64(s, at))
}

/// The two bytes that store `v` little-endian.
pub open spec fn le_bytes_of_u16(v: u16) -> Seq<u8> {
    seq![(v as int % 0x100) as u8, (v as int / 0x100) as u8]
}

/// The four bytes that store `v` little-endian.
pub open spec fn le_bytes_of_u32(v: u32) -> Seq<u8> {
    seq![
        (v as int % 0x100) as u8,
        (v as int / 0x100 % 0x100) as u8,
        (v as int / 0x1_0000 % 0x100) as u8,
        (v as int / 0x100_0000 % 0x100) as u8,
    ]
}

/// The four bytes that store `v` little-endian in two's complement.
pub open spec fn le_bytes_of_i32(v: i32) -> Seq<u8> {
    if v < 0 {
        le_bytes_of_u32((v + 0x1_0000_0000) as u32)
    } else {
        le_bytes_of_u32(v as u32)
    }
}

/// Reading back the bytes of a stored value gives the value.
pub proof fn lemma_le_i32_of_bytes(v: i32)
    ensures
        le_bytes_of_i32(v).len() == 4,
        le_i32(le_bytes_of_i32(v), 0) == v,
{
    let u: int = if v < 0 { v + 0x1_0000_0000 } else { v as int };
    let b = le_bytes_of_i32(v);
    assert(b[0] as int == u % 0x100);
    assert(b[1] as int == u / 0x100 % 0x100);
    assert(b[2] as int == u / 0x1_0000 % 0x100);
    assert(b[3] as int == u / 0x100_0000 % 0x100);
    assert(u == u % 0x100 + 0x100 * (u / 0x100 % 0x100) + 0x1_0000 * (u / 0x1_0000 % 0x100)
        + 0x100_0000 * (u / 0x100_0000 % 0x100));
}

/// `byteorder::LittleEndian::read_u16` on the first two bytes of `buf`: the
/// first byte is the low one.
#[verifier::external_body]
pub(crate) fn read_u16_le(buf: &[u8]) -> (r: u16)
    requires
        buf@.len() >= 2,
    ensures
        r == le_u16(buf@, 0),
{
    byteorder::LittleEndian::read_u16(buf)
}

/// `byteorder::BigEndian::read_u16` on the first two bytes of `buf`: the first
/// byte is the high one.
#[verifier::external_body]
pub(crate) fn read_u16_be(buf: &[u8]) -> (r: u16)
    requires
        buf@.len() >= 2,
    ensures
        r == be_u16(buf@, 0),
{
    byteorder::BigEndian::read_u16(buf)
}

/// `byteorder::LittleEndian::read_i16` on the first two bytes of `buf`: the
/// little-endian pattern read in two's complement.
#[verifier::external_body]
pub(crate) fn read_i16_le(buf: &[u8]) -> (r: i16)
    requires
        buf@.len() >= 2,
    ensures
        r == le_i16(buf@, 0),
{
    byteorder::LittleEndian::read_i16(buf)
}

/// `byteorder::LittleEndian::read_u32` on the first four bytes of `buf`,
/// lowest byte first.
#[verifier::external_body]
pub(crate) fn read_u32_le(buf: &[u8]) -> (r: u32)
    requires
        buf@.len() >= 4,
    ensures
        r == le_u32(buf@, 0),
{
    byteorder::LittleEndian::read_u32(buf)
}

/// `byteorder::LittleEndian::read_i32` on the first four bytes of `buf`: the
/// little-endian pattern read in two's complement.
#[verifier::external_body]
pub(crate) fn read_i32_le(buf: &[u8]) -> (r: i32)
    requires
        buf@.len() >= 4,
    ensures
        r == le_i32(buf@, 0),
{
    byteorder::LittleEndian::read_i32(buf)
}

/// `byteorder::LittleEndian::read_u64` on the first eight bytes of `buf`,
/// lowest byte first.
#[verifier::external_body]
pub(crate) fn read_u64_le(buf: &[u8]) -> (r: u64)
    requires
        buf@.len() >= 8,
    ensures
        r == le_u64(buf@, 0),
{
    byteorder::LittleEndian::read_u64(buf)
}

/// `byteorder::BigEndian::read_u64` on the first eight bytes of `buf`,
/// highest byte first.
#[verifier::external_body]
pub(crate) fn read_u64_be(buf: &[u8]) -> (r: u64)
    requires
        buf@.len() >= 8,
    ensures
        r == be_u64(buf@, 0),
{
    byteorder::BigEndian::read_u64(buf)
}

/// `byteorder::LittleEndian::read_i64` on the first eight bytes of `buf`: the
/// little-endian pattern read in two's complement.
#[verifier::external_body]
pub(crate) fn read_i64_le(buf: &[u8]) -> (r: i64)
    requires
        buf@.len() >= 8,
    ensures
        r == le_i64(buf@, 0),
{
    byteorder::LittleEndian::read_i64(buf)
}

/// The little-endian `u16` at `at` in `bytes`.
pub fn u16_le_at(bytes: &[u8], at: usize) -> (r: u16)
    requires
        fits(bytes@, at as int, 2),
    ensures
        r == le_u16(bytes@, at as int),
{
    let len: usize = bytes.len();
    assert(at + 2 <= len);
    read_u16_le(slice_subrange(bytes, at, at + 2))
}

/// The big-endian `u16` at `at` in `bytes`.
pub fn u16_be_at(bytes: &[u8], at: usize) -> (r: u16)
    requires
        fits(bytes@, at as int, 2),
    ensures
        r == be_u16(bytes@, at as int),
{
    let len: usize = bytes.len();
    assert(at + 2 <= len);
    read_u16_be(slice_subrange(bytes, at, at + 2))
}

/// The little-endian `i16` at `at` in `bytes`.
pub fn i16_le_at(bytes: &[u8], at: usize) -> (r: i16)
    requires
        fits(bytes@, at as int, 2),
    ensures
        r == le_i16(bytes@, at as int),
{
    let len: usize = bytes.len();
    assert(at + 2 <= len);
    read_i16_le(slice_subrange(bytes, at, at + 2))
}

/// The little-endian `u32` at `at` in `bytes`.
pub fn u32_le_at(bytes: &[u8], at: usize) -> (r: u32)
    requires
        fits(bytes@, at as int, 4),
    ensures
        r == le_u32(bytes@, at as int),
{
    let len: usize = bytes.len();
    assert(at + 4 <= len);
    read_u32_le(slice_subrange(bytes, at, at + 4))
}

/// The little-endian `i32` at `at` in `bytes`.
pub fn i32_le_at(bytes: &[u8], at: usize) -> (r: i32)
    requires
        fits(bytes@, at as int, 4),
    ensures
        r == le_i32(bytes@, at as int),
{
    let len: usize = bytes.len();
    assert(at + 4 <= len);
    read_i32_le(slice_subrange(bytes, at, at + 4))
}

/// Where a run of `k` consecutive items that starts at `at` ends, when `step`
/// gives, for the number of an item and the place where it starts, the place
/// where the next one starts; the first failure of `step` is the failure of
/// the run.
pub open spec fn after_items(
    step: spec_fn(int, int) -> Result<int, DecodeError>,
    at: int,
    k: nat,
) -> Result<int, DecodeError>
    decreases k,
{
    if k == 0 {
        Ok(at)
    } else {
        match after_items(step, at, (k - 1) as nat) {
            Ok(p) => step(k - 1, p),
            Err(e) => Err(e),
        }
    }
}

/// A run that has failed after `i` items fails in the same way however many
/// items are asked for.
pub proof fn lemma_after_items_failed(
    step: spec_fn(int, int) -> Result<int, DecodeError>,
    at: int,
    i: nat,
    k: nat,
)
    requires
        i <= k,
        after_items(step, at, i) is Err,
    ensures
        after_items(step, at, k) == after_items(step, at, i),
    decreases k,
{
    if i < k {
        lemma_after_items_failed(step, at, i, (k - 1) as nat);
    }
}

/// Every shorter run of a run that succeeds succeeds too.
pub proof fn lemma_after_items_prefix(
    step: spec_fn(int, int) -> Result<int, DecodeError>,
    at: int,
    i: nat,
    k: nat,
)
    requires
        i <= k,
        after_items(step, at, k) is Ok,
    ensures
        after_items(step, at, i) is Ok,
    decreases k,
{
    if i < k {
        lemma_after_items_prefix(step, at, i, (k - 1) as nat);
    }
}

/// The `n` 16-bit units stored big-endian from `at` on.
pub open spec fn be_units(s: Seq<u8>, at: int, n: nat) -> Seq<u16> {
    Seq::new(n, |i: int| be_u16(s, at + 2 * i))
}

} // verus!
