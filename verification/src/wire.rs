//! Little-endian integers in byte buffers.

use byteorder::ByteOrder;
use byteorder::LittleEndian;
use vstd::prelude::*;

verus! {

/// The number that `bytes` spell, least significant byte first.
pub open spec fn le_value(bytes: Seq<u8>) -> nat
    decreases bytes.len(),
{
    if bytes.len() == 0 {
        0
    } else {
        bytes[0] as nat + 256 * le_value(bytes.drop_first())
    }
}

/// The `n` bytes that spell `v`, least significant byte first.
pub open spec fn le_bytes(v: nat, n: nat) -> Seq<u8>
    decreases n,
{
    if n == 0 {
        Seq::empty()
    } else {
        seq![(v % 256) as u8] + le_bytes(v / 256, (n - 1) as nat)
    }
}

/// One more than the largest number that `n` bytes can spell.
pub open spec fn le_limit(n: nat) -> nat
    decreases n,
{
    if n == 0 {
        1
    } else {
        256 * le_limit((n - 1) as nat)
    }
}

/// `bytes` with those from `at` on replaced by `new`.
pub open spec fn overwrite(bytes: Seq<u8>, at: int, new: Seq<u8>) -> Seq<u8> {
    bytes.take(at) + new + bytes.skip(at + new.len())
}

/// Spelling a number and reading it back gives the number.
pub proof fn law_le_round_trip(v: nat, n: nat)
    requires
        v < le_limit(n),
    ensures
        le_value(le_bytes(v, n)) == v,
        le_bytes(v, n).len() == n,
    decreases n,
{
    if n > 0 {
        law_le_round_trip(v / 256, (n - 1) as nat);
        assert(le_bytes(v, n).drop_first() =~= le_bytes(v / 256, (n - 1) as nat));
    }
}

/// Bytes spell no more than as many bytes can.
pub proof fn lemma_le_value_bound(bytes: Seq<u8>)
    ensures
        le_value(bytes) < le_limit(bytes.len()),
    decreases bytes.len(),
{
    if bytes.len() > 0 {
        lemma_le_value_bound(bytes.drop_first());
    }
}

/// The widths of the header's integers.
pub proof fn lemma_le_limits()
    ensures
        le_limit(2) == 0x1_0000,
        le_limit(4) == 0x1_0000_0000,
        le_limit(8) == 0x1_0000_0000_0000_0000,
{
    reveal_with_fuel(le_limit, 9);
}

/// Calls `byteorder::LittleEndian::read_u16` on the bytes of `buf` from `at` on: the result is the
/// number that the first two of them spell. That function panics on fewer bytes.
#[verifier::external_body]
pub(crate) fn read_u16(buf: &[u8; 44], at: usize) -> (r: u16)
    requires
        at + 2 <= 44,
    ensures
        r == le_value(buf@.subrange(at as int, at + 2)),
{
    LittleEndian::read_u16(&buf[at..])
}

/// Calls `byteorder::LittleEndian::read_u32` on the bytes of `buf` from `at` on: the result is the
/// number that the first four of them spell. That function panics on fewer bytes.
#[verifier::external_body]
pub(crate) fn read_u32(buf: &[u8; 44], at: usize) -> (r: u32)
    requires
        at + 4 <= 44,
    ensures
        r == le_value(buf@.subrange(at as int, at + 4)),
{
    LittleEndian::read_u32(&buf[at..])
}

/// Calls `byteorder::LittleEndian::read_u64` on the bytes of `buf` from `at` on: the result is the
/// number that the first eight of them spell. That function panics on fewer bytes.
#[verifier::external_body]
pub(crate) fn read_u64(buf: &[u8; 44], at: usize) -> (r: u64)
    requires
        at + 8 <= 44,
    ensures
        r == le_value(buf@.subrange(at as int, at + 8)),
{
    LittleEndian::read_u64(&buf[at..])
}

/// Calls `byteorder::LittleEndian::write_u16` on the bytes of `buf` from `at` on: the first two of
/// them come to spell `v`, all others stay. That function panics on fewer bytes.
#[verifier::external_body]
pub(crate) fn write_u16(buf: &mut [u8; 44], at: usize, v: u16)
    requires
        at + 2 <= 44,
    ensures
        final(buf)@ == overwrite(old(buf)@, at as int, le_bytes(v as nat, 2)),
{
    LittleEndian::write_u16(&mut buf[at..], v)
}

/// Calls `byteorder::LittleEndian::write_u32` on the bytes of `buf` from `at` on: the first four of
/// them come to spell `v`, all others stay. That function panics on fewer bytes.
#[verifier::external_body]
pub(crate) fn write_u32(buf: &mut [u8; 44], at: usize, v: u32)
    requires
        at + 4 <= 44,
    ensures
        final(buf)@ == overwrite(old(buf)@, at as int, le_bytes(v as nat, 4)),
{
    LittleEndian::write_u32(&mut buf[at..], v)
}

/// Calls `byteorder::LittleEndian::write_u64` on the bytes of `buf` from `at` on: the first eight of
/// them come to spell `v`, all others stay. That function panics on fewer bytes.
#[verifier::external_body]
pub(crate) fn write_u64(buf: &mut [u8; 44], at: usize, v: u64)
    requires
        at + 8 <= 44,
    ensures
        final(buf)@ == overwrite(old(buf)@, at as int, le_bytes(v as nat, 8)),
{
    LittleEndian::write_u64(&mut buf[at..], v)
}

/// Calls `u64::to_ne_bytes`: the eight bytes of `v` as the machine stores them, least significant
/// byte first on a little-endian one and last on a big-endian one.
#[verifier::external_body]
pub(crate) fn native_bytes(v: u64) -> (r: Vec<u8>)
    ensures
        r@ == match vstd::endian::endianness() {
            vstd::endian::Endian::Little => le_bytes(v as nat, 8),
            vstd::endian::Endian::Big => le_bytes(v as nat, 8).reverse(),
        },
{
    v.to_ne_bytes().to_vec()
}

} // verus!
