//! Numbers and keys as bytes: how they are written into a buffer and read
//! from one.

use vstd::bytes::{
    lemma_auto_spec_u128_to_from_le_bytes, lemma_auto_spec_u16_to_from_le_bytes,
    lemma_auto_spec_u32_to_from_le_bytes, lemma_auto_spec_u64_to_from_le_bytes,
    spec_u128_from_le_bytes, spec_u128_to_le_bytes, spec_u16_from_le_bytes,
    spec_u16_to_le_bytes, spec_u32_from_le_bytes, spec_u32_to_le_bytes,
    spec_u64_from_le_bytes, spec_u64_to_le_bytes, u128_from_le_bytes, u16_from_le_bytes,
    u32_from_le_bytes, u64_from_le_bytes,
};
use vstd::prelude::*;
use vstd::slice::slice_subrange;

verus! {


/// `n` bytes that are zero.
pub open spec fn zeros(n: nat) -> Seq<u8> {
    Seq::new(n, |i: int| 0u8)
}

/// The two bytes of `x`, the high byte first.
pub open spec fn be16(x: u16) -> Seq<u8> {
    spec_u16_to_le_bytes(x).reverse()
}

/// The four bytes of `x`, the highest byte first.
pub open spec fn be32(x: u32) -> Seq<u8> {
    spec_u32_to_le_bytes(x).reverse()
}

/// The sixteen bytes of `x`, the highest byte first.
pub open spec fn be128(x: u128) -> Seq<u8> {
    spec_u128_to_le_bytes(x).reverse()
}

/// Adds `bytes` to the end of `buffer`.
pub(super) fn push_all(buffer: &mut Vec<u8>, bytes: &Vec<u8>)
    ensures
        final(buffer)@ == old(buffer)@ + bytes@,
{
    let mut i: usize = 0;
    while i < bytes.len()
        invariant
            i <= bytes.len(),
            buffer@ == old(buffer)@ + bytes@.take(i as int),
        decreases bytes.len() - i,
    {
        buffer.push(bytes[i]);
        assert(bytes@.take(i + 1) == bytes@.take(i as int).push(bytes@[i as int]));
        i += 1;
    }
    assert(bytes@.take(bytes.len() as int) == bytes@);
}

/// Adds `bytes` to the end of `buffer`, the last byte first.
pub(super) fn push_reversed(buffer: &mut Vec<u8>, bytes: &Vec<u8>)
    ensures
        final(buffer)@ == old(buffer)@ + bytes@.reverse(),
{
    let mut i: usize = 0;
    while i < bytes.len()
        invariant
            i <= bytes.len(),
            buffer@ == old(buffer)@ + bytes@.reverse().take(i as int),
        decreases bytes.len() - i,
    {
        buffer.push(bytes[bytes.len() - 1 - i]);
        assert(bytes@.reverse().take(i + 1) == bytes@.reverse().take(i as int).push(
            bytes@[bytes.len() - 1 - i],
        ));
        i += 1;
    }
    assert(bytes@.reverse().take(bytes.len() as int) == bytes@.reverse());
}

/// Adds the bytes of a key to the end of `buffer`.
pub(super) fn push_key(buffer: &mut Vec<u8>, key: &[u8; 32])
    ensures
        final(buffer)@ == old(buffer)@ + key@,
{
    let mut i: usize = 0;
    while i < 32
        invariant
            i <= 32,
            buffer@ == old(buffer)@ + key@.take(i as int),
        decreases 32 - i,
    {
        buffer.push(key[i]);
        assert(key@.take(i + 1) == key@.take(i as int).push(key@[i as int]));
        i += 1;
    }
    assert(key@.take(32) == key@);
}

/// Adds `n` zero bytes to the end of `buffer`.
pub(super) fn push_zeros(buffer: &mut Vec<u8>, n: usize)
    ensures
        final(buffer)@ == old(buffer)@ + zeros(n as nat),
{
    let mut i: usize = 0;
    while i < n
        invariant
            i <= n,
            buffer@ == old(buffer)@ + zeros(i as nat),
        decreases n - i,
    {
        buffer.push(0);
        assert(zeros((i + 1) as nat) == zeros(i as nat).push(0u8));
        i += 1;
    }
}

/// The key of zeros.
pub(super) fn zero_key() -> (r: [u8; 32])
    ensures
        r@ == zeros(32),
{
    let key = [0u8; 32];
    assert(key@ =~= zeros(32));
    key
}

/// The number that two bytes spell, the high byte first.
pub open spec fn from_be16(bytes: Seq<u8>) -> u16 {
    spec_u16_from_le_bytes(bytes.reverse())
}

/// The number that four bytes spell, the highest byte first.
pub open spec fn from_be32(bytes: Seq<u8>) -> u32 {
    spec_u32_from_le_bytes(bytes.reverse())
}

/// The number that sixteen bytes spell, the highest byte first.
pub open spec fn from_be128(bytes: Seq<u8>) -> u128 {
    spec_u128_from_le_bytes(bytes.reverse())
}

/// The bytes of `bytes` from `offset` on, `length` of them, the last first.
pub(super) fn reversed(bytes: &[u8], offset: usize, length: usize) -> (r: Vec<u8>)
    requires
        offset + length <= bytes@.len(),
    ensures
        r@ == bytes@.subrange(offset as int, offset + length).reverse(),
{
    let mut turned: Vec<u8> = Vec::new();
    let total = bytes.len();
    let mut i: usize = 0;
    while i < length
        invariant
            i <= length,
            offset + length <= bytes@.len(),
            bytes@.len() == total,
            turned@ == bytes@.subrange(offset as int, offset + length).reverse().take(i as int),
        decreases length - i,
    {
        turned.push(bytes[offset + length - 1 - i]);
        assert(bytes@.subrange(offset as int, offset + length).reverse().take(i + 1)
            == bytes@.subrange(offset as int, offset + length).reverse().take(i as int).push(
            bytes@[offset + length - 1 - i],
        ));
        i += 1;
    }
    assert(bytes@.subrange(offset as int, offset + length).reverse().take(length as int)
        == bytes@.subrange(offset as int, offset + length).reverse());
    turned
}

pub(super) fn read_u16(bytes: &[u8], offset: usize) -> (r: u16)
    requires
        offset + 2 <= bytes@.len(),
    ensures
        r == spec_u16_from_le_bytes(bytes@.subrange(offset as int, offset + 2)),
{
    let length = bytes.len();
    u16_from_le_bytes(slice_subrange(bytes, offset, offset + 2))
}

pub(super) fn read_u32(bytes: &[u8], offset: usize) -> (r: u32)
    requires
        offset + 4 <= bytes@.len(),
    ensures
        r == spec_u32_from_le_bytes(bytes@.subrange(offset as int, offset + 4)),
{
    let length = bytes.len();
    u32_from_le_bytes(slice_subrange(bytes, offset, offset + 4))
}

pub(super) fn read_u64(bytes: &[u8], offset: usize) -> (r: u64)
    requires
        offset + 8 <= bytes@.len(),
    ensures
        r == spec_u64_from_le_bytes(bytes@.subrange(offset as int, offset + 8)),
{
    let length = bytes.len();
    u64_from_le_bytes(slice_subrange(bytes, offset, offset + 8))
}

pub(super) fn read_be16(bytes: &[u8], offset: usize) -> (r: u16)
    requires
        offset + 2 <= bytes@.len(),
    ensures
        r == from_be16(bytes@.subrange(offset as int, offset + 2)),
{
    u16_from_le_bytes(reversed(bytes, offset, 2).as_slice())
}

pub(super) fn read_be32(bytes: &[u8], offset: usize) -> (r: u32)
    requires
        offset + 4 <= bytes@.len(),
    ensures
        r == from_be32(bytes@.subrange(offset as int, offset + 4)),
{
    u32_from_le_bytes(reversed(bytes, offset, 4).as_slice())
}

pub(super) fn read_be128(bytes: &[u8], offset: usize) -> (r: u128)
    requires
        offset + 16 <= bytes@.len(),
    ensures
        r == from_be128(bytes@.subrange(offset as int, offset + 16)),
{
    u128_from_le_bytes(reversed(bytes, offset, 16).as_slice())
}

pub(super) fn read_key(bytes: &[u8], offset: usize) -> (r: [u8; 32])
    requires
        offset + 32 <= bytes@.len(),
    ensures
        r@ == bytes@.subrange(offset as int, offset + 32),
{
    let mut key = [0u8; 32];
    let length = bytes.len();
    let mut i: usize = 0;
    while i < 32
        invariant
            i <= 32,
            offset + 32 <= bytes@.len(),
            bytes@.len() == length,
            forall|j: int| 0 <= j < i ==> key@[j] == bytes@[offset + j],
        decreases 32 - i,
    {
        key[i] = bytes[offset + i];
        i += 1;
    }
    assert(key@ =~= bytes@.subrange(offset as int, offset + 32));
    key
}

/// The lengths of the bytes of numbers, and that the numbers are read back
/// from their bytes in either order.
pub(super) proof fn numbers_are_read_back()
    ensures
        forall|x: u16| #[trigger] spec_u16_to_le_bytes(x).len() == 2,
        forall|x: u32| #[trigger] spec_u32_to_le_bytes(x).len() == 4,
        forall|x: u64| #[trigger] spec_u64_to_le_bytes(x).len() == 8,
        forall|x: u128| #[trigger] spec_u128_to_le_bytes(x).len() == 16,
        forall|x: u16| spec_u16_from_le_bytes(#[trigger] spec_u16_to_le_bytes(x)) == x,
        forall|x: u32| spec_u32_from_le_bytes(#[trigger] spec_u32_to_le_bytes(x)) == x,
        forall|x: u64| spec_u64_from_le_bytes(#[trigger] spec_u64_to_le_bytes(x)) == x,
        forall|x: u128| spec_u128_from_le_bytes(#[trigger] spec_u128_to_le_bytes(x)) == x,
        forall|x: u16| #[trigger] be16(x).len() == 2 && from_be16(be16(x)) == x,
        forall|x: u32| #[trigger] be32(x).len() == 4 && from_be32(be32(x)) == x,
        forall|x: u128| #[trigger] be128(x).len() == 16 && from_be128(be128(x)) == x,
{
    lemma_auto_spec_u16_to_from_le_bytes();
    lemma_auto_spec_u32_to_from_le_bytes();
    lemma_auto_spec_u64_to_from_le_bytes();
    lemma_auto_spec_u128_to_from_le_bytes();
    assert forall|x: u16| spec_u16_from_le_bytes(#[trigger] spec_u16_to_le_bytes(x)) == x by {
        assert(spec_u16_to_le_bytes(x).len() == 2);
    }
    assert forall|x: u32| spec_u32_from_le_bytes(#[trigger] spec_u32_to_le_bytes(x)) == x by {
        assert(spec_u32_to_le_bytes(x).len() == 4);
    }
    assert forall|x: u64| spec_u64_from_le_bytes(#[trigger] spec_u64_to_le_bytes(x)) == x by {
        assert(spec_u64_to_le_bytes(x).len() == 8);
    }
    assert forall|x: u128| spec_u128_from_le_bytes(#[trigger] spec_u128_to_le_bytes(x)) == x by {
        assert(spec_u128_to_le_bytes(x).len() == 16);
    }
    assert forall|x: u16| #[trigger] be16(x).len() == 2 && from_be16(be16(x)) == x by {
        assert(spec_u16_to_le_bytes(x).reverse().reverse() =~= spec_u16_to_le_bytes(x));
    }
    assert forall|x: u32| #[trigger] be32(x).len() == 4 && from_be32(be32(x)) == x by {
        assert(spec_u32_to_le_bytes(x).reverse().reverse() =~= spec_u32_to_le_bytes(x));
    }
    assert forall|x: u128| #[trigger] be128(x).len() == 16 && from_be128(be128(x)) == x by {
        assert(spec_u128_to_le_bytes(x).reverse().reverse() =~= spec_u128_to_le_bytes(x));
    }
}

} // verus!
