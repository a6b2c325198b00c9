//! Bounds-checked access to the fields of a fixed-layout record.
//!
//! A field is a byte range at a fixed offset. The functions here read and
//! write one field of a slice; each states the bytes it needs, so that a
//! record's typed view, which checks the slice's length once, can reach every
//! field of its layout without a further check.

use vstd::prelude::*;
use crate::endian::{u16_from_bytes, u16_to_bytes, u32_from_bytes, u32_to_bytes, Endian};
use crate::error::{DecodeError, EncodeError, Record};

verus! {

/// The length of a record whose last field ends at `raw_end`: the next
/// multiple of 8.
pub open spec fn padded_len(raw_end: int) -> int {
    (raw_end + 7) / 8 * 8
}

/// `s` with the bytes from `at` on replaced by `piece`.
pub open spec fn overwrite(s: Seq<u8>, at: int, piece: Seq<u8>) -> Seq<u8>
    recommends
        0 <= at,
        at + piece.len() <= s.len(),
{
    s.subrange(0, at) + piece + s.subrange(at + piece.len(), s.len() as int)
}

/// Overwriting changes the bytes of the piece's range and no others.
pub proof fn lemma_overwrite(s: Seq<u8>, at: int, piece: Seq<u8>)
    requires
        0 <= at,
        at + piece.len() <= s.len(),
    ensures
        overwrite(s, at, piece).len() == s.len(),
        overwrite(s, at, piece).subrange(at, at + piece.len()) == piece,
        forall|i: int| 0 <= i < at ==> overwrite(s, at, piece)[i] == s[i],
        forall|i: int| at + piece.len() <= i < s.len() ==> overwrite(s, at, piece)[i] == s[i],
{
    assert(overwrite(s, at, piece).subrange(at, at + piece.len()) =~= piece);
}

/// Rounds the end of a record's last field up to the record's length.
pub fn align8(raw_end: usize) -> (len: usize)
    requires
        raw_end + 7 <= usize::MAX,
    ensures
        len == padded_len(raw_end as int),
        len % 8 == 0,
        raw_end <= len < raw_end + 8,
{
    let end: usize = raw_end + 7;
    assert(end & !7usize == end / 8 * 8) by (bit_vector);
    end & !7usize
}

/// Tells whether `bytes` is long enough for `record`, which takes `needed`
/// bytes.
pub fn check_len(bytes: &[u8], record: Record, needed: usize) -> (r: Result<(), DecodeError>)
    ensures
        bytes@.len() >= needed ==> r == Ok::<(), DecodeError>(()),
        bytes@.len() < needed ==> r == Err::<(), DecodeError>(
            DecodeError::InsufficientBuffer { record, needed, found: bytes@.len() as usize },
        ),
{
    let found = bytes.len();
    if found < needed {
        Err(DecodeError::InsufficientBuffer { record, needed, found })
    } else {
        Ok(())
    }
}

/// Tells whether `bytes` has room for `record`, which takes `needed` bytes.
pub fn check_room(bytes: &[u8], record: Record, needed: usize) -> (r: Result<(), EncodeError>)
    ensures
        bytes@.len() >= needed ==> r == Ok::<(), EncodeError>(()),
        bytes@.len() < needed ==> r == Err::<(), EncodeError>(
            EncodeError::SizeMismatch { record, needed, found: bytes@.len() as usize },
        ),
{
    let found = bytes.len();
    if found < needed {
        Err(EncodeError::SizeMismatch { record, needed, found })
    } else {
        Ok(())
    }
}

/// The byte at `at`.
pub fn get_u8(bytes: &[u8], at: usize) -> (v: u8)
    requires
        at < bytes@.len(),
    ensures
        v == bytes@[at as int],
{
    bytes[at]
}

/// The 16-bit integer in the two bytes from `at` on, read in `order`.
pub fn get_u16(bytes: &[u8], order: Endian, at: usize) -> (v: u16)
    requires
        at + 2 <= bytes@.len(),
    ensures
        v == u16_from_bytes(order, bytes@.subrange(at as int, at + 2)),
{
    let first: u16 = bytes[at] as u16;
    let second: u16 = bytes[at + 1] as u16;
    match order {
        Endian::Little => first + 256 * second,
        Endian::Big => 256 * first + second,
    }
}

/// The 32-bit integer in the four bytes from `at` on, read in `order`.
pub fn get_u32(bytes: &[u8], order: Endian, at: usize) -> (v: u32)
    requires
        at + 4 <= bytes@.len(),
    ensures
        v == u32_from_bytes(order, bytes@.subrange(at as int, at + 4)),
{
    let b0: u32 = bytes[at] as u32;
    let b1: u32 = bytes[at + 1] as u32;
    let b2: u32 = bytes[at + 2] as u32;
    let b3: u32 = bytes[at + 3] as u32;
    match order {
        Endian::Little => b0 + 256 * b1 + 65536 * b2 + 16777216 * b3,
        Endian::Big => 16777216 * b0 + 65536 * b1 + 256 * b2 + b3,
    }
}

/// The bytes from `start` up to `end`.
pub fn get_slice(bytes: &[u8], start: usize, end: usize) -> (s: &[u8])
    requires
        start <= end <= bytes@.len(),
    ensures
        s@ == bytes@.subrange(start as int, end as int),
{
    &bytes[start..end]
}

/// Writes `v` at `at`.
pub fn set_u8(bytes: &mut [u8], at: usize, v: u8)
    requires
        at < old(bytes)@.len(),
    ensures
        final(bytes)@ == overwrite(old(bytes)@, at as int, seq![v]),
{
    bytes[at] = v;
    assert(bytes@ =~= overwrite(old(bytes)@, at as int, seq![v]));
}

/// Writes `v` into the two bytes from `at` on, in `order`.
pub fn set_u16(bytes: &mut [u8], order: Endian, at: usize, v: u16)
    requires
        at + 2 <= old(bytes)@.len(),
    ensures
        final(bytes)@ == overwrite(old(bytes)@, at as int, u16_to_bytes(order, v)),
{
    let low: u8 = (v % 256) as u8;
    let high: u8 = (v / 256) as u8;
    match order {
        Endian::Little => {
            bytes[at] = low;
            bytes[at + 1] = high;
        },
        Endian::Big => {
            bytes[at] = high;
            bytes[at + 1] = low;
        },
    }
    assert(bytes@ =~= overwrite(old(bytes)@, at as int, u16_to_bytes(order, v)));
}

/// Writes `v` into the four bytes from `at` on, in `order`.
pub fn set_u32(bytes: &mut [u8], order: Endian, at: usize, v: u32)
    requires
        at + 4 <= old(bytes)@.len(),
    ensures
        final(bytes)@ == overwrite(old(bytes)@, at as int, u32_to_bytes(order, v)),
{
    let d0: u8 = (v % 256) as u8;
    let d1: u8 = (v / 256 % 256) as u8;
    let d2: u8 = (v / 65536 % 256) as u8;
    let d3: u8 = (v / 16777216) as u8;
    match order {
        Endian::Little => {
            bytes[at] = d0;
            bytes[at + 1] = d1;
            bytes[at + 2] = d2;
            bytes[at + 3] = d3;
        },
        Endian::Big => {
            bytes[at] = d3;
            bytes[at + 1] = d2;
            bytes[at + 2] = d1;
            bytes[at + 3] = d0;
        },
    }
    assert(bytes@ =~= overwrite(old(bytes)@, at as int, u32_to_bytes(order, v)));
}

/// Writes `src` over the bytes from `at` on.
pub fn set_slice(bytes: &mut [u8], at: usize, src: &[u8])
    requires
        at + src@.len() <= old(bytes)@.len(),
    ensures
        final(bytes)@ == overwrite(old(bytes)@, at as int, src@),
{
    let n = src.len();
    let mut i: usize = 0;
    assert(bytes@.len() == bytes.len());
    while i < n
        invariant
            n == src@.len(),
            i <= n,
            at + n <= bytes@.len() <= usize::MAX,
            bytes@.len() == old(bytes)@.len(),
            forall|j: int| 0 <= j < at ==> bytes@[j] == old(bytes)@[j],
            forall|j: int| at <= j < at + i ==> bytes@[j] == src@[j - at],
            forall|j: int| at + i <= j < bytes@.len() ==> bytes@[j] == old(bytes)@[j],
        decreases n - i,
    {
        bytes[at + i] = src[i];
        i += 1;
    }
    assert(bytes@ =~= overwrite(old(bytes)@, at as int, src@));
}

/// Lends the bytes from `start` up to `end` for writing. What the borrower
/// leaves there is what the whole slice then holds in that range.
pub fn get_slice_mut(bytes: &mut [u8], start: usize, end: usize) -> (s: &mut [u8])
    requires
        start <= end <= old(bytes)@.len(),
    ensures
        s@ == old(bytes)@.subrange(start as int, end as int),
        final(bytes)@ == old(bytes)@.subrange(0, start as int) + final(s)@ + old(bytes)@.subrange(
            end as int,
            old(bytes)@.len() as int,
        ),
{
    let (_, rest) = bytes.split_at_mut(start);
    let (field, _) = rest.split_at_mut(end - start);
    assert(field@ =~= old(bytes)@.subrange(start as int, end as int));
    field
}

} // verus!
