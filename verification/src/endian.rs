//! Byte orders, and the integers that two or four bytes stand for in each.

use vstd::prelude::*;

verus! {

/// The order in which the bytes of a multi-byte integer lie in a buffer.
#[derive(Clone, Copy, Debug, PartialEq, Eq, Structural)]
pub enum Endian {
    /// Least significant byte first.
    Little,
    /// Most significant byte first.
    Big,
}

impl Endian {
    /// The byte order in which the bytes 1, 0 stand for `probe`: little where
    /// they stand for 1, big otherwise.
    pub open spec fn of_probe(probe: u16) -> Endian {
        if probe == 1 {
            Endian::Little
        } else {
            Endian::Big
        }
    }

    /// Tells the byte order from the 16-bit integer that was read, in that
    /// order, from the bytes 1, 0.
    pub fn from_probe(probe: u16) -> (order: Endian)
        ensures
            order == Endian::of_probe(probe),
    {
        if probe == 1 {
            Endian::Little
        } else {
            Endian::Big
        }
    }

    /// The byte order of the machine that runs this code, found by reading
    /// the bytes 1, 0 in that order. Which of the two it is cannot be known
    /// before the program runs.
    pub fn native() -> Endian {
        let probe_bytes: [u8; 2] = [1, 0];
        Endian::from_probe(native_read_u16(&probe_bytes))
    }
}

/// Reads a 16-bit integer from two bytes in the machine's own byte order, by
/// `NativeEndian::read_u16` of the `byteorder` crate that
/// `netlink_packet_utils` exports. `NativeEndian` is `LittleEndian` on some
/// targets and `BigEndian` on the others: the result is the little-endian or
/// the big-endian reading of the two bytes, and nothing here says which.
#[verifier::external_body]
fn native_read_u16(b: &[u8; 2]) -> (v: u16)
    ensures
        v == u16_from_bytes(Endian::Little, b@) || v == u16_from_bytes(Endian::Big, b@),
{
    <netlink_packet_utils::byteorder::NativeEndian as netlink_packet_utils::byteorder::ByteOrder>::read_u16(b)
}

/// The 16-bit integer that the two bytes `b` stand for in `order`.
pub open spec fn u16_from_bytes(order: Endian, b: Seq<u8>) -> u16
    recommends
        b.len() == 2,
{
    match order {
        Endian::Little => (b[0] + 256 * b[1]) as u16,
        Endian::Big => (256 * b[0] + b[1]) as u16,
    }
}

/// The two bytes that stand for `v` in `order`.
pub open spec fn u16_to_bytes(order: Endian, v: u16) -> Seq<u8> {
    match order {
        Endian::Little => seq![(v % 256) as u8, (v / 256) as u8],
        Endian::Big => seq![(v / 256) as u8, (v % 256) as u8],
    }
}

/// The 32-bit integer that the four bytes `b` stand for in `order`.
pub open spec fn u32_from_bytes(order: Endian, b: Seq<u8>) -> u32
    recommends
        b.len() == 4,
{
    match order {
        Endian::Little => (b[0] + 256 * b[1] + 65536 * b[2] + 16777216 * b[3]) as u32,
        Endian::Big => (16777216 * b[0] + 65536 * b[1] + 256 * b[2] + b[3]) as u32,
    }
}

/// The four bytes that stand for `v` in `order`.
pub open spec fn u32_to_bytes(order: Endian, v: u32) -> Seq<u8> {
    match order {
        Endian::Little => seq![
            (v % 256) as u8,
            (v / 256 % 256) as u8,
            (v / 65536 % 256) as u8,
            (v / 16777216) as u8,
        ],
        Endian::Big => seq![
            (v / 16777216) as u8,
            (v / 65536 % 256) as u8,
            (v / 256 % 256) as u8,
            (v % 256) as u8,
        ],
    }
}

/// The integer read from the bytes 1, 0 tells the order it was read in.
pub proof fn lemma_probe_tells_order(order: Endian)
    ensures
        Endian::of_probe(u16_from_bytes(order, seq![1u8, 0u8])) == order,
{
}

/// Reading the two bytes written for `v` gives `v` back.
pub proof fn lemma_u16_round_trip(order: Endian, v: u16)
    ensures
        u16_to_bytes(order, v).len() == 2,
        u16_from_bytes(order, u16_to_bytes(order, v)) == v,
{
}

/// Writing the integer read from two bytes gives the same two bytes.
pub proof fn lemma_u16_bytes_round_trip(order: Endian, b: Seq<u8>)
    requires
        b.len() == 2,
    ensures
        u16_to_bytes(order, u16_from_bytes(order, b)) == b,
{
    assert(u16_to_bytes(order, u16_from_bytes(order, b)) =~= b);
}

/// Reading the four bytes written for `v` gives `v` back.
pub proof fn lemma_u32_round_trip(order: Endian, v: u32)
    ensures
        u32_to_bytes(order, v).len() == 4,
        u32_from_bytes(order, u32_to_bytes(order, v)) == v,
{
}

/// The base-256 digits of a number below 2^32 are the digits it was built
/// from.
proof fn lemma_base_256_digits(d0: int, d1: int, d2: int, d3: int)
    requires
        0 <= d0 < 256,
        0 <= d1 < 256,
        0 <= d2 < 256,
        0 <= d3 < 256,
    ensures
        ({
            let v = d0 + 256 * d1 + 65536 * d2 + 16777216 * d3;
            &&& 0 <= v < 0x1_0000_0000
            &&& v % 256 == d0
            &&& v / 256 % 256 == d1
            &&& v / 65536 % 256 == d2
            &&& v / 16777216 == d3
        }),
{
    let v = d0 + 256 * d1 + 65536 * d2 + 16777216 * d3;
    assert(v / 256 == d1 + 256 * d2 + 65536 * d3);
    assert(v / 65536 == d2 + 256 * d3);
}

/// Writing the integer read from four bytes gives the same four bytes.
pub proof fn lemma_u32_bytes_round_trip(order: Endian, b: Seq<u8>)
    requires
        b.len() == 4,
    ensures
        u32_to_bytes(order, u32_from_bytes(order, b)) == b,
{
    match order {
        Endian::Little => lemma_base_256_digits(b[0] as int, b[1] as int, b[2] as int, b[3] as int),
        Endian::Big => lemma_base_256_digits(b[3] as int, b[2] as int, b[1] as int, b[0] as int),
    }
    assert(u32_to_bytes(order, u32_from_bytes(order, b)) =~= b);
}

} // verus!
