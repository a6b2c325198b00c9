//! Numbers fixed by the kernel interface.

use vstd::prelude::*;

verus! {

/// Address family of an IPv4 address.
pub const AF_INET: u16 = 2;

/// Address family of an IPv6 address.
pub const AF_INET6: u16 = 10;

/// Transport protocol number of IP payload compression, whose SPI space is
/// 16 bits wide.
pub const IPPROTO_COMP: u8 = 108;

/// Size of an address on the wire, wide enough for either family.
pub const XFRM_ADDRESS_LEN: usize = 16;

/// Largest SPI that the payload compression protocol can carry.
pub const COMP_SPI_MAX: u32 = 0xffff;

/// Lower end of the SPI range that a new allocation request asks for.
pub const DEFAULT_SPI_MIN: u32 = 0x100;

/// Upper end of the SPI range that a new allocation request asks for.
pub const DEFAULT_SPI_MAX: u32 = 0x0fffffff;

} // verus!
