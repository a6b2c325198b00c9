//! The address of a security association as the kernel stores it: sixteen
//! bytes that hold an IPv4 or an IPv6 address. Which of the two they hold is
//! told by a family field of the enclosing record, not by the bytes.

use vstd::prelude::*;
use crate::buffer::{check_len, check_room, get_slice, get_slice_mut, overwrite, set_slice};
use crate::constants::{AF_INET, AF_INET6, XFRM_ADDRESS_LEN};
use crate::error::{DecodeError, EncodeError, Record};

verus! {

/// `n` zero bytes.
pub open spec fn zeros(n: nat) -> Seq<u8> {
    Seq::new(n, |i: int| 0u8)
}

/// An IP address of either version, by its octets in network order.
#[derive(Clone, Copy, Debug, PartialEq, Eq)]
pub enum IpAddress {
    /// An IPv4 address.
    V4([u8; 4]),
    /// An IPv6 address.
    V6([u8; 16]),
}

impl IpAddress {
    /// The sixteen bytes that hold this address on the wire: the octets, and
    /// zeros after the four of an IPv4 address.
    pub open spec fn wire(self) -> Seq<u8> {
        match self {
            IpAddress::V4(octets) => octets@ + zeros(12),
            IpAddress::V6(octets) => octets@,
        }
    }

    /// The address family of this address's version.
    pub open spec fn family_code(self) -> u16 {
        match self {
            IpAddress::V4(_) => AF_INET,
            IpAddress::V6(_) => AF_INET6,
        }
    }

    /// Whether this is an IPv4 address.
    pub fn is_ipv4(&self) -> (b: bool)
        ensures
            b == (*self is V4),
    {
        match self {
            IpAddress::V4(_) => true,
            IpAddress::V6(_) => false,
        }
    }

    /// Whether this is an IPv6 address.
    pub fn is_ipv6(&self) -> (b: bool)
        ensures
            b == (*self is V6),
    {
        match self {
            IpAddress::V4(_) => false,
            IpAddress::V6(_) => true,
        }
    }
}

/// A wire address.
#[derive(Clone, Copy, Debug, PartialEq, Eq)]
pub struct Address {
    pub addr: [u8; 16],
}

impl View for Address {
    type V = Seq<u8>;

    /// The sixteen bytes of the address.
    open spec fn view(&self) -> Seq<u8> {
        self.addr@
    }
}

/// A byte slice that is long enough to be read as a wire address.
#[derive(Clone, Copy, Debug)]
pub struct AddressBuffer<'a> {
    bytes: &'a [u8],
}

impl<'a> View for AddressBuffer<'a> {
    type V = Seq<u8>;

    /// The bytes of the slice.
    closed spec fn view(&self) -> Seq<u8> {
        self.bytes@
    }
}

impl<'a> AddressBuffer<'a> {
    #[verifier::type_invariant]
    spec fn long_enough(self) -> bool {
        self.bytes@.len() >= XFRM_ADDRESS_LEN
    }

    /// Views a slice that is known to be long enough.
    pub fn new(bytes: &'a [u8]) -> (buf: AddressBuffer<'a>)
        requires
            bytes@.len() >= XFRM_ADDRESS_LEN,
        ensures
            buf@ == bytes@,
    {
        AddressBuffer { bytes }
    }

    /// Views a slice, or reports that it is too short.
    pub fn new_checked(bytes: &'a [u8]) -> (r: Result<AddressBuffer<'a>, DecodeError>)
        ensures
            bytes@.len() >= XFRM_ADDRESS_LEN ==> r is Ok && r.unwrap()@ == bytes@,
            bytes@.len() < XFRM_ADDRESS_LEN ==> r is Err && r.unwrap_err()
                == (DecodeError::InsufficientBuffer {
                record: Record::Address,
                needed: XFRM_ADDRESS_LEN,
                found: bytes@.len() as usize,
            }),
    {
        match check_len(bytes, Record::Address, XFRM_ADDRESS_LEN) {
            Ok(()) => Ok(AddressBuffer { bytes }),
            Err(e) => Err(e),
        }
    }

    /// The sixteen bytes of the address.
    pub fn addr(&self) -> (s: &'a [u8])
        ensures
            s@ == self@.subrange(0, XFRM_ADDRESS_LEN as int),
            s@.len() == XFRM_ADDRESS_LEN,
    {
        proof {
            use_type_invariant(self);
        }
        get_slice(self.bytes, 0, XFRM_ADDRESS_LEN)
    }
}

/// A byte slice to write a wire address into.
#[derive(Debug)]
pub struct AddressBufferMut<'a> {
    pub bytes: &'a mut [u8],
}

impl<'a> AddressBufferMut<'a> {
    /// Whether the slice has room for an address.
    pub open spec fn wf(&self) -> bool {
        self.bytes@.len() >= XFRM_ADDRESS_LEN
    }

    /// Views a slice that is known to have room.
    pub fn new(bytes: &'a mut [u8]) -> (buf: AddressBufferMut<'a>)
        requires
            old(bytes)@.len() >= XFRM_ADDRESS_LEN,
        ensures
            buf.wf(),
            buf.bytes@ == old(bytes)@,
            final(buf.bytes)@ == final(bytes)@,
    {
        AddressBufferMut { bytes }
    }

    /// Views a slice, or reports that it has no room. The slice is unchanged
    /// either way.
    pub fn new_checked(bytes: &'a mut [u8]) -> (r: Result<AddressBufferMut<'a>, EncodeError>)
        ensures
            old(bytes)@.len() >= XFRM_ADDRESS_LEN ==> r is Ok && r.unwrap().wf() && r.unwrap().bytes@
                == old(bytes)@ && final(r.unwrap().bytes)@ == final(bytes)@,
            old(bytes)@.len() < XFRM_ADDRESS_LEN ==> final(bytes)@ == old(bytes)@ && r is Err
                && r.unwrap_err() == (EncodeError::SizeMismatch {
                record: Record::Address,
                needed: XFRM_ADDRESS_LEN,
                found: old(bytes)@.len() as usize,
            }),
    {
        match check_room(bytes, Record::Address, XFRM_ADDRESS_LEN) {
            Ok(()) => Ok(AddressBufferMut { bytes }),
            Err(e) => Err(e),
        }
    }

    /// Lends the sixteen bytes of the address for writing.
    pub fn addr_mut(&mut self) -> (s: &mut [u8])
        requires
            old(self).wf(),
        ensures
            s@ == old(self).bytes@.subrange(0, XFRM_ADDRESS_LEN as int),
            final(s)@.len() == XFRM_ADDRESS_LEN ==> final(self).wf() && final(self).bytes@
                == overwrite(old(self).bytes@, 0, final(s)@),
            final(final(self).bytes)@ == final(old(self).bytes)@,
    {
        let s = get_slice_mut(self.bytes, 0, XFRM_ADDRESS_LEN);
        s
    }
}

impl Default for Address {
    /// The address of sixteen zero bytes.
    fn default() -> (a: Address)
        ensures
            a@ == zeros(16),
    {
        let a = Address { addr: [0u8; 16] };
        assert(a@ =~= zeros(16));
        a
    }
}

impl Address {
    /// The wire address of an IPv4 address: its four octets, then zeros.
    pub fn from_ipv4(octets: &[u8; 4]) -> (a: Address)
        ensures
            a@ == octets@ + zeros(12),
    {
        let mut addr = [0u8; 16];
        addr[0] = octets[0];
        addr[1] = octets[1];
        addr[2] = octets[2];
        addr[3] = octets[3];
        assert(addr@ =~= octets@ + zeros(12));
        Address { addr }
    }

    /// The wire address of an IPv6 address: its sixteen octets.
    pub fn from_ipv6(octets: &[u8; 16]) -> (a: Address)
        ensures
            a@ == octets@,
    {
        Address { addr: *octets }
    }

    /// The wire address of an IP address of either version.
    pub fn from_ip(ip: &IpAddress) -> (a: Address)
        ensures
            a@ == ip.wire(),
    {
        match ip {
            IpAddress::V4(octets) => Address::from_ipv4(octets),
            IpAddress::V6(octets) => Address::from_ipv6(octets),
        }
    }

    /// The address that the first sixteen bytes of `bytes` hold.
    pub open spec fn from_wire(bytes: Seq<u8>) -> Seq<u8>
        recommends
            bytes.len() >= XFRM_ADDRESS_LEN,
    {
        bytes.subrange(0, XFRM_ADDRESS_LEN as int)
    }

    /// The buffer `prior` after this address was written to it.
    pub open spec fn wire(self, prior: Seq<u8>) -> Seq<u8>
        recommends
            prior.len() >= XFRM_ADDRESS_LEN,
    {
        overwrite(prior, 0, self@)
    }

    /// Reads an address from a validated buffer. Any sixteen bytes are an
    /// address, so this never fails.
    pub fn parse(buf: &AddressBuffer) -> (r: Result<Address, DecodeError>)
        ensures
            r is Ok,
            r.unwrap()@ == Address::from_wire(buf@),
    {
        let src = buf.addr();
        let mut addr = [0u8; 16];
        let mut i: usize = 0;
        while i < 16
            invariant
                i <= 16,
                src@.len() == 16,
                forall|j: int| 0 <= j < i ==> addr@[j] == src@[j],
            decreases 16 - i,
        {
            addr[i] = src[i];
            i += 1;
        }
        assert(addr@ =~= src@);
        Ok(Address { addr })
    }

    /// Reads an address from a slice, or reports that the slice is too short.
    pub fn decode(bytes: &[u8]) -> (r: Result<Address, DecodeError>)
        ensures
            bytes@.len() >= XFRM_ADDRESS_LEN ==> r is Ok && r.unwrap()@ == Address::from_wire(
                bytes@,
            ),
            bytes@.len() < XFRM_ADDRESS_LEN ==> r is Err && r.unwrap_err()
                == (DecodeError::InsufficientBuffer {
                record: Record::Address,
                needed: XFRM_ADDRESS_LEN,
                found: bytes@.len() as usize,
            }),
    {
        match AddressBuffer::new_checked(bytes) {
            Ok(buf) => Address::parse(&buf),
            Err(e) => Err(e),
        }
    }

    /// The number of bytes that an address takes in a buffer.
    pub fn buffer_len(&self) -> (len: usize)
        ensures
            len == XFRM_ADDRESS_LEN,
            len % 8 == 0,
    {
        XFRM_ADDRESS_LEN
    }

    /// Writes the address over the first sixteen bytes of `buffer`. The rest
    /// keeps what `buffer` held, and reading the buffer gives the address
    /// back.
    pub fn emit(&self, buffer: &mut [u8])
        requires
            old(buffer)@.len() >= XFRM_ADDRESS_LEN,
        ensures
            final(buffer)@ == self.wire(old(buffer)@),
            final(buffer)@.len() == old(buffer)@.len(),
            Address::from_wire(final(buffer)@) == self@,
    {
        let mut buf = AddressBufferMut::new(buffer);
        set_slice(buf.addr_mut(), 0, &self.addr);
        proof {
            lemma_address_round_trip(*self, old(buffer)@);
        }
    }

    /// Writes the address over the first sixteen bytes of `buffer`, or
    /// reports that `buffer` is too short and leaves it as it is.
    pub fn try_emit(&self, buffer: &mut [u8]) -> (r: Result<(), EncodeError>)
        ensures
            old(buffer)@.len() >= XFRM_ADDRESS_LEN ==> r is Ok && final(buffer)@ == self.wire(
                old(buffer)@,
            ) && Address::from_wire(final(buffer)@) == self@,
            old(buffer)@.len() < XFRM_ADDRESS_LEN ==> final(buffer)@ == old(buffer)@ && r is Err
                && r.unwrap_err() == (EncodeError::SizeMismatch {
                record: Record::Address,
                needed: XFRM_ADDRESS_LEN,
                found: old(buffer)@.len() as usize,
            }),
    {
        match check_room(buffer, Record::Address, XFRM_ADDRESS_LEN) {
            Ok(()) => {
                self.emit(buffer);
                Ok(())
            },
            Err(e) => Err(e),
        }
    }
}

/// Reading an address from the buffer it was written to gives the address
/// back, whatever the buffer held before.
pub proof fn lemma_address_round_trip(a: Address, prior: Seq<u8>)
    requires
        prior.len() >= XFRM_ADDRESS_LEN,
    ensures
        a.wire(prior).len() == prior.len(),
        Address::from_wire(a.wire(prior)) == a@,
{
    assert(Address::from_wire(a.wire(prior)) =~= a@);
}

/// Two addresses with the same bytes are the same address.
pub proof fn lemma_address_view_injective(a: Address, b: Address)
    requires
        a@ == b@,
    ensures
        a == b,
{
    assert(a.addr =~= b.addr);
}

} // verus!
