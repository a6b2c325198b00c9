//! The identifier of a security association: destination address, SPI,
//! address family and transport protocol.

use vstd::prelude::*;
use crate::address::{zeros, Address, AddressBuffer, IpAddress};
use crate::buffer::{
    check_len,
    check_room,
    get_slice,
    get_slice_mut,
    get_u16,
    get_u32,
    get_u8,
    overwrite,
    padded_len,
    set_u16,
    set_u32,
    set_u8,
};
use crate::constants::{AF_INET, AF_INET6, XFRM_ADDRESS_LEN};
use crate::endian::{
    lemma_u16_bytes_round_trip,
    lemma_u16_round_trip,
    lemma_u32_bytes_round_trip,
    lemma_u32_round_trip,
    u16_from_bytes,
    u16_to_bytes,
    u32_from_bytes,
    u32_to_bytes,
    Endian,
};
use crate::error::{DecodeError, EncodeError, NestedField, Record};

verus! {

/// Where the destination address starts.
pub const DADDR_START: usize = 0;

/// Where the destination address ends.
pub const DADDR_END: usize = DADDR_START + XFRM_ADDRESS_LEN;

/// Where the SPI starts.
pub const SPI_START: usize = DADDR_END;

/// Where the SPI ends.
pub const SPI_END: usize = SPI_START + 4;

/// Where the address family starts.
pub const FAMILY_START: usize = SPI_END;

/// Where the address family ends.
pub const FAMILY_END: usize = FAMILY_START + 2;

/// Where the protocol number stands.
pub const PROTO_AT: usize = FAMILY_END;

/// Where the last field ends and the padding starts.
pub const USER_SA_ID_RAW_END: usize = PROTO_AT + 1;

/// The length of an identifier in a buffer, padding included.
pub const XFRM_USER_SA_ID_LEN: usize = (USER_SA_ID_RAW_END + 7) / 8 * 8;

/// A security association identifier.
#[derive(Clone, Copy, Debug, PartialEq, Eq)]
pub struct UserSaId {
    /// Destination address. Set it with [`UserSaId::destination`], which
    /// keeps `family` in step.
    pub daddr: Address,
    /// Security parameter index, in host order here and big-endian on the
    /// wire.
    pub spi: u32,
    /// Address family of `daddr`.
    pub family: u16,
    /// Transport protocol number.
    pub proto: u8,
}

/// What an identifier holds.
pub struct UserSaIdView {
    pub daddr: Seq<u8>,
    pub spi: u32,
    pub family: u16,
    pub proto: u8,
}

impl View for UserSaId {
    type V = UserSaIdView;

    open spec fn view(&self) -> UserSaIdView {
        UserSaIdView { daddr: self.daddr@, spi: self.spi, family: self.family, proto: self.proto }
    }
}

impl UserSaIdView {
    /// Whether the family is that of the address: both are unset, or the
    /// family is IPv4 and the address is four octets followed by zeros, or
    /// the family is IPv6. The sixteen bytes do not tell an IPv6 address
    /// from anything else, so for that family any address will do.
    pub open spec fn family_matches(self) -> bool {
        &&& self.daddr.len() == XFRM_ADDRESS_LEN
        &&& {
            ||| self.family == 0 && self.daddr == zeros(16)
            ||| self.family == AF_INET && self.daddr.subrange(4, 16) == zeros(12)
            ||| self.family == AF_INET6
        }
    }

    /// The bytes of the fields in layout order, where `order` is the byte
    /// order of the machine: the address, the SPI big-endian, the family in
    /// `order`, the protocol.
    pub open spec fn field_bytes(self, order: Endian) -> Seq<u8> {
        self.daddr + u32_to_bytes(Endian::Big, self.spi) + u16_to_bytes(order, self.family)
            + seq![self.proto]
    }

    /// The buffer `prior` after the identifier was written to it: the field
    /// bytes, and from there on what `prior` held, padding included.
    pub open spec fn wire(self, order: Endian, prior: Seq<u8>) -> Seq<u8>
        recommends
            self.daddr.len() == XFRM_ADDRESS_LEN,
            prior.len() >= XFRM_USER_SA_ID_LEN,
    {
        overwrite(prior, 0, self.field_bytes(order))
    }

    /// The identifier that `bytes` holds. The padding is not looked at.
    pub open spec fn from_wire(order: Endian, bytes: Seq<u8>) -> UserSaIdView
        recommends
            bytes.len() >= XFRM_USER_SA_ID_LEN,
    {
        UserSaIdView {
            daddr: Address::from_wire(bytes.subrange(DADDR_START as int, DADDR_END as int)),
            spi: u32_from_bytes(Endian::Big, bytes.subrange(SPI_START as int, SPI_END as int)),
            family: u16_from_bytes(order, bytes.subrange(FAMILY_START as int, FAMILY_END as int)),
            proto: bytes[PROTO_AT as int],
        }
    }
}

/// A byte slice that is long enough to be read as an identifier, with the
/// byte order of its native-endian fields.
#[derive(Clone, Copy, Debug)]
pub struct UserSaIdBuffer<'a> {
    bytes: &'a [u8],
    order: Endian,
}

impl<'a> View for UserSaIdBuffer<'a> {
    type V = Seq<u8>;

    /// The bytes of the slice.
    closed spec fn view(&self) -> Seq<u8> {
        self.bytes@
    }
}

impl<'a> UserSaIdBuffer<'a> {
    #[verifier::type_invariant]
    spec fn long_enough(self) -> bool {
        self.bytes@.len() >= XFRM_USER_SA_ID_LEN
    }

    /// The byte order in which the native-endian fields are read.
    pub closed spec fn order(&self) -> Endian {
        self.order
    }

    /// Views a slice that is known to be long enough.
    pub fn new(bytes: &'a [u8], order: Endian) -> (buf: UserSaIdBuffer<'a>)
        requires
            bytes@.len() >= XFRM_USER_SA_ID_LEN,
        ensures
            buf@ == bytes@,
            buf.order() == order,
    {
        UserSaIdBuffer { bytes, order }
    }

    /// Views a slice, or reports that it is too short.
    pub fn new_checked(bytes: &'a [u8], order: Endian) -> (r: Result<
        UserSaIdBuffer<'a>,
        DecodeError,
    >)
        ensures
            bytes@.len() >= XFRM_USER_SA_ID_LEN ==> r is Ok && r.unwrap()@ == bytes@
                && r.unwrap().order() == order,
            bytes@.len() < XFRM_USER_SA_ID_LEN ==> r is Err && r.unwrap_err()
                == (DecodeError::InsufficientBuffer {
                record: Record::UserSaId,
                needed: XFRM_USER_SA_ID_LEN,
                found: bytes@.len() as usize,
            }),
    {
        match check_len(bytes, Record::UserSaId, XFRM_USER_SA_ID_LEN) {
            Ok(()) => Ok(UserSaIdBuffer { bytes, order }),
            Err(e) => Err(e),
        }
    }

    /// The bytes of the destination address.
    pub fn daddr(&self) -> (s: &'a [u8])
        ensures
            s@ == self@.subrange(DADDR_START as int, DADDR_END as int),
            s@.len() == XFRM_ADDRESS_LEN,
    {
        proof {
            use_type_invariant(self);
        }
        get_slice(self.bytes, DADDR_START, DADDR_END)
    }

    /// The SPI, which the wire holds big-endian.
    pub fn spi(&self) -> (v: u32)
        ensures
            v == u32_from_bytes(Endian::Big, self@.subrange(SPI_START as int, SPI_END as int)),
    {
        proof {
            use_type_invariant(self);
        }
        get_u32(self.bytes, Endian::Big, SPI_START)
    }

    /// The address family.
    pub fn family(&self) -> (v: u16)
        ensures
            v == u16_from_bytes(
                self.order(),
                self@.subrange(FAMILY_START as int, FAMILY_END as int),
            ),
    {
        proof {
            use_type_invariant(self);
        }
        get_u16(self.bytes, self.order, FAMILY_START)
    }

    /// The protocol number.
    pub fn proto(&self) -> (v: u8)
        ensures
            v == self@[PROTO_AT as int],
    {
        proof {
            use_type_invariant(self);
        }
        get_u8(self.bytes, PROTO_AT)
    }
}

/// A byte slice to write an identifier into, with the byte order of its
/// native-endian fields.
#[derive(Debug)]
pub struct UserSaIdBufferMut<'a> {
    pub bytes: &'a mut [u8],
    pub order: Endian,
}

impl<'a> UserSaIdBufferMut<'a> {
    /// Whether the slice has room for an identifier.
    pub open spec fn wf(&self) -> bool {
        self.bytes@.len() >= XFRM_USER_SA_ID_LEN
    }

    /// Views a slice that is known to have room.
    pub fn new(bytes: &'a mut [u8], order: Endian) -> (buf: UserSaIdBufferMut<'a>)
        requires
            old(bytes)@.len() >= XFRM_USER_SA_ID_LEN,
        ensures
            buf.wf(),
            buf.bytes@ == old(bytes)@,
            buf.order == order,
            final(buf.bytes)@ == final(bytes)@,
    {
        UserSaIdBufferMut { bytes, order }
    }

    /// Views a slice, or reports that it has no room. The slice is unchanged
    /// either way.
    pub fn new_checked(bytes: &'a mut [u8], order: Endian) -> (r: Result<
        UserSaIdBufferMut<'a>,
        EncodeError,
    >)
        ensures
            old(bytes)@.len() >= XFRM_USER_SA_ID_LEN ==> r is Ok && r.unwrap().wf()
                && r.unwrap().bytes@ == old(bytes)@ && r.unwrap().order == order
                && final(r.unwrap().bytes)@ == final(bytes)@,
            old(bytes)@.len() < XFRM_USER_SA_ID_LEN ==> final(bytes)@ == old(bytes)@ && r is Err
                && r.unwrap_err() == (EncodeError::SizeMismatch {
                record: Record::UserSaId,
                needed: XFRM_USER_SA_ID_LEN,
                found: old(bytes)@.len() as usize,
            }),
    {
        match check_room(bytes, Record::UserSaId, XFRM_USER_SA_ID_LEN) {
            Ok(()) => Ok(UserSaIdBufferMut { bytes, order }),
            Err(e) => Err(e),
        }
    }

    /// Lends the bytes of the destination address for writing.
    pub fn daddr_mut(&mut self) -> (s: &mut [u8])
        requires
            old(self).wf(),
        ensures
            s@ == old(self).bytes@.subrange(DADDR_START as int, DADDR_END as int),
            final(s)@.len() == XFRM_ADDRESS_LEN ==> final(self).wf() && final(self).bytes@
                == overwrite(old(self).bytes@, DADDR_START as int, final(s)@),
            final(self).order == old(self).order,
            final(final(self).bytes)@ == final(old(self).bytes)@,
    {
        let s = get_slice_mut(self.bytes, DADDR_START, DADDR_END);
        s
    }

    /// Writes the SPI, big-endian.
    pub fn set_spi(&mut self, value: u32)
        requires
            old(self).wf(),
        ensures
            final(self).wf(),
            final(self).bytes@ == overwrite(
                old(self).bytes@,
                SPI_START as int,
                u32_to_bytes(Endian::Big, value),
            ),
            final(self).order == old(self).order,
            final(final(self).bytes)@ == final(old(self).bytes)@,
    {
        set_u32(self.bytes, Endian::Big, SPI_START, value);
    }

    /// Writes the address family.
    pub fn set_family(&mut self, value: u16)
        requires
            old(self).wf(),
        ensures
            final(self).wf(),
            final(self).bytes@ == overwrite(
                old(self).bytes@,
                FAMILY_START as int,
                u16_to_bytes(old(self).order, value),
            ),
            final(self).order == old(self).order,
            final(final(self).bytes)@ == final(old(self).bytes)@,
    {
        set_u16(self.bytes, self.order, FAMILY_START, value);
    }

    /// Writes the protocol number.
    pub fn set_proto(&mut self, value: u8)
        requires
            old(self).wf(),
        ensures
            final(self).wf(),
            final(self).bytes@ == overwrite(old(self).bytes@, PROTO_AT as int, seq![value]),
            final(self).order == old(self).order,
            final(final(self).bytes)@ == final(old(self).bytes)@,
    {
        set_u8(self.bytes, PROTO_AT, value);
    }
}

impl Default for UserSaId {
    /// The unset identifier: a zero address, and zero in every other field.
    fn default() -> (id: UserSaId)
        ensures
            id@ == (UserSaIdView { daddr: zeros(16), spi: 0, family: 0, proto: 0 }),
            id@.family_matches(),
    {
        UserSaId { daddr: Address::default(), spi: 0, family: 0, proto: 0 }
    }
}

impl UserSaId {
    /// Reads an identifier from a validated buffer.
    pub fn parse(buf: &UserSaIdBuffer) -> (r: Result<UserSaId, DecodeError>)
        ensures
            r is Ok,
            r.unwrap()@ == UserSaIdView::from_wire(buf.order(), buf@),
    {
        let daddr = match Address::parse(&AddressBuffer::new(buf.daddr())) {
            Ok(daddr) => daddr,
            Err(e) => {
                return Err(e.in_field(NestedField::Daddr));
            },
        };
        Ok(UserSaId { daddr, spi: buf.spi(), family: buf.family(), proto: buf.proto() })
    }

    /// Reads an identifier from a slice whose native-endian fields are in
    /// `order`, or reports that the slice is too short.
    pub fn decode(bytes: &[u8], order: Endian) -> (r: Result<UserSaId, DecodeError>)
        ensures
            bytes@.len() >= XFRM_USER_SA_ID_LEN ==> r is Ok && r.unwrap()@
                == UserSaIdView::from_wire(order, bytes@),
            bytes@.len() < XFRM_USER_SA_ID_LEN ==> r is Err && r.unwrap_err()
                == (DecodeError::InsufficientBuffer {
                record: Record::UserSaId,
                needed: XFRM_USER_SA_ID_LEN,
                found: bytes@.len() as usize,
            }),
    {
        match UserSaIdBuffer::new_checked(bytes, order) {
            Ok(buf) => UserSaId::parse(&buf),
            Err(e) => Err(e),
        }
    }

    /// The number of bytes that an identifier takes in a buffer.
    pub fn buffer_len(&self) -> (len: usize)
        ensures
            len == XFRM_USER_SA_ID_LEN,
            len == 24,
            len % 8 == 0,
    {
        XFRM_USER_SA_ID_LEN
    }

    /// Writes the identifier over the start of `buffer`, the native-endian
    /// fields in `order`. The padding keeps what `buffer` held, and reading
    /// the buffer in the same order gives the identifier back.
    pub fn emit(&self, buffer: &mut [u8], order: Endian)
        requires
            old(buffer)@.len() >= XFRM_USER_SA_ID_LEN,
        ensures
            final(buffer)@ == self@.wire(order, old(buffer)@),
            final(buffer)@.len() == old(buffer)@.len(),
            UserSaIdView::from_wire(order, final(buffer)@) == self@,
    {
        let mut buf = UserSaIdBufferMut::new(buffer, order);
        self.daddr.emit(buf.daddr_mut());
        buf.set_spi(self.spi);
        buf.set_family(self.family);
        buf.set_proto(self.proto);
        assert(buf.bytes@ =~= self@.wire(order, old(buffer)@));
        proof {
            lemma_user_sa_id_round_trip(*self, order, old(buffer)@);
        }
    }

    /// Writes the identifier over the start of `buffer`, or reports that
    /// `buffer` is too short and leaves it as it is.
    pub fn try_emit(&self, buffer: &mut [u8], order: Endian) -> (r: Result<(), EncodeError>)
        ensures
            old(buffer)@.len() >= XFRM_USER_SA_ID_LEN ==> r is Ok && final(buffer)@
                == self@.wire(order, old(buffer)@) && UserSaIdView::from_wire(
                order,
                final(buffer)@,
            ) == self@,
            old(buffer)@.len() < XFRM_USER_SA_ID_LEN ==> final(buffer)@ == old(buffer)@ && r is Err
                && r.unwrap_err() == (EncodeError::SizeMismatch {
                record: Record::UserSaId,
                needed: XFRM_USER_SA_ID_LEN,
                found: old(buffer)@.len() as usize,
            }),
    {
        match check_room(buffer, Record::UserSaId, XFRM_USER_SA_ID_LEN) {
            Ok(()) => {
                self.emit(buffer, order);
                Ok(())
            },
            Err(e) => Err(e),
        }
    }

    /// Sets the address family to that of `addr`.
    fn family(&mut self, addr: &IpAddress)
        ensures
            final(self).family == addr.family_code(),
            final(self).daddr == old(self).daddr,
            final(self).spi == old(self).spi,
            final(self).proto == old(self).proto,
    {
        if addr.is_ipv4() {
            self.family = AF_INET;
        } else if addr.is_ipv6() {
            self.family = AF_INET6;
        }
    }

    /// Sets the destination address to `addr` and the address family to the
    /// family of `addr`. The other fields stay.
    pub fn destination(&mut self, addr: &IpAddress)
        ensures
            final(self)@ == (UserSaIdView {
                daddr: addr.wire(),
                family: addr.family_code(),
                ..old(self)@
            }),
            final(self)@.family_matches(),
    {
        self.daddr = Address::from_ip(addr);
        self.family(addr);
        assert(addr.wire().subrange(4, 16) =~= zeros(12) || addr is V6);
    }
}

/// The field offsets follow from the field widths, and the length is the end
/// of the last field rounded up to a multiple of 8.
pub proof fn lemma_user_sa_id_layout()
    ensures
        DADDR_START == 0,
        SPI_START == 16,
        FAMILY_START == 20,
        PROTO_AT == 22,
        XFRM_USER_SA_ID_LEN == padded_len(USER_SA_ID_RAW_END as int),
        XFRM_USER_SA_ID_LEN == 24,
        XFRM_USER_SA_ID_LEN % 8 == 0,
{
}

/// Reading an identifier from the buffer it was written to gives the
/// identifier back, in either byte order and whatever the buffer held before.
pub proof fn lemma_user_sa_id_round_trip(id: UserSaId, order: Endian, prior: Seq<u8>)
    requires
        prior.len() >= XFRM_USER_SA_ID_LEN,
    ensures
        id@.wire(order, prior).len() == prior.len(),
        UserSaIdView::from_wire(order, id@.wire(order, prior)) == id@,
{
    let wire = id@.wire(order, prior);
    lemma_u32_round_trip(Endian::Big, id.spi);
    lemma_u16_round_trip(order, id.family);
    assert(wire.subrange(DADDR_START as int, DADDR_END as int) =~= id@.daddr);
    assert(Address::from_wire(id@.daddr) =~= id@.daddr);
    assert(wire.subrange(SPI_START as int, SPI_END as int) =~= u32_to_bytes(Endian::Big, id.spi));
    assert(wire.subrange(FAMILY_START as int, FAMILY_END as int) =~= u16_to_bytes(
        order,
        id.family,
    ));
}

/// Writing back the identifier that was read from a buffer leaves the buffer
/// as it was.
pub proof fn lemma_user_sa_id_wire_round_trip(order: Endian, bytes: Seq<u8>)
    requires
        bytes.len() >= XFRM_USER_SA_ID_LEN,
    ensures
        UserSaIdView::from_wire(order, bytes).wire(order, bytes) == bytes,
{
    let id = UserSaIdView::from_wire(order, bytes);
    lemma_u32_bytes_round_trip(Endian::Big, bytes.subrange(SPI_START as int, SPI_END as int));
    lemma_u16_bytes_round_trip(order, bytes.subrange(FAMILY_START as int, FAMILY_END as int));
    assert(id.field_bytes(order) =~= bytes.subrange(0, USER_SA_ID_RAW_END as int));
    assert(id.wire(order, bytes) =~= bytes);
}

/// What is read from a buffer does not depend on the padding, nor on what
/// follows the record.
pub proof fn lemma_user_sa_id_padding_ignored(order: Endian, a: Seq<u8>, b: Seq<u8>)
    requires
        a.len() >= XFRM_USER_SA_ID_LEN,
        b.len() >= XFRM_USER_SA_ID_LEN,
        a.subrange(0, USER_SA_ID_RAW_END as int) == b.subrange(0, USER_SA_ID_RAW_END as int),
    ensures
        UserSaIdView::from_wire(order, a) == UserSaIdView::from_wire(order, b),
{
    let fields_a = a.subrange(0, USER_SA_ID_RAW_END as int);
    let fields_b = b.subrange(0, USER_SA_ID_RAW_END as int);
    assert(a.subrange(DADDR_START as int, DADDR_END as int) =~= fields_a.subrange(
        DADDR_START as int,
        DADDR_END as int,
    ));
    assert(b.subrange(DADDR_START as int, DADDR_END as int) =~= fields_b.subrange(
        DADDR_START as int,
        DADDR_END as int,
    ));
    assert(a.subrange(SPI_START as int, SPI_END as int) =~= fields_a.subrange(
        SPI_START as int,
        SPI_END as int,
    ));
    assert(b.subrange(SPI_START as int, SPI_END as int) =~= fields_b.subrange(
        SPI_START as int,
        SPI_END as int,
    ));
    assert(a.subrange(FAMILY_START as int, FAMILY_END as int) =~= fields_a.subrange(
        FAMILY_START as int,
        FAMILY_END as int,
    ));
    assert(b.subrange(FAMILY_START as int, FAMILY_END as int) =~= fields_b.subrange(
        FAMILY_START as int,
        FAMILY_END as int,
    ));
    assert(a[PROTO_AT as int] == fields_a[PROTO_AT as int]);
    assert(b[PROTO_AT as int] == fields_b[PROTO_AT as int]);
}

/// Two identifiers that hold the same are the same identifier.
pub proof fn lemma_user_sa_id_view_injective(a: UserSaId, b: UserSaId)
    requires
        a@ == b@,
    ensures
        a == b,
{
    assert(a.daddr.addr =~= b.daddr.addr);
}

/// The SPI lies in the buffer most significant byte first, whatever the byte
/// order of the machine.
pub proof fn lemma_spi_is_big_endian(id: UserSaId, order: Endian, prior: Seq<u8>)
    requires
        prior.len() >= XFRM_USER_SA_ID_LEN,
    ensures
        id@.wire(order, prior)[16] == id.spi / 0x100_0000,
        id@.wire(order, prior)[17] == id.spi / 0x1_0000 % 256,
        id@.wire(order, prior)[18] == id.spi / 0x100 % 256,
        id@.wire(order, prior)[19] == id.spi % 256,
{
}

} // verus!
