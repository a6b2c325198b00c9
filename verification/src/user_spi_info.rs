//! The request for a free SPI: the identifier of the security association
//! that is to get it, and the range to take it from.

use vstd::prelude::*;
use crate::address::zeros;
use crate::buffer::{
    check_len,
    check_room,
    get_slice,
    get_slice_mut,
    get_u32,
    overwrite,
    padded_len,
    set_u32,
};
use crate::constants::{COMP_SPI_MAX, DEFAULT_SPI_MAX, DEFAULT_SPI_MIN, IPPROTO_COMP};
use crate::endian::{
    lemma_u32_bytes_round_trip,
    lemma_u32_round_trip,
    u32_from_bytes,
    u32_to_bytes,
    Endian,
};
use crate::error::{DecodeError, EncodeError, NestedField, Record};
use crate::user_sa_id::{
    lemma_user_sa_id_padding_ignored,
    lemma_user_sa_id_round_trip,
    lemma_user_sa_id_wire_round_trip,
    UserSaId,
    UserSaIdBuffer,
    UserSaIdView,
    USER_SA_ID_RAW_END,
    XFRM_USER_SA_ID_LEN,
};

verus! {

/// Where the identifier starts.
pub const ID_START: usize = 0;

/// Where the identifier ends, its padding included.
pub const ID_END: usize = ID_START + XFRM_USER_SA_ID_LEN;

/// Where the lower end of the range starts.
pub const MIN_START: usize = ID_END;

/// Where the lower end of the range ends.
pub const MIN_END: usize = MIN_START + 4;

/// Where the upper end of the range starts.
pub const MAX_START: usize = MIN_END;

/// Where the upper end of the range ends.
pub const MAX_END: usize = MAX_START + 4;

/// The length of an SPI range in a buffer, padding included.
pub const XFRM_USER_SPI_INFO_LEN: usize = (MAX_END + 7) / 8 * 8;

/// An SPI allocation range.
#[derive(Clone, Copy, Debug, PartialEq, Eq)]
pub struct UserSpiInfo {
    /// The security association that the SPI is for. Set its protocol with
    /// [`UserSpiInfo::protocol`], which keeps `max` within the protocol's
    /// SPI space.
    pub id: UserSaId,
    /// The smallest SPI to hand out.
    pub min: u32,
    /// The largest SPI to hand out. Set the range with
    /// [`UserSpiInfo::spi_range`].
    pub max: u32,
}

/// What an SPI range holds.
pub struct UserSpiInfoView {
    pub id: UserSaIdView,
    pub min: u32,
    pub max: u32,
}

impl View for UserSpiInfo {
    type V = UserSpiInfoView;

    open spec fn view(&self) -> UserSpiInfoView {
        UserSpiInfoView { id: self.id@, min: self.min, max: self.max }
    }
}

/// The upper end that a range for `proto` gets when `max` is asked for:
/// `max`, lowered to 16 bits for the payload compression protocol.
pub open spec fn clamp_max(proto: u8, max: u32) -> u32 {
    if proto == IPPROTO_COMP && max > COMP_SPI_MAX {
        COMP_SPI_MAX
    } else {
        max
    }
}

impl UserSpiInfoView {
    /// Whether the upper end lies within the SPI space of the protocol.
    pub open spec fn clamped(self) -> bool {
        self.id.proto == IPPROTO_COMP ==> self.max <= COMP_SPI_MAX
    }

    /// The buffer `prior` after the range was written to it, where `order`
    /// is the byte order of the machine: the identifier, then both ends of
    /// the range in `order`.
    pub open spec fn wire(self, order: Endian, prior: Seq<u8>) -> Seq<u8>
        recommends
            prior.len() >= XFRM_USER_SPI_INFO_LEN,
    {
        overwrite(
            self.id.wire(order, prior),
            MIN_START as int,
            u32_to_bytes(order, self.min) + u32_to_bytes(order, self.max),
        )
    }

    /// The range that `bytes` holds.
    pub open spec fn from_wire(order: Endian, bytes: Seq<u8>) -> UserSpiInfoView
        recommends
            bytes.len() >= XFRM_USER_SPI_INFO_LEN,
    {
        UserSpiInfoView {
            id: UserSaIdView::from_wire(order, bytes.subrange(ID_START as int, ID_END as int)),
            min: u32_from_bytes(order, bytes.subrange(MIN_START as int, MIN_END as int)),
            max: u32_from_bytes(order, bytes.subrange(MAX_START as int, MAX_END as int)),
        }
    }
}

/// A byte slice that is long enough to be read as an SPI range, with the
/// byte order of its native-endian fields.
#[derive(Clone, Copy, Debug)]
pub struct UserSpiInfoBuffer<'a> {
    bytes: &'a [u8],
    order: Endian,
}

impl<'a> View for UserSpiInfoBuffer<'a> {
    type V = Seq<u8>;

    /// The bytes of the slice.
    closed spec fn view(&self) -> Seq<u8> {
        self.bytes@
    }
}

impl<'a> UserSpiInfoBuffer<'a> {
    #[verifier::type_invariant]
    spec fn long_enough(self) -> bool {
        self.bytes@.len() >= XFRM_USER_SPI_INFO_LEN
    }

    /// The byte order in which the native-endian fields are read.
    pub closed spec fn order(&self) -> Endian {
        self.order
    }

    /// Views a slice that is known to be long enough.
    pub fn new(bytes: &'a [u8], order: Endian) -> (buf: UserSpiInfoBuffer<'a>)
        requires
            bytes@.len() >= XFRM_USER_SPI_INFO_LEN,
        ensures
            buf@ == bytes@,
            buf.order() == order,
    {
        UserSpiInfoBuffer { bytes, order }
    }

    /// Views a slice, or reports that it is too short.
    pub fn new_checked(bytes: &'a [u8], order: Endian) -> (r: Result<
        UserSpiInfoBuffer<'a>,
        DecodeError,
    >)
        ensures
            bytes@.len() >= XFRM_USER_SPI_INFO_LEN ==> r is Ok && r.unwrap()@ == bytes@
                && r.unwrap().order() == order,
            bytes@.len() < XFRM_USER_SPI_INFO_LEN ==> r is Err && r.unwrap_err()
                == (DecodeError::InsufficientBuffer {
                record: Record::UserSpiInfo,
                needed: XFRM_USER_SPI_INFO_LEN,
                found: bytes@.len() as usize,
            }),
    {
        match check_len(bytes, Record::UserSpiInfo, XFRM_USER_SPI_INFO_LEN) {
            Ok(()) => Ok(UserSpiInfoBuffer { bytes, order }),
            Err(e) => Err(e),
        }
    }

    /// The identifier's own view of its bytes.
    pub fn id(&self) -> (buf: UserSaIdBuffer<'a>)
        ensures
            buf@ == self@.subrange(ID_START as int, ID_END as int),
            buf.order() == self.order(),
    {
        proof {
            use_type_invariant(self);
        }
        UserSaIdBuffer::new(get_slice(self.bytes, ID_START, ID_END), self.order)
    }

    /// The lower end of the range.
    pub fn min(&self) -> (v: u32)
        ensures
            v == u32_from_bytes(self.order(), self@.subrange(MIN_START as int, MIN_END as int)),
    {
        proof {
            use_type_invariant(self);
        }
        get_u32(self.bytes, self.order, MIN_START)
    }

    /// The upper end of the range.
    pub fn max(&self) -> (v: u32)
        ensures
            v == u32_from_bytes(self.order(), self@.subrange(MAX_START as int, MAX_END as int)),
    {
        proof {
            use_type_invariant(self);
        }
        get_u32(self.bytes, self.order, MAX_START)
    }
}

/// A byte slice to write an SPI range into, with the byte order of its
/// native-endian fields.
#[derive(Debug)]
pub struct UserSpiInfoBufferMut<'a> {
    pub bytes: &'a mut [u8],
    pub order: Endian,
}

impl<'a> UserSpiInfoBufferMut<'a> {
    /// Whether the slice has room for an SPI range.
    pub open spec fn wf(&self) -> bool {
        self.bytes@.len() >= XFRM_USER_SPI_INFO_LEN
    }

    /// Views a slice that is known to have room.
    pub fn new(bytes: &'a mut [u8], order: Endian) -> (buf: UserSpiInfoBufferMut<'a>)
        requires
            old(bytes)@.len() >= XFRM_USER_SPI_INFO_LEN,
        ensures
            buf.wf(),
            buf.bytes@ == old(bytes)@,
            buf.order == order,
            final(buf.bytes)@ == final(bytes)@,
    {
        UserSpiInfoBufferMut { bytes, order }
    }

    /// Views a slice, or reports that it has no room. The slice is unchanged
    /// either way.
    pub fn new_checked(bytes: &'a mut [u8], order: Endian) -> (r: Result<
        UserSpiInfoBufferMut<'a>,
        EncodeError,
    >)
        ensures
            old(bytes)@.len() >= XFRM_USER_SPI_INFO_LEN ==> r is Ok && r.unwrap().wf()
                && r.unwrap().bytes@ == old(bytes)@ && r.unwrap().order == order
                && final(r.unwrap().bytes)@ == final(bytes)@,
            old(bytes)@.len() < XFRM_USER_SPI_INFO_LEN ==> final(bytes)@ == old(bytes)@
                && r is Err && r.unwrap_err() == (EncodeError::SizeMismatch {
                record: Record::UserSpiInfo,
                needed: XFRM_USER_SPI_INFO_LEN,
                found: old(bytes)@.len() as usize,
            }),
    {
        match check_room(bytes, Record::UserSpiInfo, XFRM_USER_SPI_INFO_LEN) {
            Ok(()) => Ok(UserSpiInfoBufferMut { bytes, order }),
            Err(e) => Err(e),
        }
    }

    /// Lends the bytes of the identifier for writing.
    pub fn id_mut(&mut self) -> (s: &mut [u8])
        requires
            old(self).wf(),
        ensures
            s@ == old(self).bytes@.subrange(ID_START as int, ID_END as int),
            final(s)@.len() == XFRM_USER_SA_ID_LEN ==> final(self).wf() && final(self).bytes@
                == overwrite(old(self).bytes@, ID_START as int, final(s)@),
            final(self).order == old(self).order,
            final(final(self).bytes)@ == final(old(self).bytes)@,
    {
        let s = get_slice_mut(self.bytes, ID_START, ID_END);
        s
    }

    /// Writes the lower end of the range.
    pub fn set_min(&mut self, value: u32)
        requires
            old(self).wf(),
        ensures
            final(self).wf(),
            final(self).bytes@ == overwrite(
                old(self).bytes@,
                MIN_START as int,
                u32_to_bytes(old(self).order, value),
            ),
            final(self).order == old(self).order,
            final(final(self).bytes)@ == final(old(self).bytes)@,
    {
        set_u32(self.bytes, self.order, MIN_START, value);
    }

    /// Writes the upper end of the range.
    pub fn set_max(&mut self, value: u32)
        requires
            old(self).wf(),
        ensures
            final(self).wf(),
            final(self).bytes@ == overwrite(
                old(self).bytes@,
                MAX_START as int,
                u32_to_bytes(old(self).order, value),
            ),
            final(self).order == old(self).order,
            final(final(self).bytes)@ == final(old(self).bytes)@,
    {
        set_u32(self.bytes, self.order, MAX_START, value);
    }
}

impl Default for UserSpiInfo {
    /// The range 0x100 to 0x0fffffff for the unset identifier.
    fn default() -> (info: UserSpiInfo)
        ensures
            info@ == (UserSpiInfoView {
                id: UserSaIdView { daddr: zeros(16), spi: 0, family: 0, proto: 0 },
                min: DEFAULT_SPI_MIN,
                max: DEFAULT_SPI_MAX,
            }),
            info.min == 0x100,
            info.max == 0x0fffffff,
            info@.clamped(),
            info@.id.family_matches(),
    {
        UserSpiInfo { id: UserSaId::default(), min: DEFAULT_SPI_MIN, max: DEFAULT_SPI_MAX }
    }
}

impl UserSpiInfo {
    /// Reads an SPI range from a validated buffer.
    pub fn parse(buf: &UserSpiInfoBuffer) -> (r: Result<UserSpiInfo, DecodeError>)
        ensures
            r is Ok,
            r.unwrap()@ == UserSpiInfoView::from_wire(buf.order(), buf@),
    {
        let id = match UserSaId::parse(&buf.id()) {
            Ok(id) => id,
            Err(e) => {
                return Err(e.in_field(NestedField::Id));
            },
        };
        Ok(UserSpiInfo { id, min: buf.min(), max: buf.max() })
    }

    /// Reads an SPI range from a slice whose native-endian fields are in
    /// `order`, or reports that the slice is too short.
    pub fn decode(bytes: &[u8], order: Endian) -> (r: Result<UserSpiInfo, DecodeError>)
        ensures
            bytes@.len() >= XFRM_USER_SPI_INFO_LEN ==> r is Ok && r.unwrap()@
                == UserSpiInfoView::from_wire(order, bytes@),
            bytes@.len() < XFRM_USER_SPI_INFO_LEN ==> r is Err && r.unwrap_err()
                == (DecodeError::InsufficientBuffer {
                record: Record::UserSpiInfo,
                needed: XFRM_USER_SPI_INFO_LEN,
                found: bytes@.len() as usize,
            }),
    {
        match UserSpiInfoBuffer::new_checked(bytes, order) {
            Ok(buf) => UserSpiInfo::parse(&buf),
            Err(e) => Err(e),
        }
    }

    /// The number of bytes that an SPI range takes in a buffer: those of the
    /// identifier, and eight for the range.
    pub fn buffer_len(&self) -> (len: usize)
        ensures
            len == XFRM_USER_SPI_INFO_LEN,
            len == XFRM_USER_SA_ID_LEN + 8,
            len % 8 == 0,
    {
        XFRM_USER_SPI_INFO_LEN
    }

    /// Writes the range over the start of `buffer`, the native-endian fields
    /// in `order`. The identifier's padding keeps what `buffer` held, and
    /// reading the buffer in the same order gives the range back.
    pub fn emit(&self, buffer: &mut [u8], order: Endian)
        requires
            old(buffer)@.len() >= XFRM_USER_SPI_INFO_LEN,
        ensures
            final(buffer)@ == self@.wire(order, old(buffer)@),
            final(buffer)@.len() == old(buffer)@.len(),
            UserSpiInfoView::from_wire(order, final(buffer)@) == self@,
    {
        let mut buf = UserSpiInfoBufferMut::new(buffer, order);
        self.id.emit(buf.id_mut(), order);
        buf.set_min(self.min);
        buf.set_max(self.max);
        assert(buf.bytes@ =~= self@.wire(order, old(buffer)@));
        proof {
            lemma_user_spi_info_round_trip(*self, order, old(buffer)@);
        }
    }

    /// Writes the range over the start of `buffer`, or reports that `buffer`
    /// is too short and leaves it as it is.
    pub fn try_emit(&self, buffer: &mut [u8], order: Endian) -> (r: Result<(), EncodeError>)
        ensures
            old(buffer)@.len() >= XFRM_USER_SPI_INFO_LEN ==> r is Ok && final(buffer)@
                == self@.wire(order, old(buffer)@) && UserSpiInfoView::from_wire(
                order,
                final(buffer)@,
            ) == self@,
            old(buffer)@.len() < XFRM_USER_SPI_INFO_LEN ==> final(buffer)@ == old(buffer)@
                && r is Err && r.unwrap_err() == (EncodeError::SizeMismatch {
                record: Record::UserSpiInfo,
                needed: XFRM_USER_SPI_INFO_LEN,
                found: old(buffer)@.len() as usize,
            }),
    {
        match check_room(buffer, Record::UserSpiInfo, XFRM_USER_SPI_INFO_LEN) {
            Ok(()) => {
                self.emit(buffer, order);
                Ok(())
            },
            Err(e) => Err(e),
        }
    }

    /// Sets the transport protocol of the identifier, and lowers the upper
    /// end of the range to 16 bits where the protocol is payload
    /// compression. Nothing else changes.
    pub fn protocol(&mut self, protocol: u8)
        ensures
            final(self)@ == (UserSpiInfoView {
                id: UserSaIdView { proto: protocol, ..old(self)@.id },
                min: old(self).min,
                max: clamp_max(protocol, old(self).max),
            }),
            final(self)@.clamped(),
            old(self)@.id.family_matches() ==> final(self)@.id.family_matches(),
    {
        self.id.proto = protocol;
        if (protocol == IPPROTO_COMP) && (self.max > COMP_SPI_MAX) {
            self.max = COMP_SPI_MAX;
        }
    }

    /// Sets the range to `spi_min` and `spi_max`, the latter lowered to 16
    /// bits where the protocol is payload compression. The identifier stays.
    pub fn spi_range(&mut self, spi_min: u32, spi_max: u32)
        ensures
            final(self)@ == (UserSpiInfoView {
                id: old(self)@.id,
                min: spi_min,
                max: clamp_max(old(self).id.proto, spi_max),
            }),
            final(self)@.clamped(),
    {
        self.min = spi_min;
        if (self.id.proto == IPPROTO_COMP) && (spi_max > COMP_SPI_MAX) {
            self.max = COMP_SPI_MAX;
        } else {
            self.max = spi_max;
        }
    }
}

/// The field offsets follow from the field widths, and the length is that of
/// the identifier and eight bytes more, a multiple of 8.
pub proof fn lemma_user_spi_info_layout()
    ensures
        ID_START == 0,
        MIN_START == XFRM_USER_SA_ID_LEN,
        MAX_START == XFRM_USER_SA_ID_LEN + 4,
        XFRM_USER_SPI_INFO_LEN == padded_len(MAX_END as int),
        XFRM_USER_SPI_INFO_LEN == XFRM_USER_SA_ID_LEN + 8,
        XFRM_USER_SPI_INFO_LEN % 8 == 0,
{
}

/// Reading an SPI range from the buffer it was written to gives the range
/// back, in either byte order and whatever the buffer held before.
pub proof fn lemma_user_spi_info_round_trip(info: UserSpiInfo, order: Endian, prior: Seq<u8>)
    requires
        prior.len() >= XFRM_USER_SPI_INFO_LEN,
    ensures
        info@.wire(order, prior).len() == prior.len(),
        UserSpiInfoView::from_wire(order, info@.wire(order, prior)) == info@,
{
    let wire = info@.wire(order, prior);
    let id_wire = info.id@.wire(order, prior);
    lemma_user_sa_id_round_trip(info.id, order, prior);
    lemma_u32_round_trip(order, info.min);
    lemma_u32_round_trip(order, info.max);
    assert(wire.subrange(ID_START as int, ID_END as int) =~= info.id@.wire(
        order,
        prior.subrange(ID_START as int, ID_END as int),
    ));
    lemma_user_sa_id_round_trip(info.id, order, prior.subrange(ID_START as int, ID_END as int));
    assert(wire.subrange(MIN_START as int, MIN_END as int) =~= u32_to_bytes(order, info.min));
    assert(wire.subrange(MAX_START as int, MAX_END as int) =~= u32_to_bytes(order, info.max));
}

/// Writing back the range that was read from a buffer leaves the buffer as it
/// was.
pub proof fn lemma_user_spi_info_wire_round_trip(order: Endian, bytes: Seq<u8>)
    requires
        bytes.len() >= XFRM_USER_SPI_INFO_LEN,
    ensures
        UserSpiInfoView::from_wire(order, bytes).wire(order, bytes) == bytes,
{
    let info = UserSpiInfoView::from_wire(order, bytes);
    lemma_user_spi_info_embeds_identifier(order, bytes);
    lemma_user_sa_id_wire_round_trip(order, bytes);
    lemma_u32_bytes_round_trip(order, bytes.subrange(MIN_START as int, MIN_END as int));
    lemma_u32_bytes_round_trip(order, bytes.subrange(MAX_START as int, MAX_END as int));
    assert(u32_to_bytes(order, info.min) + u32_to_bytes(order, info.max) =~= bytes.subrange(
        MIN_START as int,
        MAX_END as int,
    ));
    assert(info.wire(order, bytes) =~= bytes);
}

/// The identifier of the range that a buffer holds is the identifier that
/// the buffer holds at its start.
pub proof fn lemma_user_spi_info_embeds_identifier(order: Endian, bytes: Seq<u8>)
    requires
        bytes.len() >= XFRM_USER_SPI_INFO_LEN,
    ensures
        UserSpiInfoView::from_wire(order, bytes).id == UserSaIdView::from_wire(order, bytes),
{
    let head = bytes.subrange(ID_START as int, ID_END as int);
    assert(head.subrange(0, USER_SA_ID_RAW_END as int) =~= bytes.subrange(
        0,
        USER_SA_ID_RAW_END as int,
    ));
    lemma_user_sa_id_padding_ignored(order, head, bytes);
}

/// Two SPI ranges that hold the same are the same range.
pub proof fn lemma_user_spi_info_view_injective(a: UserSpiInfo, b: UserSpiInfo)
    requires
        a@ == b@,
    ensures
        a == b,
{
    assert(a.id.daddr.addr =~= b.id.daddr.addr);
}

/// The upper end that a range gets is never above what was asked for, and
/// asking for it again changes nothing.
pub proof fn lemma_clamp_max(proto: u8, max: u32)
    ensures
        clamp_max(proto, max) <= max,
        proto == IPPROTO_COMP ==> clamp_max(proto, max) <= COMP_SPI_MAX,
        proto != IPPROTO_COMP ==> clamp_max(proto, max) == max,
        clamp_max(proto, clamp_max(proto, max)) == clamp_max(proto, max),
{
}

} // verus!
