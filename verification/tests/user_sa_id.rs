use netlink_packet_utils::byteorder::{ByteOrder, NativeEndian};
use xfrm_records::{
    Address, DecodeError, EncodeError, Endian, IpAddress, NestedField, Record, UserSaId,
    UserSaIdBuffer, UserSaIdBufferMut, AF_INET, AF_INET6, XFRM_USER_SA_ID_LEN,
};

fn sample_id() -> UserSaId {
    UserSaId {
        daddr: Address::from_ipv4(&[10, 1, 2, 3]),
        spi: 0x0102_0304,
        family: AF_INET,
        proto: 50,
    }
}

#[test]
fn identifier_length_is_twenty_four() {
    assert_eq!(XFRM_USER_SA_ID_LEN, 24);
    assert_eq!(UserSaId::default().buffer_len(), 24);
    assert_eq!(sample_id().buffer_len(), 24);
    assert_eq!(sample_id().buffer_len() % 8, 0);
}

#[test]
fn default_identifier_is_unset() {
    let id = UserSaId::default();
    assert_eq!(id.daddr, Address::default());
    assert_eq!(id.spi, 0);
    assert_eq!(id.family, 0);
    assert_eq!(id.proto, 0);
}

#[test]
fn identifier_bytes_little_endian() {
    let mut buffer = [0xeeu8; 24];
    sample_id().emit(&mut buffer, Endian::Little);
    assert_eq!(
        buffer,
        [
            10, 1, 2, 3, 0, 0, 0, 0, 0, 0, 0, 0, 0, 0, 0, 0, // daddr
            1, 2, 3, 4, // spi
            2, 0, // family
            50, // proto
            0xee, // padding
        ]
    );
}

#[test]
fn identifier_bytes_big_endian() {
    let mut buffer = [0xeeu8; 24];
    sample_id().emit(&mut buffer, Endian::Big);
    assert_eq!(
        buffer,
        [
            10, 1, 2, 3, 0, 0, 0, 0, 0, 0, 0, 0, 0, 0, 0, 0, // daddr
            1, 2, 3, 4, // spi
            0, 2, // family
            50, // proto
            0xee, // padding
        ]
    );
}

#[test]
fn identifier_emit_keeps_bytes_after_the_record() {
    let mut buffer = [0x77u8; 30];
    sample_id().emit(&mut buffer, Endian::Little);
    assert_eq!(&buffer[23..], &[0x77u8; 7][..]);
}

#[test]
fn identifier_round_trip_in_both_orders() {
    let ids = [
        UserSaId::default(),
        sample_id(),
        UserSaId {
            daddr: Address::from_ipv6(&[
                0xfe, 0x80, 0, 0, 0, 0, 0, 0, 1, 2, 3, 4, 5, 6, 7, 8,
            ]),
            spi: u32::MAX,
            family: AF_INET6,
            proto: 255,
        },
        UserSaId { daddr: Address { addr: [0xff; 16] }, spi: 0x8000_0001, family: 0xabcd, proto: 108 },
    ];
    for order in [Endian::Little, Endian::Big] {
        for id in ids {
            let mut buffer = [0x5au8; 24];
            id.emit(&mut buffer, order);
            assert_eq!(UserSaId::decode(&buffer, order), Ok(id));
            let buf = UserSaIdBuffer::new_checked(&buffer, order).unwrap();
            assert_eq!(UserSaId::parse(&buf), Ok(id));
        }
    }
}

#[test]
fn identifier_parse_ignores_padding() {
    let mut zero_padded = [0u8; 24];
    let mut other_padded = [0u8; 24];
    sample_id().emit(&mut zero_padded, Endian::Little);
    sample_id().emit(&mut other_padded, Endian::Little);
    other_padded[23] = 0xff;
    assert_eq!(
        UserSaId::decode(&zero_padded, Endian::Little),
        UserSaId::decode(&other_padded, Endian::Little)
    );
}

#[test]
fn identifier_parse_reads_each_field() {
    let bytes = [
        1, 2, 3, 4, 5, 6, 7, 8, 9, 10, 11, 12, 13, 14, 15, 16, // daddr
        0xde, 0xad, 0xbe, 0xef, // spi
        0x0a, 0x00, // family
        51, // proto
        0x99, // padding
    ];
    let buf = UserSaIdBuffer::new(&bytes, Endian::Little);
    assert_eq!(buf.daddr(), &bytes[..16]);
    assert_eq!(buf.spi(), 0xdead_beef);
    assert_eq!(buf.family(), 10);
    assert_eq!(buf.proto(), 51);
    let id = UserSaId::parse(&buf).unwrap();
    assert_eq!(id.daddr.addr, [1, 2, 3, 4, 5, 6, 7, 8, 9, 10, 11, 12, 13, 14, 15, 16]);
    assert_eq!(id.spi, 0xdead_beef);
    assert_eq!(id.family, AF_INET6);
    assert_eq!(id.proto, 51);
    let big = UserSaIdBuffer::new(&bytes, Endian::Big);
    assert_eq!(big.spi(), 0xdead_beef);
    assert_eq!(big.family(), 0x0a00);
}

#[test]
fn identifier_parse_rejects_short_slice() {
    for len in [0usize, 1, 16, 22, 23] {
        let bytes = vec![0u8; len];
        let expected =
            DecodeError::InsufficientBuffer { record: Record::UserSaId, needed: 24, found: len };
        for order in [Endian::Little, Endian::Big] {
            assert_eq!(UserSaId::decode(&bytes, order), Err(expected));
            assert_eq!(UserSaIdBuffer::new_checked(&bytes, order).unwrap_err(), expected);
        }
    }
}

#[test]
fn identifier_parse_accepts_longer_slice() {
    let mut buffer = [0u8; 40];
    sample_id().emit(&mut buffer, Endian::Big);
    assert_eq!(UserSaId::decode(&buffer, Endian::Big), Ok(sample_id()));
}

#[test]
fn identifier_try_emit_reports_short_buffer() {
    let mut short = [0xeeu8; 23];
    assert_eq!(
        sample_id().try_emit(&mut short, Endian::Little),
        Err(EncodeError::SizeMismatch { record: Record::UserSaId, needed: 24, found: 23 })
    );
    assert_eq!(short, [0xeeu8; 23]);
    let mut exact = [0xeeu8; 24];
    assert_eq!(sample_id().try_emit(&mut exact, Endian::Little), Ok(()));
    assert_eq!(UserSaId::decode(&exact, Endian::Little), Ok(sample_id()));
}

#[test]
fn destination_with_ipv4_sets_family_inet() {
    let mut id = UserSaId { spi: 7, proto: 50, ..UserSaId::default() };
    id.destination(&IpAddress::V4([172, 16, 0, 9]));
    assert_eq!(id.family, AF_INET);
    assert_eq!(id.family, 2);
    assert_eq!(id.daddr.addr, [172, 16, 0, 9, 0, 0, 0, 0, 0, 0, 0, 0, 0, 0, 0, 0]);
    assert_eq!(id.spi, 7);
    assert_eq!(id.proto, 50);
}

#[test]
fn destination_with_ipv6_sets_family_inet6() {
    let octets = [0x20, 0x01, 0x0d, 0xb8, 1, 2, 3, 4, 5, 6, 7, 8, 9, 10, 11, 12];
    let mut id = sample_id();
    id.destination(&IpAddress::V6(octets));
    assert_eq!(id.family, AF_INET6);
    assert_eq!(id.family, 10);
    assert_eq!(id.daddr.addr, octets);
    assert_eq!(id.spi, 0x0102_0304);
    assert_eq!(id.proto, 50);
}

#[test]
fn destination_replaces_the_previous_address() {
    let mut id = UserSaId::default();
    id.destination(&IpAddress::V6([0xff; 16]));
    id.destination(&IpAddress::V4([1, 2, 3, 4]));
    assert_eq!(id.family, AF_INET);
    assert_eq!(id.daddr.addr, [1, 2, 3, 4, 0, 0, 0, 0, 0, 0, 0, 0, 0, 0, 0, 0]);
}

#[test]
fn spi_of_one_is_big_endian_on_the_wire() {
    let id = UserSaId { spi: 0x0000_0001, ..UserSaId::default() };
    for order in [Endian::Little, Endian::Big, Endian::native()] {
        let mut buffer = [0xeeu8; 24];
        id.emit(&mut buffer, order);
        assert_eq!(buffer[16], 0x00);
        assert_eq!(buffer[17], 0x00);
        assert_eq!(buffer[18], 0x00);
        assert_eq!(buffer[19], 0x01);
    }
}

#[test]
fn native_identifier_matches_native_endian_fields() {
    let id = sample_id();
    let mut buffer = [0u8; 24];
    id.emit(&mut buffer, Endian::native());
    assert_eq!(NativeEndian::read_u16(&buffer[20..22]), id.family);
    assert_eq!(u32::from_be(NativeEndian::read_u32(&buffer[16..20])), id.spi);
    let mut expected = [0u8; 24];
    expected[..16].copy_from_slice(&id.daddr.addr);
    NativeEndian::write_u32(&mut expected[16..20], id.spi.to_be());
    NativeEndian::write_u16(&mut expected[20..22], id.family);
    expected[22] = id.proto;
    assert_eq!(buffer, expected);
}

#[test]
fn identifier_buffer_mut_setters_write_their_fields() {
    let mut bytes = [0u8; 24];
    {
        let mut buf = UserSaIdBufferMut::new_checked(&mut bytes, Endian::Little).unwrap();
        buf.daddr_mut()[0] = 9;
        buf.set_spi(0x0a0b_0c0d);
        buf.set_family(0x0102);
        buf.set_proto(6);
    }
    assert_eq!(bytes[0], 9);
    assert_eq!(&bytes[16..24], &[0x0a, 0x0b, 0x0c, 0x0d, 0x02, 0x01, 6, 0][..]);
    let mut short = [0u8; 10];
    assert_eq!(
        UserSaIdBufferMut::new_checked(&mut short, Endian::Little).unwrap_err(),
        EncodeError::SizeMismatch { record: Record::UserSaId, needed: 24, found: 10 }
    );
    let mut exact = [0u8; 24];
    let mut buf = UserSaIdBufferMut::new(&mut exact, Endian::Big);
    buf.set_family(0x0102);
    assert_eq!(&exact[20..22], &[0x01, 0x02][..]);
}

#[test]
fn nested_failure_names_the_field_and_keeps_the_cause() {
    let cause = DecodeError::InsufficientBuffer { record: Record::Address, needed: 16, found: 4 };
    let outer = cause.in_field(NestedField::Daddr);
    assert_eq!(
        outer,
        DecodeError::MalformedNestedField {
            field: NestedField::Daddr,
            record: Record::Address,
            needed: 16,
            found: 4,
        }
    );
    assert_eq!(
        outer.in_field(NestedField::Id),
        DecodeError::MalformedNestedField {
            field: NestedField::Id,
            record: Record::Address,
            needed: 16,
            found: 4,
        }
    );
}
