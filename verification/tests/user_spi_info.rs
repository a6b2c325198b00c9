use netlink_packet_utils::byteorder::{ByteOrder, NativeEndian};
use xfrm_records::{
    Address, DecodeError, EncodeError, Endian, IpAddress, Record, UserSaId, UserSpiInfo,
    UserSpiInfoBuffer, UserSpiInfoBufferMut, AF_INET, IPPROTO_COMP, XFRM_USER_SA_ID_LEN,
    XFRM_USER_SPI_INFO_LEN,
};

fn sample_info() -> UserSpiInfo {
    UserSpiInfo {
        id: UserSaId {
            daddr: Address::from_ipv4(&[10, 1, 2, 3]),
            spi: 0x0102_0304,
            family: AF_INET,
            proto: 50,
        },
        min: 0x100,
        max: 0x0fff_ffff,
    }
}

#[test]
fn spi_info_length_is_identifier_plus_eight() {
    assert_eq!(XFRM_USER_SPI_INFO_LEN, XFRM_USER_SA_ID_LEN + 8);
    assert_eq!(UserSpiInfo::default().buffer_len(), UserSaId::default().buffer_len() + 8);
    assert_eq!(UserSpiInfo::default().buffer_len(), 32);
    assert_eq!(sample_info().buffer_len(), 32);
    assert_eq!(sample_info().buffer_len() % 8, 0);
}

#[test]
fn default_spi_info_has_the_default_range() {
    let info = UserSpiInfo::default();
    assert_eq!(info.min, 0x100);
    assert_eq!(info.max, 0x0fffffff);
    assert_eq!(info.id, UserSaId::default());
}

#[test]
fn compression_protocol_clamps_existing_max() {
    let mut info = UserSpiInfo::default();
    assert_eq!(info.max, 0x0fffffff);
    info.protocol(IPPROTO_COMP);
    assert_eq!(info.id.proto, IPPROTO_COMP);
    assert_eq!(info.max, 0xffff);
    assert_eq!(info.min, 0x100);
}

#[test]
fn compression_protocol_clamps_later_range() {
    let mut info = UserSpiInfo::default();
    info.protocol(IPPROTO_COMP);
    info.spi_range(0x100, 0x20000);
    assert_eq!(info.max, 0xffff);
    assert_eq!(info.min, 0x100);
}

#[test]
fn other_protocol_keeps_range() {
    let mut info = UserSpiInfo::default();
    info.protocol(50);
    assert_eq!(info.id.proto, 50);
    assert_eq!(info.max, 0x0fffffff);
    info.spi_range(0x100, 0x20000);
    assert_eq!(info.max, 0x20000);
    assert_eq!(info.min, 0x100);
}

#[test]
fn compression_protocol_keeps_small_max() {
    let mut info = UserSpiInfo::default();
    info.spi_range(5, 0xffff);
    info.protocol(IPPROTO_COMP);
    assert_eq!(info.max, 0xffff);
    info.spi_range(1, 0x1234);
    assert_eq!(info.min, 1);
    assert_eq!(info.max, 0x1234);
    info.spi_range(2, 0x1_0000);
    assert_eq!(info.min, 2);
    assert_eq!(info.max, 0xffff);
}

#[test]
fn protocol_keeps_the_rest_of_the_identifier() {
    let mut info = sample_info();
    info.protocol(IPPROTO_COMP);
    assert_eq!(info.id, UserSaId { proto: IPPROTO_COMP, ..sample_info().id });
    let mut other = sample_info();
    other.spi_range(3, 4);
    assert_eq!(other.id, sample_info().id);
}

#[test]
fn compression_protocol_number() {
    assert_eq!(IPPROTO_COMP, 108);
}

#[test]
fn spi_info_bytes_little_endian() {
    let mut buffer = [0xeeu8; 32];
    sample_info().emit(&mut buffer, Endian::Little);
    assert_eq!(
        buffer,
        [
            10, 1, 2, 3, 0, 0, 0, 0, 0, 0, 0, 0, 0, 0, 0, 0, // daddr
            1, 2, 3, 4, // spi
            2, 0, // family
            50, // proto
            0xee, // padding
            0x00, 0x01, 0x00, 0x00, // min
            0xff, 0xff, 0xff, 0x0f, // max
        ]
    );
}

#[test]
fn spi_info_bytes_big_endian() {
    let mut buffer = [0xeeu8; 34];
    sample_info().emit(&mut buffer, Endian::Big);
    assert_eq!(
        buffer,
        [
            10, 1, 2, 3, 0, 0, 0, 0, 0, 0, 0, 0, 0, 0, 0, 0, // daddr
            1, 2, 3, 4, // spi
            0, 2, // family
            50, // proto
            0xee, // padding
            0x00, 0x00, 0x01, 0x00, // min
            0x0f, 0xff, 0xff, 0xff, // max
            0xee, 0xee, // after the record
        ]
    );
}

#[test]
fn spi_info_round_trip_in_both_orders() {
    let mut v6 = sample_info();
    v6.id.destination(&IpAddress::V6([0xfe, 0x80, 0, 0, 0, 0, 0, 0, 1, 2, 3, 4, 5, 6, 7, 8]));
    v6.protocol(IPPROTO_COMP);
    let infos = [
        UserSpiInfo::default(),
        sample_info(),
        v6,
        UserSpiInfo { id: sample_info().id, min: u32::MAX, max: 0 },
    ];
    for order in [Endian::Little, Endian::Big] {
        for info in infos {
            let mut buffer = [0xa5u8; 32];
            info.emit(&mut buffer, order);
            assert_eq!(UserSpiInfo::decode(&buffer, order), Ok(info));
            let buf = UserSpiInfoBuffer::new_checked(&buffer, order).unwrap();
            assert_eq!(UserSpiInfo::parse(&buf), Ok(info));
        }
    }
}

#[test]
fn spi_info_parse_does_not_clamp() {
    let mut info = sample_info();
    info.id.proto = IPPROTO_COMP;
    info.max = 0x20000;
    let mut buffer = [0u8; 32];
    info.emit(&mut buffer, Endian::Little);
    let parsed = UserSpiInfo::decode(&buffer, Endian::Little).unwrap();
    assert_eq!(parsed.max, 0x20000);
    assert_eq!(parsed.id.proto, IPPROTO_COMP);
}

#[test]
fn spi_info_parse_reads_each_field() {
    let mut bytes = [0u8; 32];
    for (i, b) in bytes.iter_mut().enumerate() {
        *b = i as u8;
    }
    let buf = UserSpiInfoBuffer::new(&bytes, Endian::Little);
    assert_eq!(buf.min(), 0x1b1a_1918);
    assert_eq!(buf.max(), 0x1f1e_1d1c);
    assert_eq!(buf.id().spi(), 0x1011_1213);
    assert_eq!(buf.id().family(), 0x1514);
    assert_eq!(buf.id().proto(), 22);
    let big = UserSpiInfoBuffer::new(&bytes, Endian::Big);
    assert_eq!(big.min(), 0x1819_1a1b);
    assert_eq!(big.max(), 0x1c1d_1e1f);
    assert_eq!(big.id().family(), 0x1415);
}

#[test]
fn spi_info_parse_rejects_short_slice() {
    for len in [0usize, 24, 31] {
        let bytes = vec![0u8; len];
        let expected = DecodeError::InsufficientBuffer {
            record: Record::UserSpiInfo,
            needed: 32,
            found: len,
        };
        for order in [Endian::Little, Endian::Big] {
            assert_eq!(UserSpiInfo::decode(&bytes, order), Err(expected));
            assert_eq!(UserSpiInfoBuffer::new_checked(&bytes, order).unwrap_err(), expected);
        }
    }
}

#[test]
fn spi_info_try_emit_reports_short_buffer() {
    let mut short = [0xeeu8; 31];
    assert_eq!(
        sample_info().try_emit(&mut short, Endian::Big),
        Err(EncodeError::SizeMismatch { record: Record::UserSpiInfo, needed: 32, found: 31 })
    );
    assert_eq!(short, [0xeeu8; 31]);
    let mut exact = [0xeeu8; 32];
    assert_eq!(sample_info().try_emit(&mut exact, Endian::Big), Ok(()));
    assert_eq!(UserSpiInfo::decode(&exact, Endian::Big), Ok(sample_info()));
}

#[test]
fn native_spi_info_matches_native_endian_fields() {
    let info = sample_info();
    let mut buffer = [0u8; 32];
    info.emit(&mut buffer, Endian::native());
    assert_eq!(NativeEndian::read_u32(&buffer[24..28]), info.min);
    assert_eq!(NativeEndian::read_u32(&buffer[28..32]), info.max);
    assert_eq!(UserSpiInfo::decode(&buffer, Endian::native()), Ok(info));
}

#[test]
fn spi_info_buffer_mut_setters_write_their_fields() {
    let mut bytes = [0u8; 32];
    {
        let mut buf = UserSpiInfoBufferMut::new_checked(&mut bytes, Endian::Little).unwrap();
        let id = buf.id_mut();
        assert_eq!(id.len(), 24);
        id[23] = 0x42;
        buf.set_min(0x0102_0304);
        buf.set_max(0x0506_0708);
    }
    assert_eq!(&bytes[23..], &[0x42, 4, 3, 2, 1, 8, 7, 6, 5][..]);
    let mut short = [0u8; 24];
    assert_eq!(
        UserSpiInfoBufferMut::new_checked(&mut short, Endian::Little).unwrap_err(),
        EncodeError::SizeMismatch { record: Record::UserSpiInfo, needed: 32, found: 24 }
    );
    let mut exact = [0u8; 32];
    let mut buf = UserSpiInfoBufferMut::new(&mut exact, Endian::Big);
    buf.set_max(1);
    assert_eq!(&exact[28..], &[0, 0, 0, 1][..]);
}
