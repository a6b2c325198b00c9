use xfrm_records::buffer::{
    align8, check_len, check_room, get_slice, get_slice_mut, get_u8, set_slice, set_u8,
};
use xfrm_records::{DecodeError, EncodeError, Record};

#[test]
fn align8_rounds_up_to_a_multiple_of_eight() {
    assert_eq!(align8(0), 0);
    assert_eq!(align8(1), 8);
    assert_eq!(align8(8), 8);
    assert_eq!(align8(23), 24);
    assert_eq!(align8(24), 24);
    assert_eq!(align8(32), 32);
    assert_eq!(align8(217), 224);
}

#[test]
fn check_len_accepts_exact_and_longer() {
    assert_eq!(check_len(&[0u8; 24], Record::UserSaId, 24), Ok(()));
    assert_eq!(check_len(&[0u8; 40], Record::UserSaId, 24), Ok(()));
    assert_eq!(check_len(&[], Record::Address, 0), Ok(()));
}

#[test]
fn check_len_reports_short_slice() {
    assert_eq!(
        check_len(&[0u8; 23], Record::UserSaId, 24),
        Err(DecodeError::InsufficientBuffer { record: Record::UserSaId, needed: 24, found: 23 })
    );
    assert_eq!(
        check_len(&[], Record::Address, 16),
        Err(DecodeError::InsufficientBuffer { record: Record::Address, needed: 16, found: 0 })
    );
}

#[test]
fn check_room_reports_short_slice() {
    assert_eq!(check_room(&[0u8; 32], Record::UserSpiInfo, 32), Ok(()));
    assert_eq!(
        check_room(&[0u8; 31], Record::UserSpiInfo, 32),
        Err(EncodeError::SizeMismatch { record: Record::UserSpiInfo, needed: 32, found: 31 })
    );
}

#[test]
fn get_u8_reads_the_byte() {
    let bytes = [1u8, 2, 3];
    assert_eq!(get_u8(&bytes, 0), 1);
    assert_eq!(get_u8(&bytes, 2), 3);
}

#[test]
fn get_slice_is_the_range() {
    let bytes = [1u8, 2, 3, 4, 5];
    assert_eq!(get_slice(&bytes, 1, 4), &[2u8, 3, 4][..]);
    assert_eq!(get_slice(&bytes, 2, 2), &[0u8; 0][..]);
    assert_eq!(get_slice(&bytes, 0, 5), &bytes[..]);
}

#[test]
fn set_u8_changes_one_byte() {
    let mut bytes = [1u8, 2, 3];
    set_u8(&mut bytes, 1, 9);
    assert_eq!(bytes, [1, 9, 3]);
}

#[test]
fn set_slice_overwrites_the_range_only() {
    let mut bytes = [1u8, 2, 3, 4, 5];
    set_slice(&mut bytes, 1, &[8, 9]);
    assert_eq!(bytes, [1, 8, 9, 4, 5]);
    set_slice(&mut bytes, 5, &[]);
    assert_eq!(bytes, [1, 8, 9, 4, 5]);
}

#[test]
fn get_slice_mut_lends_the_range() {
    let mut bytes = [1u8, 2, 3, 4, 5];
    {
        let part = get_slice_mut(&mut bytes, 1, 3);
        assert_eq!(part, &mut [2u8, 3][..]);
        part[0] = 7;
        part[1] = 6;
    }
    assert_eq!(bytes, [1, 7, 6, 4, 5]);
}
