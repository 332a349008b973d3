use bytes::Bytes;
use vrpn::BytesRequired;
use vrpn::Decodable;
use vrpn::Error;
use vrpn::TimeVal;
use vrpn::from_buf;
use vrpn::to_bytes;
use vrpn::types::SenderId;
use vrpn::types::SequenceNumber;
use vrpn::types::TypeId;

#[test]
fn integers_encode_big_endian() {
    assert_eq!(to_bytes(&0x0102_0304u32).unwrap().as_ref(), &[1, 2, 3, 4]);
    assert_eq!(to_bytes(&0x0102u16).unwrap().as_ref(), &[1, 2]);
    assert_eq!(
        to_bytes(&0x0102_0304_0506_0708u64).unwrap().as_ref(),
        &[1, 2, 3, 4, 5, 6, 7, 8]
    );
    assert_eq!(to_bytes(&0xABu8).unwrap().as_ref(), &[0xAB]);
    assert_eq!(to_bytes(&-2i16).unwrap().as_ref(), &[0xFF, 0xFE]);
    assert_eq!(to_bytes(&-2i32).unwrap().as_ref(), &[0xFF, 0xFF, 0xFF, 0xFE]);
    assert_eq!(
        to_bytes(&-2i64).unwrap().as_ref(),
        &[0xFF, 0xFF, 0xFF, 0xFF, 0xFF, 0xFF, 0xFF, 0xFE]
    );
    assert_eq!(to_bytes(&-1i8).unwrap().as_ref(), &[0xFF]);
}

#[test]
fn booleans_are_a_32_bit_one_or_zero() {
    assert_eq!(to_bytes(&true).unwrap().as_ref(), &[0, 0, 0, 1]);
    assert_eq!(to_bytes(&false).unwrap().as_ref(), &[0, 0, 0, 0]);
    let mut wire = Bytes::copy_from_slice(&[0, 0, 0, 1]);
    assert_eq!(from_buf::<bool>(&mut wire).unwrap(), true);
    let mut wire = Bytes::copy_from_slice(&[0, 0, 0, 0]);
    assert_eq!(from_buf::<bool>(&mut wire).unwrap(), false);
}

#[test]
fn primitive_roundtrips() {
    let mut wire = to_bytes(&0xDEAD_BEEFu32).unwrap();
    assert_eq!(from_buf::<u32>(&mut wire).unwrap(), 0xDEAD_BEEF);
    let mut wire = to_bytes(&-123_456_789i64).unwrap();
    assert_eq!(from_buf::<i64>(&mut wire).unwrap(), -123_456_789);
    let time = TimeVal::new(1_600_000_000, 999_999);
    let mut wire = to_bytes(&time).unwrap();
    assert_eq!(wire.len(), 8);
    assert_eq!(from_buf::<TimeVal>(&mut wire).unwrap(), time);
    let mut wire = to_bytes(&SequenceNumber(77)).unwrap();
    assert_eq!(from_buf::<SequenceNumber>(&mut wire).unwrap(), SequenceNumber(77));
    let mut wire = to_bytes(&SenderId(-3)).unwrap();
    assert_eq!(from_buf::<SenderId>(&mut wire).unwrap(), SenderId(-3));
    let mut wire = to_bytes(&TypeId(12)).unwrap();
    assert_eq!(from_buf::<TypeId>(&mut wire).unwrap(), TypeId(12));
}

#[test]
fn every_width_decodes_its_own_encoding() {
    let mut wire = to_bytes(&0xABu8).unwrap();
    assert_eq!(from_buf::<u8>(&mut wire).unwrap(), 0xAB);
    let mut wire = to_bytes(&-1i8).unwrap();
    assert_eq!(from_buf::<i8>(&mut wire).unwrap(), -1);
    let mut wire = to_bytes(&0xBEEFu16).unwrap();
    assert_eq!(from_buf::<u16>(&mut wire).unwrap(), 0xBEEF);
    let mut wire = to_bytes(&-32000i16).unwrap();
    assert_eq!(from_buf::<i16>(&mut wire).unwrap(), -32000);
    let mut wire = to_bytes(&0xFEED_FACE_CAFE_BEEFu64).unwrap();
    assert_eq!(from_buf::<u64>(&mut wire).unwrap(), 0xFEED_FACE_CAFE_BEEF);
    let mut wire = to_bytes(&-40i32).unwrap();
    assert_eq!(from_buf::<i32>(&mut wire).unwrap(), -40);
}

#[test]
fn short_buffer_reports_minimum_shortfall() {
    let mut wire = Bytes::copy_from_slice(&[1, 2]);
    assert_eq!(
        from_buf::<u32>(&mut wire).unwrap_err(),
        Error::NeedMoreData(BytesRequired::AtLeast(2))
    );
    let mut wire = Bytes::copy_from_slice(&[1, 2, 3]);
    assert_eq!(
        from_buf::<u64>(&mut wire).unwrap_err(),
        Error::NeedMoreData(BytesRequired::AtLeast(5))
    );
}

#[test]
fn leftover_bytes_after_a_value_are_fatal() {
    let mut wire = Bytes::copy_from_slice(&[0, 0, 0, 1, 9]);
    assert_eq!(
        from_buf::<u32>(&mut wire).unwrap_err(),
        Error::TrailingCharacters
    );
}

#[test]
fn unbuffer_consumes_exactly_one_value() {
    let mut wire = Bytes::copy_from_slice(&[0, 0, 0, 5, 0, 0, 0, 6]);
    assert_eq!(u32::unbuffer_ref(&mut wire).unwrap(), 5);
    assert_eq!(u32::unbuffer_ref(&mut wire).unwrap(), 6);
    assert_eq!(wire.len(), 0);
}
