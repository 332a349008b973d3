use bytes::Bytes;
use bytes::BytesMut;
use vrpn::BytesRequired;
use vrpn::Error;
use vrpn::GenericBody;
use vrpn::Message;
use vrpn::SequencedGenericMessage;
use vrpn::TimeVal;
use vrpn::types::SenderId;
use vrpn::types::SequenceNumber;
use vrpn::types::TypeId;

fn sample_message(body: &[u8]) -> SequencedGenericMessage {
    Message::from_header_and_body(
        vrpn::MessageHeader::new(
            Some(TimeVal::new(1_697_000_000, 123_456)),
            TypeId(5),
            SenderId(2),
        ),
        GenericBody::new(Bytes::copy_from_slice(body)),
    )
    .into_sequenced_message(SequenceNumber(7))
}

#[test]
fn frame_roundtrip_restores_every_field() {
    for body_len in [0usize, 1, 7, 8, 13, 17, 100, 1000] {
        let body: Vec<u8> = (0..body_len).map(|i| (i % 251) as u8).collect();
        let msg = sample_message(&body);
        let mut buf = BytesMut::new();
        msg.buffer_ref(&mut buf).unwrap();
        assert_eq!(buf.len() % 8, 0, "frames are a multiple of the alignment");
        let mut wire = buf.freeze();
        let decoded = SequencedGenericMessage::unbuffer_ref(&mut wire).unwrap();
        assert_eq!(wire.len(), 0, "the whole frame is consumed");
        assert_eq!(decoded.message.header, msg.message.header);
        assert_eq!(decoded.sequence_number, msg.sequence_number);
        assert_eq!(decoded.message.body.inner.as_ref(), &body[..]);
    }
}

#[test]
fn frame_bytes_are_exactly_as_documented() {
    // 1-byte body 0xAB: length field 25, total 32 bytes.
    let msg = Message::from_header_and_body(
        vrpn::MessageHeader::new(Some(TimeVal::new(1, 2)), TypeId(-2), SenderId(3)),
        GenericBody::new(Bytes::copy_from_slice(&[0xAB])),
    )
    .into_sequenced_message(SequenceNumber(0x01020304));
    let mut buf = BytesMut::new();
    msg.buffer_ref(&mut buf).unwrap();
    let wire = buf.freeze();
    let expected: Vec<u8> = vec![
        0, 0, 0, 25, // length field: 24 + 1
        0, 0, 0, 1, // seconds
        0, 0, 0, 2, // microseconds
        0, 0, 0, 3, // sender
        0xFF, 0xFF, 0xFF, 0xFE, // type: -2 two's complement
        1, 2, 3, 4, // sequence number
        0xAB, // body
        0, 0, 0, 0, 0, 0, 0, // padding to 32
    ];
    assert_eq!(wire.as_ref(), &expected[..]);
}

#[test]
fn truncated_frame_reports_exact_shortfall() {
    // A complete 48-byte frame (17-byte body) missing its final 5 bytes.
    let body: Vec<u8> = (0..17u8).collect();
    let msg = sample_message(&body);
    let mut buf = BytesMut::new();
    msg.buffer_ref(&mut buf).unwrap();
    let full = buf.freeze();
    assert_eq!(full.len(), 48);
    let mut truncated = full.slice(0..43);
    let before = truncated.clone();
    let result = SequencedGenericMessage::unbuffer_ref(&mut truncated);
    assert_eq!(
        result.unwrap_err(),
        Error::NeedMoreData(BytesRequired::Exactly(5))
    );
    assert_eq!(truncated, before, "a failing decode leaves the buffer untouched");

    // Supplying the missing bytes and retrying succeeds.
    let mut retry = BytesMut::from(truncated.as_ref());
    retry.extend_from_slice(&full.as_ref()[43..]);
    let mut whole = retry.freeze();
    let decoded = SequencedGenericMessage::unbuffer_ref(&mut whole).unwrap();
    assert_eq!(decoded.message.header, msg.message.header);
    assert_eq!(decoded.message.body.inner.as_ref(), &body[..]);
}

#[test]
fn short_length_field_needs_at_least() {
    let mut buf = Bytes::copy_from_slice(&[0, 0]);
    let result = SequencedGenericMessage::unbuffer_ref(&mut buf);
    assert_eq!(
        result.unwrap_err(),
        Error::NeedMoreData(BytesRequired::AtLeast(2))
    );
    assert_eq!(buf.len(), 2);
}

#[test]
fn implausible_length_field_is_fatal() {
    // Too small to cover the padded header.
    let mut small = Bytes::copy_from_slice(&[0, 0, 0, 16, 9, 9, 9, 9]);
    assert_eq!(
        SequencedGenericMessage::unbuffer_ref(&mut small).unwrap_err(),
        Error::InvalidLengthField(16)
    );
    // Beyond the sanity cap.
    let mut huge = Bytes::copy_from_slice(&[0x7F, 0xFF, 0xFF, 0xFF]);
    assert_eq!(
        SequencedGenericMessage::unbuffer_ref(&mut huge).unwrap_err(),
        Error::InvalidLengthField(0x7FFF_FFFF)
    );
}

#[test]
fn decode_leaves_following_frames_in_place() {
    let first = sample_message(&[1, 2, 3]);
    let second = sample_message(&[9, 8, 7, 6, 5]);
    let mut buf = BytesMut::new();
    first.buffer_ref(&mut buf).unwrap();
    second.buffer_ref(&mut buf).unwrap();
    let mut wire = buf.freeze();
    let one = SequencedGenericMessage::unbuffer_ref(&mut wire).unwrap();
    assert_eq!(one.message.body.inner.as_ref(), &[1, 2, 3]);
    let two = SequencedGenericMessage::unbuffer_ref(&mut wire).unwrap();
    assert_eq!(two.message.body.inner.as_ref(), &[9, 8, 7, 6, 5]);
    assert_eq!(wire.len(), 0);
}

#[test]
fn buffer_size_matches_bytes_written() {
    let msg = sample_message(&[1, 2, 3, 4, 5, 6, 7, 8, 9]);
    let mut buf = BytesMut::new();
    msg.buffer_ref(&mut buf).unwrap();
    assert_eq!(msg.buffer_size(), buf.len());
    assert_eq!(msg.buffer_size(), 40);
}
