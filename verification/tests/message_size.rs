use std::mem::size_of;
use vrpn::ConstantBufferSize;
use vrpn::MessageSize;
use vrpn::TimeVal;
use vrpn::constants::ALIGN;
use vrpn::types::SenderId;
use vrpn::types::SequenceNumber;
use vrpn::types::TypeId;

#[test]
fn constant() {
    // The size field is a u32.
    let len_size = size_of::<u32>();
    let computed_size = len_size
        + TimeVal::constant_buffer_size()
        + SenderId::constant_buffer_size()
        + TypeId::constant_buffer_size();
    assert_eq!(
        MessageSize::UNPADDED_HEADER_SIZE,
        computed_size,
        "The constant for header size should match the actual size of the fields in the header."
    );
    assert_eq!(
        (MessageSize::UNPADDED_HEADER_SIZE + SequenceNumber::constant_buffer_size()) % ALIGN,
        0,
        "The sequence number should make our header need no additional padding."
    );
}

#[test]
fn sizes() {
    // Based on the initial "VRPN Control" sender ID message
    assert_eq!(
        MessageSize::from_unpadded_body_size(17).unpadded_body_size(),
        17
    );
    assert_eq!(
        MessageSize::from_unpadded_body_size(17).padded_body_size(),
        24
    );
    assert_eq!(MessageSize::UNPADDED_HEADER_SIZE, 20);
    assert_eq!(
        MessageSize::from_unpadded_body_size(17).padded_message_size(),
        48
    );
    assert_eq!(MessageSize::from_unpadded_body_size(17).length_field(), 41);
    assert_eq!(MessageSize::from_length_field(41).length_field(), 41);
    assert_eq!(MessageSize::from_length_field(41).unpadded_body_size(), 17);

    // Based on the second message, which is closer to the edge and thus breaks things.
    assert_eq!(
        MessageSize::from_unpadded_body_size(13),
        MessageSize::from_length_field(0x25)
    );
    assert_eq!(
        MessageSize::from_unpadded_body_size(13).padded_body_size(),
        16
    );
    assert_eq!(
        MessageSize::from_unpadded_body_size(13).length_field(),
        24 + 13
    );
    assert_eq!(MessageSize::from_length_field(37).length_field(), 37);

    assert_eq!(MessageSize::from_length_field(37).padded_message_size(), 40);
}

#[test]
fn length_field_matches_reference_arithmetic() {
    // A literal transcription of the protocol's own padding arithmetic,
    // used as ground truth.
    fn reference_lengths(len: usize) -> (usize, u32) {
        let mut ceil_len = len;
        if (len % ALIGN) != 0 {
            ceil_len += ALIGN - len % ALIGN;
        }
        let mut header_len = 5 * size_of::<i32>();
        if (header_len % ALIGN) != 0 {
            header_len += ALIGN - header_len % ALIGN;
        }
        (header_len + ceil_len, (header_len + len) as u32)
    }
    for len in 0..2000usize {
        let (total_len, len_field) = reference_lengths(len);
        assert_eq!(MessageSize::from_unpadded_body_size(len).length_field(), len_field);
        assert_eq!(
            MessageSize::from_unpadded_body_size(len).padded_message_size(),
            total_len
        );
        assert_eq!(
            MessageSize::from_unpadded_body_size(len).padded_message_size() % ALIGN,
            0
        );
    }
}

#[test]
fn length_field_roundtrip() {
    for len_field in 24..4000u32 {
        assert_eq!(
            MessageSize::from_length_field(len_field).length_field(),
            len_field
        );
    }
}

#[test]
fn from_unpadded_message_size_subtracts_header() {
    assert_eq!(
        MessageSize::from_unpadded_message_size(37).unpadded_body_size(),
        17
    );
    assert_eq!(MessageSize::from_unpadded_message_size(20).unpadded_body_size(), 0);
}
