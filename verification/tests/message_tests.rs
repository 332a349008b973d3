use bytes::Bytes;
use vrpn::GenericBody;
use vrpn::InnerDescription;
use vrpn::Message;
use vrpn::MessageHeader;
use vrpn::TimeVal;
use vrpn::make_sequenced_message_body_generic;
use vrpn::types::LocalId;
use vrpn::types::SenderId;
use vrpn::types::SequenceNumber;
use vrpn::types::TypeId;
use vrpn::unbuffer_typed_message_body;

#[test]
fn header_keeps_the_supplied_time_and_ids() {
    let header = MessageHeader::new(Some(TimeVal::new(5, 6)), TypeId(1), SenderId(2));
    assert_eq!(header.time, TimeVal::new(5, 6));
    assert_eq!(header.message_type, TypeId(1));
    assert_eq!(header.sender, SenderId(2));
    // Namespace-tagged IDs are stripped to their base ID.
    let tagged = MessageHeader::new(None, LocalId(TypeId(3)), LocalId(SenderId(4)));
    assert_eq!(tagged.message_type, TypeId(3));
    assert_eq!(tagged.sender, SenderId(4));
    assert_eq!(tagged.time, TimeVal::new(0, 0));
}

#[test]
fn system_messages_have_negative_type_ids() {
    let system = Message::from_header_and_body(
        MessageHeader::new(None, TypeId(-1), SenderId(0)),
        GenericBody::new(Bytes::new()),
    );
    assert!(system.is_system_message());
    let user = Message::from_header_and_body(
        MessageHeader::new(None, TypeId(0), SenderId(0)),
        GenericBody::new(Bytes::new()),
    );
    assert!(!user.is_system_message());
}

#[test]
fn typed_body_serializes_into_generic_and_back() {
    let body: InnerDescription<SenderId> = InnerDescription::new(b"Tracker0".to_vec());
    let msg = Message::from_header_and_body(
        MessageHeader::new(Some(TimeVal::new(1, 2)), TypeId(-1), SenderId(9)),
        body,
    );
    let sequenced = msg.into_sequenced_message(SequenceNumber(3));
    let generic = make_sequenced_message_body_generic(sequenced).unwrap();
    assert_eq!(generic.message.body.inner.as_ref(), b"Tracker0");
    assert_eq!(generic.sequence_number, SequenceNumber(3));
    let back: Message<InnerDescription<SenderId>> =
        unbuffer_typed_message_body(&generic.message).unwrap();
    assert_eq!(back.body.name, b"Tracker0".to_vec());
    assert_eq!(back.header, generic.message.header);
}
