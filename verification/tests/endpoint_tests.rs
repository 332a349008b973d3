use bytes::Bytes;
use vrpn::ClassOfService;
use vrpn::Endpoint;
use vrpn::GenericBody;
use vrpn::Message;
use vrpn::MessageHeader;
use vrpn::SystemMessage;
use vrpn::description_message;
use vrpn::system_change_message;
use vrpn::Error;
use vrpn::types::LocalId;
use vrpn::types::RemoteId;
use vrpn::types::SenderId;
use vrpn::types::SequenceNumber;
use vrpn::types::TypeId;
use vrpn::types::TypeSafeId;

fn user_message(type_id: i32, body: &[u8]) -> Message<GenericBody> {
    Message::from_header_and_body(
        MessageHeader::new(None, TypeId(type_id), SenderId(0)),
        GenericBody::new(Bytes::copy_from_slice(body)),
    )
}

#[test]
fn outbound_buffer_keeps_messages_in_order() {
    let mut endpoint = Endpoint::new();
    endpoint
        .buffer_generic_message(user_message(1, b"one"), ClassOfService::reliable())
        .unwrap();
    endpoint
        .buffer_generic_message(user_message(2, b"two"), ClassOfService::low_latency())
        .unwrap();
    let drained = endpoint.take_outbound();
    assert_eq!(drained.len(), 2);
    assert_eq!(drained[0].message.body.inner.as_ref(), b"one");
    assert_eq!(drained[0].class, ClassOfService::reliable());
    assert_eq!(drained[1].message.body.inner.as_ref(), b"two");
    assert!(endpoint.outbound.is_empty());
}

#[test]
fn system_changes_bypass_the_outbound_buffer() {
    let mut endpoint = Endpoint::new();
    endpoint
        .buffer_generic_message(user_message(1, b"payload"), ClassOfService::reliable())
        .unwrap();
    endpoint
        .send_system_change(SystemMessage::SenderDescription {
            id: LocalId(SenderId(0)),
            name: b"Tracker0".to_vec(),
        })
        .unwrap();
    let system = endpoint.take_system_queue();
    assert_eq!(system.len(), 1);
    assert_eq!(endpoint.outbound.len(), 1, "the buffered message is untouched");
}

#[test]
fn sequence_numbers_count_up_from_zero() {
    let mut endpoint = Endpoint::new();
    assert_eq!(endpoint.next_sequence_number(), SequenceNumber(0));
    assert_eq!(endpoint.next_sequence_number(), SequenceNumber(1));
    assert_eq!(endpoint.next_sequence_number(), SequenceNumber(2));
}

#[test]
fn description_message_binds_remote_to_local_numbering() {
    let mut endpoint = Endpoint::new();
    // The peer announces: "my sender ID 12 means Tracker0" — the described
    // remote ID rides in the header's sender field, the name is the body.
    let description = Message::from_header_and_body(
        MessageHeader::new(None, TypeId(-1), SenderId(12)),
        GenericBody::new(Bytes::copy_from_slice(b"Tracker0")),
    );
    endpoint.handle_description_message(&description).unwrap();
    let local = endpoint
        .translation
        .senders
        .map_to_local_id(RemoteId(SenderId(12)))
        .unwrap();
    assert_eq!(local.get(), 0);
    let name = endpoint
        .translation
        .senders
        .lookup_by_local_id(local)
        .unwrap();
    assert_eq!(name.as_slice(), b"Tracker0");
    assert_eq!(endpoint.translation.types.len(), 0);

    // A type description updates the other table.
    let type_description = Message::from_header_and_body(
        MessageHeader::new(None, TypeId(-2), SenderId(40)),
        GenericBody::new(Bytes::copy_from_slice(b"Tracker Pose")),
    );
    endpoint.handle_description_message(&type_description).unwrap();
    let local_type = endpoint
        .translation
        .types
        .map_to_local_id(RemoteId(TypeId(40)))
        .unwrap();
    assert_eq!(local_type.get(), 0);
    assert_eq!(endpoint.translation.senders.len(), 1);
}

#[test]
fn description_message_mirrors_description_handling() {
    // Announce a local binding, then feed the announcement to a fresh
    // endpoint as if it had arrived from a peer: the peer-side table binds
    // the same name to our numbering.
    let announcement = description_message(LocalId(SenderId(3)), b"Tracker0".to_vec());
    assert_eq!(announcement.header.message_type, TypeId(-1));
    assert_eq!(announcement.header.sender, SenderId(3));
    assert_eq!(announcement.body.inner.as_ref(), b"Tracker0");

    let mut peer = Endpoint::new();
    peer.handle_description_message(&announcement).unwrap();
    let local = peer
        .translation
        .senders
        .map_to_local_id(RemoteId(SenderId(3)))
        .unwrap();
    assert_eq!(local.get(), 0);
}

#[test]
fn system_change_turns_into_its_announcement() {
    let change = SystemMessage::TypeDescription {
        id: LocalId(TypeId(7)),
        name: b"Tracker Pose".to_vec(),
    };
    let msg = system_change_message(change);
    assert_eq!(msg.header.message_type, TypeId(-2));
    assert_eq!(msg.header.sender, SenderId(7));
    assert_eq!(msg.body.inner.as_ref(), b"Tracker Pose");
}

#[test]
fn undescribed_remote_ids_are_unresolved() {
    let mut endpoint = Endpoint::new();
    assert_eq!(
        endpoint
            .map_remote_sender_to_local(RemoteId(SenderId(5)))
            .unwrap_err(),
        Error::UnresolvedIdentity(5)
    );
    let description = Message::from_header_and_body(
        MessageHeader::new(None, TypeId(-1), SenderId(5)),
        GenericBody::new(Bytes::copy_from_slice(b"Tracker0")),
    );
    endpoint.handle_description_message(&description).unwrap();
    assert_eq!(
        endpoint
            .map_remote_sender_to_local(RemoteId(SenderId(5)))
            .unwrap()
            .get(),
        0
    );
    assert_eq!(
        endpoint
            .map_remote_type_to_local(RemoteId(TypeId(5)))
            .unwrap_err(),
        Error::UnresolvedIdentity(5)
    );
}
