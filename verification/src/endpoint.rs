//! One physical link of a connection: its own pair of translation tables
//! (two distinct peers may number the same name differently), the outbound
//! buffer classified by service intent, and the queue of system changes
//! that bypass that buffer.
//!
//! The wire-format description bodies live here too: a description message
//! announces "my ID R means name N", carrying R in the header's sender
//! field and N as the body.

use vstd::prelude::*;
use core::marker::PhantomData;
use bytes::BytesMut;
use crate::buffer::bytes_len;
use crate::buffer::bytes_mut_put_slice;
use crate::buffer::bytes_mut_remaining_mut;
use crate::buffer::bytes_split_to;
use crate::buffer::bytes_to_vec;
use crate::buffer::bytes_view;
use crate::codec::Decodable;
use crate::codec::Encodable;
use crate::constants;
use crate::error::Error;
use crate::message::GenericMessage;
use crate::message::MessageHeader;
use crate::message::Message;
use crate::message::MessageTypeIdentifier;
use crate::message::TypedMessageBody;
use crate::message::unbuffer_typed_message_body;
use crate::translation::TranslationTable;
use crate::types::BaseTypeSafeId;
use crate::types::ClassOfService;
use crate::types::LocalId;
use crate::types::RemoteId;
use crate::types::SenderId;
use crate::types::SequenceNumber;
use crate::types::TypeId;
use crate::types::TypeSafeId;

verus! {

/// The two per-endpoint translation tables, one per ID category.
pub struct TranslationTables {
    pub types: TranslationTable<TypeId>,
    pub senders: TranslationTable<SenderId>,
}

impl TranslationTables {
    pub open spec fn wf(self) -> bool {
        self.types.wf() && self.senders.wf()
    }

    pub fn new() -> (r: TranslationTables)
        ensures
            r.wf(),
            r.types.entries@.len() == 0,
            r.senders.entries@.len() == 0,
    {
        TranslationTables { types: TranslationTable::new(), senders: TranslationTable::new() }
    }
}

/// The body of a type or sender description message: the described name,
/// occupying the whole body.
pub struct InnerDescription<T: BaseTypeSafeId> {
    pub name: Vec<u8>,
    pub phantom: PhantomData<T>,
}

impl<T: BaseTypeSafeId> InnerDescription<T> {
    pub fn new(name: Vec<u8>) -> (r: InnerDescription<T>)
        ensures
            r.name@ == name@,
    {
        InnerDescription { name, phantom: PhantomData }
    }
}

impl<T: BaseTypeSafeId> TypedMessageBody for InnerDescription<T> {
    open spec fn message_identifier_spec() -> MessageTypeIdentifier {
        MessageTypeIdentifier::SystemMessageId(T::description_type_spec())
    }

    fn message_identifier() -> MessageTypeIdentifier {
        MessageTypeIdentifier::SystemMessageId(T::description_type())
    }
}

impl<T: BaseTypeSafeId> Encodable for InnerDescription<T> {
    open spec fn encoding(&self) -> Seq<u8> {
        self.name@
    }

    fn buffer_size(&self) -> usize {
        self.name.len()
    }

    fn buffer_ref(&self, buf: &mut BytesMut) -> (r: Result<(), Error>) {
        if bytes_mut_remaining_mut(buf) < self.name.len() {
            return Err(Error::OutOfBuffer);
        }
        bytes_mut_put_slice(buf, self.name.as_slice());
        Ok(())
    }
}

impl<T: BaseTypeSafeId> Decodable for InnerDescription<T> {
    open spec fn decode_len(s: Seq<u8>) -> Option<int> {
        Some(s.len() as int)
    }

    open spec fn shortfall_spec(s: Seq<u8>) -> int {
        0
    }

    open spec fn decodes_to(s: Seq<u8>, v: InnerDescription<T>, n: int) -> bool {
        n == s.len() && v.name@ == s
    }

    proof fn lemma_decode_len_bounded(s: Seq<u8>) {
    }

    fn unbuffer_ref(buf: &mut bytes::Bytes) -> (r: Result<InnerDescription<T>, Error>) {
        let len = bytes_len(buf);
        let head = bytes_split_to(buf, len);
        let name = bytes_to_vec(&head);
        proof {
            assert(bytes_view(*old(buf)).take(len as int) =~= bytes_view(*old(buf)));
        }
        Ok(InnerDescription { name, phantom: PhantomData })
    }
}

/// A protocol-infrastructure change to announce to the peer, sent
/// immediately, bypassing the outbound buffer.
pub enum SystemMessage {
    /// "Local sender ID `id` means `name`."
    SenderDescription { id: LocalId<SenderId>, name: Vec<u8> },
    /// "Local type ID `id` means `name`."
    TypeDescription { id: LocalId<TypeId>, name: Vec<u8> },
}

/// One outgoing message, tagged with its advisory class of service. The
/// core classifies; channel selection by flag is the transport's business.
pub struct OutboundMessage {
    pub message: GenericMessage,
    pub class: ClassOfService,
}

/// One physical link: its own translation tables, the outbound buffer, the
/// system-change queue, and the next sequence number to assign.
pub struct Endpoint {
    pub translation: TranslationTables,
    pub outbound: Vec<OutboundMessage>,
    pub system_queue: Vec<SystemMessage>,
    pub sequence_counter: u32,
}

impl Endpoint {
    pub open spec fn wf(self) -> bool {
        self.translation.wf()
    }

    pub fn new() -> (r: Endpoint)
        ensures
            r.wf(),
            r.translation.types.entries@.len() == 0,
            r.translation.senders.entries@.len() == 0,
            r.outbound@.len() == 0,
            r.system_queue@.len() == 0,
            r.sequence_counter == 0,
    {
        Endpoint {
            translation: TranslationTables::new(),
            outbound: Vec::new(),
            system_queue: Vec::new(),
            sequence_counter: 0,
        }
    }

    pub fn translation_tables(&self) -> (r: &TranslationTables)
        ensures
            r == &self.translation,
    {
        &self.translation
    }

    pub fn translation_tables_mut(&mut self) -> (r: &mut TranslationTables)
        ensures
            *r == old(self).translation,
            final(self).translation == *final(r),
            final(self).outbound == old(self).outbound,
            final(self).system_queue == old(self).system_queue,
            final(self).sequence_counter == old(self).sequence_counter,
    {
        &mut self.translation
    }

    /// Enqueues a message for a later flush, tagged with its advisory
    /// class of service.
    pub fn buffer_generic_message(&mut self, msg: GenericMessage, class: ClassOfService) -> (r:
        Result<(), Error>)
        ensures
            r == Ok::<(), Error>(()),
            final(self).outbound@ == old(self).outbound@.push(
                (OutboundMessage { message: msg, class }),
            ),
            final(self).translation == old(self).translation,
            final(self).system_queue == old(self).system_queue,
            final(self).sequence_counter == old(self).sequence_counter,
    {
        self.outbound.push(OutboundMessage { message: msg, class });
        Ok(())
    }

    /// Queues a system change for immediate transmission, bypassing the
    /// outbound buffer: a description for an ID must reach the peer before
    /// any message referencing that ID.
    pub fn send_system_change(&mut self, message: SystemMessage) -> (r: Result<(), Error>)
        ensures
            r == Ok::<(), Error>(()),
            final(self).system_queue@ == old(self).system_queue@.push(message),
            final(self).translation == old(self).translation,
            final(self).outbound == old(self).outbound,
            final(self).sequence_counter == old(self).sequence_counter,
    {
        self.system_queue.push(message);
        Ok(())
    }

    /// Hands the whole outbound buffer to the caller (the transport flush)
    /// and leaves it empty.
    pub fn take_outbound(&mut self) -> (r: Vec<OutboundMessage>)
        ensures
            r@ == old(self).outbound@,
            final(self).outbound@.len() == 0,
            final(self).translation == old(self).translation,
            final(self).system_queue == old(self).system_queue,
            final(self).sequence_counter == old(self).sequence_counter,
    {
        let mut taken: Vec<OutboundMessage> = Vec::new();
        core::mem::swap(&mut taken, &mut self.outbound);
        taken
    }

    /// Hands the queued system changes to the caller and leaves the queue
    /// empty.
    pub fn take_system_queue(&mut self) -> (r: Vec<SystemMessage>)
        ensures
            r@ == old(self).system_queue@,
            final(self).system_queue@.len() == 0,
            final(self).translation == old(self).translation,
            final(self).outbound == old(self).outbound,
            final(self).sequence_counter == old(self).sequence_counter,
    {
        let mut taken: Vec<SystemMessage> = Vec::new();
        core::mem::swap(&mut taken, &mut self.system_queue);
        taken
    }

    /// The sequence number for the next frame, advancing the counter
    /// (wrapping around at the end of the 32-bit space).
    pub fn next_sequence_number(&mut self) -> (r: SequenceNumber)
        ensures
            r.0 == old(self).sequence_counter,
            final(self).sequence_counter == (if old(self).sequence_counter == u32::MAX {
                0u32
            } else {
                (old(self).sequence_counter + 1) as u32
            }),
            final(self).translation == old(self).translation,
            final(self).outbound == old(self).outbound,
            final(self).system_queue == old(self).system_queue,
    {
        let r = SequenceNumber(self.sequence_counter);
        if self.sequence_counter == u32::MAX {
            self.sequence_counter = 0;
        } else {
            self.sequence_counter = self.sequence_counter + 1;
        }
        r
    }

    /// The built-in system handler's work: a description message announces
    /// "remote ID R means name N" (R in the header's sender field, N as the
    /// body); resolve or create the local ID for N and record the
    /// correspondence in the matching table.
    pub fn handle_description_message(&mut self, msg: &GenericMessage) -> (r: Result<(), Error>)
        requires
            old(self).wf(),
            msg.header.message_type.0 == constants::TYPE_DESCRIPTION_ID
                || msg.header.message_type.0 == constants::SENDER_DESCRIPTION_ID,
        ensures
            final(self).wf(),
            final(self).outbound == old(self).outbound,
            final(self).system_queue == old(self).system_queue,
            final(self).sequence_counter == old(self).sequence_counter,
            msg.header.message_type.0 == constants::TYPE_DESCRIPTION_ID ==> final(self).translation.senders == old(self).translation.senders,
            msg.header.message_type.0 == constants::SENDER_DESCRIPTION_ID ==> final(self).translation.types == old(self).translation.types,
            r == Ok::<(), Error>(()) && msg.header.message_type.0
                == constants::TYPE_DESCRIPTION_ID ==> exists|i: int|
                0 <= i < final(self).translation.types.entries@.len() && (#[trigger] final(self).translation.types.entries@[i]).name@ == msg.body@ && final(self).translation.types.entries@[i].remote_id == Some(
                    RemoteId(TypeId(msg.header.sender.0)),
                ),
            r == Ok::<(), Error>(()) && msg.header.message_type.0
                == constants::SENDER_DESCRIPTION_ID ==> exists|i: int|
                0 <= i < final(self).translation.senders.entries@.len() && (#[trigger] final(self).translation.senders.entries@[i]).name@ == msg.body@ && final(self).translation.senders.entries@[i].remote_id == Some(
                    RemoteId(SenderId(msg.header.sender.0)),
                ),
            r matches Err(e) ==> (e == Error::TooManyMappings && *final(self) == *old(self) && (
            msg.header.message_type.0 == constants::TYPE_DESCRIPTION_ID ==> (!old(
                self,
            ).translation.types.has_name(msg.body@) && old(self).translation.types.entries@.len()
                == i32::MAX)) && (msg.header.message_type.0 == constants::SENDER_DESCRIPTION_ID
                ==> (!old(self).translation.senders.has_name(msg.body@) && old(
                self,
            ).translation.senders.entries@.len() == i32::MAX))),
    {
        let remote_raw = msg.header.sender.0;
        if msg.header.message_type.0 == constants::TYPE_DESCRIPTION_ID {
            let described: Message<InnerDescription<TypeId>> = match unbuffer_typed_message_body(
                msg,
            ) {
                Ok(d) => d,
                Err(_) => {
                    // A description body always decodes: it is the name
                    // itself, however long.
                    proof {
                        assert(false);
                    }
                    return Err(Error::TooManyMappings);
                },
            };
            let id = self.translation.types.add_remote_entry(
                described.body.name,
                RemoteId(TypeId(remote_raw)),
            )?;
            let _ = id;
            Ok(())
        } else {
            let described: Message<InnerDescription<SenderId>> = match unbuffer_typed_message_body(
                msg,
            ) {
                Ok(d) => d,
                Err(_) => {
                    // A description body always decodes: it is the name
                    // itself, however long.
                    proof {
                        assert(false);
                    }
                    return Err(Error::TooManyMappings);
                },
            };
            let id = self.translation.senders.add_remote_entry(
                described.body.name,
                RemoteId(SenderId(remote_raw)),
            )?;
            let _ = id;
            Ok(())
        }
    }

    /// Resolves a message's peer-assigned sender numbering into our own,
    /// the step dispatch needs before filters can match. An ID the peer
    /// has not described yet is `UnresolvedIdentity`.
    pub fn map_remote_sender_to_local(&self, remote: RemoteId<SenderId>) -> (r: Result<
        LocalId<SenderId>,
        Error,
    >)
        requires
            self.wf(),
        ensures
            match r {
                Ok(l) => {
                    &&& 0 <= l.id_spec() < self.translation.senders.entries@.len()
                    &&& crate::translation::remote_entry_matches(
                        self.translation.senders.entries@[l.id_spec() as int],
                        remote,
                    )
                },
                Err(e) => {
                    &&& e == Error::UnresolvedIdentity(remote.id_spec())
                    &&& forall|j: int|
                        0 <= j < self.translation.senders.entries@.len()
                            ==> !crate::translation::remote_entry_matches(
                            #[trigger] self.translation.senders.entries@[j],
                            remote,
                        )
                },
            },
    {
        match self.translation.senders.map_to_local_id(remote) {
            Some(l) => Ok(l),
            None => Err(Error::UnresolvedIdentity(remote.get())),
        }
    }

    /// Resolves a message's peer-assigned type numbering into our own; see
    /// `map_remote_sender_to_local`.
    pub fn map_remote_type_to_local(&self, remote: RemoteId<TypeId>) -> (r: Result<
        LocalId<TypeId>,
        Error,
    >)
        requires
            self.wf(),
        ensures
            match r {
                Ok(l) => {
                    &&& 0 <= l.id_spec() < self.translation.types.entries@.len()
                    &&& crate::translation::remote_entry_matches(
                        self.translation.types.entries@[l.id_spec() as int],
                        remote,
                    )
                },
                Err(e) => {
                    &&& e == Error::UnresolvedIdentity(remote.id_spec())
                    &&& forall|j: int|
                        0 <= j < self.translation.types.entries@.len()
                            ==> !crate::translation::remote_entry_matches(
                            #[trigger] self.translation.types.entries@[j],
                            remote,
                        )
                },
            },
    {
        match self.translation.types.map_to_local_id(remote) {
            Some(l) => Ok(l),
            None => Err(Error::UnresolvedIdentity(remote.get())),
        }
    }
}

/// The outbound mirror of `Endpoint::handle_description_message`: the
/// system message announcing "local ID `id` means `name`", with the
/// described ID riding in the header's sender field and the name as the
/// body.
pub fn description_message<T: BaseTypeSafeId>(id: LocalId<T>, name: Vec<u8>) -> (r: GenericMessage)
    requires
        name@.len() <= isize::MAX,
    ensures
        r.header.message_type == T::description_type_spec(),
        r.header.sender.0 == id.id_spec(),
        r.body@ == name@,
{
    let header = MessageHeader::new(None, T::description_type(), SenderId(id.get()));
    let body: InnerDescription<T> = InnerDescription::new(name);
    match Message::from_header_and_body(header, body).try_into_generic() {
        Ok(msg) => msg,
        Err(_) => {
            // The body is a name that fits in memory, so serializing it
            // cannot run out of room.
            proof {
                assert(false);
            }
            GenericMessage::from_header_and_body(
                MessageHeader::new(None, T::description_type(), SenderId(id.get())),
                crate::message::GenericBody::new(crate::buffer::bytes_new()),
            )
        },
    }
}

/// Turns a queued system change into the message that announces it to the
/// peer.
pub fn system_change_message(change: SystemMessage) -> (r: GenericMessage)
    requires
        (change matches SystemMessage::SenderDescription { id, name } ==> name@.len()
            <= isize::MAX),
        (change matches SystemMessage::TypeDescription { id, name } ==> name@.len() <= isize::MAX),
    ensures
        change matches SystemMessage::SenderDescription { id, name } ==> (r.header.message_type.0
            == constants::SENDER_DESCRIPTION_ID && r.header.sender.0 == id.id_spec() && r.body@
            == name@),
        change matches SystemMessage::TypeDescription { id, name } ==> (r.header.message_type.0
            == constants::TYPE_DESCRIPTION_ID && r.header.sender.0 == id.id_spec() && r.body@
            == name@),
{
    match change {
        SystemMessage::SenderDescription { id, name } => description_message(id, name),
        SystemMessage::TypeDescription { id, name } => description_message(id, name),
    }
}

} // verus!
