//! The message dispatcher: the connection's own registry of type and sender
//! names, and the routing table from `(type filter, sender filter)` pairs to
//! handlers.
//!
//! Routing is a pure decision: `route` says, in registration order, which
//! handlers fire for a message's resolved identity, and whether the built-in
//! description handler — installed at construction, always first, never
//! removable — must run before them; `route_message` answers the same
//! question when the type could not be resolved, firing only wildcard type
//! filters. The caller performs the calls; the
//! built-in handler's work itself is `Endpoint::handle_description_message`,
//! which keeps translation tables current as names are introduced
//! mid-session.

use vstd::prelude::*;
use crate::constants;
use crate::error::Error;
use crate::translation::TranslationTable;
use crate::types::SenderId;
use crate::types::SenderName;
use crate::types::TypeId;
use crate::types::TypeName;
use crate::types::id_filter_matches;
use crate::types::id_filter_matches_spec;

verus! {

/// An opaque reference to a registered handler: its dense registration
/// index.
#[derive(Debug, Clone, Copy, Eq, PartialEq, Ord, PartialOrd, Hash, Structural)]
pub struct HandlerHandle(pub usize);

/// One registered handler: an optional exact-match filter per category.
/// `None` is a wildcard.
#[derive(Debug, Clone, Copy, Eq, PartialEq, Hash, Structural)]
pub struct HandlerEntry {
    pub message_type_filter: Option<TypeId>,
    pub sender_filter: Option<SenderId>,
}

/// True when both of the entry's filters accept the message's resolved
/// identity.
pub open spec fn handler_matches(e: HandlerEntry, message_type: TypeId, sender: SenderId) -> bool {
    id_filter_matches_spec(e.message_type_filter, message_type) && id_filter_matches_spec(
        e.sender_filter,
        sender,
    )
}

/// The registration indexes of the handlers that fire for this identity, in
/// registration order.
pub open spec fn matching_indexes(
    handlers: Seq<HandlerEntry>,
    message_type: TypeId,
    sender: SenderId,
) -> Seq<int>
    decreases handlers.len(),
{
    if handlers.len() == 0 {
        Seq::empty()
    } else {
        let prefix = matching_indexes(handlers.drop_last(), message_type, sender);
        if handler_matches(handlers.last(), message_type, sender) {
            prefix.push(handlers.len() - 1)
        } else {
            prefix
        }
    }
}

/// Every routed index refers into the handler list.
pub proof fn lemma_matching_indexes_bounds(
    handlers: Seq<HandlerEntry>,
    message_type: TypeId,
    sender: SenderId,
)
    ensures
        forall|k: int|
            0 <= k < matching_indexes(handlers, message_type, sender).len() ==> 0 <= #[trigger] matching_indexes(
                handlers,
                message_type,
                sender,
            )[k] < handlers.len(),
    decreases handlers.len(),
{
    if handlers.len() > 0 {
        lemma_matching_indexes_bounds(handlers.drop_last(), message_type, sender);
        let m = matching_indexes(handlers, message_type, sender);
        let prefix = matching_indexes(handlers.drop_last(), message_type, sender);
        assert forall|k: int| 0 <= k < m.len() implies 0 <= #[trigger] m[k] < handlers.len() by {
            if k < prefix.len() {
                assert(m[k] == prefix[k]);
            }
        }
    }
}

/// Law: a handler fires for a message exactly when both of its filters
/// match the message's resolved identity — wherever it stands in the
/// registration order.
pub proof fn lemma_matching_indexes_contains(
    handlers: Seq<HandlerEntry>,
    message_type: TypeId,
    sender: SenderId,
    i: int,
)
    requires
        0 <= i < handlers.len(),
    ensures
        matching_indexes(handlers, message_type, sender).contains(i) == handler_matches(
            handlers[i],
            message_type,
            sender,
        ),
    decreases handlers.len(),
{
    let m = matching_indexes(handlers, message_type, sender);
    let prefix = matching_indexes(handlers.drop_last(), message_type, sender);
    lemma_matching_indexes_bounds(handlers.drop_last(), message_type, sender);
    if i == handlers.len() - 1 {
        if handler_matches(handlers[i], message_type, sender) {
            assert(m[m.len() - 1] == i);
        } else {
            assert(forall|k: int| 0 <= k < prefix.len() ==> #[trigger] prefix[k] < i);
        }
    } else {
        lemma_matching_indexes_contains(handlers.drop_last(), message_type, sender, i);
        assert(handlers.drop_last()[i] == handlers[i]);
        if prefix.contains(i) {
            let k = choose|k: int| 0 <= k < prefix.len() && prefix[k] == i;
            assert(m[k] == i);
        } else {
            if handler_matches(handlers.last(), message_type, sender) {
                assert(forall|k: int| 0 <= k < m.len() - 1 ==> m[k] == prefix[k]);
            }
        }
    }
}

/// Law: a handler registered with two wildcard filters fires for every
/// message.
pub proof fn lemma_wildcard_handler_fires(
    handlers: Seq<HandlerEntry>,
    message_type: TypeId,
    sender: SenderId,
    i: int,
)
    requires
        0 <= i < handlers.len(),
        handlers[i].message_type_filter is None,
        handlers[i].sender_filter is None,
    ensures
        matching_indexes(handlers, message_type, sender).contains(i),
{
    lemma_matching_indexes_contains(handlers, message_type, sender, i);
}

/// Law: a handler registered with an exact type filter and a wildcard
/// sender filter fires exactly for messages of that resolved type.
pub proof fn lemma_exact_type_filter(
    handlers: Seq<HandlerEntry>,
    message_type: TypeId,
    sender: SenderId,
    i: int,
    t: TypeId,
)
    requires
        0 <= i < handlers.len(),
        handlers[i].message_type_filter == Some(t),
        handlers[i].sender_filter is None,
    ensures
        matching_indexes(handlers, message_type, sender).contains(i) == (t.0 == message_type.0),
{
    lemma_matching_indexes_contains(handlers, message_type, sender, i);
}

/// The filter question for a message whose type may be unresolved: an
/// unresolvable type ID matches only wildcard type filters — handlers
/// expecting a specific type are skipped, and the message is no routing
/// error.
pub open spec fn handler_matches_opt(
    e: HandlerEntry,
    message_type: Option<TypeId>,
    sender: SenderId,
) -> bool {
    &&& match message_type {
        Some(t) => id_filter_matches_spec(e.message_type_filter, t),
        None => e.message_type_filter is None,
    }
    &&& id_filter_matches_spec(e.sender_filter, sender)
}

/// The registration indexes of the handlers that fire for a possibly
/// unresolved identity, in registration order.
pub open spec fn matching_indexes_opt(
    handlers: Seq<HandlerEntry>,
    message_type: Option<TypeId>,
    sender: SenderId,
) -> Seq<int>
    decreases handlers.len(),
{
    if handlers.len() == 0 {
        Seq::empty()
    } else {
        let prefix = matching_indexes_opt(handlers.drop_last(), message_type, sender);
        if handler_matches_opt(handlers.last(), message_type, sender) {
            prefix.push(handlers.len() - 1)
        } else {
            prefix
        }
    }
}

/// Every routed index refers into the handler list.
pub proof fn lemma_matching_indexes_opt_bounds(
    handlers: Seq<HandlerEntry>,
    message_type: Option<TypeId>,
    sender: SenderId,
)
    ensures
        forall|k: int|
            0 <= k < matching_indexes_opt(handlers, message_type, sender).len() ==> 0 <= #[trigger] matching_indexes_opt(
                handlers,
                message_type,
                sender,
            )[k] < handlers.len(),
    decreases handlers.len(),
{
    if handlers.len() > 0 {
        lemma_matching_indexes_opt_bounds(handlers.drop_last(), message_type, sender);
        let m = matching_indexes_opt(handlers, message_type, sender);
        let prefix = matching_indexes_opt(handlers.drop_last(), message_type, sender);
        assert forall|k: int| 0 <= k < m.len() implies 0 <= #[trigger] m[k] < handlers.len() by {
            if k < prefix.len() {
                assert(m[k] == prefix[k]);
            }
        }
    }
}

/// Law: under a possibly unresolved type, a handler fires exactly when its
/// filters accept that identity; in particular, with an unresolved type,
/// handlers with a wildcard type filter still run and handlers expecting a
/// specific type are skipped.
pub proof fn lemma_matching_indexes_opt_contains(
    handlers: Seq<HandlerEntry>,
    message_type: Option<TypeId>,
    sender: SenderId,
    i: int,
)
    requires
        0 <= i < handlers.len(),
    ensures
        matching_indexes_opt(handlers, message_type, sender).contains(i) == handler_matches_opt(
            handlers[i],
            message_type,
            sender,
        ),
    decreases handlers.len(),
{
    let m = matching_indexes_opt(handlers, message_type, sender);
    let prefix = matching_indexes_opt(handlers.drop_last(), message_type, sender);
    lemma_matching_indexes_opt_bounds(handlers.drop_last(), message_type, sender);
    if i == handlers.len() - 1 {
        if handler_matches_opt(handlers[i], message_type, sender) {
            assert(m[m.len() - 1] == i);
        } else {
            assert(forall|k: int| 0 <= k < prefix.len() ==> #[trigger] prefix[k] < i);
        }
    } else {
        lemma_matching_indexes_opt_contains(handlers.drop_last(), message_type, sender, i);
        assert(handlers.drop_last()[i] == handlers[i]);
        if prefix.contains(i) {
            let k = choose|k: int| 0 <= k < prefix.len() && prefix[k] == i;
            assert(m[k] == i);
        } else {
            if handler_matches_opt(handlers.last(), message_type, sender) {
                assert(forall|k: int| 0 <= k < m.len() - 1 ==> m[k] == prefix[k]);
            }
        }
    }
}

/// Law: a resolved identity routes the same whether asked through the
/// resolved or the possibly-unresolved question.
pub proof fn lemma_matching_indexes_opt_resolved(
    handlers: Seq<HandlerEntry>,
    message_type: TypeId,
    sender: SenderId,
)
    ensures
        matching_indexes_opt(handlers, Some(message_type), sender) == matching_indexes(
            handlers,
            message_type,
            sender,
        ),
    decreases handlers.len(),
{
    if handlers.len() > 0 {
        lemma_matching_indexes_opt_resolved(handlers.drop_last(), message_type, sender);
    }
}


/// True when this type ID is one of the reserved description messages that
/// the built-in system handler consumes.
pub open spec fn is_description_type_spec(message_type: TypeId) -> bool {
    message_type.0 == constants::TYPE_DESCRIPTION_ID || message_type.0
        == constants::SENDER_DESCRIPTION_ID
}

/// What `route` decided for one message.
pub struct RouteResult {
    /// The built-in description handler runs first, before any user
    /// handler, whenever the message is a type or sender description.
    pub system_description_first: bool,
    /// The user handlers that fire, in registration order.
    pub handlers: Vec<HandlerHandle>,
}

/// Owns the connection's name registries for the two ID categories and the
/// routing registry of handlers.
pub struct TypeDispatcher {
    pub types: TranslationTable<TypeId>,
    pub senders: TranslationTable<SenderId>,
    pub handlers: Vec<HandlerEntry>,
}

impl TypeDispatcher {
    /// Everything the dispatcher promises rests on its registries being
    /// well-formed.
    pub open spec fn wf(self) -> bool {
        self.types.wf() && self.senders.wf()
    }

    /// A fresh dispatcher: empty registries, no user handlers. The built-in
    /// description handler needs no registration — `route` always places it
    /// first and nothing can remove it.
    pub fn new() -> (r: TypeDispatcher)
        ensures
            r.wf(),
            r.types.entries@.len() == 0,
            r.senders.entries@.len() == 0,
            r.handlers@.len() == 0,
    {
        TypeDispatcher {
            types: TranslationTable::new(),
            senders: TranslationTable::new(),
            handlers: Vec::new(),
        }
    }

    /// Registers a message-type name, returning its stable local ID; a name
    /// already registered keeps its ID.
    pub fn add_type(&mut self, name: TypeName) -> (r: Result<TypeId, Error>)
        requires
            old(self).wf(),
        ensures
            final(self).wf(),
            final(self).senders == old(self).senders,
            final(self).handlers == old(self).handlers,
            match r {
                Ok(id) => {
                    &&& 0 <= id.0 < final(self).types.entries@.len()
                    &&& final(self).types.entries@[id.0 as int].name@ == name.0@
                    &&& old(self).types.has_name(name.0@) ==> final(self).types == old(self).types
                    &&& !old(self).types.has_name(name.0@) ==> (id.0 == old(
                        self,
                    ).types.entries@.len() && final(self).types.entries@.len() == old(
                        self,
                    ).types.entries@.len() + 1)
                },
                Err(e) => {
                    &&& e == Error::TooManyMappings
                    &&& !old(self).types.has_name(name.0@)
                    &&& old(self).types.entries@.len() == i32::MAX
                    &&& *final(self) == *old(self)
                },
            },
    {
        match self.types.add(name.0) {
            Ok(local) => Ok(local.0),
            Err(e) => Err(e),
        }
    }

    /// Registers a sender name, returning its stable local ID; a name
    /// already registered keeps its ID.
    pub fn add_sender(&mut self, name: SenderName) -> (r: Result<SenderId, Error>)
        requires
            old(self).wf(),
        ensures
            final(self).wf(),
            final(self).types == old(self).types,
            final(self).handlers == old(self).handlers,
            match r {
                Ok(id) => {
                    &&& 0 <= id.0 < final(self).senders.entries@.len()
                    &&& final(self).senders.entries@[id.0 as int].name@ == name.0@
                    &&& old(self).senders.has_name(name.0@) ==> final(self).senders == old(
                        self,
                    ).senders
                    &&& !old(self).senders.has_name(name.0@) ==> (id.0 == old(
                        self,
                    ).senders.entries@.len() && final(self).senders.entries@.len() == old(
                        self,
                    ).senders.entries@.len() + 1)
                },
                Err(e) => {
                    &&& e == Error::TooManyMappings
                    &&& !old(self).senders.has_name(name.0@)
                    &&& old(self).senders.entries@.len() == i32::MAX
                    &&& *final(self) == *old(self)
                },
            },
    {
        match self.senders.add(name.0) {
            Ok(local) => Ok(local.0),
            Err(e) => Err(e),
        }
    }

    /// The ID registered for a type name, if any.
    pub fn get_type_id(&self, name: &TypeName) -> (r: Option<TypeId>)
        requires
            self.wf(),
        ensures
            match r {
                Some(id) => 0 <= id.0 < self.types.entries@.len() && self.types.entries@[id.0
                    as int].name@ == name.0@,
                None => !self.types.has_name(name.0@),
            },
    {
        match self.types.lookup_by_name(&name.0) {
            Some(local) => Some(local.0),
            None => None,
        }
    }

    /// The ID registered for a sender name, if any.
    pub fn get_sender_id(&self, name: &SenderName) -> (r: Option<SenderId>)
        requires
            self.wf(),
        ensures
            match r {
                Some(id) => 0 <= id.0 < self.senders.entries@.len() && self.senders.entries@[id.0
                    as int].name@ == name.0@,
                None => !self.senders.has_name(name.0@),
            },
    {
        match self.senders.lookup_by_name(&name.0) {
            Some(local) => Some(local.0),
            None => None,
        }
    }

    /// Registers a handler behind an optional exact-match filter per
    /// category; `None` is a wildcard. Handlers fire in registration order
    /// and are never removed.
    pub fn register_handler(
        &mut self,
        message_type_filter: Option<TypeId>,
        sender_filter: Option<SenderId>,
    ) -> (r: HandlerHandle)
        ensures
            final(self).types == old(self).types,
            final(self).senders == old(self).senders,
            final(self).handlers@ == old(self).handlers@.push(
                (HandlerEntry { message_type_filter, sender_filter }),
            ),
            r.0 == old(self).handlers@.len(),
    {
        let handle = HandlerHandle(self.handlers.len());
        self.handlers.push(HandlerEntry { message_type_filter, sender_filter });
        handle
    }

    /// Decides routing for a message's resolved identity: whether the
    /// built-in description handler runs first, and which user handlers
    /// fire, in registration order. An identity that matches no handler is
    /// not an error: the list is simply empty.
    pub fn route(&self, message_type: TypeId, sender: SenderId) -> (r: RouteResult)
        ensures
            r.system_description_first == is_description_type_spec(message_type),
            r.handlers@.map(|k: int, h: HandlerHandle| h.0 as int) == matching_indexes(
                self.handlers@,
                message_type,
                sender,
            ),
    {
        let system_description_first = {
            let raw = message_type.0;
            raw == constants::TYPE_DESCRIPTION_ID || raw == constants::SENDER_DESCRIPTION_ID
        };
        let mut fired: Vec<HandlerHandle> = Vec::new();
        let n = self.handlers.len();
        let mut i: usize = 0;
        proof {
            assert(fired@.map(|k: int, h: HandlerHandle| h.0 as int) =~= matching_indexes(
                self.handlers@.take(0),
                message_type,
                sender,
            ));
        }
        while i < n
            invariant
                i <= n,
                n == self.handlers@.len(),
                fired@.map(|k: int, h: HandlerHandle| h.0 as int) == matching_indexes(
                    self.handlers@.take(i as int),
                    message_type,
                    sender,
                ),
            decreases n - i,
        {
            let entry = self.handlers[i];
            let ghost prev = fired@;
            if id_filter_matches(entry.message_type_filter, message_type) && id_filter_matches(
                entry.sender_filter,
                sender,
            ) {
                fired.push(HandlerHandle(i));
            }
            proof {
                let taken = self.handlers@.take(i as int + 1);
                assert(taken.drop_last() =~= self.handlers@.take(i as int));
                assert(taken.last() == self.handlers@[i as int]);
                assert(fired@.map(|k: int, h: HandlerHandle| h.0 as int) =~= matching_indexes(
                    taken,
                    message_type,
                    sender,
                ));
            }
            i = i + 1;
        }
        proof {
            assert(self.handlers@.take(n as int) =~= self.handlers@);
        }
        RouteResult { system_description_first, handlers: fired }
    }

    /// Routing for a message whose type may have failed resolution: `None`
    /// fires only handlers with a wildcard type filter, exactly as the
    /// unresolved-traffic policy asks; `Some` routes like `route`. An
    /// unresolved type is not an error here — the built-in description
    /// handler never applies (it consumes resolved system types), and the
    /// wildcard handlers still see the message.
    pub fn route_message(&self, message_type: Option<TypeId>, sender: SenderId) -> (r: RouteResult)
        ensures
            r.system_description_first == (message_type matches Some(t)
                && is_description_type_spec(t)),
            r.handlers@.map(|k: int, h: HandlerHandle| h.0 as int) == matching_indexes_opt(
                self.handlers@,
                message_type,
                sender,
            ),
    {
        let system_description_first = match message_type {
            Some(t) => {
                let raw = t.0;
                raw == constants::TYPE_DESCRIPTION_ID || raw == constants::SENDER_DESCRIPTION_ID
            },
            None => false,
        };
        let mut fired: Vec<HandlerHandle> = Vec::new();
        let n = self.handlers.len();
        let mut i: usize = 0;
        proof {
            assert(fired@.map(|k: int, h: HandlerHandle| h.0 as int) =~= matching_indexes_opt(
                self.handlers@.take(0),
                message_type,
                sender,
            ));
        }
        while i < n
            invariant
                i <= n,
                n == self.handlers@.len(),
                fired@.map(|k: int, h: HandlerHandle| h.0 as int) == matching_indexes_opt(
                    self.handlers@.take(i as int),
                    message_type,
                    sender,
                ),
            decreases n - i,
        {
            let entry = self.handlers[i];
            let type_hit = match message_type {
                Some(t) => id_filter_matches(entry.message_type_filter, t),
                None => entry.message_type_filter.is_none(),
            };
            if type_hit && id_filter_matches(entry.sender_filter, sender) {
                fired.push(HandlerHandle(i));
            }
            proof {
                let taken = self.handlers@.take(i as int + 1);
                assert(taken.drop_last() =~= self.handlers@.take(i as int));
                assert(taken.last() == self.handlers@[i as int]);
                assert(fired@.map(|k: int, h: HandlerHandle| h.0 as int) =~= matching_indexes_opt(
                    taken,
                    message_type,
                    sender,
                ));
            }
            i = i + 1;
        }
        proof {
            assert(self.handlers@.take(n as int) =~= self.handlers@);
        }
        RouteResult { system_description_first, handlers: fired }
    }
}

} // verus!
