//! The connection: the dispatcher with its name registries, logging
//! configuration, and the endpoints it owns — normally one, several for
//! relay or fan-out topologies.
//!
//! Reading and writing actual sockets or files is the transport's business;
//! this type holds the state those adapters drive.

use vstd::prelude::*;
use crate::dispatcher::TypeDispatcher;
use crate::endpoint::Endpoint;
use crate::error::Error;
use crate::types::SenderId;
use crate::types::SenderName;
use crate::types::TypeId;
use crate::types::TypeName;

verus! {

/// Log-file configuration for one side of a connection. The files
/// themselves are an external collaborator's business.
#[derive(Debug, Clone, Eq, PartialEq, Hash)]
pub struct LogFileNames {
    pub in_log_file: Option<Vec<u8>>,
    pub out_log_file: Option<Vec<u8>>,
}

/// The configuration that logs nothing.
pub fn make_none_log_names() -> (r: LogFileNames)
    ensures
        r.in_log_file is None,
        r.out_log_file is None,
{
    LogFileNames { in_log_file: None, out_log_file: None }
}

/// A caller-supplied configuration, or the one that logs nothing.
pub fn make_log_names(log_names: Option<LogFileNames>) -> (r: LogFileNames)
    ensures
        match log_names {
            Some(names) => r == names,
            None => r.in_log_file is None && r.out_log_file is None,
        },
{
    match log_names {
        Some(names) => names,
        None => make_none_log_names(),
    }
}

/// A connection over IP-style transports: the dispatcher, both sides' log
/// configuration, and the endpoints. An endpoint slot goes `None` when its
/// link is torn down.
pub struct ConnectionIP {
    pub dispatcher: TypeDispatcher,
    pub remote_log_names: LogFileNames,
    pub local_log_names: LogFileNames,
    pub endpoints: Vec<Option<Endpoint>>,
}

impl ConnectionIP {
    pub open spec fn wf(self) -> bool {
        &&& self.dispatcher.wf()
        &&& forall|i: int|
            0 <= i < self.endpoints@.len() ==> ((#[trigger] self.endpoints@[i]) matches Some(e)
                ==> e.wf())
    }

    /// Common initialization shared by servers and clients.
    fn init(&mut self) -> (r: Result<(), Error>)
        ensures
            r == Ok::<(), Error>(()),
            *final(self) == *old(self),
    {
        Ok(())
    }

    /// A new server-role connection: no endpoint until a client arrives.
    pub fn new_server(local_log_names: Option<LogFileNames>) -> (r: Result<ConnectionIP, Error>)
        ensures
            r matches Ok(c) && c.wf() && c.endpoints@.len() == 0 && c.dispatcher.types.entries@.len()
                == 0 && c.dispatcher.senders.entries@.len() == 0 && c.dispatcher.handlers@.len()
                == 0 && c.remote_log_names.in_log_file is None
                && c.remote_log_names.out_log_file is None && (match local_log_names {
                Some(names) => c.local_log_names == names,
                None => c.local_log_names.in_log_file is None
                    && c.local_log_names.out_log_file is None,
            }),
    {
        let disp = TypeDispatcher::new();
        let mut ret = ConnectionIP {
            dispatcher: disp,
            remote_log_names: make_none_log_names(),
            local_log_names: make_log_names(local_log_names),
            endpoints: Vec::new(),
        };
        ret.init()?;
        Ok(ret)
    }

    /// A new client-role connection with its single endpoint.
    pub fn new_client(
        local_log_names: Option<LogFileNames>,
        remote_log_names: Option<LogFileNames>,
    ) -> (r: Result<ConnectionIP, Error>)
        ensures
            r matches Ok(c) && c.wf() && c.endpoints@.len() == 1 && (c.endpoints@[0] matches Some(e)
                && e.translation.types.entries@.len() == 0 && e.translation.senders.entries@.len()
                == 0 && e.outbound@.len() == 0) && c.dispatcher.types.entries@.len() == 0
                && c.dispatcher.senders.entries@.len() == 0 && c.dispatcher.handlers@.len() == 0
                && (match local_log_names {
                Some(names) => c.local_log_names == names,
                None => c.local_log_names.in_log_file is None
                    && c.local_log_names.out_log_file is None,
            }) && (match remote_log_names {
                Some(names) => c.remote_log_names == names,
                None => c.remote_log_names.in_log_file is None
                    && c.remote_log_names.out_log_file is None,
            }),
    {
        let disp = TypeDispatcher::new();
        let mut ret = ConnectionIP {
            dispatcher: disp,
            remote_log_names: make_log_names(remote_log_names),
            local_log_names: make_log_names(local_log_names),
            endpoints: Vec::new(),
        };
        ret.endpoints.push(Some(Endpoint::new()));
        ret.init()?;
        Ok(ret)
    }

    /// Registers a message-type name with the connection's dispatcher; a
    /// name already registered keeps its ID.
    pub fn add_type(&mut self, name: TypeName) -> (r: Result<TypeId, Error>)
        requires
            old(self).wf(),
        ensures
            final(self).wf(),
            final(self).endpoints == old(self).endpoints,
            final(self).dispatcher.senders == old(self).dispatcher.senders,
            final(self).dispatcher.handlers == old(self).dispatcher.handlers,
            match r {
                Ok(id) => {
                    &&& 0 <= id.0 < final(self).dispatcher.types.entries@.len()
                    &&& final(self).dispatcher.types.entries@[id.0 as int].name@ == name.0@
                    &&& old(self).dispatcher.types.has_name(name.0@) ==> final(self).dispatcher
                        == old(self).dispatcher
                    &&& !old(self).dispatcher.types.has_name(name.0@) ==> (id.0 == old(self).dispatcher.types.entries@.len() && final(self).dispatcher.types.entries@.len()
                        == old(self).dispatcher.types.entries@.len() + 1)
                },
                Err(e) => {
                    &&& e == Error::TooManyMappings
                    &&& !old(self).dispatcher.types.has_name(name.0@)
                    &&& old(self).dispatcher.types.entries@.len() == i32::MAX
                    &&& *final(self) == *old(self)
                },
            },
    {
        self.dispatcher.add_type(name)
    }

    /// Registers a sender name with the connection's dispatcher; a name
    /// already registered keeps its ID.
    pub fn add_sender(&mut self, name: SenderName) -> (r: Result<SenderId, Error>)
        requires
            old(self).wf(),
        ensures
            final(self).wf(),
            final(self).endpoints == old(self).endpoints,
            final(self).dispatcher.types == old(self).dispatcher.types,
            final(self).dispatcher.handlers == old(self).dispatcher.handlers,
            match r {
                Ok(id) => {
                    &&& 0 <= id.0 < final(self).dispatcher.senders.entries@.len()
                    &&& final(self).dispatcher.senders.entries@[id.0 as int].name@ == name.0@
                    &&& old(self).dispatcher.senders.has_name(name.0@) ==> final(self).dispatcher
                        == old(self).dispatcher
                    &&& !old(self).dispatcher.senders.has_name(name.0@) ==> (id.0 == old(self).dispatcher.senders.entries@.len() && final(self).dispatcher.senders.entries@.len() == old(self).dispatcher.senders.entries@.len()
                        + 1)
                },
                Err(e) => {
                    &&& e == Error::TooManyMappings
                    &&& !old(self).dispatcher.senders.has_name(name.0@)
                    &&& old(self).dispatcher.senders.entries@.len() == i32::MAX
                    &&& *final(self) == *old(self)
                },
            },
    {
        self.dispatcher.add_sender(name)
    }

    /// The ID registered for a type name, if any.
    pub fn get_type_id(&self, name: &TypeName) -> (r: Option<TypeId>)
        requires
            self.wf(),
        ensures
            match r {
                Some(id) => 0 <= id.0 < self.dispatcher.types.entries@.len()
                    && self.dispatcher.types.entries@[id.0 as int].name@ == name.0@,
                None => !self.dispatcher.types.has_name(name.0@),
            },
    {
        self.dispatcher.get_type_id(name)
    }

    /// The ID registered for a sender name, if any.
    pub fn get_sender_id(&self, name: &SenderName) -> (r: Option<SenderId>)
        requires
            self.wf(),
        ensures
            match r {
                Some(id) => 0 <= id.0 < self.dispatcher.senders.entries@.len()
                    && self.dispatcher.senders.entries@[id.0 as int].name@ == name.0@,
                None => !self.dispatcher.senders.has_name(name.0@),
            },
    {
        self.dispatcher.get_sender_id(name)
    }

    /// The number of endpoint slots.
    pub fn endpoint_count(&self) -> (r: usize)
        ensures
            r == self.endpoints@.len(),
    {
        self.endpoints.len()
    }
}

} // verus!
