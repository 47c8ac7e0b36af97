use vstd::prelude::*;
use crate::registry::{DispatcherBinding, ObjectRecord, ObjectRegistry};
use crate::handlers::{EventQueueHandle, HandlerError};
use crate::wire::RawMessage;

verus! {

/// A confirmed reference to one remote object: its identifier and the name
/// of its interface. Many handles may reference the same object; the record
/// outlives any single handle and is destroyed only through the handshake.
pub struct ProxyHandle {
    pub id: u32,
    pub interface: String,
}

/// Sending a request through a handle on a dead object is a caller error,
/// surfaced as a distinct condition instead of being silently dropped.
#[derive(Clone, Copy, PartialEq, Eq, Structural, Debug)]
pub enum RequestError {
    DeadObject,
}

impl ProxyHandle {
    pub fn id(&self) -> (r: u32)
        ensures
            r == self.id,
    {
        self.id
    }

    pub fn interface_name(&self) -> (r: &str)
        ensures
            r@ == self.interface@,
    {
        self.interface.as_str()
    }

    /// Read the liveness flag of the referenced object.
    pub fn is_alive(&self, registry: &ObjectRegistry) -> (r: bool)
        ensures
            r == (registry@.contains_key(self.id) && registry@[self.id].alive),
    {
        registry.is_alive(self.id)
    }

    /// Two handles address the same object exactly when their identifiers
    /// are equal (all handles of one connection share one registry).
    pub fn same_object(&self, other: &ProxyHandle) -> (r: bool)
        ensures
            r == (self.id == other.id),
    {
        self.id == other.id
    }

    /// Build the outbound frame for a request through this handle. Succeeds
    /// exactly while the object is alive; the embedding program sends the
    /// frame over the connection.
    pub fn prepare_request(&self, registry: &ObjectRegistry, opcode: u16, args: Vec<u32>) -> (r:
        Result<RawMessage, RequestError>)
        ensures
            match r {
                Ok(msg) => {
                    &&& registry@.contains_key(self.id) && registry@[self.id].alive
                    &&& msg == (RawMessage { sender_id: self.id, opcode, args })
                },
                Err(e) => {
                    &&& e == RequestError::DeadObject
                    &&& !(registry@.contains_key(self.id) && registry@[self.id].alive)
                },
            },
    {
        if registry.is_alive(self.id) {
            Ok(RawMessage { sender_id: self.id, opcode, args })
        } else {
            Err(RequestError::DeadObject)
        }
    }
}

/// A reference to an object whose identifier was just assigned and whose
/// dispatcher is not bound yet; it turns into a [`ProxyHandle`] once an
/// implementation is attached.
pub struct NewProxyHandle {
    pub id: u32,
    pub interface: String,
}

impl NewProxyHandle {
    /// Attach an implementation: bind the object's dispatcher to the stored
    /// handler at `handler_id` (under the caller's asserted type tag) and
    /// confirm the handle. A failed binding leaves the registry unchanged.
    pub fn implement<H>(
        self,
        registry: &mut ObjectRegistry,
        table: &EventQueueHandle<H>,
        handler_id: usize,
        tag: u64,
    ) -> (r: Result<ProxyHandle, HandlerError>)
        requires
            old(registry).wf(),
        ensures
            final(registry).wf(),
            match r {
                Ok(p) => {
                    &&& p.id == self.id
                    &&& p.interface@ == self.interface@
                    &&& handler_id < table.tags().len()
                    &&& table.tags()[handler_id as int] == tag
                    &&& old(registry)@.contains_key(self.id)
                    &&& final(registry)@ == old(registry)@.insert(self.id, (ObjectRecord {
                        dispatcher: DispatcherBinding::Bound { index: handler_id, tag },
                        ..old(registry)@[self.id]
                    }))
                },
                Err(e) => {
                    &&& final(registry)@ == old(registry)@
                    &&& e == (if handler_id >= table.tags().len() {
                        HandlerError::BadIndex
                    } else if table.tags()[handler_id as int] != tag {
                        HandlerError::TypeMismatch
                    } else {
                        HandlerError::UnknownObject
                    })
                    &&& !(handler_id < table.tags().len() && table.tags()[handler_id as int] == tag
                        && old(registry)@.contains_key(self.id))
                },
            },
    {
        match table.register(registry, self.id, handler_id, tag) {
            Ok(()) => Ok(ProxyHandle { id: self.id, interface: self.interface }),
            Err(e) => Err(e),
        }
    }
}

/// A read handle over the object map, as handed to code that resolves the
/// objects a decoded message mentions.
pub struct ProxyMap<'a> {
    map: &'a ObjectRegistry,
}

impl<'a> ProxyMap<'a> {
    /// The object records visible through this handle.
    pub closed spec fn objects(&self) -> Map<u32, crate::registry::ObjectRecord> {
        self.map@
    }

    pub fn make(map: &'a ObjectRegistry) -> (r: ProxyMap<'a>)
        ensures
            r.objects() == map@,
    {
        ProxyMap { map }
    }

    /// Retrieve a handle to the object `id`; absence is a normal outcome.
    pub fn get(&self, id: u32) -> (r: Option<ProxyHandle>)
        ensures
            match r {
                Some(p) => {
                    &&& self.objects().contains_key(id)
                    &&& p.id == id
                    &&& p.interface@ == self.objects()[id].interface.name@
                },
                None => !self.objects().contains_key(id),
            },
    {
        match self.map.find(id) {
            Some(rec) => Some(ProxyHandle { id, interface: rec.interface.name.clone() }),
            None => None,
        }
    }

    /// Retrieve a not-yet-implemented handle to the object `id`, for an
    /// object the peer just created.
    pub fn get_new(&self, id: u32) -> (r: Option<NewProxyHandle>)
        ensures
            match r {
                Some(p) => {
                    &&& self.objects().contains_key(id)
                    &&& p.id == id
                    &&& p.interface@ == self.objects()[id].interface.name@
                },
                None => !self.objects().contains_key(id),
            },
    {
        match self.map.find(id) {
            Some(rec) => Some(NewProxyHandle { id, interface: rec.interface.name.clone() }),
            None => None,
        }
    }
}

} // verus!
