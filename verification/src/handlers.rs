use vstd::prelude::*;
use crate::registry::{DispatcherBinding, ObjectRecord, ObjectRegistry};
use crate::wire::Event;
use crate::proxy::ProxyHandle;

verus! {

/// A per-object event consumer. The embedding program implements this trait
/// for its handler types; one handler value may be bound to many objects.
/// Returning `Err` signals an unrecoverable fault inside the handler, which
/// is fatal to the whole connection.
pub trait Handler {
    fn message(&mut self, event: Event, object: &ProxyHandle) -> Result<(), ()>;
}

/// One stored handler, remembered together with the type tag it was stored
/// under. The tag stands for the handler's runtime type identity: recovery
/// must assert the same tag or fail loudly.
pub struct HandlerSlot<H> {
    pub tag: u64,
    pub handler: H,
}

/// A failed access to the handler table.
#[derive(Clone, Copy, PartialEq, Eq, Structural, Debug)]
pub enum HandlerError {
    /// The handler index is out of range.
    BadIndex,
    /// The stored handler was added under a different type tag.
    TypeMismatch,
    /// The object to bind is absent from the registry.
    UnknownObject,
}

/// The handler table of one event queue: an indexed collection of handler
/// values that can be bound to many object records at once and recovered by
/// the caller supplying the expected type tag.
pub struct EventQueueHandle<H> {
    handlers: Vec<HandlerSlot<H>>,
}

impl<H> EventQueueHandle<H> {
    pub closed spec fn slots(&self) -> Seq<HandlerSlot<H>> {
        self.handlers@
    }

    /// The type tags of the stored handlers, by index.
    pub open spec fn tags(&self) -> Seq<u64> {
        self.slots().map_values(|s: HandlerSlot<H>| s.tag)
    }

    pub fn new() -> (r: EventQueueHandle<H>)
        ensures
            r.slots() == Seq::<HandlerSlot<H>>::empty(),
    {
        EventQueueHandle { handlers: Vec::new() }
    }

    pub fn len(&self) -> (r: usize)
        ensures
            r == self.slots().len(),
    {
        self.handlers.len()
    }

    /// Store a handler under a type tag; the returned index is stable for
    /// the life of the table.
    pub fn add_handler(&mut self, tag: u64, handler: H) -> (idx: usize)
        ensures
            idx == old(self).slots().len(),
            final(self).slots() == old(self).slots().push(HandlerSlot { tag, handler }),
    {
        let idx = self.handlers.len();
        self.handlers.push(HandlerSlot { tag, handler });
        idx
    }

    /// Bind the dispatcher of object `id` to the stored handler at
    /// `handler_id`, replacing any earlier binding. The caller asserts the
    /// handler's type tag; a mismatch, a bad index, or an absent object is
    /// a distinct loud failure, and the registry is then unchanged.
    pub fn register(&self, registry: &mut ObjectRegistry, id: u32, handler_id: usize, tag: u64)
        -> (r: Result<(), HandlerError>)
        requires
            old(registry).wf(),
        ensures
            final(registry).wf(),
            match r {
                Ok(()) => {
                    &&& handler_id < self.tags().len()
                    &&& self.tags()[handler_id as int] == tag
                    &&& old(registry)@.contains_key(id)
                    &&& final(registry)@ == old(registry)@.insert(id, (ObjectRecord {
                        dispatcher: DispatcherBinding::Bound { index: handler_id, tag },
                        ..old(registry)@[id]
                    }))
                },
                Err(e) => {
                    &&& final(registry)@ == old(registry)@
                    &&& e == (if handler_id >= self.tags().len() {
                        HandlerError::BadIndex
                    } else if self.tags()[handler_id as int] != tag {
                        HandlerError::TypeMismatch
                    } else {
                        HandlerError::UnknownObject
                    })
                    &&& !(handler_id < self.tags().len() && self.tags()[handler_id as int] == tag
                        && old(registry)@.contains_key(id))
                },
            },
    {
        if handler_id >= self.handlers.len() {
            return Err(HandlerError::BadIndex);
        }
        if self.handlers[handler_id].tag != tag {
            return Err(HandlerError::TypeMismatch);
        }
        if registry.set_dispatcher(id, DispatcherBinding::Bound { index: handler_id, tag }) {
            Ok(())
        } else {
            Err(HandlerError::UnknownObject)
        }
    }

    /// Recover a reference to the stored handler at `handler_id`, with the
    /// caller asserting its type tag. A mismatched tag fails loudly instead
    /// of handing back a reference under the wrong type.
    pub fn get_handler(&self, handler_id: usize, tag: u64) -> (r: Result<&H, HandlerError>)
        ensures
            match r {
                Ok(h) => {
                    &&& handler_id < self.slots().len()
                    &&& self.tags()[handler_id as int] == tag
                    &&& *h == self.slots()[handler_id as int].handler
                },
                Err(e) => {
                    &&& e == (if handler_id >= self.tags().len() {
                        HandlerError::BadIndex
                    } else {
                        HandlerError::TypeMismatch
                    })
                    &&& !(handler_id < self.tags().len() && self.tags()[handler_id as int] == tag)
                },
            },
    {
        if handler_id >= self.handlers.len() {
            return Err(HandlerError::BadIndex);
        }
        let slot = &self.handlers[handler_id];
        if slot.tag != tag {
            return Err(HandlerError::TypeMismatch);
        }
        Ok(&slot.handler)
    }

    /// Deliver one decoded event to the stored handler at `index`, if the
    /// index is in range and was registered under `tag`. `Ok(true)` means
    /// the handler consumed the event; `Ok(false)` means no such handler
    /// (the slot check failed and nothing ran); `Err` means the handler
    /// itself reported a fault. Tags and all other slots are untouched.
    pub(crate) fn invoke(&mut self, index: usize, tag: u64, event: Event, object: &ProxyHandle)
        -> (r: Result<bool, ()>)
        where H: Handler,
        ensures
            final(self).tags() == old(self).tags(),
            final(self).slots().len() == old(self).slots().len(),
            forall|j: int|
                0 <= j < old(self).slots().len() && j != index ==> final(self).slots()[j] == old(
                    self,
                ).slots()[j],
            match r {
                Ok(true) => index < old(self).slots().len() && old(self).tags()[index as int]
                    == tag,
                Ok(false) => {
                    &&& !(index < old(self).slots().len() && old(self).tags()[index as int] == tag)
                    &&& *final(self) == *old(self)
                },
                Err(()) => index < old(self).slots().len() && old(self).tags()[index as int]
                    == tag,
            },
    {
        if index >= self.handlers.len() {
            return Ok(false);
        }
        if self.handlers[index].tag != tag {
            return Ok(false);
        }
        let slot = &mut self.handlers[index];
        let res = slot.handler.message(event, object);
        proof {
            assert forall|j: int| 0 <= j < self.slots().len() implies self.tags()[j] == old(
                self,
            ).tags()[j] by {
                assert(self.tags()[j] == self.slots()[j].tag);
                assert(old(self).tags()[j] == old(self).slots()[j].tag);
            }
            assert(self.tags() =~= old(self).tags());
        }
        match res {
            Ok(()) => Ok(true),
            Err(()) => Err(()),
        }
    }
}

} // verus!
