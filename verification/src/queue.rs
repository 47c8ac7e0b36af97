use vstd::prelude::*;
use crate::registry::{DispatcherBinding, ObjectRecord, ObjectRegistry, RegistryError};
use crate::wire::{InterfaceDesc, RawMessage};
use crate::handlers::{EventQueueHandle, Handler, HandlerError, HandlerSlot};
use crate::dispatch::{
    dispatch_message, drain_count, drain_err_at, drain_has_fatal, drain_reg, drain_saw,
    DispatchOutcome, FatalError,
};

verus! {

/// What a blocking drain did: either buffered messages were dispatched, or
/// the buffer was empty and the embedding program must read more messages
/// from the connection, inject them, and call again. Waiting on the
/// connection is the embedder's blocking read; this library never blocks.
#[derive(Clone, Copy, PartialEq, Eq, Structural, Debug)]
pub enum DispatchStep {
    Dispatched(u32),
    NeedRead,
}

/// Progress of a synchronization round-trip. Each variant carries how many
/// messages this call dispatched; the embedder sums the counts while it
/// keeps reading until the barrier completes.
#[derive(Clone, Copy, PartialEq, Eq, Structural, Debug)]
pub enum RoundtripStep {
    /// The barrier's completion event was dispatched: everything the peer
    /// produced in response to earlier requests has been dispatched.
    Done(u32),
    /// The buffer is drained but the completion event has not arrived yet.
    NeedRead(u32),
}

/// One event queue: its handler table, the buffer of inbound messages the
/// connection delivered to it, and whether it drains a dedicated sub-queue
/// rather than the connection's default buffer (a configuration
/// distinction, not a different algorithm).
pub struct EventQueue<H> {
    pub handle: EventQueueHandle<H>,
    pub pending: Vec<RawMessage>,
    pub dedicated: bool,
}

/// Create an event queue with an empty handler table and an empty buffer.
pub fn create_event_queue<H>(dedicated: bool) -> (q: EventQueue<H>)
    ensures
        q.handle.slots() == Seq::<HandlerSlot<H>>::empty(),
        q.pending@ == Seq::<RawMessage>::empty(),
        q.dedicated == dedicated,
{
    EventQueue { handle: EventQueueHandle::new(), pending: Vec::new(), dedicated }
}

/// A borrowed view of an event queue's stored handlers, for recovering
/// references to them between dispatches.
pub struct StateGuard<'a, H> {
    evq: &'a EventQueue<H>,
}

impl<'a, H> StateGuard<'a, H> {
    pub closed spec fn slots(&self) -> Seq<HandlerSlot<H>> {
        self.evq.handle.slots()
    }

    pub closed spec fn tags(&self) -> Seq<u64> {
        self.evq.handle.tags()
    }

    /// Recover a reference to the stored handler at `handler_id`, with the
    /// caller asserting its type tag; a mismatch fails loudly.
    pub fn get_handler(&self, handler_id: usize, tag: u64) -> (r: Result<&'a H, HandlerError>)
        ensures
            match r {
                Ok(h) => {
                    &&& handler_id < self.slots().len()
                    &&& self.tags()[handler_id as int] == tag
                    &&& *h == self.slots()[handler_id as int].handler
                },
                Err(e) => {
                    &&& e == (if handler_id >= self.slots().len() {
                        HandlerError::BadIndex
                    } else {
                        HandlerError::TypeMismatch
                    })
                    &&& !(handler_id < self.slots().len() && self.tags()[handler_id as int] == tag)
                },
            },
    {
        self.evq.handle.get_handler(handler_id, tag)
    }

    /// Same access as [`Self::get_handler`], through an exclusive guard.
    pub fn get_mut_handler(&mut self, handler_id: usize, tag: u64) -> (r: Result<
        &'a H,
        HandlerError,
    >)
        ensures
            *final(self) == *old(self),
            match r {
                Ok(h) => {
                    &&& handler_id < old(self).slots().len()
                    &&& old(self).tags()[handler_id as int] == tag
                    &&& *h == old(self).slots()[handler_id as int].handler
                },
                Err(e) => {
                    &&& e == (if handler_id >= old(self).slots().len() {
                        HandlerError::BadIndex
                    } else {
                        HandlerError::TypeMismatch
                    })
                    &&& !(handler_id < old(self).slots().len() && old(self).tags()[handler_id as int]
                        == tag)
                },
            },
    {
        self.evq.handle.get_handler(handler_id, tag)
    }
}

impl<H> EventQueue<H> {
    /// Hand one message the connection delivered to this queue's buffer.
    /// The embedding program calls this from its read loop.
    pub fn inject(&mut self, msg: RawMessage)
        ensures
            final(self).pending@ == old(self).pending@.push(msg),
            final(self).handle == old(self).handle,
            final(self).dedicated == old(self).dedicated,
    {
        self.pending.push(msg);
    }

    /// A guard for recovering references to this queue's stored handlers.
    pub fn state(&self) -> (g: StateGuard<H>)
        ensures
            g.slots() == self.handle.slots(),
            g.tags() == self.handle.tags(),
    {
        StateGuard { evq: self }
    }

    /// Drain the whole buffer in arrival order, reporting how many messages
    /// were handed to a dispatcher and whether an event of object `marker`
    /// was among them.
    fn drain(&mut self, registry: &mut ObjectRegistry, marker: u32) -> (r: Result<
        (u32, bool),
        FatalError,
    >) where H: Handler
        requires
            old(registry).wf(),
            old(self).pending@.len() <= u32::MAX as int,
        ensures
            final(registry).wf(),
            final(self).pending@ == Seq::<RawMessage>::empty(),
            final(self).handle.tags() == old(self).handle.tags(),
            final(self).dedicated == old(self).dedicated,
            old(self).pending@.len() == 0 ==> {
                &&& r == Ok::<(u32, bool), FatalError>((0u32, false))
                &&& final(registry)@ == old(registry)@
                &&& final(self).handle == old(self).handle
            },
            match r {
                Ok((n, saw)) => {
                    &&& !drain_has_fatal(old(registry)@, old(self).pending@)
                    &&& final(registry)@ == drain_reg(old(registry)@, old(self).pending@)
                    &&& n as nat == drain_count(old(registry)@, old(self).pending@)
                    &&& saw == drain_saw(old(registry)@, old(self).pending@, marker)
                },
                Err(e) => exists|k: int|
                    drain_err_at(old(registry)@, old(self).handle.tags(), old(self).pending@, k, e, final(registry)@),
            },
    {
        let mut msgs: Vec<RawMessage> = Vec::new();
        core::mem::swap(&mut self.pending, &mut msgs);
        let ghost all: Seq<RawMessage> = msgs@;
        let ghost m0: Map<u32, ObjectRecord> = registry@;
        let ghost mut i: int = 0;
        let mut count: u32 = 0;
        let mut saw: bool = false;
        while msgs.len() > 0
            invariant
                registry.wf(),
                0 <= i <= all.len(),
                all.len() <= u32::MAX as int,
                msgs@ == all.skip(i),
                self.pending@.len() == 0,
                self.handle.tags() == old(self).handle.tags(),
                self.dedicated == old(self).dedicated,
                i == 0 ==> self.handle == old(self).handle && registry@ == m0,
                m0 == old(registry)@,
                all == old(self).pending@,
                !drain_has_fatal(m0, all.take(i)),
                registry@ == drain_reg(m0, all.take(i)),
                count as nat == drain_count(m0, all.take(i)),
                count <= i,
                saw == drain_saw(m0, all.take(i), marker),
            decreases msgs.len(),
        {
            let msg = msgs.remove(0);
            proof {
                assert(msg == all[i]);
                assert(msgs@ =~= all.skip(i + 1));
                assert(all.take(i + 1).drop_last() =~= all.take(i));
                assert(all.take(i + 1).last() == all[i]);
            }
            let is_marker = msg.sender_id == marker;
            match dispatch_message(registry, &mut self.handle, msg) {
                Ok(outcome) => {
                    match outcome {
                        DispatchOutcome::UnknownObject => {},
                        _ => {
                            count = count + 1;
                            if is_marker {
                                saw = true;
                            }
                        },
                    }
                },
                Err(e) => {
                    proof {
                        assert(drain_err_at(m0, old(self).handle.tags(), all, i, e, registry@));
                    }
                    return Err(e);
                },
            }
            proof {
                i = i + 1;
            }
        }
        proof {
            assert(all.take(all.len() as int) =~= all);
        }
        Ok((count, saw))
    }

    /// Dispatch every buffered message to its handler, in arrival order.
    /// Never blocks: an empty buffer means an immediate `Ok(0)` with
    /// nothing touched. Returns how many messages were handed to a
    /// dispatcher; a fatal error means the connection is unusable.
    pub fn dispatch_pending(&mut self, registry: &mut ObjectRegistry) -> (r: Result<
        u32,
        FatalError,
    >) where H: Handler
        requires
            old(registry).wf(),
            old(self).pending@.len() <= u32::MAX as int,
        ensures
            final(registry).wf(),
            final(self).pending@ == Seq::<RawMessage>::empty(),
            final(self).handle.tags() == old(self).handle.tags(),
            final(self).dedicated == old(self).dedicated,
            old(self).pending@.len() == 0 ==> {
                &&& r == Ok::<u32, FatalError>(0)
                &&& final(registry)@ == old(registry)@
                &&& final(self).handle == old(self).handle
            },
            match r {
                Ok(n) => {
                    &&& !drain_has_fatal(old(registry)@, old(self).pending@)
                    &&& final(registry)@ == drain_reg(old(registry)@, old(self).pending@)
                    &&& n as nat == drain_count(old(registry)@, old(self).pending@)
                },
                Err(e) => exists|k: int|
                    drain_err_at(old(registry)@, old(self).handle.tags(), old(self).pending@, k, e, final(registry)@),
            },
    {
        // identifier 0 is the protocol's null object; no barrier is watched
        match self.drain(registry, 0) {
            Ok((n, _)) => Ok(n),
            Err(e) => Err(e),
        }
    }

    /// Dispatch the buffered messages; on an empty buffer report that the
    /// embedder must block on the connection, read, inject, and call again.
    /// Once at least one message is buffered, behaves as
    /// [`Self::dispatch_pending`] and reports the dispatch count.
    pub fn dispatch(&mut self, registry: &mut ObjectRegistry) -> (r: Result<
        DispatchStep,
        FatalError,
    >) where H: Handler
        requires
            old(registry).wf(),
            old(self).pending@.len() <= u32::MAX as int,
        ensures
            final(registry).wf(),
            final(self).pending@ == Seq::<RawMessage>::empty(),
            final(self).handle.tags() == old(self).handle.tags(),
            final(self).dedicated == old(self).dedicated,
            old(self).pending@.len() == 0 <==> r == Ok::<DispatchStep, FatalError>(
                DispatchStep::NeedRead,
            ),
            old(self).pending@.len() == 0 ==> final(registry)@ == old(registry)@
                && final(self).handle == old(self).handle,
            match r {
                Ok(DispatchStep::Dispatched(n)) => {
                    &&& !drain_has_fatal(old(registry)@, old(self).pending@)
                    &&& final(registry)@ == drain_reg(old(registry)@, old(self).pending@)
                    &&& n as nat == drain_count(old(registry)@, old(self).pending@)
                },
                Ok(DispatchStep::NeedRead) => old(self).pending@.len() == 0,
                Err(e) => exists|k: int|
                    drain_err_at(old(registry)@, old(self).handle.tags(), old(self).pending@, k, e, final(registry)@),
            },
    {
        if self.pending.is_empty() {
            Ok(DispatchStep::NeedRead)
        } else {
            match self.dispatch_pending(registry) {
                Ok(n) => Ok(DispatchStep::Dispatched(n)),
                Err(e) => Err(e),
            }
        }
    }

    /// Drive a synchronization round-trip: dispatch everything buffered, in
    /// arrival order, and report whether the barrier object's completion
    /// event was among it. Because the connection delivers messages in
    /// order, completion means every event the peer produced before the
    /// barrier reply has been dispatched. The embedder starts the barrier
    /// with [`start_roundtrip`], sends the synchronization request, and on
    /// `NeedRead` keeps reading from the connection and calling again.
    pub fn sync_roundtrip(&mut self, registry: &mut ObjectRegistry, marker: u32) -> (r: Result<
        RoundtripStep,
        FatalError,
    >) where H: Handler
        requires
            old(registry).wf(),
            old(self).pending@.len() <= u32::MAX as int,
        ensures
            final(registry).wf(),
            final(self).pending@ == Seq::<RawMessage>::empty(),
            final(self).handle.tags() == old(self).handle.tags(),
            final(self).dedicated == old(self).dedicated,
            match r {
                Ok(step) => {
                    &&& !drain_has_fatal(old(registry)@, old(self).pending@)
                    &&& final(registry)@ == drain_reg(old(registry)@, old(self).pending@)
                    &&& (match step {
                        RoundtripStep::Done(n) => n as nat == drain_count(
                            old(registry)@,
                            old(self).pending@,
                        ) && drain_saw(old(registry)@, old(self).pending@, marker),
                        RoundtripStep::NeedRead(n) => n as nat == drain_count(
                            old(registry)@,
                            old(self).pending@,
                        ) && !drain_saw(old(registry)@, old(self).pending@, marker),
                    })
                },
                Err(e) => exists|k: int|
                    drain_err_at(old(registry)@, old(self).handle.tags(), old(self).pending@, k, e, final(registry)@),
            },
    {
        match self.drain(registry, marker) {
            Ok((n, true)) => Ok(RoundtripStep::Done(n)),
            Ok((n, false)) => Ok(RoundtripStep::NeedRead(n)),
            Err(e) => Err(e),
        }
    }
}

/// The interface of the synchronization callback object: a single event,
/// the completion notification, which is a destructor.
pub fn callback_interface() -> (r: InterfaceDesc)
    ensures
        r.name@ == "wl_callback"@,
        r.event_destructor@ == seq![true],
{
    let mut flags: Vec<bool> = Vec::new();
    flags.push(true);
    proof {
        assert(flags@ =~= seq![true]);
    }
    InterfaceDesc { name: String::from_str("wl_callback"), event_destructor: flags }
}

/// Begin a synchronization round-trip: allocate the callback object whose
/// completion event marks the barrier, and return its identifier. The
/// embedding program sends the actual synchronization request naming that
/// identifier, then drives [`EventQueue::sync_roundtrip`] until it reports
/// completion.
pub fn start_roundtrip(registry: &mut ObjectRegistry) -> (r: Result<u32, RegistryError>)
    requires
        old(registry).wf(),
    ensures
        final(registry).wf(),
        match r {
            Ok(id) => {
                &&& !old(registry)@.contains_key(id)
                &&& final(registry)@ == old(registry)@.insert(id, final(registry)@[id])
                &&& final(registry)@.contains_key(id)
                &&& final(registry)@[id].interface.event_destructor@ == seq![true]
                &&& final(registry)@[id].alive
                &&& !final(registry)@[id].client_destroyed
                &&& !final(registry)@[id].server_destroyed
                &&& final(registry)@[id].dispatcher == DispatcherBinding::Unbound
            },
            Err(e) => {
                &&& e == RegistryError::IdsExhausted
                &&& *final(registry) == *old(registry)
            },
        },
{
    registry.allocate(callback_interface())
}

} // verus!
