use vstd::prelude::*;
use crate::registry::{client_marked, DispatcherBinding, ObjectRecord, ObjectRegistry};
use crate::wire::RawMessage;
use crate::handlers::{EventQueueHandle, Handler};
use crate::proxy::ProxyHandle;

verus! {

/// How one raw message was routed.
#[derive(Clone, Copy, PartialEq, Eq, Structural, Debug)]
pub enum DispatchOutcome {
    /// The event was decoded and consumed by the handler at `handler_id`.
    Delivered { handler_id: usize },
    /// The event was decoded, but the object has no usable implementation
    /// bound: reported to the operator, processing continues.
    Unhandled,
    /// The message addresses an identifier absent from the registry: a
    /// protocol error from the peer, reported, not dispatched.
    UnknownObject,
}

/// An error after which the connection cannot be used further.
#[derive(Clone, Copy, PartialEq, Eq, Structural, Debug)]
pub enum FatalError {
    /// The message did not decode against its object's interface: the
    /// stream is desynchronized and later bytes cannot be trusted.
    Desync { sender_id: u32, opcode: u16 },
    /// A handler reported an unrecoverable internal fault.
    HandlerFault { sender_id: u32, opcode: u16 },
}

/// Whether `msg` decodes against registry `m`: its object is known and the
/// opcode is one that object's interface defines.
pub open spec fn decodes(m: Map<u32, ObjectRecord>, msg: RawMessage) -> bool {
    &&& m.contains_key(msg.sender_id)
    &&& (msg.opcode as int) < m[msg.sender_id].interface.event_destructor@.len()
}

/// Whether `msg` addresses a known object but fails to decode (fatal).
pub open spec fn step_fatal_decode(m: Map<u32, ObjectRecord>, msg: RawMessage) -> bool {
    m.contains_key(msg.sender_id) && !decodes(m, msg)
}

/// Whether `msg` decodes to a destructor event.
pub open spec fn is_destructor_msg(m: Map<u32, ObjectRecord>, msg: RawMessage) -> bool {
    decodes(m, msg) && m[msg.sender_id].interface.event_destructor@[msg.opcode as int]
}

/// The registry after routing `msg`: destructor bookkeeping for a
/// destructor event, otherwise unchanged.
pub open spec fn step_registry(m: Map<u32, ObjectRecord>, msg: RawMessage) -> Map<
    u32,
    ObjectRecord,
> {
    if is_destructor_msg(m, msg) {
        client_marked(m, msg.sender_id)
    } else {
        m
    }
}

/// Where a message is routed, given the handler table's type tags.
pub open spec fn step_delivery(m: Map<u32, ObjectRecord>, tags: Seq<u64>, msg: RawMessage)
    -> DispatchOutcome {
    if !m.contains_key(msg.sender_id) {
        DispatchOutcome::UnknownObject
    } else {
        match m[msg.sender_id].dispatcher {
            DispatcherBinding::Unbound => DispatchOutcome::Unhandled,
            DispatcherBinding::Bound { index, tag } => {
                if (index as int) < tags.len() && tags[index as int] == tag {
                    DispatchOutcome::Delivered { handler_id: index }
                } else {
                    DispatchOutcome::Unhandled
                }
            },
        }
    }
}

/// Route one raw message: resolve its object, decode it, perform the
/// destruction bookkeeping for a destructor event before the handler runs,
/// and deliver the event to the bound handler. An absent object or an
/// unimplemented object is recoverable; a decode failure or a handler fault
/// is fatal. The handler table's tags, and every slot but the one invoked,
/// are untouched.
pub fn dispatch_message<H: Handler>(
    registry: &mut ObjectRegistry,
    handlers: &mut EventQueueHandle<H>,
    msg: RawMessage,
) -> (r: Result<DispatchOutcome, FatalError>)
    requires
        old(registry).wf(),
    ensures
        final(registry).wf(),
        final(handlers).tags() == old(handlers).tags(),
        !old(registry)@.contains_key(msg.sender_id) ==> {
            &&& r == Ok::<DispatchOutcome, FatalError>(DispatchOutcome::UnknownObject)
            &&& final(registry)@ == old(registry)@
            &&& *final(handlers) == *old(handlers)
        },
        step_fatal_decode(old(registry)@, msg) ==> {
            &&& r == Err::<DispatchOutcome, FatalError>(FatalError::Desync {
                sender_id: msg.sender_id,
                opcode: msg.opcode,
            })
            &&& final(registry)@ == old(registry)@
            &&& *final(handlers) == *old(handlers)
        },
        decodes(old(registry)@, msg) ==> {
            &&& final(registry)@ == step_registry(old(registry)@, msg)
            &&& (match r {
                Ok(o) => o == step_delivery(old(registry)@, old(handlers).tags(), msg),
                Err(e) => {
                    &&& e == FatalError::HandlerFault {
                        sender_id: msg.sender_id,
                        opcode: msg.opcode,
                    }
                    &&& step_delivery(old(registry)@, old(handlers).tags(), msg) is Delivered
                },
            })
            &&& (match step_delivery(old(registry)@, old(handlers).tags(), msg) {
                DispatchOutcome::Delivered { handler_id } => forall|j: int|
                    0 <= j < old(handlers).slots().len() && j != handler_id
                        ==> final(handlers).slots()[j] == old(handlers).slots()[j],
                _ => *final(handlers) == *old(handlers),
            })
        },
{
    let id = msg.sender_id;
    let opcode = msg.opcode;
    let (event, binding, name) = match registry.find(id) {
        None => {
            return Ok(DispatchOutcome::UnknownObject);
        },
        Some(rec) => {
            let binding = rec.dispatcher;
            let name = rec.interface.name.clone();
            match crate::wire::decode(&rec.interface, msg) {
                Ok(ev) => (ev, binding, name),
                Err(_) => {
                    return Err(FatalError::Desync { sender_id: id, opcode });
                },
            }
        },
    };
    if event.destructor {
        let _ = registry.mark_client_destroyed(id);
    }
    let object = ProxyHandle { id, interface: name };
    match binding {
        DispatcherBinding::Unbound => Ok(DispatchOutcome::Unhandled),
        DispatcherBinding::Bound { index, tag } => {
            match handlers.invoke(index, tag, event, &object) {
                Ok(true) => Ok(DispatchOutcome::Delivered { handler_id: index }),
                Ok(false) => Ok(DispatchOutcome::Unhandled),
                Err(()) => Err(FatalError::HandlerFault { sender_id: id, opcode }),
            }
        },
    }
}

/// The registry after an in-order drain of `msgs`.
pub open spec fn drain_reg(m: Map<u32, ObjectRecord>, msgs: Seq<RawMessage>) -> Map<
    u32,
    ObjectRecord,
>
    decreases msgs.len(),
{
    if msgs.len() == 0 {
        m
    } else {
        step_registry(drain_reg(m, msgs.drop_last()), msgs.last())
    }
}

/// Whether an in-order drain of `msgs` hits a decode failure somewhere.
pub open spec fn drain_has_fatal(m: Map<u32, ObjectRecord>, msgs: Seq<RawMessage>) -> bool
    decreases msgs.len(),
{
    if msgs.len() == 0 {
        false
    } else {
        drain_has_fatal(m, msgs.drop_last()) || step_fatal_decode(
            drain_reg(m, msgs.drop_last()),
            msgs.last(),
        )
    }
}

/// How many of `msgs` decode during an in-order drain (each such message is
/// handed to a dispatcher, possibly the unimplemented-object report).
pub open spec fn drain_count(m: Map<u32, ObjectRecord>, msgs: Seq<RawMessage>) -> nat
    decreases msgs.len(),
{
    if msgs.len() == 0 {
        0nat
    } else {
        drain_count(m, msgs.drop_last()) + (if decodes(drain_reg(m, msgs.drop_last()), msgs.last()) {
            1nat
        } else {
            0nat
        })
    }
}

/// Whether an in-order drain of `msgs` delivers an event of object
/// `marker` (used for the round-trip barrier).
pub open spec fn drain_saw(m: Map<u32, ObjectRecord>, msgs: Seq<RawMessage>, marker: u32) -> bool
    decreases msgs.len(),
{
    if msgs.len() == 0 {
        false
    } else {
        drain_saw(m, msgs.drop_last(), marker) || (decodes(drain_reg(m, msgs.drop_last()), msgs.last())
            && msgs.last().sender_id == marker)
    }
}

/// An in-order drain of `msgs` over initial registry `m0` stopped with the
/// fatal error `e` at index `k`, leaving the registry at `m_end`: the clean
/// prefix before `k` was fully applied, and for a handler fault the
/// destruction bookkeeping of message `k` itself was applied too (it runs
/// before the handler).
pub open spec fn drain_err_at(
    m0: Map<u32, ObjectRecord>,
    tags: Seq<u64>,
    msgs: Seq<RawMessage>,
    k: int,
    e: FatalError,
    m_end: Map<u32, ObjectRecord>,
) -> bool {
    &&& 0 <= k < msgs.len()
    &&& !drain_has_fatal(m0, msgs.take(k))
    &&& match e {
        FatalError::Desync { sender_id, opcode } => {
            &&& sender_id == msgs[k].sender_id
            &&& opcode == msgs[k].opcode
            &&& step_fatal_decode(drain_reg(m0, msgs.take(k)), msgs[k])
            &&& m_end == drain_reg(m0, msgs.take(k))
        },
        FatalError::HandlerFault { sender_id, opcode } => {
            &&& sender_id == msgs[k].sender_id
            &&& opcode == msgs[k].opcode
            &&& decodes(drain_reg(m0, msgs.take(k)), msgs[k])
            &&& step_delivery(drain_reg(m0, msgs.take(k)), tags, msgs[k]) is Delivered
            &&& m_end == drain_reg(m0, msgs.take(k + 1))
        },
    }
}

/// A destructor event routed to an object whose peer-side destruction flag
/// is already set removes the record at that very step; on an object whose
/// peer-side flag is clear, the record survives the step with the
/// client-side flag set and liveness cleared.
pub proof fn lemma_destructor_completes_handshake(m: Map<u32, ObjectRecord>, msg: RawMessage)
    requires
        is_destructor_msg(m, msg),
    ensures
        m[msg.sender_id].server_destroyed ==> !step_registry(m, msg).contains_key(msg.sender_id),
        !m[msg.sender_id].server_destroyed ==> {
            &&& step_registry(m, msg).contains_key(msg.sender_id)
            &&& step_registry(m, msg)[msg.sender_id].client_destroyed
            &&& !step_registry(m, msg)[msg.sender_id].alive
        },
{
}

/// The round-trip barrier test is exact: a drain saw the barrier object
/// `marker` exactly when some message of that object decodes at its
/// position in the sequence — and by [`lemma_drain_reg_append`] every
/// message that arrived before that position has been applied by then.
pub proof fn lemma_saw_marker_in_order(
    m: Map<u32, ObjectRecord>,
    msgs: Seq<RawMessage>,
    marker: u32,
)
    ensures
        drain_saw(m, msgs, marker) <==> exists|i: int|
            0 <= i < msgs.len() && #[trigger] msgs[i].sender_id == marker && decodes(
                drain_reg(m, msgs.take(i)),
                msgs[i],
            ),
    decreases msgs.len(),
{
    if msgs.len() > 0 {
        let front = msgs.drop_last();
        let last = msgs.len() - 1;
        lemma_saw_marker_in_order(m, front, marker);
        assert(msgs.take(last) =~= front);
        if drain_saw(m, front, marker) {
            let i = choose|i: int|
                0 <= i < front.len() && #[trigger] front[i].sender_id == marker && decodes(
                    drain_reg(m, front.take(i)),
                    front[i],
                );
            assert(msgs.take(i) =~= front.take(i));
            assert(msgs[i].sender_id == marker && decodes(drain_reg(m, msgs.take(i)), msgs[i]));
        }
        if drain_saw(m, msgs, marker) && !drain_saw(m, front, marker) {
            assert(msgs[last].sender_id == marker && decodes(
                drain_reg(m, msgs.take(last)),
                msgs[last],
            ));
        }
        if exists|i: int|
            0 <= i < msgs.len() && #[trigger] msgs[i].sender_id == marker && decodes(
                drain_reg(m, msgs.take(i)),
                msgs[i],
            ) {
            let i = choose|i: int|
                0 <= i < msgs.len() && #[trigger] msgs[i].sender_id == marker && decodes(
                    drain_reg(m, msgs.take(i)),
                    msgs[i],
                );
            if i < last {
                assert(front.take(i) =~= msgs.take(i));
                assert(front[i].sender_id == marker && decodes(
                    drain_reg(m, front.take(i)),
                    front[i],
                ));
                assert(drain_saw(m, front, marker));
            } else {
                assert(decodes(drain_reg(m, front), msgs.last()));
                assert(drain_saw(m, msgs, marker));
            }
        }
    }
}

/// Messages act on the registry strictly in arrival order: draining a
/// concatenation is draining the first part, then the second over the
/// registry the first part left behind. In particular, by the time any
/// message is routed, every message that arrived before it has been
/// applied.
pub proof fn lemma_drain_reg_append(
    m: Map<u32, ObjectRecord>,
    a: Seq<RawMessage>,
    b: Seq<RawMessage>,
)
    ensures
        drain_reg(m, a + b) == drain_reg(drain_reg(m, a), b),
    decreases b.len(),
{
    if b.len() == 0 {
        assert(a + b =~= a);
    } else {
        lemma_drain_reg_append(m, a, b.drop_last());
        assert((a + b).drop_last() =~= a + b.drop_last());
        assert((a + b).last() == b.last());
    }
}

} // verus!
