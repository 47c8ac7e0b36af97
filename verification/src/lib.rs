//! Client-side runtime core for a display-server wire protocol.
//!
//! The library tracks every remote object the client knows about, routes
//! inbound protocol messages to the per-object dispatcher, and enforces the
//! two-sided destruction handshake that decides when an object may be
//! forgotten. The transport (socket I/O) and the per-protocol message
//! codecs are collaborators outside this crate: the embedding program reads
//! framed messages from the connection and injects them into an event
//! queue, and sends the frames this library builds.
//!
//! The object registry is one mutual-exclusion domain: every operation on
//! it is a single exclusive access, never held across a dispatcher
//! invocation. Here that domain appears as the exclusive reference each
//! operation takes; the embedding program supplies the lock when queues on
//! several threads share one registry.

mod wire;
mod registry;
mod proxy;
mod handlers;
mod dispatch;
mod queue;

pub use wire::{InterfaceDesc, RawMessage, Event, DecodeError, decode};
pub use registry::{
    DispatcherBinding, ObjectRecord, ObjectRegistry, RegistryError, SERVER_ID_BASE,
    client_marked, server_marked, fresh_record, lemma_handshake_removal_order_independent,
    lemma_register_replaces,
};
pub use proxy::{ProxyHandle, NewProxyHandle, ProxyMap, RequestError};
pub use handlers::{Handler, HandlerSlot, HandlerError, EventQueueHandle};
pub use dispatch::{
    DispatchOutcome, FatalError, dispatch_message, decodes, step_fatal_decode, is_destructor_msg,
    step_registry, step_delivery, drain_reg, drain_has_fatal, drain_count, drain_saw, drain_err_at,
    lemma_destructor_completes_handshake, lemma_drain_reg_append, lemma_saw_marker_in_order,
};
pub use queue::{
    DispatchStep, RoundtripStep, EventQueue, StateGuard, create_event_queue, callback_interface,
    start_roundtrip,
};
