use wayland_client::{
    dispatch_message, DispatchOutcome, Event, EventQueueHandle, FatalError, Handler, HandlerError,
    InterfaceDesc, ObjectRegistry, ProxyHandle, RawMessage,
};
const RECORDER_TAG: u64 = 7;

struct RecordingHandler {
    seen: Vec<(u32, u16, bool)>,
    fail: bool,
}

impl Handler for RecordingHandler {
    fn message(&mut self, event: Event, object: &ProxyHandle) -> Result<(), ()> {
        self.seen.push((object.id, event.opcode, event.destructor));
        if self.fail { Err(()) } else { Ok(()) }
    }
}

fn iface(name: &str, destructors: Vec<bool>) -> InterfaceDesc {
    InterfaceDesc { name: name.to_string(), event_destructor: destructors }
}

fn msg(sender_id: u32, opcode: u16) -> RawMessage {
    RawMessage { sender_id, opcode, args: Vec::new() }
}

fn recording_handler(fail: bool) -> RecordingHandler {
    RecordingHandler { seen: Vec::new(), fail }
}

#[test]
fn unknown_object_is_reported_not_dispatched() {
    let mut reg = ObjectRegistry::new();
    let mut handle: EventQueueHandle<RecordingHandler> = EventQueueHandle::new();
    let r = dispatch_message(&mut reg, &mut handle, msg(31, 0));
    assert_eq!(r, Ok(DispatchOutcome::UnknownObject));
}

#[test]
fn unknown_opcode_is_fatal_desync() {
    let mut reg = ObjectRegistry::new();
    reg.insert(5, iface("wl_touch", vec![false, false])).unwrap();
    let mut handle: EventQueueHandle<RecordingHandler> = EventQueueHandle::new();
    let r = dispatch_message(&mut reg, &mut handle, msg(5, 9));
    assert_eq!(r, Err(FatalError::Desync { sender_id: 5, opcode: 9 }));
    assert!(reg.find(5).is_some(), "a decode failure must leave the registry untouched");
}

#[test]
fn unimplemented_object_is_recoverable() {
    let mut reg = ObjectRegistry::new();
    reg.insert(5, iface("wl_touch", vec![false])).unwrap();
    let mut handle: EventQueueHandle<RecordingHandler> = EventQueueHandle::new();
    let r = dispatch_message(&mut reg, &mut handle, msg(5, 0));
    assert_eq!(r, Ok(DispatchOutcome::Unhandled));
}

#[test]
fn delivered_event_reaches_the_bound_handler() {
    let mut reg = ObjectRegistry::new();
    reg.insert(5, iface("wl_touch", vec![false, true])).unwrap();
    let mut handle: EventQueueHandle<RecordingHandler> = EventQueueHandle::new();
    let idx = handle.add_handler(RECORDER_TAG, recording_handler(false));
    handle.register(&mut reg, 5, idx, RECORDER_TAG).unwrap();
    let r = dispatch_message(&mut reg, &mut handle, msg(5, 0));
    assert_eq!(r, Ok(DispatchOutcome::Delivered { handler_id: idx }));
    let h = handle.get_handler(idx, RECORDER_TAG).unwrap();
    assert_eq!(h.seen, vec![(5, 0, false)]);
}

#[test]
fn destructor_for_server_destroyed_object_removes_before_callback_and_delivers_once() {
    let mut reg = ObjectRegistry::new();
    reg.insert(8, iface("wl_callback", vec![true])).unwrap();
    let mut handle: EventQueueHandle<RecordingHandler> = EventQueueHandle::new();
    let idx = handle.add_handler(RECORDER_TAG, recording_handler(false));
    handle.register(&mut reg, 8, idx, RECORDER_TAG).unwrap();
    assert_eq!(reg.mark_server_destroyed(8), Some(false));
    let r = dispatch_message(&mut reg, &mut handle, msg(8, 0));
    assert_eq!(r, Ok(DispatchOutcome::Delivered { handler_id: idx }));
    assert!(reg.find(8).is_none(), "the record must be gone once the dispatcher ran");
    let h = handle.get_handler(idx, RECORDER_TAG).unwrap();
    assert_eq!(h.seen, vec![(8, 0, true)], "the destructor event is observed exactly once");
}

#[test]
fn destructor_marks_client_side_and_clears_liveness() {
    let mut reg = ObjectRegistry::new();
    reg.insert(8, iface("wl_callback", vec![true])).unwrap();
    let mut handle: EventQueueHandle<RecordingHandler> = EventQueueHandle::new();
    let r = dispatch_message(&mut reg, &mut handle, msg(8, 0));
    assert_eq!(r, Ok(DispatchOutcome::Unhandled));
    let rec = reg.find(8).expect("peer flag was clear, so the record stays");
    assert!(rec.client_destroyed && !rec.server_destroyed && !rec.alive);
}

#[test]
fn handler_fault_is_fatal_after_bookkeeping() {
    let mut reg = ObjectRegistry::new();
    reg.insert(8, iface("wl_callback", vec![true])).unwrap();
    let mut handle: EventQueueHandle<RecordingHandler> = EventQueueHandle::new();
    let idx = handle.add_handler(RECORDER_TAG, recording_handler(true));
    handle.register(&mut reg, 8, idx, RECORDER_TAG).unwrap();
    let r = dispatch_message(&mut reg, &mut handle, msg(8, 0));
    assert_eq!(r, Err(FatalError::HandlerFault { sender_id: 8, opcode: 0 }));
    let rec = reg.find(8).expect("bookkeeping ran before the handler");
    assert!(rec.client_destroyed && !rec.alive);
}

#[test]
fn second_registration_replaces_the_first() {
    let mut reg = ObjectRegistry::new();
    reg.insert(12, iface("wl_seat", vec![false])).unwrap();
    let mut handle: EventQueueHandle<RecordingHandler> = EventQueueHandle::new();
    let first = handle.add_handler(RECORDER_TAG, recording_handler(false));
    let second = handle.add_handler(RECORDER_TAG, recording_handler(false));
    handle.register(&mut reg, 12, first, RECORDER_TAG).unwrap();
    handle.register(&mut reg, 12, second, RECORDER_TAG).unwrap();
    let r = dispatch_message(&mut reg, &mut handle, msg(12, 0));
    assert_eq!(r, Ok(DispatchOutcome::Delivered { handler_id: second }));
    assert!(handle.get_handler(first, RECORDER_TAG).unwrap().seen.is_empty());
    assert_eq!(handle.get_handler(second, RECORDER_TAG).unwrap().seen, vec![(12, 0, false)]);
}

#[test]
fn stale_binding_with_mismatched_tag_is_not_invoked() {
    let mut reg = ObjectRegistry::new();
    reg.insert(3, iface("wl_shm", vec![false])).unwrap();
    let mut handle: EventQueueHandle<RecordingHandler> = EventQueueHandle::new();
    let idx = handle.add_handler(RECORDER_TAG, recording_handler(false));
    handle.register(&mut reg, 3, idx, RECORDER_TAG).unwrap();
    // Rebuild the handler table: the registry still carries the old binding,
    // which now points at an empty table.
    let fresh: EventQueueHandle<RecordingHandler> = EventQueueHandle::new();
    let mut handle = fresh;
    let r = dispatch_message(&mut reg, &mut handle, msg(3, 0));
    assert_eq!(r, Ok(DispatchOutcome::Unhandled));
    assert_eq!(handle.get_handler(idx, RECORDER_TAG).err(), Some(HandlerError::BadIndex));
}
