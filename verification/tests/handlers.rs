use wayland_client::{
    DispatcherBinding, Event, EventQueueHandle, Handler, HandlerError, InterfaceDesc,
    ObjectRegistry, ProxyHandle,
};

const COUNTER_TAG: u64 = 11;
const LOGGER_TAG: u64 = 22;

struct CounterHandler {
    calls: u32,
}

impl Handler for CounterHandler {
    fn message(&mut self, _event: Event, _object: &ProxyHandle) -> Result<(), ()> {
        self.calls += 1;
        Ok(())
    }
}

fn iface(name: &str, destructors: Vec<bool>) -> InterfaceDesc {
    InterfaceDesc { name: name.to_string(), event_destructor: destructors }
}

#[test]
fn add_handler_returns_stable_indices() {
    let mut handle: EventQueueHandle<CounterHandler> = EventQueueHandle::new();
    assert_eq!(handle.add_handler(COUNTER_TAG, CounterHandler { calls: 0 }), 0);
    assert_eq!(handle.add_handler(LOGGER_TAG, CounterHandler { calls: 5 }), 1);
    assert_eq!(handle.len(), 2);
    assert_eq!(handle.get_handler(1, LOGGER_TAG).unwrap().calls, 5);
}

#[test]
fn get_handler_with_wrong_tag_fails_loudly() {
    let mut handle: EventQueueHandle<CounterHandler> = EventQueueHandle::new();
    let idx = handle.add_handler(COUNTER_TAG, CounterHandler { calls: 0 });
    assert_eq!(
        handle.get_handler(idx, LOGGER_TAG).err(),
        Some(HandlerError::TypeMismatch),
        "a mismatched type tag must fail, never hand back a reference"
    );
    assert!(handle.get_handler(idx, COUNTER_TAG).is_ok());
}

#[test]
fn get_handler_out_of_range_fails_loudly() {
    let handle: EventQueueHandle<CounterHandler> = EventQueueHandle::new();
    assert_eq!(handle.get_handler(0, COUNTER_TAG).err(), Some(HandlerError::BadIndex));
}

#[test]
fn register_binds_the_dispatcher() {
    let mut reg = ObjectRegistry::new();
    reg.insert(6, iface("wl_keyboard", vec![false])).unwrap();
    let mut handle: EventQueueHandle<CounterHandler> = EventQueueHandle::new();
    let idx = handle.add_handler(COUNTER_TAG, CounterHandler { calls: 0 });
    assert_eq!(handle.register(&mut reg, 6, idx, COUNTER_TAG), Ok(()));
    match reg.find(6).unwrap().dispatcher {
        DispatcherBinding::Bound { index, tag } => {
            assert_eq!(index, idx);
            assert_eq!(tag, COUNTER_TAG);
        },
        DispatcherBinding::Unbound => panic!("register must bind the dispatcher"),
    }
}

#[test]
fn register_rejects_bad_index_mismatch_and_unknown_object() {
    let mut reg = ObjectRegistry::new();
    reg.insert(6, iface("wl_keyboard", vec![false])).unwrap();
    let mut handle: EventQueueHandle<CounterHandler> = EventQueueHandle::new();
    let idx = handle.add_handler(COUNTER_TAG, CounterHandler { calls: 0 });
    assert_eq!(
        handle.register(&mut reg, 6, idx + 1, COUNTER_TAG),
        Err(HandlerError::BadIndex)
    );
    assert_eq!(
        handle.register(&mut reg, 6, idx, LOGGER_TAG),
        Err(HandlerError::TypeMismatch)
    );
    assert_eq!(
        handle.register(&mut reg, 42, idx, COUNTER_TAG),
        Err(HandlerError::UnknownObject)
    );
    match reg.find(6).unwrap().dispatcher {
        DispatcherBinding::Unbound => {},
        DispatcherBinding::Bound { .. } => panic!("a failed registration must not bind"),
    }
}
