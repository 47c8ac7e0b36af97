use wayland_client::{
    DispatcherBinding, EventQueueHandle, Event, Handler, InterfaceDesc, ObjectRegistry,
    ProxyHandle, ProxyMap, RequestError,
};

const PLAIN_TAG: u64 = 1;

struct PlainHandler;

impl Handler for PlainHandler {
    fn message(&mut self, _event: Event, _object: &ProxyHandle) -> Result<(), ()> {
        Ok(())
    }
}

fn iface(name: &str, destructors: Vec<bool>) -> InterfaceDesc {
    InterfaceDesc { name: name.to_string(), event_destructor: destructors }
}

#[test]
fn get_resolves_present_ids_only() {
    let mut reg = ObjectRegistry::new();
    reg.insert(10, iface("wl_compositor", vec![false])).unwrap();
    let map = ProxyMap::make(&reg);
    let p = map.get(10).expect("a live id resolves to a handle");
    assert_eq!(p.id(), 10);
    assert_eq!(p.interface_name(), "wl_compositor");
    assert!(map.get(11).is_none());
}

#[test]
fn get_new_resolves_and_implement_binds() {
    let mut reg = ObjectRegistry::new();
    reg.insert(10, iface("wl_compositor", vec![false])).unwrap();
    let new_handle = {
        let map = ProxyMap::make(&reg);
        assert!(map.get_new(11).is_none());
        map.get_new(10).expect("a live id resolves to a new-object handle")
    };
    let mut table: EventQueueHandle<PlainHandler> = EventQueueHandle::new();
    let idx = table.add_handler(PLAIN_TAG, PlainHandler);
    let proxy = new_handle.implement(&mut reg, &table, idx, PLAIN_TAG).unwrap();
    assert_eq!(proxy.id(), 10);
    match reg.find(10).unwrap().dispatcher {
        DispatcherBinding::Bound { index, tag } => {
            assert_eq!(index, idx);
            assert_eq!(tag, PLAIN_TAG);
        },
        DispatcherBinding::Unbound => panic!("implement must bind the dispatcher"),
    }
}

#[test]
fn handles_compare_by_identifier() {
    let a = ProxyHandle { id: 4, interface: "wl_output".to_string() };
    let b = ProxyHandle { id: 4, interface: "wl_output".to_string() };
    let c = ProxyHandle { id: 5, interface: "wl_output".to_string() };
    assert!(a.same_object(&b));
    assert!(!a.same_object(&c));
}

#[test]
fn requests_on_dead_objects_are_a_distinct_error() {
    let mut reg = ObjectRegistry::new();
    reg.insert(4, iface("wl_output", vec![true])).unwrap();
    let handle = ProxyMap::make(&reg).get(4).unwrap();
    assert!(handle.is_alive(&reg));
    let frame = handle.prepare_request(&reg, 2, vec![7, 8]).unwrap();
    assert_eq!(frame.sender_id, 4);
    assert_eq!(frame.opcode, 2);
    assert_eq!(frame.args, vec![7, 8]);
    reg.mark_client_destroyed(4);
    assert!(!handle.is_alive(&reg));
    assert_eq!(
        handle.prepare_request(&reg, 2, vec![]).err(),
        Some(RequestError::DeadObject)
    );
}
