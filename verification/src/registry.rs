use vstd::prelude::*;
use std::collections::HashMap;
use crate::wire::InterfaceDesc;

verus! {

broadcast use vstd::std_specs::hash::group_hash_axioms;

/// First identifier of the range the server allocates from. Identifiers the
/// client allocates are strictly below it.
pub const SERVER_ID_BASE: u32 = 0xFF00_0000;

/// The dispatcher assigned to one object record: either nothing was bound
/// yet (events for the object are reported as unimplemented, which is
/// recoverable), or an entry of the handler table, remembered together with
/// the type tag the handler was stored under.
#[derive(Clone, Copy, PartialEq, Eq, Structural, Debug)]
pub enum DispatcherBinding {
    Unbound,
    Bound { index: usize, tag: u64 },
}

/// One live remote object: its interface schema, the two-sided destruction
/// handshake flags, the liveness flag, and the assigned dispatcher.
pub struct ObjectRecord {
    pub interface: InterfaceDesc,
    /// This side has observed the object's destructor event.
    pub client_destroyed: bool,
    /// The peer has announced that it destroyed the object.
    pub server_destroyed: bool,
    /// False as soon as either side starts destruction.
    pub alive: bool,
    pub dispatcher: DispatcherBinding,
}

#[derive(Clone, Copy, PartialEq, Eq, Structural, Debug)]
pub enum RegistryError {
    /// `insert` was asked for an identifier that is already live.
    AlreadyPresent,
    /// The client-side identifier range is used up.
    IdsExhausted,
}

/// The record a freshly created object starts from: both handshake flags
/// clear, alive, and no dispatcher bound.
pub open spec fn fresh_record(interface: InterfaceDesc) -> ObjectRecord {
    ObjectRecord {
        interface,
        client_destroyed: false,
        server_destroyed: false,
        alive: true,
        dispatcher: DispatcherBinding::Unbound,
    }
}

/// The registry after this side observed the destructor of object `id`:
/// the liveness flag falls, the client-side handshake flag is set, and the
/// record is removed exactly if the peer's flag was already set.
pub open spec fn client_marked(m: Map<u32, ObjectRecord>, id: u32) -> Map<u32, ObjectRecord> {
    if !m.contains_key(id) {
        m
    } else if m[id].server_destroyed {
        m.remove(id)
    } else {
        m.insert(id, (ObjectRecord {
            interface: m[id].interface,
            client_destroyed: true,
            server_destroyed: m[id].server_destroyed,
            alive: false,
            dispatcher: m[id].dispatcher,
        }))
    }
}

/// The registry after the peer announced destruction of object `id`:
/// mirror image of [`client_marked`].
pub open spec fn server_marked(m: Map<u32, ObjectRecord>, id: u32) -> Map<u32, ObjectRecord> {
    if !m.contains_key(id) {
        m
    } else if m[id].client_destroyed {
        m.remove(id)
    } else {
        m.insert(id, (ObjectRecord {
            interface: m[id].interface,
            client_destroyed: m[id].client_destroyed,
            server_destroyed: true,
            alive: false,
            dispatcher: m[id].dispatcher,
        }))
    }
}

/// The object map: every remote object the client knows about, keyed by
/// identifier, plus the monotonic allocator for client-created identifiers.
/// An object record leaves the map only when both destruction flags have
/// become true.
pub struct ObjectRegistry {
    map: HashMap<u32, ObjectRecord>,
    next_client_id: u32,
}

impl View for ObjectRegistry {
    type V = Map<u32, ObjectRecord>;

    closed spec fn view(&self) -> Map<u32, ObjectRecord> {
        self.map@
    }
}

impl ObjectRegistry {
    /// The next identifier the allocator would hand out.
    pub closed spec fn next_id(&self) -> u32 {
        self.next_client_id
    }

    /// Well-formedness: the allocator stays inside the client range and is
    /// ahead of every client-range identifier in use, so allocation never
    /// collides with a live record.
    pub open spec fn wf(&self) -> bool {
        &&& 1 <= self.next_id() <= SERVER_ID_BASE
        &&& forall|k: u32|
            #[trigger] self@.contains_key(k) && k < SERVER_ID_BASE ==> k < self.next_id()
    }

    pub fn new() -> (r: ObjectRegistry)
        ensures
            r@ == Map::<u32, ObjectRecord>::empty(),
            r.wf(),
            r.next_id() == 1,
    {
        ObjectRegistry { map: HashMap::new(), next_client_id: 1 }
    }

    /// Number of live records.
    pub fn len(&self) -> (r: usize)
        ensures
            r == self@.len(),
    {
        self.map.len()
    }

    /// Create a record for `id` with both destruction flags clear and the
    /// liveness flag set. Fails exactly if `id` is already present.
    pub fn insert(&mut self, id: u32, interface: InterfaceDesc) -> (r: Result<(), RegistryError>)
        requires
            old(self).wf(),
        ensures
            final(self).wf(),
            match r {
                Ok(()) => {
                    &&& !old(self)@.contains_key(id)
                    &&& final(self)@ == old(self)@.insert(id, fresh_record(interface))
                },
                Err(e) => {
                    &&& e == RegistryError::AlreadyPresent
                    &&& old(self)@.contains_key(id)
                    &&& final(self)@ == old(self)@
                },
            },
    {
        if self.map.contains_key(&id) {
            Err(RegistryError::AlreadyPresent)
        } else {
            if id < SERVER_ID_BASE && id >= self.next_client_id {
                self.next_client_id = id + 1;
            }
            self.map.insert(id, ObjectRecord {
                interface,
                client_destroyed: false,
                server_destroyed: false,
                alive: true,
                dispatcher: DispatcherBinding::Unbound,
            });
            proof {
                assert forall|k: u32| #[trigger] self@.contains_key(k) && k < SERVER_ID_BASE
                    implies k < self.next_id() by {
                    if k != id {
                        assert(old(self)@.contains_key(k));
                    }
                }
            }
            Ok(())
        }
    }

    /// Allocate the next client-side identifier and create its record.
    /// Succeeds exactly while the client range is not exhausted.
    pub fn allocate(&mut self, interface: InterfaceDesc) -> (r: Result<u32, RegistryError>)
        requires
            old(self).wf(),
        ensures
            final(self).wf(),
            match r {
                Ok(id) => {
                    &&& old(self).next_id() < SERVER_ID_BASE
                    &&& id == old(self).next_id()
                    &&& 0 < id < SERVER_ID_BASE
                    &&& !old(self)@.contains_key(id)
                    &&& final(self)@ == old(self)@.insert(id, fresh_record(interface))
                    &&& final(self).next_id() == id + 1
                },
                Err(e) => {
                    &&& e == RegistryError::IdsExhausted
                    &&& old(self).next_id() == SERVER_ID_BASE
                    &&& *final(self) == *old(self)
                },
            },
    {
        if self.next_client_id >= SERVER_ID_BASE {
            Err(RegistryError::IdsExhausted)
        } else {
            let id = self.next_client_id;
            self.next_client_id = id + 1;
            self.map.insert(id, ObjectRecord {
                interface,
                client_destroyed: false,
                server_destroyed: false,
                alive: true,
                dispatcher: DispatcherBinding::Unbound,
            });
            proof {
                assert forall|k: u32| #[trigger] self@.contains_key(k) && k < SERVER_ID_BASE
                    implies k < self.next_id() by {
                    if k != id {
                        assert(old(self)@.contains_key(k));
                    }
                }
            }
            Ok(id)
        }
    }

    /// Look an identifier up. Absence is a normal, reportable outcome.
    pub fn find(&self, id: u32) -> (r: Option<&ObjectRecord>)
        ensures
            match r {
                Some(rec) => self@.contains_key(id) && *rec == self@[id],
                None => !self@.contains_key(id),
            },
    {
        self.map.get(&id)
    }

    /// Whether `id` names a record whose liveness flag is still set.
    pub fn is_alive(&self, id: u32) -> (r: bool)
        ensures
            r == (self@.contains_key(id) && self@[id].alive),
    {
        match self.map.get(&id) {
            Some(rec) => rec.alive,
            None => false,
        }
    }

    /// Delete the record for `id`; a later `find` reports absence.
    pub fn remove(&mut self, id: u32) -> (r: Option<ObjectRecord>)
        requires
            old(self).wf(),
        ensures
            final(self).wf(),
            final(self)@ == old(self)@.remove(id),
            match r {
                Some(rec) => old(self)@.contains_key(id) && rec == old(self)@[id],
                None => !old(self)@.contains_key(id),
            },
    {
        self.map.remove(&id)
    }

    /// Record that this side observed the destructor of `id`: clears the
    /// liveness flag, sets the client-side handshake flag, and removes the
    /// record in the same mutation if the peer's flag was already set.
    /// Returns whether the peer's flag was already set, or `None` when `id`
    /// is absent. Idempotent.
    pub fn mark_client_destroyed(&mut self, id: u32) -> (r: Option<bool>)
        requires
            old(self).wf(),
        ensures
            final(self).wf(),
            final(self)@ == client_marked(old(self)@, id),
            match r {
                Some(other_side) => {
                    &&& old(self)@.contains_key(id)
                    &&& other_side == old(self)@[id].server_destroyed
                },
                None => !old(self)@.contains_key(id),
            },
    {
        match self.map.remove(&id) {
            None => {
                proof {
                    assert(old(self)@.remove(id) =~= old(self)@);
                }
                None
            },
            Some(mut rec) => {
                if rec.server_destroyed {
                    Some(true)
                } else {
                    rec.client_destroyed = true;
                    rec.alive = false;
                    self.map.insert(id, rec);
                    proof {
                        assert(self@ =~= client_marked(old(self)@, id));
                    }
                    Some(false)
                }
            },
        }
    }

    /// Record that the peer announced destruction of `id`: mirror image of
    /// [`Self::mark_client_destroyed`].
    pub fn mark_server_destroyed(&mut self, id: u32) -> (r: Option<bool>)
        requires
            old(self).wf(),
        ensures
            final(self).wf(),
            final(self)@ == server_marked(old(self)@, id),
            match r {
                Some(other_side) => {
                    &&& old(self)@.contains_key(id)
                    &&& other_side == old(self)@[id].client_destroyed
                },
                None => !old(self)@.contains_key(id),
            },
    {
        match self.map.remove(&id) {
            None => {
                proof {
                    assert(old(self)@.remove(id) =~= old(self)@);
                }
                None
            },
            Some(mut rec) => {
                if rec.client_destroyed {
                    Some(true)
                } else {
                    rec.server_destroyed = true;
                    rec.alive = false;
                    self.map.insert(id, rec);
                    proof {
                        assert(self@ =~= server_marked(old(self)@, id));
                    }
                    Some(false)
                }
            },
        }
    }

    /// Bind the dispatcher of object `id`, replacing whatever was bound
    /// before. Returns whether `id` was present.
    pub fn set_dispatcher(&mut self, id: u32, binding: DispatcherBinding) -> (r: bool)
        requires
            old(self).wf(),
        ensures
            final(self).wf(),
            r == old(self)@.contains_key(id),
            r ==> final(self)@ == old(self)@.insert(id, (ObjectRecord {
                dispatcher: binding,
                ..old(self)@[id]
            })),
            !r ==> final(self)@ == old(self)@,
    {
        match self.map.remove(&id) {
            None => {
                proof {
                    assert(old(self)@.remove(id) =~= old(self)@);
                }
                false
            },
            Some(mut rec) => {
                rec.dispatcher = binding;
                self.map.insert(id, rec);
                proof {
                    assert(self@ =~= old(self)@.insert(id, (ObjectRecord {
                        dispatcher: binding,
                        ..old(self)@[id]
                    })));
                }
                true
            },
        }
    }
}

/// The two destruction marks commute: whichever side sets its flag first,
/// the record stays (with that one flag set and liveness cleared) until the
/// second mark, and the second mark — in either order — is the exact moment
/// the record is removed. A repeated first mark changes nothing.
/// Binding a dispatcher twice for the same object leaves the registry as if
/// only the second binding had happened: the second registration replaces
/// the first, and later routing reads only the latest binding.
pub proof fn lemma_register_replaces(
    m: Map<u32, ObjectRecord>,
    id: u32,
    first: DispatcherBinding,
    second: DispatcherBinding,
)
    requires
        m.contains_key(id),
    ensures
        ({
            let after_first = m.insert(id, (ObjectRecord { dispatcher: first, ..m[id] }));
            let after_both = after_first.insert(
                id,
                (ObjectRecord { dispatcher: second, ..after_first[id] }),
            );
            &&& after_both == m.insert(id, (ObjectRecord { dispatcher: second, ..m[id] }))
            &&& after_both[id].dispatcher == second
        }),
{
    let after_first = m.insert(id, (ObjectRecord { dispatcher: first, ..m[id] }));
    let after_both = after_first.insert(
        id,
        (ObjectRecord { dispatcher: second, ..after_first[id] }),
    );
    assert(after_both =~= m.insert(id, (ObjectRecord { dispatcher: second, ..m[id] })));
}

pub proof fn lemma_handshake_removal_order_independent(m: Map<u32, ObjectRecord>, id: u32)
    requires
        m.contains_key(id),
        !m[id].client_destroyed,
        !m[id].server_destroyed,
    ensures
        client_marked(m, id).contains_key(id),
        client_marked(m, id)[id].client_destroyed,
        !client_marked(m, id)[id].server_destroyed,
        !client_marked(m, id)[id].alive,
        server_marked(m, id).contains_key(id),
        server_marked(m, id)[id].server_destroyed,
        !server_marked(m, id)[id].client_destroyed,
        !server_marked(m, id)[id].alive,
        client_marked(client_marked(m, id), id) == client_marked(m, id),
        server_marked(server_marked(m, id), id) == server_marked(m, id),
        server_marked(client_marked(m, id), id) == m.remove(id),
        client_marked(server_marked(m, id), id) == m.remove(id),
{
    assert(client_marked(client_marked(m, id), id) =~= client_marked(m, id));
    assert(server_marked(server_marked(m, id), id) =~= server_marked(m, id));
    assert(server_marked(client_marked(m, id), id) =~= m.remove(id));
    assert(client_marked(server_marked(m, id), id) =~= m.remove(id));
}

} // verus!
