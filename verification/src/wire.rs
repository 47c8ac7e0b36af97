use vstd::prelude::*;

verus! {

/// Schema of one remote interface: its name and, for every event opcode the
/// interface defines, whether that event is a destructor (a protocol-defined
/// terminal event after which the object may be freed once both sides
/// acknowledge).
pub struct InterfaceDesc {
    pub name: String,
    /// One entry per event opcode; `true` when that event destroys its object.
    pub event_destructor: Vec<bool>,
}

/// A raw inbound message as the connection delivers it: already framed, not
/// yet decoded against the target object's interface.
pub struct RawMessage {
    pub sender_id: u32,
    pub opcode: u16,
    pub args: Vec<u32>,
}

/// A message decoded against its object's interface.
pub struct Event {
    pub sender_id: u32,
    pub opcode: u16,
    /// Whether this event is a destructor for its object.
    pub destructor: bool,
    pub args: Vec<u32>,
}

/// Decoding failure: the opcode is not one the interface defines. This
/// signals desynchronization with the peer and is fatal to the connection.
#[derive(Clone, Copy, PartialEq, Eq, Structural, Debug)]
pub enum DecodeError {
    UnknownOpcode,
}

/// Decode a raw message against the interface of the object it addresses.
/// Succeeds exactly when the opcode is one the interface defines.
pub fn decode(interface: &InterfaceDesc, msg: RawMessage) -> (r: Result<Event, DecodeError>)
    ensures
        match r {
            Ok(ev) => {
                &&& (msg.opcode as int) < interface.event_destructor@.len()
                &&& ev == (Event {
                    sender_id: msg.sender_id,
                    opcode: msg.opcode,
                    destructor: interface.event_destructor@[msg.opcode as int],
                    args: msg.args,
                })
            },
            Err(e) => {
                &&& (msg.opcode as int) >= interface.event_destructor@.len()
                &&& e == DecodeError::UnknownOpcode
            },
        },
{
    let idx = msg.opcode as usize;
    if idx < interface.event_destructor.len() {
        let destructor = interface.event_destructor[idx];
        Ok(Event { sender_id: msg.sender_id, opcode: msg.opcode, destructor, args: msg.args })
    } else {
        Err(DecodeError::UnknownOpcode)
    }
}

} // verus!
