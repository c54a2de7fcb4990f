//! Decisions of the raw-stream transport's per-connection loop.
//!
//! The acceptor itself — binding the socket, accepting connections,
//! spawning one task per connection, reading and writing stream data — is
//! I/O and lives outside this crate.  Each connection's task runs a loop:
//! it hands every event it observes to `connection_step` and performs the
//! action decided here, so the loop's behaviour is fixed by this module:
//! reply to every received stream unit and keep reading, stop on close or
//! error.  A connection-level error therefore ends only that connection's
//! loop, never a sibling's.

use vstd::prelude::*;
use vstd::string::StrSliceExecFns;

verus! {

/// What a connection's task observed on its stream.
pub enum StreamEvent {
    /// A discrete request unit arrived, as raw bytes.
    Data(Vec<u8>),
    /// The peer signalled completion, or the connection failed.
    Closed,
}

/// What the connection's task does next.
pub enum ConnectionAction {
    /// Write these bytes back on the same stream, then read the next unit.
    Reply(Vec<u8>),
    /// End this connection's loop.
    Stop,
}

/// The bytes written back for one received stream unit.
pub open spec fn spec_stream_reply() -> Seq<u8> {
    vstd::utf8::encode_utf8("Hello from LinkWithMentor HTTP/3 (Raw QUIC)"@)
}

/// The reply sent for one received stream unit.
pub fn handle_stream_unit(_data: &Vec<u8>) -> (r: Vec<u8>)
    ensures
        r@ == spec_stream_reply(),
{
    let reply = "Hello from LinkWithMentor HTTP/3 (Raw QUIC)";
    reply.as_bytes_vec()
}

/// One step of a connection's receive loop: reply to data, stop on close.
pub fn connection_step(event: &StreamEvent) -> (r: ConnectionAction)
    ensures
        event matches StreamEvent::Data(d) ==> (r matches ConnectionAction::Reply(p)
            && p@ == spec_stream_reply()),
        event matches StreamEvent::Closed ==> r is Stop,
{
    match event {
        StreamEvent::Data(data) => ConnectionAction::Reply(handle_stream_unit(data)),
        StreamEvent::Closed => ConnectionAction::Stop,
    }
}

} // verus!
