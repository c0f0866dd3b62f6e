use vstd::prelude::*;

verus! {

/// Connection status of the logical WebSocket stream, as observed by
/// status listeners. The engine is the only writer: it posts `Connected`
/// after a successful handshake and `Disconnected` when the receive loop
/// ends, whatever the cause.
#[derive(Clone, Copy, PartialEq, Eq, Structural, Debug)]
pub enum WsStreamStatus {
    /// The WebSocket stream is connected.
    Connected,
    /// The WebSocket stream is disconnected.
    Disconnected,
}

} // verus!
