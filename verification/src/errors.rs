use vstd::prelude::*;

verus! {

/// Declares `tungstenite`'s error type (reached through `tokio_tungstenite`'s
/// re-export, as the rest of the crate does) so that values of it can be
/// carried through the library. The type is opaque here: the engine never
/// inspects such an error, it only wraps and reports it.
#[verifier::external_type_specification]
#[verifier::external_body]
pub struct ExWsError(tokio_tungstenite::tungstenite::Error);

/// The error taxonomy of the library.
///
/// Durations are carried as whole nanoseconds, as everywhere in this crate.
#[derive(Debug)]
pub enum ReconnectTError {
    /// No inbound frame arrived within the configured idle-receive timeout;
    /// the payload is that timeout in nanoseconds.
    ReceiveTimeout(u64),
    /// The post-connect handshake failed; the connection is torn down and
    /// rebuilt from scratch.
    HandshakeFailed,
    /// `send` was issued while no write half was installed.
    SenderNotConnected,
    /// A transport-level error, reported by the underlying WebSocket library.
    TokioTungsteniteError(tokio_tungstenite::tungstenite::Error),
}

impl ReconnectTError {
    /// A short human-readable description; stands in for `Display`.
    pub fn describe(&self) -> (r: &'static str)
        ensures
            r@ == match self {
                ReconnectTError::ReceiveTimeout(_) => "receive timeout"@,
                ReconnectTError::HandshakeFailed => "handshake failed"@,
                ReconnectTError::SenderNotConnected => "sender not connected"@,
                ReconnectTError::TokioTungsteniteError(_) => "tokio_tungstenite error"@,
            },
    {
        match self {
            ReconnectTError::ReceiveTimeout(_) => "receive timeout",
            ReconnectTError::HandshakeFailed => "handshake failed",
            ReconnectTError::SenderNotConnected => "sender not connected",
            ReconnectTError::TokioTungsteniteError(_) => "tokio_tungstenite error",
        }
    }
}

} // verus!
