use vstd::prelude::*;

verus! {

/// What a handshake implementation does with the live halves, decided before
/// any I/O: either nothing, or one greeting frame sent and one reply frame
/// consumed and discarded. The host executes the plan against the real
/// stream and reports the outcome; any internal error counts as failure,
/// never as a propagated transport error.
#[derive(Clone, Copy, PartialEq, Eq, Structural, Debug)]
pub enum HandshakePlan {
    /// Succeed immediately without touching the stream.
    NoOp,
    /// Send one fixed greeting frame, read exactly one reply frame and
    /// discard its content, then succeed.
    SingleGreeting,
}

/// The default handshake: a no-op that always succeeds immediately, for
/// protocols that need no application-level negotiation.
pub struct NonHandshake;

impl NonHandshake {
    /// A `NonHandshake` never touches the stream.
    pub fn plan(&self) -> (p: HandshakePlan)
        ensures
            p == HandshakePlan::NoOp,
    {
        HandshakePlan::NoOp
    }
}

/// A reference handshake illustrating the extension point: one greeting
/// frame out, one reply frame in (content discarded), then success.
pub struct SingleHandshake;

impl SingleHandshake {
    /// A `SingleHandshake` exchanges exactly one frame each way.
    pub fn plan(&self) -> (p: HandshakePlan)
        ensures
            p == HandshakePlan::SingleGreeting,
    {
        HandshakePlan::SingleGreeting
    }

    /// The text of the greeting frame.
    pub fn greeting(&self) -> (s: &'static str)
        ensures
            s@ == "hello world"@,
    {
        "hello world"
    }
}

} // verus!
