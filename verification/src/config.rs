use crate::handshake::HandshakePlan;
use crate::strategies::default_strategy;
use crate::strategies::ExpBackoffStrategy;
use vstd::prelude::*;

verus! {

/// Configuration of the reconnection engine, immutable once the engine
/// runs: the backoff strategy rebuilt fresh for every connect burst, the
/// idle-receive timeout (nanoseconds, default twenty seconds), the handshake
/// plan (default: no-op), and whether a failing first connect should stop
/// the engine (kept for completeness; the engine retries forever).
#[derive(Clone, Copy, Debug)]
pub struct ReconnectOptions {
    pub retries_to_attempt: ExpBackoffStrategy,
    pub exit_if_first_fails: bool,
    pub receive_timeout_nanos: u64,
    pub handshake_plan: HandshakePlan,
}

impl ReconnectOptions {
    /// The strategy from which a fresh backoff iterator is built at the
    /// start of every connect burst.
    pub fn retries_to_attempt_fn(&self) -> (r: ExpBackoffStrategy)
        ensures
            r == self.retries_to_attempt,
    {
        self.retries_to_attempt
    }

    /// Whether a failing first connect should stop the engine.
    pub fn exit_if_first_connect_fails(&self) -> (r: bool)
        ensures
            r == self.exit_if_first_fails,
    {
        self.exit_if_first_fails
    }

    /// The idle-receive timeout in nanoseconds.
    pub fn receive_timeout(&self) -> (r: u64)
        ensures
            r == self.receive_timeout_nanos,
    {
        self.receive_timeout_nanos
    }

    /// The configured handshake plan.
    pub fn handshake(&self) -> (r: HandshakePlan)
        ensures
            r == self.handshake_plan,
    {
        self.handshake_plan
    }

    /// Replaces the handshake plan.
    pub fn with_handshake(self, handshake_plan: HandshakePlan) -> (r: Self)
        ensures
            r == (ReconnectOptions { handshake_plan, ..self }),
    {
        Self { handshake_plan, ..self }
    }

    /// Replaces the idle-receive timeout (nanoseconds).
    pub fn with_receive_timeout(self, receive_timeout_nanos: u64) -> (r: Self)
        ensures
            r == (ReconnectOptions { receive_timeout_nanos, ..self }),
    {
        Self { receive_timeout_nanos, ..self }
    }

    /// Finishes the builder chain.
    pub fn build(self) -> (r: Self)
        ensures
            r == self,
    {
        self
    }
}

impl Default for ReconnectOptions {
    /// Default backoff strategy, twenty-second idle timeout, no-op
    /// handshake, retry forever.
    fn default() -> (r: Self)
        ensures
            r.retries_to_attempt == default_strategy(),
            !r.exit_if_first_fails,
            r.receive_timeout_nanos == 20_000_000_000,
            r.handshake_plan == HandshakePlan::NoOp,
    {
        Self {
            retries_to_attempt: ExpBackoffStrategy::default(),
            exit_if_first_fails: false,
            receive_timeout_nanos: 20_000_000_000,
            handshake_plan: HandshakePlan::NoOp,
        }
    }
}

} // verus!
