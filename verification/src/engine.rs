use crate::config::ReconnectOptions;
use crate::errors::ReconnectTError;
use crate::event_listeners::ShareListener;
use crate::maybe_sender::MaybePSTSender;
use crate::request::ConnectRequest;
use crate::status::WsStreamStatus;
use crate::strategies::capped;
use crate::strategies::default_strategy;
use crate::strategies::delay_from;
use crate::strategies::draw_of;
use crate::strategies::step_base;
use crate::strategies::ExpBackoffIter;
use crate::strategies::SourceModel;
use crate::strategies::JITTER_UNIT;
use vstd::prelude::*;

verus! {

/// The engine's position in its state machine. It loops forever:
/// `Idle -> Connecting -> Handshaking -> Connected -> Draining ->
/// Connecting -> ...`; no failure is terminal.
#[derive(Clone, Copy, PartialEq, Eq, Structural, Debug)]
pub enum EngineState {
    /// Before the first connect burst.
    Idle,
    /// Repeating transport connect attempts with backoff.
    Connecting,
    /// Transport is up; the handshake gate has not passed yet.
    Handshaking,
    /// Handshake passed; the write half is installed and `Connected` was
    /// posted.
    Connected,
    /// The receive loop is consuming the read half.
    Draining,
}

/// How the receive loop's single wait resolved: an inbound frame, a
/// transport-level read error, a clean end of stream (peer closed), or the
/// idle timer firing first.
pub enum ReceiveEvent<M> {
    Frame(M),
    ReadError(tokio_tungstenite::tungstenite::Error),
    Closed,
    TimedOut,
}

/// The reconnection engine over one logical WebSocket connection. `S` is
/// the transport's write half, `M` its frame type; the engine never looks
/// inside either. The host owns the actual I/O: it performs connects,
/// handshakes, sleeps and reads, and drives this state machine with their
/// outcomes; every decision, status post and frame delivery happens here.
#[verifier::reject_recursive_types(M)]
pub struct ReconnectT<S, M> {
    pub request: ConnectRequest,
    pub option: ReconnectOptions,
    pub sender: MaybePSTSender<S>,
    pub receive_stream: ShareListener<M>,
    pub status_stream: ShareListener<WsStreamStatus>,
    pub state: EngineState,
    pub retry: ExpBackoffIter,
}

impl<S, M> ReconnectT<S, M> {
    /// The engine's invariant: both registries are well-formed, a write
    /// half is installed exactly while the engine is `Connected` or
    /// `Draining`, and the current burst follows the configured strategy.
    pub open spec fn wf(self) -> bool {
        &&& self.receive_stream.wf()
        &&& self.status_stream.wf()
        &&& (self.sender.connected() <==> (self.state is Connected || self.state is Draining))
        &&& self.retry.strategy == self.option.retries_to_attempt
    }

    /// Everything but the registries is as it was: used by the subscribe
    /// operations, which touch one registry and nothing else.
    pub open spec fn same_core(pre: Self, post: Self) -> bool {
        &&& post.request == pre.request
        &&& post.option == pre.option
        &&& post.sender == pre.sender
        &&& post.state == pre.state
        &&& post.retry == pre.retry
    }

    /// A fresh engine: configured (with the defaults where no options are
    /// given), idle, no write half, no listeners, nothing posted.
    pub fn new(request: ConnectRequest, option: Option<ReconnectOptions>) -> (r: Self)
        ensures
            r.wf(),
            r.request == request,
            option matches Some(o) ==> r.option == o,
            option is None ==> r.option.retries_to_attempt == default_strategy()
                && !r.option.exit_if_first_fails && r.option.receive_timeout_nanos
                == 20_000_000_000 && r.option.handshake_plan
                == crate::handshake::HandshakePlan::NoOp,
            r.state is Idle,
            !r.sender.connected(),
            r.receive_stream.allocated() == 0,
            r.receive_stream.ids() == Seq::<u64>::empty(),
            r.receive_stream.history() == Map::<u64, Seq<M>>::empty(),
            r.status_stream.allocated() == 0,
            r.status_stream.ids() == Seq::<u64>::empty(),
            r.status_stream.history() == Map::<u64, Seq<WsStreamStatus>>::empty(),
    {
        let option = match option {
            Some(o) => o,
            None => ReconnectOptions::default(),
        };
        let retry = option.retries_to_attempt_fn().into_iter();
        ReconnectT {
            request,
            option,
            sender: MaybePSTSender::default(),
            receive_stream: ShareListener::new(),
            status_stream: ShareListener::new(),
            state: EngineState::Idle,
            retry,
        }
    }

    /// Registers an inbound-message listener, valid across reconnects. It
    /// starts with an empty history: frames posted earlier are never
    /// observed by it.
    pub fn create_receive_stream(&mut self) -> (rx: tokio::sync::mpsc::UnboundedReceiver<M>)
        requires
            old(self).wf(),
            old(self).receive_stream.allocated() < u64::MAX,
        ensures
            final(self).wf(),
            Self::same_core(*old(self), *final(self)),
            final(self).status_stream == old(self).status_stream,
            final(self).receive_stream.allocated() == old(self).receive_stream.allocated() + 1,
            final(self).receive_stream.ids() == old(self).receive_stream.ids().push(
                old(self).receive_stream.allocated(),
            ),
            final(self).receive_stream.history() == old(self).receive_stream.history().insert(
                old(self).receive_stream.allocated(),
                Seq::<M>::empty(),
            ),
    {
        self.receive_stream.new_listener()
    }

    /// Registers a status listener, valid across reconnects. It starts with
    /// an empty history: transitions posted earlier are never observed.
    pub fn create_status_stream(&mut self) -> (rx: tokio::sync::mpsc::UnboundedReceiver<
        WsStreamStatus,
    >)
        requires
            old(self).wf(),
            old(self).status_stream.allocated() < u64::MAX,
        ensures
            final(self).wf(),
            Self::same_core(*old(self), *final(self)),
            final(self).receive_stream == old(self).receive_stream,
            final(self).status_stream.allocated() == old(self).status_stream.allocated() + 1,
            final(self).status_stream.ids() == old(self).status_stream.ids().push(
                old(self).status_stream.allocated(),
            ),
            final(self).status_stream.history() == old(self).status_stream.history().insert(
                old(self).status_stream.allocated(),
                Seq::<WsStreamStatus>::empty(),
            ),
    {
        self.status_stream.new_listener()
    }

    /// Starts a connect burst: clears the write half (defensively; it is
    /// already absent on first entry) and builds a fresh backoff iterator,
    /// so backoff never carries over between bursts.
    pub fn begin_connect(&mut self)
        requires
            old(self).wf(),
            old(self).state is Idle || old(self).state is Connecting,
        ensures
            final(self).wf(),
            final(self).state is Connecting,
            !final(self).sender.connected(),
            final(self).retry.cur_base == old(self).option.retries_to_attempt.min_nanos,
            final(self).retry.strategy == old(self).option.retries_to_attempt,
            old(self).option.retries_to_attempt.seed matches Some(s)
                ==> final(self).retry.source.model() == (SourceModel {
                seed: Option::Some(s),
                taken: 0,
            }),
            final(self).request == old(self).request,
            final(self).option == old(self).option,
            final(self).receive_stream == old(self).receive_stream,
            final(self).status_stream == old(self).status_stream,
    {
        self.sender.reset_sender();
        self.retry = self.option.retries_to_attempt_fn().into_iter();
        self.state = EngineState::Connecting;
    }

    /// One failed transport connect attempt: the burst stays in
    /// `Connecting` and yields the wait before the next attempt, taken from
    /// the backoff iterator — never above the ceiling, and exactly the
    /// capped base when the jitter fraction is zero.
    pub fn on_connect_failure(&mut self) -> (delay: u64)
        requires
            old(self).wf(),
            old(self).state is Connecting,
        ensures
            final(self).wf(),
            final(self).state is Connecting,
            !final(self).sender.connected(),
            final(self).retry.cur_base == step_base(
                old(self).retry.cur_base,
                old(self).option.retries_to_attempt.factor_centi,
            ),
            exists|u: int|
                -(JITTER_UNIT as int) <= u <= JITTER_UNIT as int && delay == delay_from(
                    old(self).retry.cur_base,
                    old(self).option.retries_to_attempt.jitter_milli,
                    old(self).option.retries_to_attempt.max_nanos,
                    u,
                ),
            old(self).option.retries_to_attempt.max_nanos matches Some(c) ==> delay <= c,
            old(self).option.retries_to_attempt.jitter_milli == 0 ==> delay == capped(
                old(self).retry.cur_base,
                old(self).option.retries_to_attempt.max_nanos,
            ),
            final(self).retry.source.model().seed == old(self).retry.source.model().seed,
            final(self).retry.source.model().taken == old(self).retry.source.model().taken + 1,
            old(self).retry.source.model().seed matches Some(s) ==> delay == delay_from(
                old(self).retry.cur_base,
                old(self).option.retries_to_attempt.jitter_milli,
                old(self).option.retries_to_attempt.max_nanos,
                draw_of(s, old(self).retry.source.model().taken),
            ),
            final(self).request == old(self).request,
            final(self).option == old(self).option,
            final(self).sender == old(self).sender,
            final(self).receive_stream == old(self).receive_stream,
            final(self).status_stream == old(self).status_stream,
    {
        self.retry.next()
    }

    /// The transport connect succeeded: move to the handshake gate. The
    /// write half is not installed yet — sends still fail fast.
    pub fn on_connect_success(&mut self)
        requires
            old(self).wf(),
            old(self).state is Connecting,
        ensures
            final(self).wf(),
            final(self).state is Handshaking,
            !final(self).sender.connected(),
            final(self).request == old(self).request,
            final(self).option == old(self).option,
            final(self).sender == old(self).sender,
            final(self).retry == old(self).retry,
            final(self).receive_stream == old(self).receive_stream,
            final(self).status_stream == old(self).status_stream,
    {
        self.state = EngineState::Handshaking;
    }

    /// Turns the handshake outcome into the engine verdict. On success the
    /// engine stands ready for promotion; failure is absorbed as
    /// `HandshakeFailed` and sends the engine back to `Connecting` — the
    /// halves are discarded and the next burst starts from scratch.
    pub fn handshake(&mut self, ok: bool) -> (r: Result<(), ReconnectTError>)
        requires
            old(self).wf(),
            old(self).state is Handshaking,
        ensures
            final(self).wf(),
            ok <==> r is Ok,
            ok ==> final(self).state is Handshaking,
            !ok ==> (r matches Err(e) && e is HandshakeFailed) && final(self).state is Connecting,
            !final(self).sender.connected(),
            final(self).request == old(self).request,
            final(self).option == old(self).option,
            final(self).sender == old(self).sender,
            final(self).retry == old(self).retry,
            final(self).receive_stream == old(self).receive_stream,
            final(self).status_stream == old(self).status_stream,
    {
        if ok {
            Ok(())
        } else {
            self.state = EngineState::Connecting;
            Err(ReconnectTError::HandshakeFailed)
        }
    }

    /// Promotion: the handshake passed, so the write half is installed —
    /// sends reach the transport from here on — and every registered status
    /// listener is told `Connected`, in posting order.
    pub fn on_handshake_success(&mut self, sender: S)
        requires
            old(self).wf(),
            old(self).state is Handshaking,
        ensures
            final(self).wf(),
            final(self).state is Connected,
            final(self).sender.sender() == Option::Some(sender),
            ShareListener::<WsStreamStatus>::notified(
                old(self).status_stream,
                final(self).status_stream,
                WsStreamStatus::Connected,
            ),
            final(self).request == old(self).request,
            final(self).option == old(self).option,
            final(self).retry == old(self).retry,
            final(self).receive_stream == old(self).receive_stream,
    {
        self.sender.set_sender(sender);
        self.status_stream.notify(WsStreamStatus::Connected);
        self.state = EngineState::Connected;
    }

    /// Hands the read half to the receive loop: the engine is draining the
    /// connection until a frame gap, read error or peer close ends it.
    pub fn begin_receive(&mut self)
        requires
            old(self).wf(),
            old(self).state is Connected,
        ensures
            final(self).wf(),
            final(self).state is Draining,
            final(self).request == old(self).request,
            final(self).option == old(self).option,
            final(self).sender == old(self).sender,
            final(self).retry == old(self).retry,
            final(self).receive_stream == old(self).receive_stream,
            final(self).status_stream == old(self).status_stream,
    {
        self.state = EngineState::Draining;
    }

    /// Ends the receive loop whatever the cause: the write half comes out,
    /// every registered status listener is told `Disconnected`, and the
    /// engine stands at `Connecting` for the next burst.
    fn end_receive(&mut self)
        requires
            old(self).wf(),
            old(self).state is Draining,
        ensures
            final(self).wf(),
            final(self).state is Connecting,
            !final(self).sender.connected(),
            ShareListener::<WsStreamStatus>::notified(
                old(self).status_stream,
                final(self).status_stream,
                WsStreamStatus::Disconnected,
            ),
            final(self).request == old(self).request,
            final(self).option == old(self).option,
            final(self).retry == old(self).retry,
            final(self).receive_stream == old(self).receive_stream,
    {
        self.sender.reset_sender();
        self.status_stream.notify(WsStreamStatus::Disconnected);
        self.state = EngineState::Connecting;
    }

    /// One resolution of the receive loop's wait. A frame is posted to
    /// every registered message listener and the loop goes on (the host
    /// rearms the idle timer to a full interval). A read error, a clean
    /// close or an idle timeout each end the loop: `Disconnected` is
    /// posted, the write half comes out, and the loop's verdict is
    /// returned — the error value for a read error, success for a clean
    /// close, `ReceiveTimeout` with the configured timeout for the timer.
    pub fn receive_step(&mut self, event: ReceiveEvent<M>) -> (r: Option<
        Result<(), ReconnectTError>,
    >) where M: Clone
        requires
            old(self).wf(),
            old(self).state is Draining,
        ensures
            final(self).wf(),
            final(self).request == old(self).request,
            final(self).option == old(self).option,
            final(self).retry == old(self).retry,
            r is None <==> event is Frame,
            event matches ReceiveEvent::Frame(m) ==> final(self).state is Draining
                && ShareListener::<M>::notified(
                old(self).receive_stream,
                final(self).receive_stream,
                m,
            ) && final(self).status_stream == old(self).status_stream && final(self).sender == old(
                self,
            ).sender,
            !(event is Frame) ==> final(self).state is Connecting
                && !final(self).sender.connected() && final(self).receive_stream == old(
                self,
            ).receive_stream && ShareListener::<WsStreamStatus>::notified(
                old(self).status_stream,
                final(self).status_stream,
                WsStreamStatus::Disconnected,
            ),
            event matches ReceiveEvent::ReadError(e) ==> (r matches Some(v) && v matches Err(err)
                && err matches ReconnectTError::TokioTungsteniteError(w) && w == e),
            event is Closed ==> r == Some(Result::<(), ReconnectTError>::Ok(())),
            event is TimedOut ==> r == Some(
                Result::<(), ReconnectTError>::Err(
                    ReconnectTError::ReceiveTimeout(old(self).option.receive_timeout_nanos),
                ),
            ),
    {
        match event {
            ReceiveEvent::Frame(m) => {
                self.receive_stream.notify(m);
                None
            },
            ReceiveEvent::ReadError(e) => {
                self.end_receive();
                Some(Err(ReconnectTError::TokioTungsteniteError(e)))
            },
            ReceiveEvent::Closed => {
                self.end_receive();
                Some(Ok(()))
            },
            ReceiveEvent::TimedOut => {
                let timeout = self.option.receive_timeout();
                self.end_receive();
                Some(Err(ReconnectTError::ReceiveTimeout(timeout)))
            },
        }
    }
}

/// Launching the engine's `run` loop as a background task of the host: the
/// loop never returns, and cancelling that task is the only way to stop the
/// engine.
pub trait ArcReconnectTExt {
    fn spawn_run(&self);
}

} // verus!
