use crate::errors::ReconnectTError;
use vstd::prelude::*;

verus! {

/// The contents of the outbound slot: either an active write half or none.
/// The write half's type is the caller's: the library never looks inside it.
pub enum OptPSTSender<S> {
    Present(S),
    Absent,
}

/// Relies on std's `mem::replace`: moves the new value in and returns the
/// previous one.
pub assume_specification<T>[ core::mem::replace ](dest: &mut T, src: T) -> (r: T)
    ensures
        *final(dest) == src,
        r == *old(dest),
;

impl<S> OptPSTSender<S> {
    /// Takes the write half out for one send. Absent means the caller gets
    /// `SenderNotConnected` at once: a send issued while no half is installed
    /// never silently succeeds.
    pub fn take(&mut self) -> (r: Result<S, ReconnectTError>)
        ensures
            *final(self) is Absent,
            r is Ok <==> *old(self) is Present,
            *old(self) matches OptPSTSender::Present(s) ==> (r matches Ok(v) && v == s),
            *old(self) is Absent ==> (r matches Err(e) && e is SenderNotConnected),
    {
        let prev = std::mem::replace(self, OptPSTSender::Absent);
        match prev {
            OptPSTSender::Present(s) => Ok(s),
            OptPSTSender::Absent => Err(ReconnectTError::SenderNotConnected),
        }
    }
}

/// Holds at most one live write half, tagged present or absent. The engine
/// is the only writer (`set_sender` on promotion, `reset_sender` on
/// teardown); senders call `take_for_send` / `finish_send` around the one
/// underlying write. The caller serialises these operations behind a single
/// exclusion boundary; this type gives each operation an exact meaning.
pub struct MaybePSTSender<S> {
    inner: OptPSTSender<S>,
}

impl<S> MaybePSTSender<S> {
    /// The installed write half, if any.
    pub closed spec fn sender(self) -> Option<S> {
        match self.inner {
            OptPSTSender::Present(s) => Option::Some(s),
            OptPSTSender::Absent => Option::None,
        }
    }

    /// Whether a write half is installed.
    pub open spec fn connected(self) -> bool {
        self.sender() is Some
    }

    /// Installs a write half, replacing any previous one.
    pub fn set_sender(&mut self, sender: S)
        ensures
            final(self).sender() == Option::Some(sender),
    {
        self.inner = OptPSTSender::Present(sender);
    }

    /// Clears the slot: subsequent sends fail fast with `SenderNotConnected`.
    pub fn reset_sender(&mut self)
        ensures
            final(self).sender() is None,
    {
        self.inner = OptPSTSender::Absent;
    }

    /// Whether a send issued now would reach a write half.
    pub fn is_connected(&self) -> (r: bool)
        ensures
            r == self.connected(),
    {
        match &self.inner {
            OptPSTSender::Present(_) => true,
            OptPSTSender::Absent => false,
        }
    }

    /// First half of one send: takes the write half out, or fails fast with
    /// `SenderNotConnected` when the slot is absent — and only then. The
    /// caller performs the underlying write with the taken half and hands it
    /// back through `finish_send`.
    pub fn take_for_send(&mut self) -> (r: Result<S, ReconnectTError>)
        ensures
            final(self).sender() is None,
            r is Ok <==> old(self).connected(),
            old(self).sender() matches Some(s) ==> r matches Ok(v) && v == s,
            !old(self).connected() ==> (r matches Err(e) && e is SenderNotConnected),
    {
        self.inner.take()
    }

    /// Second half of one send: reinstalls the write half — a failed write
    /// does not tear the connection down here, only the receive loop reacts
    /// to link failure — and maps the write outcome, wrapping a
    /// transport error as `TokioTungsteniteError`.
    pub fn finish_send(
        &mut self,
        sender: S,
        write_result: Result<(), tokio_tungstenite::tungstenite::Error>,
    ) -> (r: Result<(), ReconnectTError>)
        ensures
            final(self).sender() == Option::Some(sender),
            write_result is Ok ==> r is Ok,
            write_result matches Err(e) ==> r matches Err(
                ReconnectTError::TokioTungsteniteError(w),
            ) && w == e,
    {
        self.inner = OptPSTSender::Present(sender);
        match write_result {
            Ok(_) => Ok(()),
            Err(e) => Err(ReconnectTError::TokioTungsteniteError(e)),
        }
    }
}

impl<S> Default for MaybePSTSender<S> {
    /// Starts absent: nothing is connected until the engine installs a half.
    fn default() -> (r: Self)
        ensures
            r.sender() is None,
    {
        MaybePSTSender { inner: OptPSTSender::Absent }
    }
}

} // verus!
