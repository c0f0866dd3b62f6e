use crate::status::WsStreamStatus;
use vstd::prelude::*;

verus! {

/// A status extension that remembers the latest connection status it has
/// observed. The host feeds it every status event from a status listener,
/// in order; `current_status` then answers without consulting the stream.
pub struct StatusViewer {
    current: WsStreamStatus,
}

impl StatusViewer {
    /// The latest status fed in, or the initial `Disconnected`.
    pub closed spec fn current(self) -> WsStreamStatus {
        self.current
    }

    /// Starts disconnected: that is what any listener observes before the
    /// engine posts anything.
    pub fn new() -> (r: Self)
        ensures
            r.current() == WsStreamStatus::Disconnected,
    {
        StatusViewer { current: WsStreamStatus::Disconnected }
    }

    /// The latest observed status.
    pub fn current_status(&self) -> (r: WsStreamStatus)
        ensures
            r == self.current(),
    {
        self.current
    }

    /// Records one status event from the stream: the newest one wins.
    pub fn on_status(&mut self, status: WsStreamStatus)
        ensures
            final(self).current() == status,
    {
        self.current = status;
    }
}

} // verus!
