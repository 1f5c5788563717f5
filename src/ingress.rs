//! Decisions of the data ingress: when to connect, disconnect and
//! reconnect, from socket events and commands.

use vstd::prelude::*;

verus! {

/// Immediate reconnects allowed after socket failures before waiting for a command.
pub const MAX_LOCAL_RECONNECT_ATTEMPTS: u32 = 3;
/// A socket silent for longer than this (milliseconds) is considered dead.
pub const SOCKET_HEALTH_TIMEOUT_MS: u64 = 10000;

/// Outcome of one non-blocking receive.
#[derive(Debug, Clone, Copy, PartialEq, Eq, Structural)]
pub enum RecvOutcome {
    /// Bytes arrived.
    Data,
    /// Nothing to read now.
    WouldBlock,
    /// The kernel's receive buffer overflowed (ENOBUFS).
    NoBuffers,
    /// Any other error.
    Failed,
}

/// What the ingress must do next.
#[derive(Debug, Clone, Copy, PartialEq, Eq, Structural)]
pub enum IngressAction {
    /// Nothing.
    Continue,
    /// Open a socket.
    Connect,
    /// Close the socket.
    Disconnect,
    /// Close the socket and open a new one at once.
    Reconnect,
}

/// Connection state of the data ingress.
#[derive(Debug, Clone, Copy, PartialEq, Eq, Structural)]
pub struct IngressState {
    pub connected: bool,
    pub consecutive_failures: u32,
    /// Time of the last successful receive on the open socket, or of its
    /// connection when nothing was received yet, in milliseconds.
    pub last_data_ms: Option<u64>,
}

/// Whether an open socket has been silent past the health timeout.
pub open spec fn stale(s: IngressState, now_ms: u64) -> bool {
    match s.last_data_ms {
        Some(t) => now_ms > t && now_ms - t > SOCKET_HEALTH_TIMEOUT_MS,
        None => false,
    }
}

impl IngressState {
    pub fn new() -> (r: Self)
        ensures
            !r.connected,
            r.consecutive_failures == 0,
            r.last_data_ms is None,
    {
        IngressState { connected: false, consecutive_failures: 0, last_data_ms: None }
    }

    /// A reconnect command: connect when disconnected, replace a stale
    /// socket, and leave a healthy one alone. The failure count restarts.
    pub fn on_reconnect_command(&mut self, now_ms: u64) -> (r: IngressAction)
        ensures
            final(self).consecutive_failures == 0,
            !old(self).connected ==> r == IngressAction::Connect,
            old(self).connected && stale(*old(self), now_ms) ==> r == IngressAction::Reconnect && final(self).last_data_ms is None,
            old(self).connected && !stale(*old(self), now_ms) ==> r == IngressAction::Continue
                && final(self).last_data_ms == old(self).last_data_ms,
            final(self).connected == old(self).connected,
    {
        self.consecutive_failures = 0;
        if !self.connected {
            return IngressAction::Connect;
        }
        match self.last_data_ms {
            Some(t) => {
                if now_ms > t && now_ms - t > SOCKET_HEALTH_TIMEOUT_MS {
                    self.last_data_ms = None;
                    IngressAction::Reconnect
                } else {
                    IngressAction::Continue
                }
            },
            None => IngressAction::Continue,
        }
    }

    /// The outcome of a connection attempt made at `now_ms`: an open socket
    /// starts its silence clock then.
    pub fn on_connect_result(&mut self, ok: bool, now_ms: u64)
        ensures
            final(self).connected == ok,
            final(self).last_data_ms == if ok { Some(now_ms) } else { None::<u64> },
            final(self).consecutive_failures == old(self).consecutive_failures,
    {
        self.connected = ok;
        self.last_data_ms = if ok { Some(now_ms) } else { None };
    }

    /// The health check, run on every pass of the receive loop: an open
    /// socket silent for more than the health timeout is replaced; anything
    /// else is left as it is.
    pub fn on_tick(&mut self, now_ms: u64) -> (r: IngressAction)
        ensures
            old(self).connected && stale(*old(self), now_ms) ==> r == IngressAction::Reconnect
                && final(self).last_data_ms is None && final(self).connected == old(self).connected
                && final(self).consecutive_failures == old(self).consecutive_failures,
            !(old(self).connected && stale(*old(self), now_ms)) ==> r == IngressAction::Continue
                && *final(self) == *old(self),
    {
        if !self.connected {
            return IngressAction::Continue;
        }
        match self.last_data_ms {
            Some(t) => {
                if now_ms > t && now_ms - t > SOCKET_HEALTH_TIMEOUT_MS {
                    self.last_data_ms = None;
                    IngressAction::Reconnect
                } else {
                    IngressAction::Continue
                }
            },
            None => IngressAction::Continue,
        }
    }

    /// The outcome of a receive on the open socket: data records the time and
    /// clears the failure count; nothing to read (`WouldBlock`) or a kernel
    /// overflow (`ENOBUFS`) changes nothing; any other failure, a zero-byte
    /// read included, closes the socket and, for the first three failures in a
    /// row, reopens it at once.
    pub fn on_recv(&mut self, outcome: RecvOutcome, now_ms: u64) -> (r: IngressAction)
        requires
            old(self).connected,
        ensures
            outcome == RecvOutcome::Data ==> r == IngressAction::Continue && final(self).connected
                && final(self).consecutive_failures == 0 && final(self).last_data_ms == Some(now_ms),
            (outcome == RecvOutcome::WouldBlock || outcome == RecvOutcome::NoBuffers) ==> r == IngressAction::Continue
                && *final(self) == *old(self),
            outcome == RecvOutcome::Failed ==> !final(self).connected && final(self).last_data_ms is None
                && final(self).consecutive_failures == if old(self).consecutive_failures == u32::MAX {
                    u32::MAX
                } else {
                    (old(self).consecutive_failures + 1) as u32
                }
                && r == if final(self).consecutive_failures <= MAX_LOCAL_RECONNECT_ATTEMPTS {
                    IngressAction::Reconnect
                } else {
                    IngressAction::Disconnect
                },
    {
        match outcome {
            RecvOutcome::Data => {
                self.consecutive_failures = 0;
                self.last_data_ms = Some(now_ms);
                IngressAction::Continue
            },
            RecvOutcome::WouldBlock => IngressAction::Continue,
            RecvOutcome::NoBuffers => IngressAction::Continue,
            RecvOutcome::Failed => {
                self.connected = false;
                self.last_data_ms = None;
                self.consecutive_failures = self.consecutive_failures.saturating_add(1);
                if self.consecutive_failures <= MAX_LOCAL_RECONNECT_ATTEMPTS {
                    IngressAction::Reconnect
                } else {
                    IngressAction::Disconnect
                }
            },
        }
    }
}

/// What the liveness controller knows of the data family.
#[derive(Debug, Clone, Copy, PartialEq, Eq, Structural)]
pub struct LivenessState {
    /// Whether the family was registered at the last poll.
    pub family_present: bool,
}

impl LivenessState {
    pub fn new(family_present: bool) -> (r: Self)
        ensures
            r.family_present == family_present,
    {
        LivenessState { family_present }
    }

    /// One step of the controller: `names_family` tells whether a control
    /// message named the family, `polled` is the result of a poll if one was
    /// made. A reconnect is due when a message named the family, or when a
    /// poll finds the family present after it was absent.
    pub fn on_event(&mut self, names_family: bool, polled: Option<bool>) -> (r: bool)
        ensures
            final(self).family_present == match polled {
                Some(e) => e,
                None => old(self).family_present,
            },
            r == (names_family || (polled == Some(true) && !old(self).family_present)),
    {
        let appeared = match polled {
            Some(e) => e && !self.family_present,
            None => false,
        };
        if let Some(e) = polled {
            self.family_present = e;
        }
        names_family || appeared
    }
}

} // verus!
