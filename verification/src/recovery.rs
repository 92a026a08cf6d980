//! Recovery from a lost network path.
//!
//! When a stream fails because the network is unreachable while the device
//! still reports a network, the connection is told, after a delay, to recover
//! its sockets. The delay doubles after each recovery, up to a maximum, and
//! starts over once the connection is established again or the connectivity
//! changes. Times and durations are in nanoseconds.
use vstd::prelude::*;
use crate::api::ConnectivityEvent;
use crate::io::{IoErrorKind, StreamId};

verus! {

/// Delay before the first recovery, by default (one second).
pub const DEFAULT_INITIAL_BACKOFF_NANOS: u64 = 1_000_000_000;

/// Longest delay before a recovery, by default (one minute).
pub const DEFAULT_MAX_BACKOFF_NANOS: u64 = 60_000_000_000;

/// Decides when the connection is to recover from an unreachable network.
pub struct NetworkRecoveryHandler {
    network_available: bool,
    initial_backoff: u64,
    max_backoff: u64,
    backoff: u64,
    deadline: Option<u64>,
}

pub struct NetworkRecoveryView {
    pub network_available: bool,
    pub initial_backoff: u64,
    pub max_backoff: u64,
    /// The delay the next recovery is scheduled with.
    pub backoff: u64,
    /// When the scheduled recovery is due, if one is scheduled.
    pub deadline: Option<u64>,
}

impl View for NetworkRecoveryHandler {
    type V = NetworkRecoveryView;

    closed spec fn view(&self) -> NetworkRecoveryView {
        NetworkRecoveryView {
            network_available: self.network_available,
            initial_backoff: self.initial_backoff,
            max_backoff: self.max_backoff,
            backoff: self.backoff,
            deadline: self.deadline,
        }
    }
}

/// Twice the delay, capped at the maximum.
pub open spec fn doubled_backoff(backoff: u64, max: u64) -> u64 {
    if backoff as int * 2 <= max as int {
        (backoff * 2) as u64
    } else {
        max
    }
}

/// A time plus a delay, saturating at the largest time.
pub open spec fn time_after(now: u64, delay: u64) -> u64 {
    if now as int + delay as int <= u64::MAX {
        (now + delay) as u64
    } else {
        u64::MAX
    }
}

/// Whether a stream error shows that the network cannot be reached.
pub open spec fn is_network_error(kind: IoErrorKind) -> bool {
    kind == IoErrorKind::NetworkUnreachable
}

impl NetworkRecoveryHandler {
    /// The invariant: the delay never exceeds the maximum.
    pub open spec fn wf(&self) -> bool {
        self@.initial_backoff <= self@.max_backoff && self@.backoff <= self@.max_backoff
    }

    /// A handler with the given delays and nothing scheduled.
    pub fn new_with_backoff(network_available: bool, initial_backoff: u64, max_backoff: u64) -> (h: NetworkRecoveryHandler)
        requires
            initial_backoff <= max_backoff,
        ensures
            h.wf(),
            h@ == (NetworkRecoveryView {
                network_available,
                initial_backoff,
                max_backoff,
                backoff: initial_backoff,
                deadline: None,
            }),
    {
        NetworkRecoveryHandler { network_available, initial_backoff, max_backoff, backoff: initial_backoff, deadline: None }
    }

    /// A handler with the default delays and nothing scheduled.
    pub fn new(network_available: bool) -> (h: NetworkRecoveryHandler)
        ensures
            h.wf(),
            h@ == (NetworkRecoveryView {
                network_available,
                initial_backoff: DEFAULT_INITIAL_BACKOFF_NANOS,
                max_backoff: DEFAULT_MAX_BACKOFF_NANOS,
                backoff: DEFAULT_INITIAL_BACKOFF_NANOS,
                deadline: None,
            }),
    {
        Self::new_with_backoff(network_available, DEFAULT_INITIAL_BACKOFF_NANOS, DEFAULT_MAX_BACKOFF_NANOS)
    }

    /// Records a failed stream operation at `now`: where the network is
    /// reported available but cannot be reached, a recovery is scheduled after
    /// the current delay, unless one is scheduled already.
    pub fn on_stream_error(&mut self, stream_id: StreamId, error_kind: IoErrorKind, now: u64)
        requires
            old(self).wf(),
        ensures
            final(self).wf(),
            final(self)@ == if old(self)@.network_available && is_network_error(error_kind)
                && old(self)@.deadline is None {
                NetworkRecoveryView { deadline: Some(time_after(now, old(self)@.backoff)), ..old(self)@ }
            } else {
                old(self)@
            },
    {
        let is_network_error = match error_kind {
            IoErrorKind::NetworkUnreachable => true,
            _ => false,
        };
        if self.network_available && is_network_error && self.deadline.is_none() {
            self.deadline = Some(self.backoff.saturating_add(now));
        }
    }

    /// Whether the scheduled recovery is to be carried out at `now`: one is
    /// scheduled, due, and the network is available. Carrying it out clears
    /// it and doubles the delay, up to the maximum.
    pub fn on_resumed(&mut self, now: u64) -> (notify: bool)
        requires
            old(self).wf(),
        ensures
            final(self).wf(),
            notify == (old(self)@.network_available && (old(self)@.deadline is Some && now >= old(self)@.deadline.unwrap())),
            notify ==> final(self)@ == (NetworkRecoveryView {
                deadline: None,
                backoff: doubled_backoff(old(self)@.backoff, old(self)@.max_backoff),
                ..old(self)@
            }),
            !notify ==> final(self)@ == old(self)@,
    {
        let due = match self.deadline {
            Some(d) => now >= d,
            None => false,
        };
        if self.network_available && due {
            self.deadline = None;
            self.backoff = if self.backoff <= self.max_backoff / 2 {
                self.backoff * 2
            } else {
                self.max_backoff
            };
            true
        } else {
            false
        }
    }

    /// How long until the scheduled recovery is due (zero once it is), if
    /// one is scheduled.
    pub fn wakeup_delay(&self, now: u64) -> (d: Option<u64>)
        ensures
            match self@.deadline {
                Some(deadline) => d == Some(if deadline >= now { (deadline - now) as u64 } else { 0u64 }),
                None => d is None,
            },
    {
        match self.deadline {
            Some(deadline) => Some(deadline.saturating_sub(now)),
            None => None,
        }
    }

    /// A socket opened: the network can be reached, nothing is scheduled.
    pub fn on_successful_socket_open(&mut self)
        ensures
            final(self)@ == (NetworkRecoveryView { deadline: None, ..old(self)@ }),
    {
        self.deadline = None;
    }

    /// The connection is established: nothing is scheduled and the delay
    /// starts over.
    pub fn on_connected(&mut self)
        requires
            old(self).wf(),
        ensures
            final(self).wf(),
            final(self)@ == (NetworkRecoveryView {
                deadline: None,
                backoff: old(self)@.initial_backoff,
                ..old(self)@
            }),
    {
        self.deadline = None;
        self.backoff = self.initial_backoff;
    }

    /// The connectivity changed: the network is available unless it went
    /// down; nothing is scheduled and the delay starts over.
    pub fn on_connectivity_change(&mut self, event: ConnectivityEvent)
        requires
            old(self).wf(),
        ensures
            final(self).wf(),
            final(self)@ == (NetworkRecoveryView {
                network_available: event != ConnectivityEvent::Down,
                deadline: None,
                backoff: old(self)@.initial_backoff,
                ..old(self)@
            }),
    {
        self.network_available = match event {
            ConnectivityEvent::Down => false,
            _ => true,
        };
        self.deadline = None;
        self.backoff = self.initial_backoff;
    }
}

/// Law: the delay before a recovery doubles with each recovery until it
/// reaches the maximum, and then stays there; it never exceeds the maximum.
pub proof fn lemma_backoff_bounded(backoff: u64, max: u64)
    requires
        backoff <= max,
    ensures
        doubled_backoff(backoff, max) <= max,
        doubled_backoff(backoff, max) >= backoff,
        backoff as int * 2 <= max ==> doubled_backoff(backoff, max) == backoff * 2,
        backoff == max ==> doubled_backoff(backoff, max) == max,
{
}

/// Law: only an unreachable network calls for a recovery; other stream
/// errors (a refused or reset connection, an unreachable host, a timeout...)
/// do not. A recovery is due the current delay after the error, or at the
/// largest time where that would overflow.
pub proof fn lemma_recovery_trigger(kind: IoErrorKind, now: u64, delay: u64)
    ensures
        is_network_error(kind) <==> kind == IoErrorKind::NetworkUnreachable,
        now as int + delay as int <= u64::MAX ==> time_after(now, delay) == now + delay,
        now as int + delay as int > u64::MAX ==> time_after(now, delay) == u64::MAX,
        time_after(now, delay) >= now,
{
}

} // verus!
