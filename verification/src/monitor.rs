//! Control state of the event watch loop.
//!
//! The loop itself performs network reads and sleeps, which live with the
//! caller; every decision the loop takes — when to reconnect, how long to
//! back off, when to give up — is made here, as a verified transition
//! function from control state and stream signal to next state and
//! action.

use vstd::prelude::*;

verus! {

/// How many consecutive connection failures are tolerated before the
/// monitor reports a fatal condition instead of retrying.
pub const MAX_CONSECUTIVE_FAILURES: u32 = 5;

/// The control state of the watch loop.
#[derive(Clone, Copy, Debug, PartialEq, Eq, Structural)]
pub enum MonitorState {
    /// No event subscription is open.
    Idle,
    /// An event subscription is open and being read.
    Streaming,
    /// A fatal condition was reported; the loop is over.
    Terminated,
}

/// What the event stream delivered to the loop.
#[derive(Clone, Copy, Debug, PartialEq, Eq, Structural)]
pub enum StreamSignal {
    /// A subscription was opened.
    Opened,
    /// One event arrived.
    Delivered,
    /// The stream ended without an error.
    Ended,
    /// The stream, or the attempt to open one, failed.
    Failed,
}

/// What the loop is to do next.
#[derive(Clone, Copy, Debug, PartialEq, Eq, Structural)]
pub enum MonitorAction {
    /// Open an event subscription.
    Connect,
    /// Wait this many milliseconds, then open a subscription.
    Backoff { millis: u64 },
    /// Apply the delivered event to the registry.
    Process,
    /// Keep reading the open stream.
    KeepReading,
    /// Report a fatal condition upward; the loop is over.
    GiveUp,
}

/// The watch loop's control state: where it stands and how many
/// consecutive failures it has seen since the last healthy signal.
#[derive(Clone, Copy, Debug, PartialEq, Eq, Structural)]
pub struct Monitor {
    pub state: MonitorState,
    pub consecutive_failures: u32,
}

/// The bounded backoff delay after the `f`-th consecutive failure:
/// half a second, doubled per failure, capped at thirty seconds.
pub open spec fn spec_backoff_millis(f: u32) -> u64 {
    if f <= 1 {
        500
    } else if f == 2 {
        1000
    } else if f == 3 {
        2000
    } else if f == 4 {
        4000
    } else if f == 5 {
        8000
    } else if f == 6 {
        16000
    } else {
        30000
    }
}

/// What one failure makes of the monitor: count it, and either back off
/// and retry from `Idle`, or — at the failure threshold — terminate.
/// The threshold exists so that a persistent inability to reconnect is
/// reported upward rather than retried silently forever.
pub open spec fn spec_fail_step(m: Monitor) -> (Monitor, MonitorAction) {
    let f = if m.consecutive_failures < MAX_CONSECUTIVE_FAILURES {
        (m.consecutive_failures + 1) as u32
    } else {
        m.consecutive_failures
    };
    if f >= MAX_CONSECUTIVE_FAILURES {
        (Monitor { state: MonitorState::Terminated, consecutive_failures: f }, MonitorAction::GiveUp)
    } else {
        (
            Monitor { state: MonitorState::Idle, consecutive_failures: f },
            MonitorAction::Backoff { millis: spec_backoff_millis(f) },
        )
    }
}

/// The transition relation of the watch loop.
///
/// `Idle` leaves on `Opened` (to `Streaming`, failures forgiven);
/// `Streaming` processes deliveries, returns to `Idle` on a clean stream
/// end (reconnecting resumes the watch — it does not repeat population),
/// and counts a failure on a broken one; `Terminated` is absorbing.
pub open spec fn spec_step(m: Monitor, s: StreamSignal) -> (Monitor, MonitorAction) {
    match m.state {
        MonitorState::Terminated => (m, MonitorAction::GiveUp),
        MonitorState::Idle => match s {
            StreamSignal::Opened => (
                Monitor { state: MonitorState::Streaming, consecutive_failures: 0 },
                MonitorAction::KeepReading,
            ),
            StreamSignal::Delivered => (m, MonitorAction::Connect),
            StreamSignal::Ended => (m, MonitorAction::Connect),
            StreamSignal::Failed => spec_fail_step(m),
        },
        MonitorState::Streaming => match s {
            StreamSignal::Opened => (m, MonitorAction::KeepReading),
            StreamSignal::Delivered => (
                Monitor { state: MonitorState::Streaming, consecutive_failures: 0 },
                MonitorAction::Process,
            ),
            StreamSignal::Ended => (
                Monitor { state: MonitorState::Idle, consecutive_failures: m.consecutive_failures },
                MonitorAction::Connect,
            ),
            StreamSignal::Failed => spec_fail_step(
                Monitor { state: MonitorState::Idle, consecutive_failures: m.consecutive_failures },
            ),
        },
    }
}

impl Monitor {
    /// A fresh monitor: idle, with no failures on record.
    pub fn new() -> (m: Monitor)
        ensures
            m == (Monitor { state: MonitorState::Idle, consecutive_failures: 0 }),
    {
        Monitor { state: MonitorState::Idle, consecutive_failures: 0 }
    }

    /// Advance the control state by one stream signal and say what the
    /// loop is to do next.
    pub fn step(&mut self, signal: StreamSignal) -> (a: MonitorAction)
        ensures
            *final(self) == spec_step(*old(self), signal).0,
            a == spec_step(*old(self), signal).1,
    {
        match self.state {
            MonitorState::Terminated => MonitorAction::GiveUp,
            MonitorState::Idle => match signal {
                StreamSignal::Opened => {
                    self.state = MonitorState::Streaming;
                    self.consecutive_failures = 0;
                    MonitorAction::KeepReading
                },
                StreamSignal::Delivered => MonitorAction::Connect,
                StreamSignal::Ended => MonitorAction::Connect,
                StreamSignal::Failed => self.fail_step(),
            },
            MonitorState::Streaming => match signal {
                StreamSignal::Opened => MonitorAction::KeepReading,
                StreamSignal::Delivered => {
                    self.consecutive_failures = 0;
                    MonitorAction::Process
                },
                StreamSignal::Ended => {
                    self.state = MonitorState::Idle;
                    MonitorAction::Connect
                },
                StreamSignal::Failed => {
                    self.state = MonitorState::Idle;
                    self.fail_step()
                },
            },
        }
    }

    /// Count one failure and decide between backing off and giving up.
    fn fail_step(&mut self) -> (a: MonitorAction)
        requires
            old(self).state == MonitorState::Idle,
        ensures
            *final(self) == spec_fail_step(*old(self)).0,
            a == spec_fail_step(*old(self)).1,
    {
        if self.consecutive_failures < MAX_CONSECUTIVE_FAILURES {
            self.consecutive_failures = self.consecutive_failures + 1;
        }
        if self.consecutive_failures >= MAX_CONSECUTIVE_FAILURES {
            self.state = MonitorState::Terminated;
            MonitorAction::GiveUp
        } else {
            let millis = Monitor::backoff_millis(self.consecutive_failures);
            MonitorAction::Backoff { millis }
        }
    }

    /// The bounded backoff delay after the `f`-th consecutive failure.
    pub fn backoff_millis(f: u32) -> (r: u64)
        ensures
            r == spec_backoff_millis(f),
    {
        if f <= 1 {
            500
        } else if f == 2 {
            1000
        } else if f == 3 {
            2000
        } else if f == 4 {
            4000
        } else if f == 5 {
            8000
        } else if f == 6 {
            16000
        } else {
            30000
        }
    }
}

} // verus!
