use vstd::prelude::*;

verus! {

/// A local wall-clock reading, as the prober's clock gave it.
#[derive(Clone, Copy, Debug, PartialEq, Eq, Structural)]
pub struct Stamp {
    pub year: i32,
    pub month: u8,
    pub day: u8,
    pub hour: u8,
    pub minute: u8,
    pub second: u8,
}

impl Stamp {
    /// The reading that stands in for every reading when timing is ignored.
    pub open spec fn blank() -> Stamp {
        Stamp { year: 0, month: 0, day: 0, hour: 0, minute: 0, second: 0 }
    }
}

/// Severity of a log record.
#[derive(Clone, Copy, Debug, PartialEq, Eq, Structural)]
pub enum Level {
    Info,
    Warn,
    Error,
}

/// One log record of a cycle. `elapsed_ms` is the latency of the request the
/// record reports on.
#[derive(Clone, Debug)]
pub enum LogEntry {
    /// A cycle begins at `at`.
    CycleStarted { at: Stamp },
    /// The heartbeat was answered with 204.
    HeartbeatReceived { at: Stamp, elapsed_ms: u128 },
    /// The heartbeat was answered with another status.
    HeartbeatFailed { at: Stamp, elapsed_ms: u128, status: u16 },
    /// The warm-up answer was a success and its body decoded.
    SignaturesReceived { at: Stamp, elapsed_ms: u128 },
    /// The warm-up answer was a success but its body did not decode.
    SignaturesUndecodable { at: Stamp, elapsed_ms: u128, detail: String },
    /// The warm-up answer carried a status outside 2xx.
    WarmUpRejected { elapsed_ms: u128, status: u16 },
    /// The warm-up request got no answer at all.
    WarmUpUnreachable { elapsed_ms: u128, detail: String },
}

impl LogEntry {
    pub open spec fn spec_level(self) -> Level {
        match self {
            LogEntry::CycleStarted { .. } => Level::Info,
            LogEntry::HeartbeatReceived { .. } => Level::Info,
            LogEntry::HeartbeatFailed { .. } => Level::Warn,
            LogEntry::SignaturesReceived { .. } => Level::Info,
            LogEntry::SignaturesUndecodable { .. } => Level::Warn,
            LogEntry::WarmUpRejected { .. } => Level::Error,
            LogEntry::WarmUpUnreachable { .. } => Level::Error,
        }
    }

    /// The record with its wall-clock readings and latencies blanked out:
    /// what stays equal between two cycles that met the same answers.
    pub open spec fn untimed(self) -> LogEntry {
        match self {
            LogEntry::CycleStarted { .. } => LogEntry::CycleStarted { at: Stamp::blank() },
            LogEntry::HeartbeatReceived { .. } => LogEntry::HeartbeatReceived {
                at: Stamp::blank(),
                elapsed_ms: 0,
            },
            LogEntry::HeartbeatFailed { status, .. } => LogEntry::HeartbeatFailed {
                at: Stamp::blank(),
                elapsed_ms: 0,
                status,
            },
            LogEntry::SignaturesReceived { .. } => LogEntry::SignaturesReceived {
                at: Stamp::blank(),
                elapsed_ms: 0,
            },
            LogEntry::SignaturesUndecodable { detail, .. } => LogEntry::SignaturesUndecodable {
                at: Stamp::blank(),
                elapsed_ms: 0,
                detail,
            },
            LogEntry::WarmUpRejected { status, .. } => LogEntry::WarmUpRejected {
                elapsed_ms: 0,
                status,
            },
            LogEntry::WarmUpUnreachable { detail, .. } => LogEntry::WarmUpUnreachable {
                elapsed_ms: 0,
                detail,
            },
        }
    }

    /// The severity the record is logged at.
    pub fn level(&self) -> (r: Level)
        ensures
            r == self.spec_level(),
    {
        match self {
            LogEntry::CycleStarted { .. } => Level::Info,
            LogEntry::HeartbeatReceived { .. } => Level::Info,
            LogEntry::HeartbeatFailed { .. } => Level::Warn,
            LogEntry::SignaturesReceived { .. } => Level::Info,
            LogEntry::SignaturesUndecodable { .. } => Level::Warn,
            LogEntry::WarmUpRejected { .. } => Level::Error,
            LogEntry::WarmUpUnreachable { .. } => Level::Error,
        }
    }

    /// Whether the record reports a success.
    pub fn is_success(&self) -> (r: bool)
        ensures
            r == (self is HeartbeatReceived || self is SignaturesReceived),
    {
        match self {
            LogEntry::HeartbeatReceived { .. } => true,
            LogEntry::SignaturesReceived { .. } => true,
            _ => false,
        }
    }

    /// The HTTP status the record reports, where it reports one.
    pub fn status(&self) -> (r: Option<u16>)
        ensures
            r == match self {
                LogEntry::HeartbeatFailed { status, .. } => Some(*status),
                LogEntry::WarmUpRejected { status, .. } => Some(*status),
                _ => None::<u16>,
            },
    {
        match self {
            LogEntry::HeartbeatFailed { status, .. } => Some(*status),
            LogEntry::WarmUpRejected { status, .. } => Some(*status),
            _ => None,
        }
    }
}

} // verus!
