use vstd::prelude::*;
use crate::config::ProberConfig;
use crate::log_entry::{LogEntry, Stamp};
use crate::signatures::{CreateSignatureRequest, SignaturesResponse};
use crate::status::{
    classify_heartbeat, heartbeat_outcome, is_success, is_success_status, HeartbeatOutcome,
};

verus! {

/// Where the prober stands within a cycle.
#[derive(Clone, Copy, Debug, PartialEq, Eq, Structural)]
pub enum Phase {
    /// Between cycles: waiting for the next one to begin.
    Idle,
    /// The heartbeat request of the cycle begun at `at` is out.
    AwaitingHeartbeat { at: Stamp },
    /// The warm-up request is out.
    AwaitingWarmUp,
    /// The warm-up answer was a success; its body is being decoded.
    AwaitingBody,
    /// The heartbeat request failed in transport; the prober has stopped.
    Halted,
}

/// What the outside world reports back to the prober.
#[derive(Debug)]
pub enum Event {
    /// The clock read `at` at the start of a cycle.
    CycleBegan { at: Stamp },
    /// The heartbeat request was answered.
    HeartbeatReplied { status: u16, elapsed_ms: u128 },
    /// The heartbeat request failed in transport (connection, DNS, timeout).
    HeartbeatUnreachable { detail: String },
    /// The warm-up request was answered.
    WarmUpReplied { status: u16, elapsed_ms: u128 },
    /// The warm-up request failed in transport.
    WarmUpUnreachable { elapsed_ms: u128, detail: String },
    /// The warm-up body was decoded, or failed to decode with a message.
    BodyDecoded { at: Stamp, elapsed_ms: u128, body: Result<SignaturesResponse, String> },
}

/// What the prober asks the outside world to do next.
#[derive(Clone, Debug)]
pub enum Command {
    /// Send `GET` to the heartbeat URL.
    GetHeartbeat,
    /// Send `POST` with `body` as JSON to the signature-creation URL.
    PostSignatures { body: CreateSignatureRequest },
    /// Decode the body of the warm-up answer just received.
    DecodeBody,
    /// Sleep for `secs` seconds, then begin the next cycle.
    Sleep { secs: u64 },
    /// Stop for good, failing with `detail`.
    Stop { detail: String },
}

/// The result of handling one event.
#[derive(Clone, Debug)]
pub struct Step {
    pub phase: Phase,
    pub log: Option<LogEntry>,
    pub command: Option<Command>,
}

impl Command {
    /// Whether the command sends a request to the service.
    pub open spec fn is_request(self) -> bool {
        self is GetHeartbeat || self is PostSignatures
    }
}

impl Phase {
    pub open spec fn untimed(self) -> Phase {
        match self {
            Phase::AwaitingHeartbeat { .. } => Phase::AwaitingHeartbeat { at: Stamp::blank() },
            _ => self,
        }
    }
}

impl Event {
    /// The event with its wall-clock readings and latencies blanked out: what
    /// stays equal between two cycles that met the same answers.
    pub open spec fn untimed(self) -> Event {
        match self {
            Event::CycleBegan { .. } => Event::CycleBegan { at: Stamp::blank() },
            Event::HeartbeatReplied { status, .. } => Event::HeartbeatReplied {
                status,
                elapsed_ms: 0,
            },
            Event::HeartbeatUnreachable { .. } => self,
            Event::WarmUpReplied { status, .. } => Event::WarmUpReplied { status, elapsed_ms: 0 },
            Event::WarmUpUnreachable { detail, .. } => Event::WarmUpUnreachable {
                elapsed_ms: 0,
                detail,
            },
            Event::BodyDecoded { body, .. } => Event::BodyDecoded {
                at: Stamp::blank(),
                elapsed_ms: 0,
                body,
            },
        }
    }
}

/// The handling of an event that does not belong to the phase: nothing moves.
pub open spec fn unmoved(phase: Phase) -> Step {
    Step { phase, log: None, command: None }
}

/// The record for a heartbeat of the cycle begun at `at`, answered with `status`.
pub open spec fn heartbeat_entry(at: Stamp, status: u16, elapsed_ms: u128) -> LogEntry {
    if heartbeat_outcome(status) == HeartbeatOutcome::Received {
        LogEntry::HeartbeatReceived { at, elapsed_ms }
    } else {
        LogEntry::HeartbeatFailed { at, elapsed_ms, status }
    }
}

/// The end of a cycle: back to idle, logging `entry`, then sleeping the interval.
pub open spec fn cycle_end(interval_secs: u64, entry: LogEntry) -> Step {
    Step {
        phase: Phase::Idle,
        log: Some(entry),
        command: Some(Command::Sleep { secs: interval_secs }),
    }
}

/// The transition table of the prober.
pub open spec fn next_spec(interval_secs: u64, phase: Phase, event: Event) -> Step {
    match phase {
        Phase::Idle => match event {
            Event::CycleBegan { at } => Step {
                phase: Phase::AwaitingHeartbeat { at },
                log: Some(LogEntry::CycleStarted { at }),
                command: Some(Command::GetHeartbeat),
            },
            _ => unmoved(phase),
        },
        Phase::AwaitingHeartbeat { at } => match event {
            Event::HeartbeatReplied { status, elapsed_ms } => Step {
                phase: Phase::AwaitingWarmUp,
                log: Some(heartbeat_entry(at, status, elapsed_ms)),
                command: Some(Command::PostSignatures { body: CreateSignatureRequest { save: false } }),
            },
            Event::HeartbeatUnreachable { detail } => Step {
                phase: Phase::Halted,
                log: None,
                command: Some(Command::Stop { detail }),
            },
            _ => unmoved(phase),
        },
        Phase::AwaitingWarmUp => match event {
            Event::WarmUpReplied { status, elapsed_ms } => if is_success_status(status) {
                Step { phase: Phase::AwaitingBody, log: None, command: Some(Command::DecodeBody) }
            } else {
                cycle_end(interval_secs, LogEntry::WarmUpRejected { elapsed_ms, status })
            },
            Event::WarmUpUnreachable { elapsed_ms, detail } => cycle_end(
                interval_secs,
                LogEntry::WarmUpUnreachable { elapsed_ms, detail },
            ),
            _ => unmoved(phase),
        },
        Phase::AwaitingBody => match event {
            Event::BodyDecoded { at, elapsed_ms, body } => match body {
                Ok(_) => cycle_end(interval_secs, LogEntry::SignaturesReceived { at, elapsed_ms }),
                Err(detail) => cycle_end(
                    interval_secs,
                    LogEntry::SignaturesUndecodable { at, elapsed_ms, detail },
                ),
            },
            _ => unmoved(phase),
        },
        Phase::Halted => unmoved(phase),
    }
}

/// Handles one event in the given phase.
pub fn next(interval_secs: u64, phase: Phase, event: Event) -> (r: Step)
    ensures
        r == next_spec(interval_secs, phase, event),
{
    match phase {
        Phase::Idle => match event {
            Event::CycleBegan { at } => Step {
                phase: Phase::AwaitingHeartbeat { at },
                log: Some(LogEntry::CycleStarted { at }),
                command: Some(Command::GetHeartbeat),
            },
            _ => Step { phase, log: None, command: None },
        },
        Phase::AwaitingHeartbeat { at } => match event {
            Event::HeartbeatReplied { status, elapsed_ms } => {
                let entry = match classify_heartbeat(status) {
                    HeartbeatOutcome::Received => LogEntry::HeartbeatReceived { at, elapsed_ms },
                    HeartbeatOutcome::Failed => LogEntry::HeartbeatFailed { at, elapsed_ms, status },
                };
                Step {
                    phase: Phase::AwaitingWarmUp,
                    log: Some(entry),
                    command: Some(Command::PostSignatures { body: CreateSignatureRequest::warm_up() }),
                }
            },
            Event::HeartbeatUnreachable { detail } => Step {
                phase: Phase::Halted,
                log: None,
                command: Some(Command::Stop { detail }),
            },
            _ => Step { phase, log: None, command: None },
        },
        Phase::AwaitingWarmUp => match event {
            Event::WarmUpReplied { status, elapsed_ms } => if is_success(status) {
                Step { phase: Phase::AwaitingBody, log: None, command: Some(Command::DecodeBody) }
            } else {
                Step {
                    phase: Phase::Idle,
                    log: Some(LogEntry::WarmUpRejected { elapsed_ms, status }),
                    command: Some(Command::Sleep { secs: interval_secs }),
                }
            },
            Event::WarmUpUnreachable { elapsed_ms, detail } => Step {
                phase: Phase::Idle,
                log: Some(LogEntry::WarmUpUnreachable { elapsed_ms, detail }),
                command: Some(Command::Sleep { secs: interval_secs }),
            },
            _ => Step { phase, log: None, command: None },
        },
        Phase::AwaitingBody => match event {
            Event::BodyDecoded { at, elapsed_ms, body } => {
                let entry = match body {
                    Ok(_) => LogEntry::SignaturesReceived { at, elapsed_ms },
                    Err(detail) => LogEntry::SignaturesUndecodable { at, elapsed_ms, detail },
                };
                Step {
                    phase: Phase::Idle,
                    log: Some(entry),
                    command: Some(Command::Sleep { secs: interval_secs }),
                }
            },
            _ => Step { phase, log: None, command: None },
        },
        Phase::Halted => Step { phase, log: None, command: None },
    }
}

} // verus!

verus! {

/// A prober between events: its configuration and the phase it stands in.
pub struct Prober {
    pub config: ProberConfig,
    pub phase: Phase,
}

impl Prober {
    /// A prober that waits for its first cycle.
    pub fn new(config: ProberConfig) -> (r: Self)
        ensures
            r.config == config,
            r.phase == Phase::Idle,
    {
        Prober { config, phase: Phase::Idle }
    }

    /// Handles one event: moves to the next phase and returns the record to
    /// log, if any, and what to do next, if anything.
    pub fn handle(&mut self, event: Event) -> (r: (Option<LogEntry>, Option<Command>))
        ensures
            final(self).config == old(self).config,
            final(self).phase == next_spec(old(self).config.interval_secs, old(self).phase, event).phase,
            r.0 == next_spec(old(self).config.interval_secs, old(self).phase, event).log,
            r.1 == next_spec(old(self).config.interval_secs, old(self).phase, event).command,
    {
        let step = next(self.config.interval_secs, self.phase, event);
        self.phase = step.phase;
        (step.log, step.command)
    }

    /// Whether the prober has stopped for good.
    pub fn is_halted(&self) -> (r: bool)
        ensures
            r == (self.phase is Halted),
    {
        match self.phase {
            Phase::Halted => true,
            _ => false,
        }
    }
}

/// The sequence holding the value of `o`, if any.
pub open spec fn opt_seq<T>(o: Option<T>) -> Seq<T> {
    match o {
        Some(x) => seq![x],
        None => Seq::empty(),
    }
}

/// Feeding `events` one after the other from `phase`: the phase reached, the
/// records logged and the commands issued, in order.
pub open spec fn replay_spec(interval_secs: u64, phase: Phase, events: Seq<Event>) -> (
    Phase,
    Seq<LogEntry>,
    Seq<Command>,
)
    decreases events.len(),
{
    if events.len() == 0 {
        (phase, Seq::empty(), Seq::empty())
    } else {
        let s = next_spec(interval_secs, phase, events[0]);
        let rest = replay_spec(interval_secs, s.phase, events.drop_first());
        (rest.0, opt_seq(s.log) + rest.1, opt_seq(s.command) + rest.2)
    }
}

/// Feeds `events` one after the other from `phase`.
pub fn replay(interval_secs: u64, phase: Phase, events: Vec<Event>) -> (r: (
    Phase,
    Vec<LogEntry>,
    Vec<Command>,
))
    ensures
        r.0 == replay_spec(interval_secs, phase, events@).0,
        r.1@ == replay_spec(interval_secs, phase, events@).1,
        r.2@ == replay_spec(interval_secs, phase, events@).2,
{
    let ghost all = events@;
    let mut rest = events;
    let mut cur = phase;
    let mut logs: Vec<LogEntry> = Vec::new();
    let mut commands: Vec<Command> = Vec::new();
    while rest.len() > 0
        invariant
            replay_spec(interval_secs, phase, all).0 == replay_spec(interval_secs, cur, rest@).0,
            replay_spec(interval_secs, phase, all).1 == logs@ + replay_spec(
                interval_secs,
                cur,
                rest@,
            ).1,
            replay_spec(interval_secs, phase, all).2 == commands@ + replay_spec(
                interval_secs,
                cur,
                rest@,
            ).2,
        decreases rest.len(),
    {
        let ghost before = rest@;
        let ghost logs_before = logs@;
        let ghost commands_before = commands@;
        let event = rest.remove(0);
        assert(rest@ == before.drop_first());
        let step = next(interval_secs, cur, event);
        let ghost tail = replay_spec(interval_secs, step.phase, rest@);
        match step.log {
            Some(e) => logs.push(e),
            None => {},
        }
        match step.command {
            Some(c) => commands.push(c),
            None => {},
        }
        assert(logs_before + (opt_seq(step.log) + tail.1) == logs@ + tail.1);
        assert(commands_before + (opt_seq(step.command) + tail.2) == commands@ + tail.2);
        cur = step.phase;
    }
    assert(logs@ + Seq::<LogEntry>::empty() == logs@);
    assert(commands@ + Seq::<Command>::empty() == commands@);
    (cur, logs, commands)
}

} // verus!
