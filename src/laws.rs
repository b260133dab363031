//! Properties of the prober's cycle, proved over its transition table.

use vstd::prelude::*;
use crate::cycle::{next_spec, opt_seq, replay_spec, Command, Event, Phase};
use crate::log_entry::{LogEntry, Stamp};
use crate::signatures::CreateSignatureRequest;
use crate::status::is_success_status;

verus! {

/// A cycle that begins sends the heartbeat request, and once the heartbeat is
/// answered, whatever its status, the warm-up request: exactly these two
/// requests, in this order.
pub proof fn two_requests_in_order(interval_secs: u64, at: Stamp, status: u16, elapsed_ms: u128)
    ensures
        replay_spec(
            interval_secs,
            Phase::Idle,
            seq![Event::CycleBegan { at }, Event::HeartbeatReplied { status, elapsed_ms }],
        ).2 == seq![
            Command::GetHeartbeat,
            Command::PostSignatures { body: CreateSignatureRequest { save: false } },
        ],
{
    let events = seq![Event::CycleBegan { at }, Event::HeartbeatReplied { status, elapsed_ms }];
    assert(events.drop_first() == seq![Event::HeartbeatReplied { status, elapsed_ms }]);
    assert(events.drop_first().drop_first() == Seq::<Event>::empty());
    let s1 = next_spec(interval_secs, Phase::Idle, events[0]);
    let s2 = next_spec(interval_secs, s1.phase, events[1]);
    let r2 = replay_spec(interval_secs, s1.phase, events.drop_first());
    assert(replay_spec(interval_secs, s2.phase, events.drop_first().drop_first()).2 == Seq::<Command>::empty());
    assert(r2.2 =~= opt_seq(s2.command));
    assert(opt_seq(s1.command) + r2.2 =~= seq![
        Command::GetHeartbeat,
        Command::PostSignatures { body: CreateSignatureRequest { save: false } },
    ]);
}

/// Once the warm-up request is out, no event of the cycle sends another request.
pub proof fn no_request_after_warm_up(interval_secs: u64, phase: Phase, event: Event)
    requires
        phase is AwaitingWarmUp || phase is AwaitingBody,
    ensures
        match next_spec(interval_secs, phase, event).command {
            Some(c) => !c.is_request(),
            None => true,
        },
{
}

/// Every cycle that ends, however it ends, ends by sleeping exactly the
/// configured interval; nothing else ever sleeps another length.
pub proof fn sleep_is_interval(interval_secs: u64, phase: Phase, event: Event)
    ensures
        !(phase is Idle) && next_spec(interval_secs, phase, event).phase is Idle ==> next_spec(
            interval_secs,
            phase,
            event,
        ).command == Some(Command::Sleep { secs: interval_secs }),
        match next_spec(interval_secs, phase, event).command {
            Some(Command::Sleep { secs }) => secs == interval_secs,
            _ => true,
        },
{
}

/// One event handled in two phases that differ only in timing, with events
/// that differ only in timing, gives results that differ only in timing.
pub proof fn step_ignores_timing(interval_secs: u64, p: Phase, q: Phase, a: Event, b: Event)
    requires
        p.untimed() == q.untimed(),
        a.untimed() == b.untimed(),
    ensures
        next_spec(interval_secs, p, a).phase.untimed() == next_spec(interval_secs, q, b).phase.untimed(),
        opt_seq(next_spec(interval_secs, p, a).log).map_values(|e: LogEntry| e.untimed())
            == opt_seq(next_spec(interval_secs, q, b).log).map_values(|e: LogEntry| e.untimed()),
        next_spec(interval_secs, p, a).command == next_spec(interval_secs, q, b).command,
{
    let sa = next_spec(interval_secs, p, a);
    let sb = next_spec(interval_secs, q, b);
    assert(opt_seq(sa.log).map_values(|e: LogEntry| e.untimed()) =~= opt_seq(sb.log).map_values(
        |e: LogEntry| e.untimed(),
    ));
}

/// Feeding two event sequences that differ only in timing, from phases that
/// differ only in timing, logs the same records up to timing and issues the
/// same commands.
pub proof fn replay_ignores_timing(interval_secs: u64, p: Phase, q: Phase, a: Seq<Event>, b: Seq<Event>)
    requires
        p.untimed() == q.untimed(),
        a.len() == b.len(),
        forall|i: int| 0 <= i < a.len() ==> (#[trigger] a[i]).untimed() == b[i].untimed(),
    ensures
        replay_spec(interval_secs, p, a).0.untimed() == replay_spec(interval_secs, q, b).0.untimed(),
        replay_spec(interval_secs, p, a).1.map_values(|e: LogEntry| e.untimed())
            == replay_spec(interval_secs, q, b).1.map_values(|e: LogEntry| e.untimed()),
        replay_spec(interval_secs, p, a).2 == replay_spec(interval_secs, q, b).2,
    decreases a.len(),
{
    if a.len() > 0 {
        step_ignores_timing(interval_secs, p, q, a[0], b[0]);
        let sa = next_spec(interval_secs, p, a[0]);
        let sb = next_spec(interval_secs, q, b[0]);
        assert forall|i: int| 0 <= i < a.drop_first().len() implies (#[trigger] a.drop_first()[i]).untimed()
            == b.drop_first()[i].untimed() by {
            assert(a[i + 1].untimed() == b[i + 1].untimed());
        }
        replay_ignores_timing(interval_secs, sa.phase, sb.phase, a.drop_first(), b.drop_first());
        let ra = replay_spec(interval_secs, sa.phase, a.drop_first());
        let rb = replay_spec(interval_secs, sb.phase, b.drop_first());
        let f = |e: LogEntry| e.untimed();
        assert((opt_seq(sa.log) + ra.1).map_values(f) =~= opt_seq(sa.log).map_values(f) + ra.1.map_values(f));
        assert((opt_seq(sb.log) + rb.1).map_values(f) =~= opt_seq(sb.log).map_values(f) + rb.1.map_values(f));
    } else {
        assert(replay_spec(interval_secs, p, a).1.map_values(|e: LogEntry| e.untimed()) =~= Seq::empty());
        assert(replay_spec(interval_secs, q, b).1.map_values(|e: LogEntry| e.untimed()) =~= Seq::empty());
    }
}

/// Two event sequences that differ at most in timing.
pub open spec fn same_answers(a: Seq<Event>, b: Seq<Event>) -> bool {
    a.len() == b.len() && forall|i: int| 0 <= i < a.len() ==> (#[trigger] a[i]).untimed() == b[i].untimed()
}

/// The records with their timing blanked out.
pub open spec fn untimed_log(log: Seq<LogEntry>) -> Seq<LogEntry> {
    log.map_values(|e: LogEntry| e.untimed())
}

/// Feeding `a` and then `b` is feeding `a`, then feeding `b` from the phase
/// that `a` reached.
pub proof fn replay_concat(interval_secs: u64, p: Phase, a: Seq<Event>, b: Seq<Event>)
    ensures
        replay_spec(interval_secs, p, a + b).0 == replay_spec(
            interval_secs,
            replay_spec(interval_secs, p, a).0,
            b,
        ).0,
        replay_spec(interval_secs, p, a + b).1 == replay_spec(interval_secs, p, a).1 + replay_spec(
            interval_secs,
            replay_spec(interval_secs, p, a).0,
            b,
        ).1,
        replay_spec(interval_secs, p, a + b).2 == replay_spec(interval_secs, p, a).2 + replay_spec(
            interval_secs,
            replay_spec(interval_secs, p, a).0,
            b,
        ).2,
    decreases a.len(),
{
    if a.len() == 0 {
        assert(a + b =~= b);
        assert(Seq::<LogEntry>::empty() + replay_spec(interval_secs, p, b).1 =~= replay_spec(interval_secs, p, b).1);
        assert(Seq::<Command>::empty() + replay_spec(interval_secs, p, b).2 =~= replay_spec(interval_secs, p, b).2);
    } else {
        let s = next_spec(interval_secs, p, a[0]);
        assert((a + b)[0] == a[0]);
        assert((a + b).drop_first() =~= a.drop_first() + b);
        replay_concat(interval_secs, s.phase, a.drop_first(), b);
        let mid = replay_spec(interval_secs, s.phase, a.drop_first());
        let last = replay_spec(interval_secs, mid.0, b);
        assert(opt_seq(s.log) + (mid.1 + last.1) =~= (opt_seq(s.log) + mid.1) + last.1);
        assert(opt_seq(s.command) + (mid.2 + last.2) =~= (opt_seq(s.command) + mid.2) + last.2);
    }
}

/// Running whole cycles one after another, each meeting the same answers as
/// `model` up to timing, logs the records of `model` once per cycle, up to
/// timing. A whole cycle is one that ends where it began, between cycles.
pub proof fn repeated_cycles_log_alike(interval_secs: u64, model: Seq<Event>, cycles: Seq<Seq<Event>>)
    requires
        replay_spec(interval_secs, Phase::Idle, model).0 == Phase::Idle,
        forall|i: int| 0 <= i < cycles.len() ==> same_answers(#[trigger] cycles[i], model),
    ensures
        replay_spec(interval_secs, Phase::Idle, cycles.flatten()).0 == Phase::Idle,
        untimed_log(replay_spec(interval_secs, Phase::Idle, cycles.flatten()).1) == Seq::new(
            cycles.len(),
            |i: int| untimed_log(replay_spec(interval_secs, Phase::Idle, model).1),
        ).flatten(),
    decreases cycles.len(),
{
    let one = untimed_log(replay_spec(interval_secs, Phase::Idle, model).1);
    let all = Seq::new(cycles.len(), |i: int| one);
    if cycles.len() == 0 {
        assert(untimed_log(Seq::<LogEntry>::empty()) =~= Seq::<LogEntry>::empty());
    } else {
        let first = cycles[0];
        let rest = cycles.drop_first();
        assert forall|i: int| 0 <= i < rest.len() implies same_answers(#[trigger] rest[i], model) by {
            assert(same_answers(cycles[i + 1], model));
        }
        repeated_cycles_log_alike(interval_secs, model, rest);
        assert(same_answers(first, model));
        replay_ignores_timing(interval_secs, Phase::Idle, Phase::Idle, first, model);
        let r1 = replay_spec(interval_secs, Phase::Idle, first);
        assert(r1.0.untimed() == Phase::Idle);
        assert(r1.0 == Phase::Idle);
        replay_concat(interval_secs, Phase::Idle, first, rest.flatten());
        let r2 = replay_spec(interval_secs, Phase::Idle, rest.flatten());
        let f = |e: LogEntry| e.untimed();
        assert((r1.1 + r2.1).map_values(f) =~= r1.1.map_values(f) + r2.1.map_values(f));
        assert(all.drop_first() =~= Seq::new(rest.len(), |i: int| one));
        assert(all[0] == one);
    }
}

/// The events of a cycle in which both requests were answered: the warm-up
/// body is decoded only after a 2xx answer.
pub open spec fn is_answered_cycle(events: Seq<Event>) -> bool {
    &&& events.len() >= 3
    &&& events[0] is CycleBegan
    &&& events[1] is HeartbeatReplied
    &&& events[2] is WarmUpReplied
    &&& if is_success_status(events[2]->WarmUpReplied_status) {
        events.len() == 4 && events[3] is BodyDecoded
    } else {
        events.len() == 3
    }
}

/// A cycle in which both requests were answered ends between cycles, having
/// slept the configured interval, so the next cycle starts afresh.
pub proof fn answered_cycle_ends_idle(interval_secs: u64, events: Seq<Event>)
    requires
        is_answered_cycle(events),
    ensures
        replay_spec(interval_secs, Phase::Idle, events).0 == Phase::Idle,
        replay_spec(interval_secs, Phase::Idle, events).2.last() == (Command::Sleep {
            secs: interval_secs,
        }),
{
    reveal_with_fuel(replay_spec, 5);
    let e1 = events.drop_first();
    let e2 = e1.drop_first();
    let e3 = e2.drop_first();
    if is_success_status(events[2]->WarmUpReplied_status) {
        assert(e3.drop_first() =~= Seq::<Event>::empty());
    } else {
        assert(e3 =~= Seq::<Event>::empty());
    }
}

} // verus!
