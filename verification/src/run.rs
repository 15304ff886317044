//! Whole runs of the launcher, and what holds of every one of them.
//!
//! A run is the sequence of events the host reports from launch on. The
//! launcher answers it with a trace of actions: the first action, then one
//! action per event.

use crate::backend::launch_args;
use crate::failure::Failure;
use crate::launcher::{
    first_action, next, report_of, start, step, Action, ActionView, Event, EventView, Phase,
    FATAL_EXIT_CODE,
};
use vstd::prelude::*;

verus! {

/// The mathematical content of a sequence of events.
pub open spec fn event_views(events: Seq<Event>) -> Seq<EventView> {
    events.map_values(|e: Event| e@)
}

/// The mathematical content of a sequence of actions.
pub open spec fn action_views(actions: Seq<Action>) -> Seq<ActionView> {
    actions.map_values(|a: Action| a@)
}

/// The phase a run is in after `events`.
pub open spec fn phase_after(events: Seq<EventView>) -> Phase
    decreases events.len(),
{
    if events.len() == 0 {
        Phase::Init
    } else {
        next(phase_after(events.drop_last()), events.last()).0
    }
}

/// Every action the launcher has asked for after `events`, in order.
pub open spec fn trace(events: Seq<EventView>) -> Seq<ActionView>
    decreases events.len(),
{
    if events.len() == 0 {
        seq![first_action()]
    } else {
        trace(events.drop_last()).push(next(phase_after(events.drop_last()), events.last()).1)
    }
}

/// Tells fatal reports from other actions.
pub open spec fn is_report() -> spec_fn(ActionView) -> bool {
    |a: ActionView| a is ReportFatal
}

/// Tells requests to spawn the backend from other actions.
pub open spec fn is_spawn() -> spec_fn(ActionView) -> bool {
    |a: ActionView| a is Spawn
}

/// Tells requests to exit from other actions.
pub open spec fn is_exit() -> spec_fn(ActionView) -> bool {
    |a: ActionView| a is Exit
}

/// How many of `actions` are fatal reports.
pub open spec fn report_count(actions: Seq<ActionView>) -> nat {
    actions.filter(is_report()).len()
}

/// How many of `actions` ask for the backend to be spawned.
pub open spec fn spawn_count(actions: Seq<ActionView>) -> nat {
    actions.filter(is_spawn()).len()
}

/// How many of `actions` ask for the process to exit.
pub open spec fn exit_count(actions: Seq<ActionView>) -> nat {
    actions.filter(is_exit()).len()
}

/// How far along a phase is. Startup never moves to a lower rank.
pub open spec fn rank(phase: Phase) -> nat {
    match phase {
        Phase::Init => 0,
        Phase::Resolved => 1,
        Phase::Running => 2,
        Phase::FatalError => 3,
        Phase::Terminal => 4,
    }
}

/// Plays a recorded run: feeds `events` to the launcher one by one, from
/// launch, and returns the phase reached and every action asked for.
pub fn replay(events: &Vec<Event>) -> (out: (Phase, Vec<Action>))
    ensures
        out.0 == phase_after(event_views(events@)),
        action_views(out.1@) == trace(event_views(events@)),
{
    let (first_phase, first) = start();
    let mut phase = first_phase;
    let mut actions: Vec<Action> = Vec::new();
    actions.push(first);
    assert(action_views(actions@) =~= seq![first_action()]);
    let mut i: usize = 0;
    while i < events.len()
        invariant
            i <= events.len(),
            phase == phase_after(event_views(events@).take(i as int)),
            action_views(actions@) == trace(event_views(events@).take(i as int)),
        decreases events.len() - i,
    {
        let (next_phase, action) = step(phase, &events[i]);
        proof {
            let all = event_views(events@);
            assert(all.take(i + 1).drop_last() =~= all.take(i as int));
            assert(all.take(i + 1).last() == events@[i as int]@);
            assert(action_views(actions@.push(action)) =~= action_views(actions@).push(action@));
        }
        phase = next_phase;
        actions.push(action);
        i += 1;
    }
    proof {
        let all = event_views(events@);
        assert(all.take(events@.len() as int) =~= all);
    }
    (phase, actions)
}

/// What the trace holds is decided by the phase: nothing has been reported
/// before a failure, and exactly one report has been made after one; the
/// backend has been asked for once the binary was resolved, and never twice;
/// an exit has been asked for only after a report.
proof fn lemma_counts_by_phase(events: Seq<EventView>)
    ensures
        ({
            let phase = phase_after(events);
            let actions = trace(events);
            &&& actions.len() == events.len() + 1
            &&& phase is Init ==> spawn_count(actions) == 0
            &&& phase is Resolved || phase is Running ==> spawn_count(actions) == 1
            &&& spawn_count(actions) <= 1
            &&& phase is Init || phase is Resolved || phase is Running ==> report_count(actions)
                == 0
            &&& phase is FatalError ==> report_count(actions) == 1
            &&& report_count(actions) <= 1
            &&& !(phase is Terminal) ==> exit_count(actions) == 0
            &&& exit_count(actions) <= report_count(actions)
        }),
    decreases events.len(),
{
    broadcast use Seq::lemma_filter_len_push;

    if events.len() == 0 {
        let empty = Seq::<ActionView>::empty();
        assert(trace(events) =~= empty.push(first_action()));
        assert(empty.filter(is_report()).len() == 0) by {
            empty.lemma_filter_len(is_report());
        }
        assert(empty.filter(is_spawn()).len() == 0) by {
            empty.lemma_filter_len(is_spawn());
        }
        assert(empty.filter(is_exit()).len() == 0) by {
            empty.lemma_filter_len(is_exit());
        }
    } else {
        lemma_counts_by_phase(events.drop_last());
    }
}

/// A fatal error is reported at most once in a run, whatever the host
/// reports and in whatever order: the first failure wins.
pub proof fn law_at_most_one_report(events: Seq<EventView>)
    ensures
        report_count(trace(events)) <= 1,
{
    lemma_counts_by_phase(events);
}

/// As long as startup is under way or the backend is running, nothing has
/// been reported; once startup has failed, exactly one report has been made.
pub proof fn law_report_iff_failed(events: Seq<EventView>)
    ensures
        rank(phase_after(events)) <= rank(Phase::Running) ==> report_count(trace(events)) == 0,
        phase_after(events) == Phase::FatalError ==> report_count(trace(events)) == 1,
{
    lemma_counts_by_phase(events);
}

/// The backend is started at most once in a run, and only after its binary
/// was resolved.
pub proof fn law_at_most_one_spawn(events: Seq<EventView>)
    ensures
        spawn_count(trace(events)) <= 1,
        phase_after(events) == Phase::Init ==> spawn_count(trace(events)) == 0,
        phase_after(events) == Phase::Resolved || phase_after(events) == Phase::Running
            ==> spawn_count(trace(events)) == 1,
{
    lemma_counts_by_phase(events);
}

/// One action is asked for at launch and one more for each event.
pub proof fn law_trace_length(events: Seq<EventView>)
    ensures
        trace(events).len() == events.len() + 1,
{
    lemma_counts_by_phase(events);
}

/// The trace only grows: what was asked for after the first `k` events is
/// still the beginning of the trace after all of them.
pub proof fn law_trace_extends(events: Seq<EventView>, k: int)
    requires
        0 <= k <= events.len(),
    ensures
        trace(events.take(k)) == trace(events).take(k + 1),
    decreases events.len(),
{
    if k == events.len() {
        law_trace_length(events);
        assert(events.take(k) =~= events);
        assert(trace(events).take(k + 1) =~= trace(events));
    } else {
        law_trace_extends(events.drop_last(), k);
        law_trace_length(events.drop_last());
        assert(events.drop_last().take(k) =~= events.take(k));
        assert(trace(events).take(k + 1) =~= trace(events.drop_last()).take(k + 1));
    }
}

/// Whenever the launcher asks for the backend to be spawned, the argument
/// list is exactly the port flag followed by the port.
pub proof fn law_spawn_args_are_fixed(events: Seq<EventView>, i: int)
    requires
        0 <= i < trace(events).len(),
        trace(events)[i] is Spawn,
    ensures
        trace(events)[i] == (ActionView::Spawn { args: launch_args() }),
    decreases events.len(),
{
    if events.len() > 0 {
        law_trace_length(events.drop_last());
        if i < events.len() {
            law_spawn_args_are_fixed(events.drop_last(), i);
        }
    }
}

/// Whenever the launcher asks for the process to exit, the status is 1 and
/// the failure has been reported before.
pub proof fn law_exit_follows_report(events: Seq<EventView>, i: int)
    requires
        0 <= i < trace(events).len(),
        trace(events)[i] is Exit,
    ensures
        trace(events)[i] == (ActionView::Exit { code: 1 }),
        exists|j: int| 0 <= j < i && trace(events)[j] is ReportFatal,
    decreases events.len(),
{
    if events.len() > 0 {
        let before = events.drop_last();
        law_trace_length(before);
        if i < events.len() {
            law_exit_follows_report(before, i);
            let j = choose|j: int| 0 <= j < i && trace(before)[j] is ReportFatal;
            assert(trace(events)[j] is ReportFatal);
        } else {
            lemma_counts_by_phase(before);
            assert(phase_after(before) == Phase::FatalError);
            let reports = trace(before).filter(is_report());
            assert(reports.len() == 1);
            trace(before).lemma_filter_contains_rev(is_report(), reports[0]);
            let j = choose|j: int| 0 <= j < trace(before).len() && trace(before)[j] == reports[0];
            trace(before).lemma_filter_pred(is_report(), 0);
            assert(trace(events)[j] is ReportFatal);
        }
    }
}

/// Startup only moves forward: the phase after any beginning of a run is no
/// further along than the phase after the whole run.
pub proof fn law_phases_only_advance(events: Seq<EventView>, k: int)
    requires
        0 <= k <= events.len(),
    ensures
        rank(phase_after(events.take(k))) <= rank(phase_after(events)),
    decreases events.len(),
{
    if k == events.len() {
        assert(events.take(k) =~= events);
    } else {
        law_phases_only_advance(events.drop_last(), k);
        assert(events.drop_last().take(k) =~= events.take(k));
    }
}

/// When the backend binary is missing, the run fails with `BinaryNotFound`:
/// the failure is reported with the lookup's diagnostic, exactly once
/// whatever follows, and the backend is never started. Once the report is
/// acknowledged the launcher asks for exit with status 1.
pub proof fn law_missing_binary_is_fatal(diagnostic: Seq<char>, rest: Seq<EventView>)
    ensures
        ({
            let events = seq![EventView::BinaryNotFound { diagnostic }] + rest;
            &&& trace(events)[1] == report_of(Failure::BinaryNotFound, diagnostic)
            &&& report_count(trace(events)) == 1
            &&& spawn_count(trace(events)) == 0
            &&& rank(phase_after(events)) >= rank(Phase::FatalError)
            &&& rest.len() > 0 && rest[0] == EventView::ErrorReported ==> {
                &&& trace(events)[2] == (ActionView::Exit { code: FATAL_EXIT_CODE })
                &&& phase_after(events) == Phase::Terminal
            }
        }),
    decreases rest.len(),
{
    broadcast use Seq::lemma_filter_len_push;

    let head = seq![EventView::BinaryNotFound { diagnostic }];
    let events = head + rest;
    if rest.len() == 0 {
        assert(events =~= head);
        assert(head.drop_last() =~= Seq::<EventView>::empty());
        lemma_counts_by_phase(head.drop_last());
        lemma_counts_by_phase(head);
    } else {
        assert(events.drop_last() =~= head + rest.drop_last());
        law_missing_binary_is_fatal(diagnostic, rest.drop_last());
        law_trace_length(events.drop_last());
        if rest.len() == 1 {
            assert(events.drop_last() =~= head);
        } else {
            assert(rest.drop_last()[0] == rest[0]);
        }
    }
}

/// When the backend binary is found but the process cannot be created, the
/// run fails with `SpawnFailed`: the backend was asked for with the fixed
/// arguments, the failure is reported with the system's diagnostic, exactly
/// once whatever follows. Once the report is acknowledged the launcher asks
/// for exit with status 1.
pub proof fn law_failed_spawn_is_fatal(diagnostic: Seq<char>, rest: Seq<EventView>)
    ensures
        ({
            let events = seq![EventView::BinaryResolved, EventView::SpawnFailed { diagnostic }]
                + rest;
            &&& trace(events)[1] == (ActionView::Spawn { args: launch_args() })
            &&& trace(events)[2] == report_of(Failure::SpawnFailed, diagnostic)
            &&& report_count(trace(events)) == 1
            &&& rank(phase_after(events)) >= rank(Phase::FatalError)
            &&& rest.len() > 0 && rest[0] == EventView::ErrorReported ==> {
                &&& trace(events)[3] == (ActionView::Exit { code: FATAL_EXIT_CODE })
                &&& phase_after(events) == Phase::Terminal
            }
        }),
    decreases rest.len(),
{
    broadcast use Seq::lemma_filter_len_push;

    let head = seq![EventView::BinaryResolved, EventView::SpawnFailed { diagnostic }];
    let events = head + rest;
    if rest.len() == 0 {
        assert(events =~= head);
        assert(head.drop_last() =~= seq![EventView::BinaryResolved]);
        assert(head.drop_last().drop_last() =~= Seq::<EventView>::empty());
        lemma_counts_by_phase(head.drop_last().drop_last());
        lemma_counts_by_phase(head.drop_last());
        lemma_counts_by_phase(head);
    } else {
        assert(events.drop_last() =~= head + rest.drop_last());
        law_failed_spawn_is_fatal(diagnostic, rest.drop_last());
        law_trace_length(events.drop_last());
        if rest.len() == 1 {
            assert(events.drop_last() =~= head);
        } else {
            assert(rest.drop_last()[0] == rest[0]);
        }
    }
}

/// When the backend binary is found and the process is created, the backend
/// runs: it was asked for with the fixed arguments, its handles are
/// retained, and nothing is reported for as long as it runs.
pub proof fn law_clean_start_reports_nothing(rest: Seq<EventView>)
    ensures
        ({
            let events = seq![EventView::BinaryResolved, EventView::Spawned] + rest;
            &&& trace(events)[1] == (ActionView::Spawn { args: launch_args() })
            &&& trace(events)[2] == ActionView::Retain
            &&& report_count(trace(events)) == 0
            &&& exit_count(trace(events)) == 0
            &&& phase_after(events) == Phase::Running || phase_after(events) == Phase::Terminal
            &&& rest.len() == 0 ==> phase_after(events) == Phase::Running
        }),
    decreases rest.len(),
{
    broadcast use Seq::lemma_filter_len_push;

    let head = seq![EventView::BinaryResolved, EventView::Spawned];
    let events = head + rest;
    if rest.len() == 0 {
        assert(events =~= head);
        assert(head.drop_last() =~= seq![EventView::BinaryResolved]);
        assert(head.drop_last().drop_last() =~= Seq::<EventView>::empty());
        lemma_counts_by_phase(head.drop_last().drop_last());
        lemma_counts_by_phase(head.drop_last());
        lemma_counts_by_phase(head);
    } else {
        assert(events.drop_last() =~= head + rest.drop_last());
        law_clean_start_reports_nothing(rest.drop_last());
        law_trace_length(events.drop_last());
        lemma_counts_by_phase(events.drop_last());
    }
}

} // verus!
