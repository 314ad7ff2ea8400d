//! Whole runs of the supervisor: the phase a sequence of events leads to, how
//! often an action is asked for along the way, and what holds of every run.

use crate::supervisor::{
    continuing, ended, next, pending, Action, Event, Fatal, Outcome, Phase, StopReason,
};
use crate::watch::{surfaced, Delivery, Signals, Verdict, WatchEvent};
use vstd::prelude::*;

verus! {

/// The phase reached from `phase` once `events` have been reported in order.
pub open spec fn run(phase: Phase, events: Seq<Event>) -> Phase
    decreases events.len(),
{
    if events.len() == 0 {
        phase
    } else {
        next(run(phase, events.drop_last()), events.last())
    }
}

/// Whether reporting `event` in `phase` asks for `action` anew: the action
/// is pending afterwards and was not pending before.
pub open spec fn asks(phase: Phase, event: Event, action: Action) -> bool {
    pending(phase) != action && pending(next(phase, event)) == action
}

/// How often `action` is asked for anew while `events` are reported in
/// order, starting in `phase`.
pub open spec fn issued(phase: Phase, events: Seq<Event>, action: Action) -> nat
    decreases events.len(),
{
    if events.len() == 0 {
        0
    } else {
        let before = issued(phase, events.drop_last(), action);
        if asks(run(phase, events.drop_last()), events.last(), action) {
            before + 1
        } else {
            before
        }
    }
}

/// One round of a child that exits on its own: a poll in which nothing
/// happened, the child found to have exited with `code`, and a new launch
/// that succeeded.
pub open spec fn self_exit_round(code: Option<i32>) -> Seq<Event> {
    seq![Event::Polled(Signals::quiet()), Event::ChildExited(code), Event::Spawned]
}

/// `rounds` rounds of a child that exits on its own, one after the other.
pub open spec fn self_exit_rounds(code: Option<i32>, rounds: nat) -> Seq<Event>
    decreases rounds,
{
    if rounds == 0 {
        Seq::empty()
    } else {
        self_exit_rounds(code, (rounds - 1) as nat) + self_exit_round(code)
    }
}

/// What is reported during one cycle that is polled with `signals`, in which
/// the child is then told to terminate, checked on and launched anew.
pub open spec fn restart_cycle(signals: Signals, killed: Event, checked: Event) -> Seq<Event> {
    seq![Event::Polled(signals), killed, checked, Event::Spawned]
}

/// Reporting one more event moves a run on by one step.
pub proof fn lemma_run_step(phase: Phase, events: Seq<Event>, k: int)
    requires
        0 <= k < events.len(),
    ensures
        run(phase, events.take(k + 1)) == next(run(phase, events.take(k)), events[k]),
{
    assert(events.take(k + 1).drop_last() =~= events.take(k));
}

/// A run over two sequences in a row is the run over the second, started
/// where the run over the first ended; and what it asks for adds up.
pub proof fn lemma_run_concat(phase: Phase, first: Seq<Event>, second: Seq<Event>, action: Action)
    ensures
        run(phase, first + second) == run(run(phase, first), second),
        issued(phase, first + second, action) == issued(phase, first, action) + issued(
            run(phase, first),
            second,
            action,
        ),
    decreases second.len(),
{
    if second.len() == 0 {
        assert(first + second =~= first);
    } else {
        assert((first + second).drop_last() =~= first + second.drop_last());
        lemma_run_concat(phase, first, second.drop_last(), action);
    }
}

/// Once a run is no longer meant to go on, it never is again: whatever is
/// reported, the supervisor stays stopping, terminated or failed, and asks
/// neither for a launch nor for a poll.
pub proof fn law_stop_is_final(phase: Phase, events: Seq<Event>)
    requires
        !continuing(phase),
    ensures
        !continuing(run(phase, events)),
        issued(phase, events, Action::Spawn) == 0,
        issued(phase, events, Action::Poll) == 0,
        ended(phase) is Some ==> run(phase, events) == phase,
    decreases events.len(),
{
    if events.len() > 0 {
        law_stop_is_final(phase, events.drop_last());
    }
}

/// After a request to quit nothing is launched again. If a poll that the
/// supervisor takes in while the child is running holds a request to quit,
/// then from that poll on the run is not meant to go on, and the command is
/// never launched again, whatever is reported later: further requests to
/// restart included. If the run has ended, it has ended by quitting.
pub proof fn law_no_spawn_after_quit(start: Phase, events: Seq<Event>, i: int)
    requires
        0 <= i < events.len(),
        run(start, events.take(i)) == Phase::Running,
        events[i] matches Event::Polled(signals) && signals.quit,
    ensures
        forall|k: int|
            i < k <= events.len() ==> !continuing(#[trigger] run(start, events.take(k))),
        forall|k: int|
            i < k <= events.len() ==> pending(#[trigger] run(start, events.take(k)))
                != Action::Spawn,
        issued(run(start, events.take(i + 1)), events.skip(i + 1), Action::Spawn) == 0,
        ended(run(start, events)) is Some ==> run(start, events) == Phase::Terminated,
{
    lemma_run_step(start, events, i);
    let stopping = run(start, events.take(i + 1));
    assert(stopping == Phase::Stopping(StopReason::Quit));
    assert forall|k: int| i < k <= events.len() implies !continuing(
        #[trigger] run(start, events.take(k)),
    ) by {
        let rest = events.subrange(i + 1, k);
        assert(events.take(k) =~= events.take(i + 1) + rest);
        lemma_run_concat(start, events.take(i + 1), rest, Action::Spawn);
        law_stop_is_final(stopping, rest);
    }
    law_stop_is_final(stopping, events.skip(i + 1));
    assert(events.take(events.len() as int) =~= events);
    lemma_quit_ends_in_terminated(stopping, events.skip(i + 1));
    assert(events =~= events.take(i + 1) + events.skip(i + 1));
    lemma_run_concat(start, events.take(i + 1), events.skip(i + 1), Action::Spawn);
}

/// A run that is stopping to quit, or has terminated, does not end in a
/// failure.
proof fn lemma_quit_ends_in_terminated(phase: Phase, events: Seq<Event>)
    requires
        phase == Phase::Stopping(StopReason::Quit) || phase == Phase::Terminated,
    ensures
        run(phase, events) == Phase::Stopping(StopReason::Quit) || run(phase, events)
            == Phase::Terminated,
    decreases events.len(),
{
    if events.len() > 0 {
        lemma_quit_ends_in_terminated(phase, events.drop_last());
    }
}

/// Quitting comes before restarting. If one of the deliveries of a poll cycle
/// is the removal of the control file, then, whatever else the cycle
/// received, a write included, the supervisor stops the child in order to
/// quit; once the child was told to terminate the run has terminated; and the
/// command is not launched again, whatever is reported later.
pub proof fn law_quit_beats_restart(
    batch: Seq<Delivery>,
    removal: int,
    killed: Event,
    later: Seq<Event>,
)
    requires
        0 <= removal < batch.len(),
        surfaced(batch[removal]) == Some(WatchEvent::Removed),
        killed is KillSent || killed is KillFailed,
    ensures
        Signals::of(batch).decided() == Verdict::Quit,
        next(Phase::Running, Event::Polled(Signals::of(batch))) == Phase::Stopping(
            StopReason::Quit,
        ),
        run(Phase::Running, seq![Event::Polled(Signals::of(batch)), killed]) == Phase::Terminated,
        run(Phase::Running, seq![Event::Polled(Signals::of(batch)), killed] + later)
            == Phase::Terminated,
        issued(
            Phase::Running,
            seq![Event::Polled(Signals::of(batch)), killed] + later,
            Action::Spawn,
        ) == 0,
{
    let polled = Event::Polled(Signals::of(batch));
    let cycle = seq![polled, killed];
    assert(Signals::of(batch).quit);
    lemma_run_pair(Phase::Running, polled, killed, Action::Spawn);
    lemma_run_concat(Phase::Running, cycle, later, Action::Spawn);
    law_stop_is_final(Phase::Terminated, later);
}

/// What one more event at the end of a run adds to it.
proof fn lemma_run_push(phase: Phase, events: Seq<Event>, event: Event, action: Action)
    ensures
        run(phase, events.push(event)) == next(run(phase, events), event),
        issued(phase, events.push(event), action) == issued(phase, events, action) + (if asks(
            run(phase, events),
            event,
            action,
        ) {
            1nat
        } else {
            0nat
        }),
{
    assert(events.push(event).drop_last() =~= events);
}

/// A run over two events, spelled out.
proof fn lemma_run_pair(phase: Phase, first: Event, second: Event, action: Action)
    ensures
        run(phase, seq![first, second]) == next(next(phase, first), second),
        issued(phase, seq![first, second], action) == (if asks(phase, first, action) {
            1nat
        } else {
            0nat
        }) + (if asks(next(phase, first), second, action) {
            1nat
        } else {
            0nat
        }),
{
    let none = Seq::<Event>::empty();
    lemma_run_push(phase, none, first, action);
    lemma_run_push(phase, none.push(first), second, action);
    assert(seq![first, second] =~= none.push(first).push(second));
}

/// A run over three events, spelled out.
proof fn lemma_run_triple(phase: Phase, first: Event, second: Event, third: Event, action: Action)
    ensures
        run(phase, seq![first, second, third]) == next(next(next(phase, first), second), third),
        issued(phase, seq![first, second, third], action) == (if asks(phase, first, action) {
            1nat
        } else {
            0nat
        }) + (if asks(next(phase, first), second, action) {
            1nat
        } else {
            0nat
        }) + (if asks(next(next(phase, first), second), third, action) {
            1nat
        } else {
            0nat
        }),
{
    lemma_run_pair(phase, first, second, action);
    lemma_run_push(phase, seq![first, second], third, action);
    assert(seq![first, second, third] =~= seq![first, second].push(third));
}

/// A child that exits on its own is started again, for as long as nothing
/// else is requested. While nothing is requested, a child that is found to
/// have exited, with whatever code, is launched again; and after any number
/// of such rounds the supervisor has asked for exactly that many new
/// launches, stopped no child, and is running the next generation.
pub proof fn law_self_exit_respawns(code: Option<i32>, rounds: nat)
    ensures
        run(Phase::Running, seq![Event::Polled(Signals::quiet()), Event::ChildExited(code)])
            == Phase::Spawning,
        run(Phase::Running, self_exit_rounds(code, rounds)) == Phase::Running,
        issued(Phase::Running, self_exit_rounds(code, rounds), Action::Spawn) == rounds,
        issued(Phase::Running, self_exit_rounds(code, rounds), Action::Kill) == 0,
    decreases rounds,
{
    let quiet = Event::Polled(Signals::quiet());
    let exited = Event::ChildExited(code);
    lemma_run_pair(Phase::Running, quiet, exited, Action::Spawn);
    if rounds > 0 {
        let before = self_exit_rounds(code, (rounds - 1) as nat);
        law_self_exit_respawns(code, (rounds - 1) as nat);
        lemma_run_triple(Phase::Running, quiet, exited, Event::Spawned, Action::Spawn);
        lemma_run_triple(Phase::Running, quiet, exited, Event::Spawned, Action::Kill);
        lemma_run_concat(Phase::Running, before, self_exit_round(code), Action::Spawn);
        lemma_run_concat(Phase::Running, before, self_exit_round(code), Action::Kill);
    }
}

/// A command that cannot be launched ends the run. If the first launch of
/// the command fails, the run ends there in a fatal failure, with a non-zero
/// exit code, and at no point of it, before or after, is the watcher polled.
pub proof fn law_failed_launch_is_fatal(events: Seq<Event>, i: int)
    requires
        0 <= i < events.len(),
        run(Phase::Preparing, events.take(i)) == Phase::Spawning,
        events[i] is SpawnFailed,
        forall|j: int| 0 <= j < i ==> !(#[trigger] events[j] is Spawned),
    ensures
        forall|k: int|
            0 <= k <= events.len() ==> pending(#[trigger] run(Phase::Preparing, events.take(k)))
                != Action::Poll,
        forall|k: int|
            i < k <= events.len() ==> #[trigger] run(Phase::Preparing, events.take(k))
                == Phase::Failed(Fatal::Spawn),
        run(Phase::Preparing, events) == Phase::Failed(Fatal::Spawn),
        ended(run(Phase::Preparing, events)) == Some(Outcome::Fatal(Fatal::Spawn)),
        Outcome::Fatal(Fatal::Spawn).code() != 0,
{
    lemma_run_step(Phase::Preparing, events, i);
    let failed = Phase::Failed(Fatal::Spawn);
    assert(run(Phase::Preparing, events.take(i + 1)) == failed);
    assert forall|k: int| i < k <= events.len() implies #[trigger] run(
        Phase::Preparing,
        events.take(k),
    ) == failed by {
        let rest = events.subrange(i + 1, k);
        assert(events.take(k) =~= events.take(i + 1) + rest);
        lemma_run_concat(Phase::Preparing, events.take(i + 1), rest, Action::Poll);
        law_stop_is_final(failed, rest);
    }
    assert forall|k: int| 0 <= k <= i implies pending(
        #[trigger] run(Phase::Preparing, events.take(k)),
    ) != Action::Poll by {
        assert(events.take(i).take(k) =~= events.take(k));
        lemma_startup_never_polls(events.take(i), k);
    }
    assert(events.take(events.len() as int) =~= events);
}

/// As long as no launch has succeeded, the supervisor is preparing,
/// attaching, spawning or has failed: it has not polled.
proof fn lemma_startup_never_polls(events: Seq<Event>, k: int)
    requires
        0 <= k <= events.len(),
        forall|j: int| 0 <= j < events.len() ==> !(#[trigger] events[j] is Spawned),
    ensures
        ({
            let phase = run(Phase::Preparing, events.take(k));
            phase is Preparing || phase is Attaching || phase is Spawning || phase is Failed
        }),
    decreases k,
{
    if k > 0 {
        lemma_startup_never_polls(events, k - 1);
        lemma_run_step(Phase::Preparing, events, k - 1);
        assert(!(events[k - 1] is Spawned));
    } else {
        assert(events.take(0) =~= Seq::<Event>::empty());
    }
}

/// Asking for a restart more than once in a cycle is asking once. However
/// many writes of the control file a poll cycle received, as long as it
/// received one and no removal, the cycle asks for the same as a cycle with a
/// single write, and what follows is one restart: the child is told to
/// terminate once and the command is launched once, whether or not the child
/// could be told and whatever the check on it finds; with the launch the
/// supervisor is running again.
pub proof fn law_restart_is_idempotent(
    batch: Seq<Delivery>,
    write: int,
    killed: Event,
    checked: Event,
)
    requires
        0 <= write < batch.len(),
        surfaced(batch[write]) == Some(WatchEvent::Modified),
        forall|i: int| 0 <= i < batch.len() ==> surfaced(#[trigger] batch[i]) != Some(
            WatchEvent::Removed,
        ),
        killed is KillSent || killed is KillFailed,
        checked is ChildExited || checked is ChildAlive || checked is CheckFailed,
    ensures
        Signals::of(batch).decided() == Verdict::Restart,
        Signals::of(batch).decided() == Signals::quiet().noting(batch[write]).decided(),
        run(Phase::Running, restart_cycle(Signals::of(batch), killed, checked)) == Phase::Running,
        issued(Phase::Running, restart_cycle(Signals::of(batch), killed, checked), Action::Kill)
            == 1,
        issued(Phase::Running, restart_cycle(Signals::of(batch), killed, checked), Action::Spawn)
            == 1,
{
    let signals = Signals::of(batch);
    assert(signals.restart);
    assert(!signals.quit);
    let polled = Event::Polled(signals);
    let cycle = restart_cycle(signals, killed, checked);
    assert(cycle =~= seq![polled, killed, checked].push(Event::Spawned));
    lemma_run_triple(Phase::Running, polled, killed, checked, Action::Kill);
    lemma_run_triple(Phase::Running, polled, killed, checked, Action::Spawn);
    lemma_run_push(Phase::Running, seq![polled, killed, checked], Event::Spawned, Action::Kill);
    lemma_run_push(Phase::Running, seq![polled, killed, checked], Event::Spawned, Action::Spawn);
}

/// A run ends only when it is told to or cannot go on. A run from the start
/// that has terminated took in, while the child was running, a poll that held
/// a request to quit; and a run that has failed was told that the control
/// file could not be created, the watcher not attached or the command not
/// launched, at the point where it had asked for just that. Short of these
/// the supervisor keeps the child alive.
pub proof fn law_ends_only_when_told(events: Seq<Event>)
    ensures
        run(Phase::Preparing, events) == Phase::Terminated ==> exists|i: int|
            0 <= i < events.len() && #[trigger] run(Phase::Preparing, events.take(i))
                == Phase::Running && quit_requested(events[i]),
        run(Phase::Preparing, events) is Failed ==> exists|i: int|
            0 <= i < events.len() && #[trigger] fails(
                run(Phase::Preparing, events.take(i)),
                events[i],
            ),
{
    lemma_end_has_a_cause(events);
    assert(events.take(events.len() as int) =~= events);
}

/// Whether an event is a poll that holds a request to quit.
pub open spec fn quit_requested(event: Event) -> bool {
    event matches Event::Polled(signals) && signals.quit
}

/// Whether `event` reports, in `phase`, the failure of what was asked for at
/// startup or of a launch.
pub open spec fn fails(phase: Phase, event: Event) -> bool {
    ||| phase == Phase::Preparing && event is ControlFailed
    ||| phase == Phase::Attaching && event is WatchFailed
    ||| phase == Phase::Spawning && event is SpawnFailed
}

/// A run that is quitting or has quit was asked to; one that has failed was
/// told of a failure.
proof fn lemma_end_has_a_cause(events: Seq<Event>)
    ensures
        !continuing(run(Phase::Preparing, events)) && !(run(Phase::Preparing, events) is Failed)
            ==> exists|i: int|
            0 <= i < events.len() && #[trigger] run(Phase::Preparing, events.take(i))
                == Phase::Running && quit_requested(events[i]),
        run(Phase::Preparing, events) is Failed ==> exists|i: int|
            0 <= i < events.len() && #[trigger] fails(
                run(Phase::Preparing, events.take(i)),
                events[i],
            ),
    decreases events.len(),
{
    if events.len() > 0 {
        let earlier = events.drop_last();
        let last = events.len() - 1;
        let before = run(Phase::Preparing, earlier);
        let after = run(Phase::Preparing, events);
        lemma_end_has_a_cause(earlier);
        assert(events.take(last) =~= earlier);
        assert forall|i: int| 0 <= i < earlier.len() implies #[trigger] events.take(i)
            == earlier.take(i) && events[i] == earlier[i] by {
            assert(events.take(i) =~= earlier.take(i));
        }
        if !continuing(after) && !(after is Failed) {
            if !continuing(before) {
                let i = choose|i: int|
                    0 <= i < earlier.len() && #[trigger] run(Phase::Preparing, earlier.take(i))
                        == Phase::Running && quit_requested(earlier[i]);
                assert(events.take(i) == earlier.take(i));
                assert(run(Phase::Preparing, events.take(i)) == Phase::Running && quit_requested(
                    events[i],
                ));
            } else {
                assert(run(Phase::Preparing, events.take(last)) == Phase::Running
                    && quit_requested(events[last]));
            }
        }
        if after is Failed {
            if before is Failed {
                let i = choose|i: int|
                    0 <= i < earlier.len() && #[trigger] fails(
                        run(Phase::Preparing, earlier.take(i)),
                        earlier[i],
                    );
                assert(events.take(i) == earlier.take(i));
                assert(fails(run(Phase::Preparing, events.take(i)), events[i]));
            } else {
                assert(fails(run(Phase::Preparing, events.take(last)), events[last]));
            }
        }
    }
}

} // verus!
