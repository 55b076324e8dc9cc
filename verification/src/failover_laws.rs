//! What holds of every run of a retry combinator.

use crate::database::{is_primary_choice, lemma_primary_index, primary_index, ReplicaView};
use crate::error::ErrorView;
use crate::failover::{
    ActionView, Event, FailoverView, Phase, Strategy, MAX_RETRIES, PRIMARY_WAIT_MILLIS,
};
use vstd::prelude::*;

verus! {

/// A run fed with the events in order: the state at the end, and the
/// actions that it asked for.
pub open spec fn run_events(start: FailoverView, events: Seq<Event>) -> (
    FailoverView,
    Seq<ActionView>,
)
    decreases events.len(),
{
    if events.len() == 0 {
        (start, Seq::empty())
    } else {
        let (state, actions) = run_events(start, events.drop_last());
        let (next, action) = state.step(events.last());
        (next, actions.push(action))
    }
}

/// How many of the actions ask for a run of the task.
pub open spec fn count_runs(actions: Seq<ActionView>) -> nat
    decreases actions.len(),
{
    if actions.len() == 0 {
        0
    } else {
        count_runs(actions.drop_last()) + if actions.last() is Run {
            1nat
        } else {
            0nat
        }
    }
}

/// How long the waits that the actions ask for last together, in
/// milliseconds.
pub open spec fn total_wait(actions: Seq<ActionView>) -> nat
    decreases actions.len(),
{
    if actions.len() == 0 {
        0
    } else {
        total_wait(actions.drop_last()) + match actions.last() {
            ActionView::Wait { millis } => millis as nat,
            _ => 0nat,
        }
    }
}

/// How many of the actions ask for a wait.
pub open spec fn count_waits(actions: Seq<ActionView>) -> nat
    decreases actions.len(),
{
    if actions.len() == 0 {
        0
    } else {
        count_waits(actions.drop_last()) + if actions.last() is Wait {
            1nat
        } else {
            0nat
        }
    }
}

/// The events of a run on the primary in which the task fails `rounds`
/// times with `errors`, and after each failure and wait the first server
/// answers with the next of `snapshots`.
pub open spec fn failing_rounds(
    errors: Seq<ErrorView>,
    snapshots: Seq<Seq<ReplicaView>>,
    rounds: int,
) -> Seq<Event>
    decreases rounds,
{
    if rounds <= 0 {
        seq![Event::Start]
    } else {
        failing_rounds(errors, snapshots, rounds - 1).push(
            Event::TaskDone(Some(errors[rounds - 1])),
        ).push(Event::Waited).push(Event::Fetched(snapshots[rounds - 1]))
    }
}

/// The replicas that the run works with after `rounds` failures.
pub open spec fn snapshot_after(
    start: FailoverView,
    snapshots: Seq<Seq<ReplicaView>>,
    rounds: int,
) -> Seq<ReplicaView> {
    if rounds <= 0 {
        start.database.replicas
    } else {
        snapshots[rounds - 1]
    }
}

/// Feeding one more event to a run is one more step.
pub proof fn lemma_run_events_push(start: FailoverView, events: Seq<Event>, event: Event)
    ensures
        run_events(start, events.push(event)) == ({
            let (state, actions) = run_events(start, events);
            let (next, action) = state.step(event);
            (next, actions.push(action))
        }),
{
    assert(events.push(event).drop_last() =~= events);
}

proof fn lemma_count_push(actions: Seq<ActionView>, action: ActionView)
    ensures
        count_runs(actions.push(action)) == count_runs(actions) + if action is Run {
            1nat
        } else {
            0nat
        },
        count_waits(actions.push(action)) == count_waits(actions) + if action is Wait {
            1nat
        } else {
            0nat
        },
        total_wait(actions.push(action)) == total_wait(actions) + match action {
            ActionView::Wait { millis } => millis as nat,
            _ => 0nat,
        },
{
    assert(actions.push(action).drop_last() =~= actions);
}

proof fn lemma_failing_rounds(
    start: FailoverView,
    errors: Seq<ErrorView>,
    snapshots: Seq<Seq<ReplicaView>>,
    rounds: int,
)
    requires
        start.phase is Idle,
        start.strategy == Strategy::PrimaryReplica,
        primary_index(start.database.replicas) is Some,
        start.database.servers.len() > 0,
        0 <= rounds <= errors.len(),
        errors.len() == snapshots.len(),
        errors.len() < MAX_RETRIES,
        forall|j: int| 0 <= j < errors.len() ==> (#[trigger] errors[j]).is_retryable(),
        forall|j: int| 0 <= j < snapshots.len() ==> primary_index(#[trigger] snapshots[j]) is Some,
    ensures
        ({
            let (state, actions) = run_events(start, failing_rounds(errors, snapshots, rounds));
            let replicas = snapshot_after(start, snapshots, rounds);
            &&& state.wf()
            &&& state.strategy == start.strategy
            &&& state.database.servers == start.database.servers
            &&& state.database.replicas == replicas
            &&& state.phase == Phase::PrimaryTask {
                replica: primary_index(replicas).unwrap() as usize,
                runs: (rounds + 1) as usize,
            }
            &&& actions.len() > 0
            &&& actions.last() == ActionView::Run {
                replica: primary_index(replicas).unwrap() as usize,
                is_first_run: rounds == 0,
            }
            &&& count_runs(actions) == rounds + 1
            &&& count_waits(actions) == rounds
            &&& total_wait(actions) == rounds * PRIMARY_WAIT_MILLIS
        }),
    decreases rounds,
{
    if rounds <= 0 {
        let events = seq![Event::Start];
        assert(events.drop_last() =~= Seq::<Event>::empty());
        assert(events.last() == Event::Start);
        let (state, actions) = run_events(start, events);
        lemma_primary_index(start.database.replicas);
        assert(run_events(start, Seq::<Event>::empty()) == (start, Seq::<ActionView>::empty()));
        assert(actions =~= Seq::<ActionView>::empty().push(start.step(Event::Start).1));
        lemma_count_push(Seq::<ActionView>::empty(), start.step(Event::Start).1);
    } else {
        lemma_failing_rounds(start, errors, snapshots, rounds - 1);
        let before = failing_rounds(errors, snapshots, rounds - 1);
        let (s0, a0) = run_events(start, before);
        let e1 = Event::TaskDone(Some(errors[rounds - 1]));
        let e2 = Event::Waited;
        let e3 = Event::Fetched(snapshots[rounds - 1]);
        lemma_run_events_push(start, before, e1);
        lemma_run_events_push(start, before.push(e1), e2);
        lemma_run_events_push(start, before.push(e1).push(e2), e3);
        let (s1, b1) = s0.step(e1);
        let (s2, b2) = s1.step(e2);
        let (s3, b3) = s2.step(e3);
        assert(errors[rounds - 1].is_retryable());
        assert(b1 == ActionView::Wait { millis: PRIMARY_WAIT_MILLIS });
        assert(b2 == ActionView::Fetch { server: 0 });
        assert(primary_index(snapshots[rounds - 1]) is Some);
        lemma_primary_index(snapshots[rounds - 1]);
        assert(b3 is Run);
        lemma_count_push(a0, b1);
        lemma_count_push(a0.push(b1), b2);
        lemma_count_push(a0.push(b1).push(b2), b3);
    }
}

/// Failover to the primary. A run on the primary of a database with a known
/// primary, in which the task fails fewer than `MAX_RETRIES` times with
/// errors that are retried, and each search finds a primary at once, ends
/// with the task's success as soon as the task succeeds: the caller never
/// retries. The task has then run once more than it failed, each time on the
/// primary of the newest snapshot, and the waits add up to less than twenty
/// seconds.
pub proof fn lemma_failover_to_primary(
    start: FailoverView,
    errors: Seq<ErrorView>,
    snapshots: Seq<Seq<ReplicaView>>,
)
    requires
        start.phase is Idle,
        start.strategy == Strategy::PrimaryReplica,
        primary_index(start.database.replicas) is Some,
        start.database.servers.len() > 0,
        errors.len() == snapshots.len(),
        errors.len() < MAX_RETRIES,
        forall|j: int| 0 <= j < errors.len() ==> (#[trigger] errors[j]).is_retryable(),
        forall|j: int| 0 <= j < snapshots.len() ==> primary_index(#[trigger] snapshots[j]) is Some,
    ensures
        ({
            let rounds = errors.len() as int;
            let events = failing_rounds(errors, snapshots, rounds).push(Event::TaskDone(None));
            let (end, actions) = run_events(start, events);
            let replicas = snapshot_after(start, snapshots, rounds);
            &&& end.phase is Finished
            &&& end.database.replicas == replicas
            &&& actions.last() == ActionView::Return
            &&& actions[actions.len() - 2] == ActionView::Run {
                replica: primary_index(replicas).unwrap() as usize,
                is_first_run: rounds == 0,
            }
            &&& count_runs(actions) == rounds + 1
            &&& count_runs(actions) <= MAX_RETRIES
            &&& count_waits(actions) == rounds
            &&& total_wait(actions) == rounds * PRIMARY_WAIT_MILLIS
            &&& total_wait(actions) < 20_000
        }),
{
    let rounds = errors.len() as int;
    lemma_failing_rounds(start, errors, snapshots, rounds);
    let before = failing_rounds(errors, snapshots, rounds);
    let (state, actions) = run_events(start, before);
    lemma_run_events_push(start, before, Event::TaskDone(None));
    lemma_count_push(actions, ActionView::Return);
}

/// A newly elected primary wins: a replica that is marked primary with a
/// term above that of every other replica marked primary is the current
/// primary.
pub proof fn lemma_newer_term_wins(replicas: Seq<ReplicaView>, elected: int)
    requires
        0 <= elected < replicas.len(),
        replicas[elected].is_primary,
        forall|j: int|
            0 <= j < replicas.len() && j != elected && (#[trigger] replicas[j]).is_primary
                ==> replicas[j].term < replicas[elected].term,
    ensures
        primary_index(replicas) == Some(elected),
{
    lemma_primary_index(replicas);
    match primary_index(replicas) {
        Some(i) => {
            assert(is_primary_choice(replicas, i));
            if i != elected {
                assert(replicas[elected].term <= replicas[i].term);
                assert(replicas[i].term < replicas[elected].term);
            }
        },
        None => {
            assert(!replicas[elected].is_primary);
        },
    }
}

/// A run on any replica that finds the first replicas unreachable and
/// another one reachable hands on what that one answered, whatever it is,
/// and asks for no wait.
pub proof fn lemma_any_replica_skips_unreachable(start: FailoverView, unreachable: int)
    requires
        start.phase is Idle,
        start.strategy == Strategy::AnyReplica,
        0 <= unreachable < start.database.replicas.len(),
        start.database.replicas.len() <= usize::MAX,
    ensures
        ({
            let (state, actions) = run_events(start, unreachable_then(unreachable));
            &&& state.phase == Phase::AnyTask { replica: unreachable as usize }
            &&& state.strategy == start.strategy
            &&& state.database == start.database
            &&& actions.last() == ActionView::Run {
                replica: unreachable as usize,
                is_first_run: unreachable == 0,
            }
            &&& count_waits(actions) == 0
            &&& total_wait(actions) == 0
            &&& forall|failure: Option<ErrorView>|
                failure != Some(ErrorView::UnableToConnect) ==> (#[trigger] state.step(
                    Event::TaskDone(failure),
                )).1 == ActionView::Return
        }),
    decreases unreachable,
{
    if unreachable <= 0 {
        let events = seq![Event::Start];
        assert(events.drop_last() =~= Seq::<Event>::empty());
        assert(events.last() == Event::Start);
        assert(run_events(start, Seq::<Event>::empty()) == (start, Seq::<ActionView>::empty()));
        lemma_count_push(Seq::<ActionView>::empty(), start.step(Event::Start).1);
    } else {
        lemma_any_replica_skips_unreachable(start, unreachable - 1);
        let before = unreachable_then(unreachable - 1);
        let event = Event::TaskDone(Some(ErrorView::UnableToConnect));
        lemma_run_events_push(start, before, event);
        let (state, actions) = run_events(start, before);
        lemma_count_push(actions, state.step(event).1);
    }
}

/// The events of a run in which the first `unreachable` runs of the task
/// fail with `UnableToConnect`.
pub open spec fn unreachable_then(unreachable: int) -> Seq<Event>
    decreases unreachable,
{
    if unreachable <= 0 {
        seq![Event::Start]
    } else {
        unreachable_then(unreachable - 1).push(Event::TaskDone(Some(ErrorView::UnableToConnect)))
    }
}

/// Whether the snapshots that the events carry are as long as a list can be.
pub open spec fn are_listable(events: Seq<Event>) -> bool {
    forall|i: int|
        0 <= i < events.len() ==> ((#[trigger] events[i]) matches Event::Fetched(replicas)
            ==> replicas.len() <= usize::MAX)
}

/// What holds of a run on the primary at every step: the runs of the task
/// that were asked for are those that the phase has counted, and a finished
/// run has asked for `MAX_RETRIES` at most.
pub open spec fn counts_its_runs(state: FailoverView, actions: Seq<ActionView>) -> bool {
    &&& state.strategy == Strategy::PrimaryReplica
    &&& state.wf()
    &&& state.database.replicas.len() <= usize::MAX
    &&& match state.phase {
        Phase::Idle => count_runs(actions) == 0,
        Phase::PrimaryTask { replica, runs } => count_runs(actions) == runs,
        Phase::RetryWait { runs } => count_runs(actions) == runs,
        Phase::Fetching { server, seeks, runs } => count_runs(actions) == runs,
        Phase::SeekWait { seeks, runs } => count_runs(actions) == runs,
        Phase::Finished => count_runs(actions) <= MAX_RETRIES,
        _ => false,
    }
}

proof fn lemma_counts_its_runs_step(state: FailoverView, actions: Seq<ActionView>, event: Event)
    requires
        counts_its_runs(state, actions),
        event matches Event::Fetched(replicas) ==> replicas.len() <= usize::MAX,
    ensures
        counts_its_runs(state.step(event).0, actions.push(state.step(event).1)),
{
    let (next, action) = state.step(event);
    lemma_count_push(actions, action);
    lemma_primary_index(state.database.replicas);
    match event {
        Event::Fetched(replicas) => {
            lemma_primary_index(replicas);
        },
        _ => {},
    }
}

/// Bounded retry. Whatever happens to a run on the primary replica, it asks
/// for `MAX_RETRIES` runs of the task at most.
pub proof fn lemma_primary_runs_are_bounded(start: FailoverView, events: Seq<Event>)
    requires
        start.phase is Idle,
        start.strategy == Strategy::PrimaryReplica,
        start.database.replicas.len() <= usize::MAX,
        are_listable(events),
    ensures
        count_runs(run_events(start, events).1) <= MAX_RETRIES,
        counts_its_runs(run_events(start, events).0, run_events(start, events).1),
    decreases events.len(),
{
    if events.len() > 0 {
        let earlier = events.drop_last();
        assert forall|i: int| 0 <= i < earlier.len() implies ((#[trigger] earlier[i]) matches Event::Fetched(
            replicas,
        ) ==> replicas.len() <= usize::MAX) by {
            assert(earlier[i] == events[i]);
        }
        lemma_primary_runs_are_bounded(start, earlier);
        let (state, actions) = run_events(start, earlier);
        assert(events.last() == events[events.len() - 1]);
        lemma_counts_its_runs_step(state, actions, events.last());
    }
}

/// A run falls back at most once: once it has left the replicas in list
/// order, for the primary or for its end, no event brings it back to them.
pub proof fn lemma_no_way_back_to_any_replica(state: FailoverView, event: Event)
    requires
        !(state.phase is Idle),
        !(state.phase is AnyTask),
    ensures
        !(state.step(event).0.phase is Idle),
        !(state.step(event).0.phase is AnyTask),
{
}

/// The events of a fail-safe run in which the first replica answers that it
/// is not the primary, the primary fails once with `retried`, if that is
/// some error, and the search that follows finds `elected`, and the task
/// then ends with `answer`.
pub open spec fn fallback_events(
    retried: Option<ErrorView>,
    elected: Seq<ReplicaView>,
    answer: Option<ErrorView>,
) -> Seq<Event> {
    let fallen_back = seq![
        Event::Start,
        Event::TaskDone(Some(ErrorView::ClusterReplicaNotPrimary)),
    ];
    match retried {
        Some(error) => fallen_back.push(Event::TaskDone(Some(error))).push(Event::Waited).push(
            Event::Fetched(elected),
        ).push(Event::TaskDone(answer)),
        None => fallen_back.push(Event::TaskDone(answer)),
    }
}

/// At most one failover retry. In a fail-safe run on a database with a
/// known primary, let the first replica answer that it is not the primary.
/// The run turns to the primary, once. If the primary answers with anything
/// that is not retried, that answer is returned without a wait. If the
/// primary fails once with an error that is retried and the search that
/// follows finds a primary at once, the answer of that primary is returned
/// after exactly one wait of `PRIMARY_WAIT_MILLIS`.
pub proof fn lemma_fail_safe_retries_once_at_most(
    start: FailoverView,
    retried: Option<ErrorView>,
    elected: Seq<ReplicaView>,
    answer: Option<ErrorView>,
)
    requires
        start.phase is Idle,
        start.strategy == Strategy::Failsafe,
        0 < start.database.replicas.len() <= usize::MAX,
        primary_index(start.database.replicas) is Some,
        start.database.servers.len() > 0,
        retried matches Some(error) ==> error.is_retryable(),
        retried is Some ==> primary_index(elected) is Some && elected.len() <= usize::MAX,
        answer matches Some(error) ==> !error.is_retryable(),
    ensures
        ({
            let (end, actions) = run_events(start, fallback_events(retried, elected, answer));
            &&& end.phase is Finished
            &&& actions.last() == ActionView::Return
            &&& count_runs(actions) == if retried is Some {
                3nat
            } else {
                2nat
            }
            &&& count_waits(actions) == if retried is Some {
                1nat
            } else {
                0nat
            }
            &&& total_wait(actions) == if retried is Some {
                PRIMARY_WAIT_MILLIS as nat
            } else {
                0nat
            }
            &&& end.database.replicas == if retried is Some {
                elected
            } else {
                start.database.replicas
            }
        }),
{
    let none = Seq::<Event>::empty();
    let e0 = Event::Start;
    let e1 = Event::TaskDone(Some(ErrorView::ClusterReplicaNotPrimary));
    assert(run_events(start, none) == (start, Seq::<ActionView>::empty()));
    lemma_run_events_push(start, none, e0);
    lemma_run_events_push(start, none.push(e0), e1);
    assert(none.push(e0).push(e1) =~= seq![e0, e1]);
    let (s0, a0) = start.step(e0);
    let (s1, a1) = s0.step(e1);
    lemma_primary_index(start.database.replicas);
    let no_actions = Seq::<ActionView>::empty();
    lemma_count_push(no_actions, a0);
    lemma_count_push(no_actions.push(a0), a1);
    assert(a0 is Run);
    assert(a1 is Run);
    let fallen = seq![e0, e1];
    let done = no_actions.push(a0).push(a1);
    assert(run_events(start, fallen) == (s1, done));
    match retried {
        Some(error) => {
            let e2 = Event::TaskDone(Some(error));
            let e3 = Event::Waited;
            let e4 = Event::Fetched(elected);
            let e5 = Event::TaskDone(answer);
            lemma_run_events_push(start, fallen, e2);
            lemma_run_events_push(start, fallen.push(e2), e3);
            lemma_run_events_push(start, fallen.push(e2).push(e3), e4);
            lemma_run_events_push(start, fallen.push(e2).push(e3).push(e4), e5);
            let (s2, a2) = s1.step(e2);
            let (s3, a3) = s2.step(e3);
            let (s4, a4) = s3.step(e4);
            let (s5, a5) = s4.step(e5);
            lemma_primary_index(elected);
            assert(a2 == ActionView::Wait { millis: PRIMARY_WAIT_MILLIS });
            assert(a3 == ActionView::Fetch { server: 0 });
            assert(a4 is Run);
            assert(a5 == ActionView::Return);
            lemma_count_push(done, a2);
            lemma_count_push(done.push(a2), a3);
            lemma_count_push(done.push(a2).push(a3), a4);
            lemma_count_push(done.push(a2).push(a3).push(a4), a5);
        },
        None => {
            let e2 = Event::TaskDone(answer);
            lemma_run_events_push(start, fallen, e2);
            let (s2, a2) = s1.step(e2);
            assert(a2 == ActionView::Return);
            lemma_count_push(done, a2);
        },
    }
}

} // verus!
