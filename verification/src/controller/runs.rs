//! Whole runs of the controller's engine, and what holds of every one of them.
//!
//! A run is given by the events that the caller reported, in order. The engine
//! starts `Idle`; each event takes it to the successor of the state it was in.
//! The action performed for an event is the one that was outstanding in the
//! state before it.

use vstd::prelude::*;
use crate::controller::{ControllerState, Phase, Teardown, ROUNDS};
use crate::message::{lemma_round_is_not_sentinel, round_bytes, sentinel_bytes};
use crate::protocol::{ActionView, EventView};

verus! {

/// The state of the engine once `events` have been reported.
pub open spec fn state_after(events: Seq<EventView>) -> ControllerState
    decreases events.len(),
{
    if events.len() == 0 {
        ControllerState::Idle
    } else {
        state_after(events.drop_last()).successor(events.last())
    }
}

/// The actions performed in the run, one for each event, in order.
pub open spec fn performed(events: Seq<EventView>) -> Seq<ActionView>
    decreases events.len(),
{
    if events.len() == 0 {
        Seq::empty()
    } else {
        performed(events.drop_last()).push(state_after(events.drop_last()).pending())
    }
}

/// How many times the run has written a round's message, whether or not the
/// write succeeded.
pub open spec fn exchange_writes(events: Seq<EventView>) -> nat
    decreases events.len(),
{
    if events.len() == 0 {
        0
    } else {
        let before = state_after(events.drop_last());
        let wrote: nat = if before matches ControllerState::Exchanging { phase: Phase::Sending, .. } {
            1
        } else {
            0
        };
        exchange_writes(events.drop_last()) + wrote
    }
}

/// The payloads that the run has written, in order, whether or not the write
/// succeeded.
pub open spec fn written(events: Seq<EventView>) -> Seq<Seq<u8>>
    decreases events.len(),
{
    if events.len() == 0 {
        Seq::empty()
    } else {
        match state_after(events.drop_last()).pending() {
            ActionView::Send(bytes) => written(events.drop_last()).push(bytes),
            _ => written(events.drop_last()),
        }
    }
}

/// What a run writes from first to last: the message of each round, then the
/// sentinel.
pub open spec fn script() -> Seq<Seq<u8>> {
    Seq::new(ROUNDS as nat, |i: int| round_bytes((i + 1) as u8)).push(sentinel_bytes())
}

/// Number of writes that lie behind a run that is in `state`.
pub open spec fn writes_behind(state: ControllerState) -> nat {
    match state {
        ControllerState::Idle | ControllerState::Listening | ControllerState::Failed => 0,
        ControllerState::Exchanging { round, phase: Phase::Sending } => (round - 1) as nat,
        ControllerState::Exchanging { round, .. } => round as nat,
        ControllerState::Terminating { stage: Teardown::Sentinel } => ROUNDS as nat,
        ControllerState::Terminating { .. } | ControllerState::Closed => (ROUNDS + 1) as nat,
    }
}

/// Number of events that take a run from `state` to `Closed`, unless bind or
/// accept fails.
pub open spec fn events_to_close(state: ControllerState) -> nat {
    match state {
        ControllerState::Idle => (3 * ROUNDS + 5) as nat,
        ControllerState::Listening => (3 * ROUNDS + 4) as nat,
        ControllerState::Exchanging { round, phase: Phase::Sending } => (3 * (ROUNDS - round) + 6) as nat,
        ControllerState::Exchanging { round, phase: Phase::Receiving } => (3 * (ROUNDS - round) + 5) as nat,
        ControllerState::Exchanging { round, phase: Phase::Pausing } => (3 * (ROUNDS - round) + 4) as nat,
        ControllerState::Terminating { stage: Teardown::Sentinel } => 3,
        ControllerState::Terminating { stage: Teardown::Disconnect } => 2,
        ControllerState::Terminating { stage: Teardown::Unlink } => 1,
        ControllerState::Closed | ControllerState::Failed => 0,
    }
}

/// Whether bind or accept failed in the run.
pub open spec fn setup_failed(events: Seq<EventView>) -> bool {
    ||| events.len() >= 1 && events[0] is Failed
    ||| events.len() >= 2 && events[1] is Failed
}

/// Every state of a run is well formed, and a run is `Idle` only before its
/// first event.
pub proof fn lemma_run_wf(events: Seq<EventView>)
    ensures
        state_after(events).wf(),
        state_after(events) is Idle <==> events.len() == 0,
        performed(events).len() == events.len(),
    decreases events.len(),
{
    if events.len() > 0 {
        lemma_run_wf(events.drop_last());
    }
}

/// A run fails exactly when bind or accept fails, and otherwise moves one
/// event closer to `Closed` with each event until it gets there.
pub proof fn lemma_run_progress(events: Seq<EventView>)
    ensures
        state_after(events) is Failed <==> setup_failed(events),
        !setup_failed(events) ==> {
            let total = events_to_close(ControllerState::Idle);
            events_to_close(state_after(events)) == if events.len() <= total {
                total - events.len()
            } else {
                0
            }
        },
    decreases events.len(),
{
    if events.len() > 0 {
        let before = events.drop_last();
        lemma_run_progress(before);
        lemma_run_wf(before);
        assert(forall|i: int| 0 <= i < before.len() ==> before[i] == events[i]);
        if before.len() >= 2 {
            assert(setup_failed(events) == setup_failed(before));
        }
    }
}

/// The run always reaches teardown: when bind and accept have succeeded, the
/// run is closed after `actions_to_close()` events, however the writes and
/// reads in between went.
pub proof fn law_run_closes(events: Seq<EventView>)
    requires
        events.len() >= actions_to_close(),
        !(events[0] is Failed),
        !(events[1] is Failed),
    ensures
        state_after(events) is Closed,
{
    lemma_run_progress(events);
    lemma_run_wf(events);
}

/// What lies behind a run is the start of the script, as far as its state says.
pub proof fn lemma_written_so_far(events: Seq<EventView>)
    ensures
        written(events) == script().take(writes_behind(state_after(events)) as int),
        exchange_writes(events) == if writes_behind(state_after(events)) <= ROUNDS {
            writes_behind(state_after(events))
        } else {
            ROUNDS as nat
        },
    decreases events.len(),
{
    if events.len() == 0 {
        assert(written(events) =~= script().take(0));
    } else {
        let before = events.drop_last();
        lemma_written_so_far(before);
        lemma_run_wf(before);
        let from = state_after(before);
        let behind = writes_behind(from) as int;
        match from.pending() {
            ActionView::Send(bytes) => {
                assert(script()[behind] == bytes);
                assert(script().take(behind).push(bytes) =~= script().take(behind + 1));
            },
            _ => {},
        }
    }
}

/// However the individual writes and reads went, a run that is past its
/// exchange loop has written a round's message exactly `ROUNDS` times, and no
/// run ever writes more.
pub proof fn law_exchange_write_count(events: Seq<EventView>)
    ensures
        exchange_writes(events) <= ROUNDS,
        state_after(events) is Terminating || state_after(events) is Closed
            ==> exchange_writes(events) == ROUNDS,
{
    lemma_written_so_far(events);
}

/// A run that has closed has written the message of each round in turn and
/// then the sentinel, and nothing else: the sentinel goes out exactly once, as
/// the last payload.
pub proof fn law_sentinel_once_and_last(events: Seq<EventView>)
    requires
        state_after(events) is Closed,
    ensures
        written(events) == script(),
        written(events).len() == ROUNDS + 1,
        written(events).last() == sentinel_bytes(),
        forall|i: int| 0 <= i < ROUNDS ==> #[trigger] written(events)[i] != sentinel_bytes(),
{
    lemma_written_so_far(events);
    assert(script().take(ROUNDS + 1) =~= script());
    assert forall|i: int| 0 <= i < ROUNDS implies #[trigger] script()[i] != sentinel_bytes() by {
        lemma_round_is_not_sentinel((i + 1) as u8);
    }
}

/// Whether `actions` ends with the given number of steps of teardown: the
/// sentinel's write, then the disconnect, then the removal of the endpoint.
pub open spec fn ends_in_teardown(actions: Seq<ActionView>, steps: int) -> bool {
    &&& actions.len() >= steps
    &&& steps >= 1 ==> actions[actions.len() - steps] == ActionView::Send(sentinel_bytes())
    &&& steps >= 2 ==> actions[actions.len() - steps + 1] == ActionView::Disconnect
    &&& steps >= 3 ==> actions[actions.len() - steps + 2] == ActionView::RemoveEndpoint
}

/// How many steps of teardown lie behind a run that is in `state`.
pub open spec fn teardown_behind(state: ControllerState) -> int {
    match state {
        ControllerState::Terminating { stage: Teardown::Disconnect } => 1,
        ControllerState::Terminating { stage: Teardown::Unlink } => 2,
        ControllerState::Closed => 3,
        _ => 0,
    }
}

/// The run binds once, as its first action, and accepts at most once, as its
/// second: it never listens for a second peer.
pub proof fn law_binds_and_accepts_once(events: Seq<EventView>)
    ensures
        forall|i: int|
            0 <= i < performed(events).len() ==> (#[trigger] performed(events)[i]
                == ActionView::Bind <==> i == 0),
        forall|i: int|
            0 <= i < performed(events).len() && #[trigger] performed(events)[i]
                == ActionView::Accept ==> i == 1,
    decreases events.len(),
{
    if events.len() > 0 {
        let before = events.drop_last();
        law_binds_and_accepts_once(before);
        lemma_run_wf(before);
        if before.len() > 0 {
            lemma_run_wf(before.drop_last());
        }
    }
}

/// Number of actions from the bind to the removal of the endpoint in a run
/// that closes.
pub open spec fn actions_to_close() -> int {
    3 * ROUNDS + 5
}

/// While a run tears down, what it has performed ends in the steps of
/// teardown that lie behind it. Once it has closed, those were its last
/// actions before the exit.
pub proof fn lemma_teardown_trail(events: Seq<EventView>)
    ensures
        !(state_after(events) is Closed) ==> ends_in_teardown(
            performed(events),
            teardown_behind(state_after(events)),
        ),
        state_after(events) is Closed ==> {
            &&& events.len() >= actions_to_close()
            &&& ends_in_teardown(performed(events).take(actions_to_close()), 3)
            &&& forall|i: int|
                actions_to_close() <= i < events.len() ==> #[trigger] performed(events)[i]
                    == ActionView::Exit(0)
        },
    decreases events.len(),
{
    if events.len() > 0 {
        let before = events.drop_last();
        lemma_teardown_trail(before);
        lemma_run_wf(before);
        lemma_run_wf(events);
        lemma_run_progress(before);
        let now = performed(events);
        if state_after(events) is Closed {
            if state_after(before) is Closed {
                assert(now.take(actions_to_close()) =~= performed(before).take(
                    actions_to_close(),
                ));
            } else {
                assert(events.len() == actions_to_close());
                assert(now.take(actions_to_close()) =~= now);
            }
        }
    }
}

/// A run closes only through teardown. When it has closed, the connection has
/// been dropped and the file at the endpoint address removed, in this order,
/// right after the sentinel's write. These are the last of its
/// `actions_to_close()` actions; only the exit follows them.
pub proof fn law_closed_run_has_torn_down(events: Seq<EventView>)
    requires
        state_after(events) is Closed,
    ensures
        events.len() >= actions_to_close(),
        ends_in_teardown(performed(events).take(actions_to_close()), 3),
        forall|i: int|
            actions_to_close() <= i < events.len() ==> #[trigger] performed(events)[i]
                == ActionView::Exit(0),
{
    lemma_teardown_trail(events);
}

} // verus!
