//! Whole runs of the worker's engine, and what holds of every one of them.
//!
//! A run is given by the worker's process identity and the events that the
//! caller reported, in order. The action performed for an event is the one
//! that the step before it asked for.

use vstd::prelude::*;
use vstd::utf8::*;
use crate::message::{reply_text, sentinel_bytes, utf8_lossy};
use crate::protocol::{ActionView, EventView, StepView};
use crate::worker::{first_step, next, ExitCause, WorkerState};

verus! {

/// The step that worker `pid` is at once `events` have been reported.
pub open spec fn step_after(pid: u32, events: Seq<EventView>) -> StepView<WorkerState>
    decreases events.len(),
{
    if events.len() == 0 {
        first_step(pid)
    } else {
        next(pid, step_after(pid, events.drop_last()).state, events.last())
    }
}

/// The state of worker `pid` once `events` have been reported.
pub open spec fn state_after(pid: u32, events: Seq<EventView>) -> WorkerState {
    step_after(pid, events).state
}

/// The actions performed in the run, one for each event, in order.
pub open spec fn performed(pid: u32, events: Seq<EventView>) -> Seq<ActionView>
    decreases events.len(),
{
    if events.len() == 0 {
        Seq::empty()
    } else {
        performed(pid, events.drop_last()).push(step_after(pid, events.drop_last()).action)
    }
}

/// The payloads that the run has written, in order, whether or not the write
/// succeeded.
pub open spec fn written(pid: u32, events: Seq<EventView>) -> Seq<Seq<u8>>
    decreases events.len(),
{
    if events.len() == 0 {
        Seq::empty()
    } else {
        match step_after(pid, events.drop_last()).action {
            ActionView::Send(bytes) => written(pid, events.drop_last()).push(bytes),
            _ => written(pid, events.drop_last()),
        }
    }
}

/// The messages that the run has read, in order: what each successful read
/// delivered, unless it delivered nothing.
pub open spec fn messages(pid: u32, events: Seq<EventView>) -> Seq<Seq<u8>>
    decreases events.len(),
{
    if events.len() == 0 {
        Seq::empty()
    } else {
        let before = messages(pid, events.drop_last());
        let event = events.last();
        if state_after(pid, events.drop_last()) is Receiving && !(event is Failed)
            && event.bytes().len() > 0 {
            before.push(event.bytes())
        } else {
            before
        }
    }
}

/// The reply of worker `pid` to `message` as it travels.
pub open spec fn reply_bytes(pid: u32, message: Seq<u8>) -> Seq<u8> {
    encode_utf8(reply_text(pid, utf8_lossy(message)))
}

/// The replies that worker `pid` owes to `read`: one for each message but the
/// sentinel, in order.
pub open spec fn replies_due(pid: u32, read: Seq<Seq<u8>>) -> Seq<Seq<u8>>
    decreases read.len(),
{
    if read.len() == 0 {
        Seq::empty()
    } else if read.last() == sentinel_bytes() {
        replies_due(pid, read.drop_last())
    } else {
        replies_due(pid, read.drop_last()).push(reply_bytes(pid, read.last()))
    }
}

/// The worker reads the sentinel at most once, and then as the last message
/// of the run: it has stopped for the sentinel exactly when the last message
/// it read is the sentinel, and no message before the last one ever is.
pub proof fn law_sentinel_read_once_and_last(pid: u32, events: Seq<EventView>)
    ensures
        forall|i: int|
            0 <= i < messages(pid, events).len() - 1 ==> #[trigger] messages(pid, events)[i]
                != sentinel_bytes(),
        state_after(pid, events) == (WorkerState::Exiting { cause: ExitCause::Sentinel }) <==> (
        messages(pid, events).len() > 0 && messages(pid, events).last() == sentinel_bytes()),
    decreases events.len(),
{
    if events.len() > 0 {
        law_sentinel_read_once_and_last(pid, events.drop_last());
    }
}

/// The worker answers every message but the sentinel exactly once, in order,
/// and writes nothing else. While it is `Responding` the last reply is the
/// one being written; in every other state all replies lie behind it.
pub proof fn law_one_reply_per_message(pid: u32, events: Seq<EventView>)
    ensures
        state_after(pid, events) is Responding ==> {
            &&& replies_due(pid, messages(pid, events)).len() > 0
            &&& step_after(pid, events).action == ActionView::Send(
                replies_due(pid, messages(pid, events)).last(),
            )
            &&& written(pid, events) == replies_due(pid, messages(pid, events)).drop_last()
        },
        !(state_after(pid, events) is Responding) ==> {
            &&& !(step_after(pid, events).action is Send)
            &&& written(pid, events) == replies_due(pid, messages(pid, events))
        },
    decreases events.len(),
{
    if events.len() > 0 {
        let before = events.drop_last();
        law_one_reply_per_message(pid, before);
        let earlier = messages(pid, before);
        let read = messages(pid, events);
        let due = replies_due(pid, read);
        if read != earlier {
            assert(read.drop_last() =~= earlier);
            if read.last() != sentinel_bytes() {
                assert(due.drop_last() =~= replies_due(pid, earlier));
            }
        }
        if state_after(pid, before) is Responding {
            let owed = replies_due(pid, earlier);
            assert(owed.drop_last().push(owed.last()) =~= owed);
        }
    }
}

/// A worker that has stopped stays stopped, with the cause it stopped for, and
/// asks for nothing but the exit. Its exit status is 1 after a failed connect
/// and 0 after the sentinel, a closed connection or a failed read.
pub proof fn law_stopped_for_good(pid: u32, events: Seq<EventView>, event: EventView)
    requires
        state_after(pid, events) is Exiting,
    ensures
        state_after(pid, events.push(event)) == state_after(pid, events),
        step_after(pid, events).action == ActionView::Exit(
            state_after(pid, events)->cause.status(),
        ),
        step_after(pid, events.push(event)).action == step_after(pid, events).action,
        written(pid, events.push(event)) == written(pid, events),
        messages(pid, events.push(event)) == messages(pid, events),
{
    assert(events.push(event).drop_last() =~= events);
    if events.len() > 0 {
        let before = events.drop_last();
        let from = state_after(pid, before);
        assert(step_after(pid, events) == next(pid, from, events.last()));
    }
}

/// The worker fails, with exit status 1, exactly when its connect fails.
pub proof fn law_only_connect_is_fatal(pid: u32, events: Seq<EventView>)
    ensures
        state_after(pid, events) == (WorkerState::Exiting { cause: ExitCause::ConnectFailed })
            <==> (events.len() >= 2 && events[1] is Failed),
        state_after(pid, events) is Starting <==> events.len() == 0,
        state_after(pid, events) is Connecting <==> events.len() == 1,
    decreases events.len(),
{
    if events.len() > 0 {
        let before = events.drop_last();
        law_only_connect_is_fatal(pid, before);
        if before.len() >= 2 {
            assert(before[1] == events[1]);
        }
    }
}

/// The worker owns no socket file: it never binds, accepts, disconnects or
/// removes the endpoint. It pauses once, as its first action, and connects
/// once, as its second.
pub proof fn law_leaves_endpoint_alone(pid: u32, events: Seq<EventView>)
    ensures
        performed(pid, events).len() == events.len(),
        forall|i: int|
            0 <= i < events.len() ==> match #[trigger] performed(pid, events)[i] {
                ActionView::Pause(_) => i == 0,
                ActionView::Connect => i == 1,
                ActionView::Send(_) | ActionView::Receive(_) | ActionView::Exit(_) => i >= 2,
                _ => false,
            },
    decreases events.len(),
{
    if events.len() > 0 {
        let before = events.drop_last();
        law_leaves_endpoint_alone(pid, before);
        law_only_connect_is_fatal(pid, before);
        if before.len() > 0 {
            assert(step_after(pid, before) == next(
                pid,
                state_after(pid, before.drop_last()),
                before.last(),
            ));
        }
    }
}

} // verus!
