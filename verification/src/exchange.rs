//! The two engines against each other.
//!
//! Nothing on the wire marks where a message ends. The exchange is in lock
//! step as long as each write of one side arrives as one read of the other;
//! what follows holds of runs in which the worker read exactly what the
//! controller wrote.

use vstd::prelude::*;
use crate::controller::ROUNDS;
use crate::controller::runs::{law_sentinel_once_and_last, script};
use crate::message::{round_bytes, sentinel_bytes};
use crate::protocol::EventView;
use crate::worker::runs::{
    law_one_reply_per_message, law_sentinel_read_once_and_last, messages, replies_due,
    reply_bytes,
};
use crate::worker::{ExitCause, WorkerState};

verus! {

/// The replies of worker `pid` to a whole run of the controller: one to each
/// round's message, in order.
pub open spec fn replies_to_script(pid: u32) -> Seq<Seq<u8>> {
    Seq::new(ROUNDS as nat, |i: int| reply_bytes(pid, round_bytes((i + 1) as u8)))
}

/// The replies due to the first `n` payloads of the script.
proof fn lemma_replies_to_script(pid: u32, n: int)
    requires
        0 <= n <= ROUNDS + 1,
    ensures
        replies_due(pid, script().take(n)) == replies_to_script(pid).take(
            if n <= ROUNDS {
                n
            } else {
                ROUNDS as int
            },
        ),
    decreases n,
{
    let read = script().take(n);
    if n == 0 {
        assert(replies_due(pid, read) =~= replies_to_script(pid).take(0));
    } else {
        lemma_replies_to_script(pid, n - 1);
        assert(read.drop_last() =~= script().take(n - 1));
        if n <= ROUNDS {
            crate::message::lemma_round_is_not_sentinel(n as u8);
            assert(read.last() == round_bytes(n as u8));
            assert(replies_to_script(pid).take(n - 1).push(reply_bytes(pid, read.last()))
                =~= replies_to_script(pid).take(n));
        } else {
            assert(read.last() == sentinel_bytes());
        }
    }
}

/// When the controller's run has closed and the worker has read exactly what
/// the controller wrote, the worker has read the sentinel once, as its last
/// message, and has stopped for it; and it has written one reply to each
/// round's message, in order, and none to the sentinel.
pub proof fn law_lock_step(
    pid: u32,
    controller_events: Seq<EventView>,
    worker_events: Seq<EventView>,
)
    requires
        crate::controller::runs::state_after(controller_events) is Closed,
        messages(pid, worker_events) == crate::controller::runs::written(controller_events),
    ensures
        crate::worker::runs::state_after(pid, worker_events) == (WorkerState::Exiting {
            cause: ExitCause::Sentinel,
        }),
        messages(pid, worker_events).len() == ROUNDS + 1,
        messages(pid, worker_events).last() == sentinel_bytes(),
        forall|i: int|
            0 <= i < ROUNDS ==> #[trigger] messages(pid, worker_events)[i] != sentinel_bytes(),
        crate::worker::runs::written(pid, worker_events) == replies_to_script(pid),
{
    law_sentinel_once_and_last(controller_events);
    law_sentinel_read_once_and_last(pid, worker_events);
    law_one_reply_per_message(pid, worker_events);
    lemma_replies_to_script(pid, ROUNDS + 1);
    assert(script().take(ROUNDS + 1) =~= script());
    assert(replies_to_script(pid).take(ROUNDS as int) =~= replies_to_script(pid));
}

} // verus!
