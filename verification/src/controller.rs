//! The controller's protocol engine.
//!
//! The controller binds the endpoint address, accepts exactly one peer, drives
//! `ROUNDS` rounds of send, receive and pause, sends the sentinel, and tears
//! down. A failure to bind or to accept is fatal. A failure inside a round is
//! logged and the run goes on as if the round had completed, so that every run
//! that got a peer reaches teardown.
//!
//! A state is named after what the engine has reached, and in each state one
//! action is outstanding. `Idle` waits for the bind. Binding a listener also
//! starts listening, so `Listening` follows at once and waits for the peer. The
//! connected engine is in `Exchanging` from round 1 on.

use vstd::prelude::*;
use vstd::string::*;

pub mod runs;

use crate::common::SOCKET_PATH;
use crate::logging::{error, error_entry, info, info_entry, LogEntry, LogRecord};
use crate::message::{
    decode, payload, round_bytes, round_message, round_text, sentinel, sentinel_bytes, utf8_lossy,
    READ_BUFFER_SIZE,
};
use crate::protocol::{noted, silent, Action, ActionView, Event, EventView, Step, StepView};

verus! {

/// Number of exchange rounds before the sentinel.
pub const ROUNDS: u8 = 5;

/// Pause after each round, in milliseconds. It paces the exchange and
/// synchronises nothing.
pub const ROUND_PAUSE_MILLIS: u64 = 1000;

/// Where the engine is within a round.
#[derive(Clone, Copy, PartialEq, Eq, Debug)]
pub enum Phase {
    /// The round's message is being written.
    Sending,
    /// The response is being read.
    Receiving,
    /// The pause after the round runs.
    Pausing,
}

/// Where the engine is within teardown.
#[derive(Clone, Copy, PartialEq, Eq, Debug)]
pub enum Teardown {
    /// The sentinel is being written.
    Sentinel,
    /// The connection is being dropped.
    Disconnect,
    /// The file at the endpoint address is being removed.
    Unlink,
}

/// The states of the controller's engine, in the order in which a run passes
/// through them; `Failed` is reached from `Idle` or `Listening` only.
#[derive(Clone, Copy, PartialEq, Eq, Debug)]
pub enum ControllerState {
    /// Nothing is bound yet; the bind is outstanding.
    Idle,
    /// The socket is bound and listens; the accept is outstanding.
    Listening,
    /// A peer is connected and round `round` is under way.
    Exchanging { round: u8, phase: Phase },
    /// The rounds are over.
    Terminating { stage: Teardown },
    /// Teardown is complete; the process ends with status 0.
    Closed,
    /// Bind or accept failed; the process ends with status 1.
    Failed,
}

impl ControllerState {
    /// A round number is between 1 and `ROUNDS`.
    pub open spec fn wf(self) -> bool {
        self matches ControllerState::Exchanging { round, .. } ==> 1 <= round <= ROUNDS
    }

    /// The action that is outstanding in this state.
    pub open spec fn pending(self) -> ActionView {
        match self {
            ControllerState::Idle => ActionView::Bind,
            ControllerState::Listening => ActionView::Accept,
            ControllerState::Exchanging { round, phase: Phase::Sending } => ActionView::Send(
                round_bytes(round),
            ),
            ControllerState::Exchanging { phase: Phase::Receiving, .. } => ActionView::Receive(
                READ_BUFFER_SIZE,
            ),
            ControllerState::Exchanging { phase: Phase::Pausing, .. } => ActionView::Pause(
                ROUND_PAUSE_MILLIS,
            ),
            ControllerState::Terminating { stage: Teardown::Sentinel } => ActionView::Send(
                sentinel_bytes(),
            ),
            ControllerState::Terminating { stage: Teardown::Disconnect } => ActionView::Disconnect,
            ControllerState::Terminating { stage: Teardown::Unlink } => ActionView::RemoveEndpoint,
            ControllerState::Closed => ActionView::Exit(0),
            ControllerState::Failed => ActionView::Exit(1),
        }
    }

    /// The state that follows when the outstanding action went as `event` says.
    /// Only bind and accept can fail the run; after a pause the next round
    /// starts, or teardown once `ROUNDS` rounds are done.
    pub open spec fn successor(self, event: EventView) -> ControllerState {
        match self {
            ControllerState::Idle => if event is Failed {
                ControllerState::Failed
            } else {
                ControllerState::Listening
            },
            ControllerState::Listening => if event is Failed {
                ControllerState::Failed
            } else {
                ControllerState::Exchanging { round: 1, phase: Phase::Sending }
            },
            ControllerState::Exchanging { round, phase: Phase::Sending } => {
                ControllerState::Exchanging { round, phase: Phase::Receiving }
            },
            ControllerState::Exchanging { round, phase: Phase::Receiving } => {
                ControllerState::Exchanging { round, phase: Phase::Pausing }
            },
            ControllerState::Exchanging { round, phase: Phase::Pausing } => if round < ROUNDS {
                ControllerState::Exchanging { round: (round + 1) as u8, phase: Phase::Sending }
            } else {
                ControllerState::Terminating { stage: Teardown::Sentinel }
            },
            ControllerState::Terminating { stage: Teardown::Sentinel } => {
                ControllerState::Terminating { stage: Teardown::Disconnect }
            },
            ControllerState::Terminating { stage: Teardown::Disconnect } => {
                ControllerState::Terminating { stage: Teardown::Unlink }
            },
            ControllerState::Terminating { stage: Teardown::Unlink } => ControllerState::Closed,
            ControllerState::Closed => ControllerState::Closed,
            ControllerState::Failed => ControllerState::Failed,
        }
    }

    /// What is logged when the outstanding action went as `event` says.
    pub open spec fn report(self, event: EventView) -> Seq<LogEntry> {
        match self {
            ControllerState::Idle => match event {
                EventView::Failed(reason) => seq![
                    error_entry("Controller: Failed to bind socket: "@ + reason),
                ],
                _ => seq![
                    info_entry("Controller: Socket created at "@ + SOCKET_PATH@),
                    info_entry("Controller: Waiting for worker to connect..."@),
                ],
            },
            ControllerState::Listening => match event {
                EventView::Failed(reason) => seq![
                    error_entry("Controller: Failed to accept connection: "@ + reason),
                ],
                _ => seq![info_entry("Controller: Worker connected"@)],
            },
            ControllerState::Exchanging { round, phase: Phase::Sending } => match event {
                EventView::Failed(reason) => seq![
                    error_entry("Controller: Failed to send message: "@ + reason),
                ],
                _ => seq![info_entry("Controller: Sent: "@ + round_text(round))],
            },
            ControllerState::Exchanging { phase: Phase::Receiving, .. } => match event {
                EventView::Failed(reason) => seq![
                    error_entry("Controller: Failed to read response: "@ + reason),
                ],
                _ => seq![info_entry("Controller: Received: "@ + utf8_lossy(event.bytes()))],
            },
            ControllerState::Terminating { stage: Teardown::Sentinel } => match event {
                EventView::Failed(reason) => seq![
                    error_entry("Controller: Failed to send exit command: "@ + reason),
                ],
                _ => seq![info_entry("Controller: Sent exit command to worker"@)],
            },
            ControllerState::Terminating { stage: Teardown::Unlink } => seq![
                info_entry("Controller: Shutting down..."@),
            ],
            _ => Seq::empty(),
        }
    }

    /// The step that follows in this state on `event`.
    pub open spec fn next(self, event: EventView) -> StepView<ControllerState> {
        StepView {
            state: self.successor(event),
            logs: self.report(event),
            action: self.successor(event).pending(),
        }
    }
}

/// The first step of a run: the engine is `Idle` and asks for the bind.
pub open spec fn first_step() -> StepView<ControllerState> {
    StepView {
        state: ControllerState::Idle,
        logs: seq![info_entry("Controller: Starting..."@)],
        action: ControllerState::Idle.pending(),
    }
}

/// `prefix` followed by `detail`.
fn join(prefix: &str, detail: &str) -> (text: String)
    ensures
        text@ == prefix@ + detail@,
{
    let mut text = String::from_str(prefix);
    text.append(detail);
    text
}

/// The record of a response that decoded to `text`.
pub fn received_record(text: &str) -> (record: LogRecord)
    ensures
        record@ == info_entry("Controller: Received: "@ + text@),
{
    info(join("Controller: Received: ", text))
}

/// The action that is outstanding in `state`.
pub fn pending_action(state: ControllerState) -> (action: Action)
    ensures
        action@ == state.pending(),
{
    match state {
        ControllerState::Idle => Action::Bind,
        ControllerState::Listening => Action::Accept,
        ControllerState::Exchanging { round, phase: Phase::Sending } => {
            let message = round_message(round);
            Action::Send(payload(message.as_str()))
        },
        ControllerState::Exchanging { phase: Phase::Receiving, .. } => Action::Receive(
            READ_BUFFER_SIZE,
        ),
        ControllerState::Exchanging { phase: Phase::Pausing, .. } => Action::Pause(
            ROUND_PAUSE_MILLIS,
        ),
        ControllerState::Terminating { stage: Teardown::Sentinel } => Action::Send(sentinel()),
        ControllerState::Terminating { stage: Teardown::Disconnect } => Action::Disconnect,
        ControllerState::Terminating { stage: Teardown::Unlink } => Action::RemoveEndpoint,
        ControllerState::Closed => Action::Exit(0),
        ControllerState::Failed => Action::Exit(1),
    }
}

/// Starts a run.
pub fn start() -> (step: Step<ControllerState>)
    ensures
        step@ == first_step(),
        step.state.wf(),
{
    noted(
        ControllerState::Idle,
        info(String::from_str("Controller: Starting...")),
        Action::Bind,
    )
}

/// Takes the engine from `state` to its next state, given how the action that
/// was outstanding in `state` went. An event of a kind that the action cannot
/// produce is read for what it shares with the expected kind: anything but
/// `Failed` is a success, and only `Received` carries bytes.
pub fn step(state: ControllerState, event: Event) -> (step: Step<ControllerState>)
    ensures
        step@ == state.next(event@),
        state.wf() ==> step.state.wf(),
{
    match state {
        ControllerState::Idle => match event {
            Event::Failed(reason) => noted(
                ControllerState::Failed,
                error(join("Controller: Failed to bind socket: ", reason.as_str())),
                Action::Exit(1),
            ),
            _ => {
                let mut logs = Vec::new();
                logs.push(info(join("Controller: Socket created at ", SOCKET_PATH)));
                logs.push(info(String::from_str("Controller: Waiting for worker to connect...")));
                let step = Step { state: ControllerState::Listening, logs, action: Action::Accept };
                assert(step@.logs =~= state.report(event@));
                step
            },
        },
        ControllerState::Listening => match event {
            Event::Failed(reason) => noted(
                ControllerState::Failed,
                error(join("Controller: Failed to accept connection: ", reason.as_str())),
                Action::Exit(1),
            ),
            _ => {
                let first = ControllerState::Exchanging { round: 1, phase: Phase::Sending };
                noted(
                    first,
                    info(String::from_str("Controller: Worker connected")),
                    pending_action(first),
                )
            },
        },
        ControllerState::Exchanging { round, phase: Phase::Sending } => {
            let record = match event {
                Event::Failed(reason) => error(
                    join("Controller: Failed to send message: ", reason.as_str()),
                ),
                _ => info(join("Controller: Sent: ", round_message(round).as_str())),
            };
            noted(
                ControllerState::Exchanging { round, phase: Phase::Receiving },
                record,
                Action::Receive(READ_BUFFER_SIZE),
            )
        },
        ControllerState::Exchanging { round, phase: Phase::Receiving } => {
            let record = match event {
                Event::Failed(reason) => error(
                    join("Controller: Failed to read response: ", reason.as_str()),
                ),
                Event::Received(bytes) => received_record(decode(&bytes).as_str()),
                Event::Completed => {
                    let nothing: Vec<u8> = Vec::new();
                    received_record(decode(&nothing).as_str())
                },
            };
            noted(
                ControllerState::Exchanging { round, phase: Phase::Pausing },
                record,
                Action::Pause(ROUND_PAUSE_MILLIS),
            )
        },
        ControllerState::Exchanging { round, phase: Phase::Pausing } => {
            let next = if round < ROUNDS {
                ControllerState::Exchanging { round: round + 1, phase: Phase::Sending }
            } else {
                ControllerState::Terminating { stage: Teardown::Sentinel }
            };
            silent(next, pending_action(next))
        },
        ControllerState::Terminating { stage: Teardown::Sentinel } => {
            let record = match event {
                Event::Failed(reason) => error(
                    join("Controller: Failed to send exit command: ", reason.as_str()),
                ),
                _ => info(String::from_str("Controller: Sent exit command to worker")),
            };
            noted(
                ControllerState::Terminating { stage: Teardown::Disconnect },
                record,
                Action::Disconnect,
            )
        },
        ControllerState::Terminating { stage: Teardown::Disconnect } => silent(
            ControllerState::Terminating { stage: Teardown::Unlink },
            Action::RemoveEndpoint,
        ),
        ControllerState::Terminating { stage: Teardown::Unlink } => noted(
            ControllerState::Closed,
            info(String::from_str("Controller: Shutting down...")),
            Action::Exit(0),
        ),
        ControllerState::Closed => silent(ControllerState::Closed, Action::Exit(0)),
        ControllerState::Failed => silent(ControllerState::Failed, Action::Exit(1)),
    }
}

} // verus!
