//! The worker's protocol engine.
//!
//! The worker waits a fixed delay, connects to the endpoint address, and then
//! answers every message it reads until it reads the sentinel, the peer closes
//! the connection, or a read fails. A failure to connect is fatal. A failure to
//! write a reply is logged and the worker goes on reading. The worker owns no
//! socket file and removes none.
//!
//! In each state one action is outstanding. `Starting` waits for the startup
//! delay to pass and `Connecting` for the connect. The connected worker is
//! `Receiving` at once.

use vstd::prelude::*;
use vstd::string::*;
use vstd::utf8::*;

pub mod runs;

use crate::logging::{error, error_entry, info, info_entry, LogEntry, LogRecord};
use crate::message::{
    decode, is_sentinel, payload, reply, reply_text, sentinel_bytes, utf8_lossy,
    READ_BUFFER_SIZE, SENTINEL,
};
use crate::protocol::{noted, silent, Action, ActionView, Event, EventView, Step, StepView};
use crate::text::{decimal, push_decimal};

verus! {

/// Delay before the worker connects, in milliseconds. It makes it likely, not
/// certain, that the controller listens by then.
pub const STARTUP_DELAY_MILLIS: u64 = 500;

/// Why the worker stopped.
#[derive(Clone, Copy, PartialEq, Eq, Debug)]
pub enum ExitCause {
    /// It read the sentinel.
    Sentinel,
    /// A read delivered nothing: the peer has closed the connection.
    PeerClosed,
    /// A read failed.
    ReadFailed,
    /// The connect failed.
    ConnectFailed,
}

impl ExitCause {
    /// The exit status that goes with the cause: 1 for a failed connect, else 0.
    pub open spec fn status(self) -> i32 {
        if self is ConnectFailed {
            1
        } else {
            0
        }
    }

    pub fn exit_status(self) -> (code: i32)
        ensures
            code == self.status(),
    {
        match self {
            ExitCause::ConnectFailed => 1,
            _ => 0,
        }
    }
}

/// The states of the worker's engine. A run passes from `Starting` through
/// `Connecting` to `Receiving`, alternates between `Receiving` and
/// `Responding`, and ends in `Exiting`.
#[derive(Clone, Copy, PartialEq, Eq, Debug)]
pub enum WorkerState {
    /// The startup delay runs.
    Starting,
    /// The connect is outstanding.
    Connecting,
    /// Connected; a read is outstanding.
    Receiving,
    /// Connected; the write of a reply is outstanding.
    Responding,
    /// The worker has stopped; the exit is outstanding.
    Exiting { cause: ExitCause },
}

/// A log text of worker `pid`: `Worker[<pid>]: <detail>`.
pub open spec fn said(pid: u32, detail: Seq<char>) -> Seq<char> {
    "Worker["@ + decimal(pid as nat) + "]: "@ + detail
}

/// The step of a worker that stops for `cause`, after logging `logs`.
pub open spec fn leaving(cause: ExitCause, logs: Seq<LogEntry>) -> StepView<WorkerState> {
    StepView {
        state: WorkerState::Exiting { cause },
        logs,
        action: ActionView::Exit(cause.status()),
    }
}

/// The step of worker `pid` on the sentinel: it logs what it read and stops,
/// and writes nothing.
pub open spec fn stopping(pid: u32) -> StepView<WorkerState> {
    leaving(
        ExitCause::Sentinel,
        seq![
            info_entry(said(pid, "Received: "@ + SENTINEL@)),
            info_entry(said(pid, "Received exit command"@)),
            info_entry(said(pid, "Shutting down"@)),
        ],
    )
}

/// The step of worker `pid` on a message that read `text` and is not the
/// sentinel: it logs the message and writes its reply.
pub open spec fn replying(pid: u32, text: Seq<char>) -> StepView<WorkerState> {
    StepView {
        state: WorkerState::Responding,
        logs: seq![info_entry(said(pid, "Received: "@ + text))],
        action: ActionView::Send(encode_utf8(reply_text(pid, text))),
    }
}

/// The step of worker `pid` on a message that decoded to `text`.
pub open spec fn heard(pid: u32, text: Seq<char>) -> StepView<WorkerState> {
    if text == SENTINEL@ {
        stopping(pid)
    } else {
        replying(pid, text)
    }
}

/// The step of worker `pid` on what a read delivered. Nothing at all means
/// that the peer has closed the connection. The sentinel's bytes stop the
/// worker. Anything else is decoded leniently and answered.
pub open spec fn read(pid: u32, bytes: Seq<u8>) -> StepView<WorkerState> {
    if bytes.len() == 0 {
        leaving(
            ExitCause::PeerClosed,
            seq![
                info_entry(said(pid, "Connection closed by controller"@)),
                info_entry(said(pid, "Shutting down"@)),
            ],
        )
    } else if bytes == sentinel_bytes() {
        stopping(pid)
    } else {
        replying(pid, utf8_lossy(bytes))
    }
}

/// The first step of worker `pid`: it is `Starting` and asks for the delay.
pub open spec fn first_step(pid: u32) -> StepView<WorkerState> {
    StepView {
        state: WorkerState::Starting,
        logs: seq![info_entry(said(pid, "Starting..."@))],
        action: ActionView::Pause(STARTUP_DELAY_MILLIS),
    }
}

/// The step that follows for worker `pid` in `state` on `event`.
pub open spec fn next(pid: u32, state: WorkerState, event: EventView) -> StepView<WorkerState> {
    match state {
        WorkerState::Starting => StepView {
            state: WorkerState::Connecting,
            logs: Seq::empty(),
            action: ActionView::Connect,
        },
        WorkerState::Connecting => match event {
            EventView::Failed(reason) => leaving(
                ExitCause::ConnectFailed,
                seq![error_entry(said(pid, "Failed to connect to socket: "@ + reason))],
            ),
            _ => StepView {
                state: WorkerState::Receiving,
                logs: seq![info_entry(said(pid, "Connected to controller"@))],
                action: ActionView::Receive(READ_BUFFER_SIZE),
            },
        },
        WorkerState::Receiving => match event {
            EventView::Failed(reason) => leaving(
                ExitCause::ReadFailed,
                seq![
                    error_entry(said(pid, "Failed to read from socket: "@ + reason)),
                    info_entry(said(pid, "Shutting down"@)),
                ],
            ),
            _ => read(pid, event.bytes()),
        },
        WorkerState::Responding => StepView {
            state: WorkerState::Receiving,
            logs: match event {
                EventView::Failed(reason) => seq![
                    error_entry(said(pid, "Failed to send response: "@ + reason)),
                ],
                _ => seq![info_entry(said(pid, "Sent response"@))],
            },
            action: ActionView::Receive(READ_BUFFER_SIZE),
        },
        WorkerState::Exiting { cause } => leaving(cause, Seq::empty()),
    }
}

/// The log text `Worker[<pid>]: <detail>`.
fn say(pid: u32, detail: &str) -> (text: String)
    ensures
        text@ == said(pid, detail@),
{
    let mut text = String::from_str("Worker[");
    push_decimal(&mut text, pid);
    text.append("]: ");
    text.append(detail);
    text
}

/// The log text `Worker[<pid>]: <prefix><detail>`.
fn say_with(pid: u32, prefix: &str, detail: &str) -> (text: String)
    ensures
        text@ == said(pid, prefix@ + detail@),
{
    let mut text = String::from_str("Worker[");
    push_decimal(&mut text, pid);
    text.append("]: ");
    text.append(prefix);
    text.append(detail);
    assert(text@ =~= said(pid, prefix@ + detail@));
    text
}

/// Stops for `cause` after `first`, with the closing record behind it.
fn leave_after(pid: u32, cause: ExitCause, first: LogRecord) -> (step: Step<WorkerState>)
    ensures
        step@ == leaving(cause, seq![first@, info_entry(said(pid, "Shutting down"@))]),
{
    let mut logs = Vec::new();
    logs.push(first);
    logs.push(info(say(pid, "Shutting down")));
    let step = Step {
        state: WorkerState::Exiting { cause },
        logs,
        action: Action::Exit(cause.exit_status()),
    };
    assert(step@.logs =~= seq![first@, info_entry(said(pid, "Shutting down"@))]);
    step
}

/// Starts worker `pid`.
pub fn start(pid: u32) -> (step: Step<WorkerState>)
    ensures
        step@ == first_step(pid),
{
    noted(WorkerState::Starting, info(say(pid, "Starting...")), Action::Pause(STARTUP_DELAY_MILLIS))
}

/// What worker `pid` does with a message that decoded to `text`: on the
/// sentinel it stops without a reply, on anything else it replies.
pub fn on_text(pid: u32, text: &str) -> (step: Step<WorkerState>)
    ensures
        step@ == heard(pid, text@),
{
    let received = info(say_with(pid, "Received: ", text));
    if is_sentinel(text) {
        let mut logs = Vec::new();
        logs.push(received);
        logs.push(info(say(pid, "Received exit command")));
        logs.push(info(say(pid, "Shutting down")));
        let step = Step {
            state: WorkerState::Exiting { cause: ExitCause::Sentinel },
            logs,
            action: Action::Exit(0),
        };
        assert(step@.logs =~= stopping(pid).logs);
        step
    } else {
        let answer = reply(pid, text);
        noted(WorkerState::Responding, received, Action::Send(payload(answer.as_str())))
    }
}

/// What worker `pid` does with what a read delivered.
pub fn on_read(pid: u32, bytes: &Vec<u8>) -> (step: Step<WorkerState>)
    ensures
        step@ == read(pid, bytes@),
{
    if bytes.len() == 0 {
        leave_after(pid, ExitCause::PeerClosed, info(say(pid, "Connection closed by controller")))
    } else {
        let text = decode(bytes);
        on_text(pid, text.as_str())
    }
}

/// Takes worker `pid` from `state` to its next state, given how the action
/// that was outstanding in `state` went. An event of a kind that the action
/// cannot produce is read for what it shares with the expected kind: anything
/// but `Failed` is a success, and only `Received` carries bytes.
pub fn step(pid: u32, state: WorkerState, event: Event) -> (step: Step<WorkerState>)
    ensures
        step@ == next(pid, state, event@),
{
    match state {
        WorkerState::Starting => silent(WorkerState::Connecting, Action::Connect),
        WorkerState::Connecting => match event {
            Event::Failed(reason) => {
                let cause = ExitCause::ConnectFailed;
                noted(
                    WorkerState::Exiting { cause },
                    error(say_with(pid, "Failed to connect to socket: ", reason.as_str())),
                    Action::Exit(cause.exit_status()),
                )
            },
            _ => noted(
                WorkerState::Receiving,
                info(say(pid, "Connected to controller")),
                Action::Receive(READ_BUFFER_SIZE),
            ),
        },
        WorkerState::Receiving => match event {
            Event::Failed(reason) => leave_after(
                pid,
                ExitCause::ReadFailed,
                error(say_with(pid, "Failed to read from socket: ", reason.as_str())),
            ),
            Event::Received(bytes) => on_read(pid, &bytes),
            Event::Completed => {
                let nothing: Vec<u8> = Vec::new();
                on_read(pid, &nothing)
            },
        },
        WorkerState::Responding => {
            let record = match event {
                Event::Failed(reason) => error(
                    say_with(pid, "Failed to send response: ", reason.as_str()),
                ),
                _ => info(say(pid, "Sent response")),
            };
            noted(WorkerState::Receiving, record, Action::Receive(READ_BUFFER_SIZE))
        },
        WorkerState::Exiting { cause } => silent(
            WorkerState::Exiting { cause },
            Action::Exit(cause.exit_status()),
        ),
    }
}

} // verus!
