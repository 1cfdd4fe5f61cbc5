//! What an engine asks its caller to do, and what the caller reports back.
//!
//! An engine never touches the socket. Each step names one `Action`; the
//! caller performs it and hands the engine the `Event` that describes how it
//! went. Every action concerns the one endpoint address, `SOCKET_PATH`, or the
//! one connection of the run.

use vstd::prelude::*;
use crate::logging::{entries, LogEntry, LogRecord};

verus! {

/// One thing for the caller to do.
#[derive(Clone, PartialEq, Eq, Debug)]
pub enum Action {
    /// Bind a listening stream socket to the endpoint address.
    Bind,
    /// Wait for one peer to connect to the listening socket.
    Accept,
    /// Connect a stream socket to the endpoint address.
    Connect,
    /// Write all of these bytes to the connection.
    Send(Vec<u8>),
    /// Read once from the connection into a buffer of this many bytes.
    Receive(usize),
    /// Sleep for this many milliseconds.
    Pause(u64),
    /// Drop the connection.
    Disconnect,
    /// Remove the file at the endpoint address.
    RemoveEndpoint,
    /// End the process with this exit status.
    Exit(i32),
}

/// An `Action` with its payload as a byte sequence.
pub enum ActionView {
    Bind,
    Accept,
    Connect,
    Send(Seq<u8>),
    Receive(usize),
    Pause(u64),
    Disconnect,
    RemoveEndpoint,
    Exit(i32),
}

impl View for Action {
    type V = ActionView;

    open spec fn view(&self) -> ActionView {
        match self {
            Action::Bind => ActionView::Bind,
            Action::Accept => ActionView::Accept,
            Action::Connect => ActionView::Connect,
            Action::Send(bytes) => ActionView::Send(bytes@),
            Action::Receive(capacity) => ActionView::Receive(*capacity),
            Action::Pause(millis) => ActionView::Pause(*millis),
            Action::Disconnect => ActionView::Disconnect,
            Action::RemoveEndpoint => ActionView::RemoveEndpoint,
            Action::Exit(code) => ActionView::Exit(*code),
        }
    }
}

/// How the action that an engine asked for went.
#[derive(Clone, PartialEq, Eq, Debug)]
pub enum Event {
    /// The action succeeded and delivered nothing.
    Completed,
    /// A read succeeded and delivered these bytes; none means that the peer
    /// has closed the connection.
    Received(Vec<u8>),
    /// The action failed; the text describes the error.
    Failed(String),
}

/// An `Event` with its contents as sequences.
pub enum EventView {
    Completed,
    Received(Seq<u8>),
    Failed(Seq<char>),
}

impl View for Event {
    type V = EventView;

    open spec fn view(&self) -> EventView {
        match self {
            Event::Completed => EventView::Completed,
            Event::Received(bytes) => EventView::Received(bytes@),
            Event::Failed(reason) => EventView::Failed(reason@),
        }
    }
}

impl EventView {
    /// The bytes that the event delivered: those of a read, none otherwise.
    pub open spec fn bytes(self) -> Seq<u8> {
        match self {
            EventView::Received(bytes) => bytes,
            _ => Seq::empty(),
        }
    }
}

/// One step of an engine: the state it is in now, what to log, and what to do
/// next. The records are to be logged, in order, before the action is performed.
#[derive(Clone, PartialEq, Eq, Debug)]
pub struct Step<S> {
    pub state: S,
    pub logs: Vec<LogRecord>,
    pub action: Action,
}

/// A `Step` with its records and its action by their views.
pub struct StepView<S> {
    pub state: S,
    pub logs: Seq<LogEntry>,
    pub action: ActionView,
}

impl<S> View for Step<S> {
    type V = StepView<S>;

    open spec fn view(&self) -> StepView<S> {
        StepView { state: self.state, logs: entries(self.logs@), action: self.action@ }
    }
}

/// A step that logs nothing.
pub fn silent<S>(state: S, action: Action) -> (step: Step<S>)
    ensures
        step@ == (StepView { state, logs: Seq::<LogEntry>::empty(), action: action@ }),
{
    let step = Step { state, logs: Vec::new(), action };
    assert(step@.logs =~= Seq::<LogEntry>::empty());
    step
}

/// A step that logs one record.
pub fn noted<S>(state: S, record: LogRecord, action: Action) -> (step: Step<S>)
    ensures
        step@ == (StepView { state, logs: seq![record@], action: action@ }),
{
    let mut logs = Vec::new();
    logs.push(record);
    let step = Step { state, logs, action };
    assert(step@.logs =~= seq![record@]);
    step
}

} // verus!
