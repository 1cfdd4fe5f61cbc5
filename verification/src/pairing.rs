//! Process pairing: one launching process becomes a controller and a worker.
//!
//! The launcher first removes whatever a run that ended uncleanly left at the
//! endpoint address, then duplicates itself. The parent takes the controller's
//! role and the child the worker's; each sets up its log before it runs. If the
//! duplication fails, neither role is attempted.

use vstd::prelude::*;
use vstd::string::*;

verus! {

/// Which side of the exchange a process takes.
#[derive(Clone, Copy, PartialEq, Eq, Debug)]
pub enum Role {
    /// Binds, accepts and drives the rounds.
    Controller,
    /// Connects and answers.
    Worker,
}

impl Role {
    /// The role's name as it appears in messages.
    pub open spec fn name_text(self) -> Seq<char> {
        match self {
            Role::Controller => "controller"@,
            Role::Worker => "worker"@,
        }
    }

    pub fn name(self) -> (name: &'static str)
        ensures
            name@ == self.name_text(),
    {
        match self {
            Role::Controller => "controller",
            Role::Worker => "worker",
        }
    }
}

/// One thing for the launching process to do.
#[derive(Clone, PartialEq, Eq, Debug)]
pub enum LaunchAction {
    /// Remove the file at the endpoint address, if there is one.
    RemoveEndpoint,
    /// Duplicate the process.
    Fork,
    /// Set up the log of the given role.
    InitLogging(Role),
    /// Run the protocol engine of the given role to its end.
    Run(Role),
    /// Print the complaint to standard error and end the process with the
    /// status.
    Abort(i32, String),
}

/// A `LaunchAction` with its complaint as a character sequence.
pub enum LaunchActionView {
    RemoveEndpoint,
    Fork,
    InitLogging(Role),
    Run(Role),
    Abort(i32, Seq<char>),
}

impl View for LaunchAction {
    type V = LaunchActionView;

    open spec fn view(&self) -> LaunchActionView {
        match self {
            LaunchAction::RemoveEndpoint => LaunchActionView::RemoveEndpoint,
            LaunchAction::Fork => LaunchActionView::Fork,
            LaunchAction::InitLogging(role) => LaunchActionView::InitLogging(*role),
            LaunchAction::Run(role) => LaunchActionView::Run(*role),
            LaunchAction::Abort(status, complaint) => LaunchActionView::Abort(*status, complaint@),
        }
    }
}

/// How the action that the launcher asked for went.
#[derive(Clone, PartialEq, Eq, Debug)]
pub enum LaunchEvent {
    /// The action succeeded. Of a fork this says too little and counts as a
    /// failure.
    Completed,
    /// The fork succeeded and this process is the parent.
    Parent,
    /// The fork succeeded and this process is the child.
    Child,
    /// The action failed; the text describes the error.
    Failed(String),
}

/// A `LaunchEvent` with its text as a character sequence.
pub enum LaunchEventView {
    Completed,
    Parent,
    Child,
    Failed(Seq<char>),
}

impl View for LaunchEvent {
    type V = LaunchEventView;

    open spec fn view(&self) -> LaunchEventView {
        match self {
            LaunchEvent::Completed => LaunchEventView::Completed,
            LaunchEvent::Parent => LaunchEventView::Parent,
            LaunchEvent::Child => LaunchEventView::Child,
            LaunchEvent::Failed(reason) => LaunchEventView::Failed(reason@),
        }
    }
}

/// The states of a launch, in the order in which it passes through them.
#[derive(Clone, Copy, PartialEq, Eq, Debug)]
pub enum LaunchState {
    /// The removal of a stale endpoint is outstanding.
    Cleaning,
    /// The fork is outstanding.
    Forking,
    /// This process has its role; the set-up of its log is outstanding.
    Preparing(Role),
    /// The role's engine runs.
    Running(Role),
    /// The launch was given up; the process ends with the status.
    Aborted(i32),
}

/// Complaint of a process whose fork failed.
pub open spec fn fork_complaint() -> Seq<char> {
    "Failed to fork process"@
}

/// Complaint of a process that could not set up the log of `role`.
pub open spec fn logging_complaint(role: Role, reason: Seq<char>) -> Seq<char> {
    "Failed to initialize "@ + role.name_text() + " logging: "@ + reason
}

/// The state that follows `state` on `event`, and the action to perform in
/// it. The outcome of the removal is ignored. A failed fork ends the process
/// with status 1. A process that cannot set up its log complains and ends with
/// status 0, without running its role.
pub open spec fn launch_next(state: LaunchState, event: LaunchEventView) -> (
    LaunchState,
    LaunchActionView,
) {
    match state {
        LaunchState::Cleaning => (LaunchState::Forking, LaunchActionView::Fork),
        LaunchState::Forking => match event {
            LaunchEventView::Parent => (
                LaunchState::Preparing(Role::Controller),
                LaunchActionView::InitLogging(Role::Controller),
            ),
            LaunchEventView::Child => (
                LaunchState::Preparing(Role::Worker),
                LaunchActionView::InitLogging(Role::Worker),
            ),
            _ => (LaunchState::Aborted(1), LaunchActionView::Abort(1, fork_complaint())),
        },
        LaunchState::Preparing(role) => match event {
            LaunchEventView::Failed(reason) => (
                LaunchState::Aborted(0),
                LaunchActionView::Abort(0, logging_complaint(role, reason)),
            ),
            _ => (LaunchState::Running(role), LaunchActionView::Run(role)),
        },
        LaunchState::Running(role) => (LaunchState::Running(role), LaunchActionView::Run(role)),
        LaunchState::Aborted(status) => (
            LaunchState::Aborted(status),
            LaunchActionView::Abort(status, Seq::empty()),
        ),
    }
}

/// Starts a launch: the first thing to do is to clear the endpoint address.
pub fn launch_start() -> (first: (LaunchState, LaunchAction))
    ensures
        first.0 == LaunchState::Cleaning,
        first.1@ == LaunchActionView::RemoveEndpoint,
{
    (LaunchState::Cleaning, LaunchAction::RemoveEndpoint)
}

/// Takes the launcher from `state` to its next state, given how the action
/// that was outstanding in `state` went.
pub fn launch_step(state: LaunchState, event: LaunchEvent) -> (step: (LaunchState, LaunchAction))
    ensures
        (step.0, step.1@) == launch_next(state, event@),
{
    match state {
        LaunchState::Cleaning => (LaunchState::Forking, LaunchAction::Fork),
        LaunchState::Forking => match event {
            LaunchEvent::Parent => (
                LaunchState::Preparing(Role::Controller),
                LaunchAction::InitLogging(Role::Controller),
            ),
            LaunchEvent::Child => (
                LaunchState::Preparing(Role::Worker),
                LaunchAction::InitLogging(Role::Worker),
            ),
            _ => (
                LaunchState::Aborted(1),
                LaunchAction::Abort(1, String::from_str("Failed to fork process")),
            ),
        },
        LaunchState::Preparing(role) => match event {
            LaunchEvent::Failed(reason) => {
                let mut complaint = String::from_str("Failed to initialize ");
                complaint.append(role.name());
                complaint.append(" logging: ");
                complaint.append(reason.as_str());
                (LaunchState::Aborted(0), LaunchAction::Abort(0, complaint))
            },
            _ => (LaunchState::Running(role), LaunchAction::Run(role)),
        },
        LaunchState::Running(role) => (LaunchState::Running(role), LaunchAction::Run(role)),
        LaunchState::Aborted(status) => (
            LaunchState::Aborted(status),
            LaunchAction::Abort(status, String::new()),
        ),
    }
}

/// The state of a launch once `events` have been reported.
pub open spec fn launch_state_after(events: Seq<LaunchEventView>) -> LaunchState
    decreases events.len(),
{
    if events.len() == 0 {
        LaunchState::Cleaning
    } else {
        launch_next(launch_state_after(events.drop_last()), events.last()).0
    }
}

/// The action that is outstanding once `events` have been reported.
pub open spec fn launch_action_after(events: Seq<LaunchEventView>) -> LaunchActionView
    decreases events.len(),
{
    if events.len() == 0 {
        LaunchActionView::RemoveEndpoint
    } else {
        launch_next(launch_state_after(events.drop_last()), events.last()).1
    }
}

/// Every launch clears the endpoint address first and forks second, so that
/// the endpoint is cleared before either role can bind or connect: a role runs
/// only from the third event on. Whatever the removal reports, the launch goes
/// on. The process becomes the controller if the fork made it the parent, the
/// worker if it made it the child, and neither if the fork failed.
pub proof fn law_clears_endpoint_before_roles(events: Seq<LaunchEventView>)
    ensures
        launch_action_after(events) is RemoveEndpoint <==> events.len() == 0,
        launch_action_after(events) is Fork <==> events.len() == 1,
        launch_action_after(events) is Run ==> events.len() >= 3,
        events.len() >= 2 ==> match events[1] {
            LaunchEventView::Parent => launch_state_after(events) == LaunchState::Preparing(
                Role::Controller,
            ) || launch_state_after(events) == LaunchState::Running(Role::Controller)
                || launch_state_after(events) == LaunchState::Aborted(0),
            LaunchEventView::Child => launch_state_after(events) == LaunchState::Preparing(
                Role::Worker,
            ) || launch_state_after(events) == LaunchState::Running(Role::Worker)
                || launch_state_after(events) == LaunchState::Aborted(0),
            _ => launch_state_after(events) == LaunchState::Aborted(1),
        },
    decreases events.len(),
{
    if events.len() > 0 {
        let before = events.drop_last();
        law_clears_endpoint_before_roles(before);
        if before.len() >= 2 {
            assert(before[1] == events[1]);
        }
        if before.len() > 0 {
            let _ = launch_state_after(before.drop_last());
        }
    }
}

} // verus!
