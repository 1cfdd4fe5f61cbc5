use controller_worker::controller::{
    pending_action, received_record, start, step, ControllerState, Phase, Teardown,
    ROUNDS, ROUND_PAUSE_MILLIS,
};
use controller_worker::logging::{Level, LogRecord};
use controller_worker::message::sentinel;
use controller_worker::protocol::{Action, Event, Step};

fn note(level: Level, text: &str) -> LogRecord {
    LogRecord { level, text: text.to_string() }
}

fn round_text(round: u8) -> String {
    format!("Message {} from controller", round)
}

/// Drives the engine over `events`, one per step, and hands back every step
/// including the first.
fn drive(events: Vec<Event>) -> Vec<Step<ControllerState>> {
    let mut steps = vec![start()];
    for event in events {
        let state = steps[steps.len() - 1].state;
        steps.push(step(state, event));
    }
    steps
}

fn sends_of(steps: &Vec<Step<ControllerState>>) -> Vec<Vec<u8>> {
    let mut sent = Vec::new();
    for s in steps {
        if let Action::Send(bytes) = &s.action {
            sent.push(bytes.clone());
        }
    }
    sent
}

fn script() -> Vec<Vec<u8>> {
    let mut all = Vec::new();
    let mut round = 1;
    while round <= 5 {
        all.push(round_text(round).into_bytes());
        round += 1;
    }
    all.push(vec![0x65u8, 0x78, 0x69, 0x74]);
    all
}

#[test]
fn controller_constants() {
    assert_eq!(ROUNDS, 5);
    assert_eq!(ROUND_PAUSE_MILLIS, 1000);
}

#[test]
fn controller_starts_idle_and_asks_for_the_bind() {
    let first = start();
    assert_eq!(first.state, ControllerState::Idle);
    assert_eq!(first.logs, vec![note(Level::Info, "Controller: Starting...")]);
    assert_eq!(first.action, Action::Bind);
}

#[test]
fn bind_success_leads_to_accept() {
    let s = step(ControllerState::Idle, Event::Completed);
    assert_eq!(s.state, ControllerState::Listening);
    assert_eq!(
        s.logs,
        vec![
            note(Level::Info, "Controller: Socket created at /tmp/controller_worker.sock"),
            note(Level::Info, "Controller: Waiting for worker to connect..."),
        ]
    );
    assert_eq!(s.action, Action::Accept);
}

#[test]
fn bind_failure_is_fatal() {
    let s = step(ControllerState::Idle, Event::Failed("Address already in use".to_string()));
    assert_eq!(s.state, ControllerState::Failed);
    assert_eq!(
        s.logs,
        vec![note(Level::Error, "Controller: Failed to bind socket: Address already in use")]
    );
    assert_eq!(s.action, Action::Exit(1));
}

#[test]
fn accept_success_starts_round_one() {
    let s = step(ControllerState::Listening, Event::Completed);
    assert_eq!(s.state, ControllerState::Exchanging { round: 1, phase: Phase::Sending });
    assert_eq!(s.logs, vec![note(Level::Info, "Controller: Worker connected")]);
    assert_eq!(s.action, Action::Send("Message 1 from controller".as_bytes().to_vec()));
}

#[test]
fn accept_failure_is_fatal() {
    let s = step(ControllerState::Listening, Event::Failed("interrupted".to_string()));
    assert_eq!(s.state, ControllerState::Failed);
    assert_eq!(
        s.logs,
        vec![note(Level::Error, "Controller: Failed to accept connection: interrupted")]
    );
    assert_eq!(s.action, Action::Exit(1));
}

#[test]
fn a_sent_message_is_logged_and_the_response_awaited() {
    let s = step(ControllerState::Exchanging { round: 3, phase: Phase::Sending }, Event::Completed);
    assert_eq!(s.state, ControllerState::Exchanging { round: 3, phase: Phase::Receiving });
    assert_eq!(s.logs, vec![note(Level::Info, "Controller: Sent: Message 3 from controller")]);
    assert_eq!(s.action, Action::Receive(1024));
}

#[test]
fn a_failed_write_is_logged_and_the_round_goes_on() {
    let s = step(
        ControllerState::Exchanging { round: 3, phase: Phase::Sending },
        Event::Failed("Broken pipe".to_string()),
    );
    assert_eq!(s.state, ControllerState::Exchanging { round: 3, phase: Phase::Receiving });
    assert_eq!(
        s.logs,
        vec![note(Level::Error, "Controller: Failed to send message: Broken pipe")]
    );
    assert_eq!(s.action, Action::Receive(1024));
}

#[test]
fn round_trip_response_is_logged_as_received() {
    let response = "Worker[1234] processed: Message 1 from controller".as_bytes().to_vec();
    let s = step(
        ControllerState::Exchanging { round: 1, phase: Phase::Receiving },
        Event::Received(response),
    );
    assert_eq!(s.state, ControllerState::Exchanging { round: 1, phase: Phase::Pausing });
    assert_eq!(
        s.logs,
        vec![note(
            Level::Info,
            "Controller: Received: Worker[1234] processed: Message 1 from controller"
        )]
    );
    assert_eq!(s.action, Action::Pause(1000));
}

#[test]
fn a_malformed_response_is_logged_with_replacement_characters() {
    let s = step(
        ControllerState::Exchanging { round: 2, phase: Phase::Receiving },
        Event::Received(vec![0x6fu8, 0x6b, 0xff]),
    );
    assert_eq!(s.logs, vec![note(Level::Info, "Controller: Received: ok\u{fffd}")]);
    assert_eq!(s.state, ControllerState::Exchanging { round: 2, phase: Phase::Pausing });
}

#[test]
fn an_empty_response_is_logged_as_empty() {
    let s = step(
        ControllerState::Exchanging { round: 2, phase: Phase::Receiving },
        Event::Received(Vec::new()),
    );
    assert_eq!(s.logs, vec![note(Level::Info, "Controller: Received: ")]);
    let t = step(ControllerState::Exchanging { round: 2, phase: Phase::Receiving }, Event::Completed);
    assert_eq!(t, s);
}

#[test]
fn a_failed_read_is_logged_and_the_round_goes_on() {
    let s = step(
        ControllerState::Exchanging { round: 4, phase: Phase::Receiving },
        Event::Failed("Connection reset by peer".to_string()),
    );
    assert_eq!(s.state, ControllerState::Exchanging { round: 4, phase: Phase::Pausing });
    assert_eq!(
        s.logs,
        vec![note(Level::Error, "Controller: Failed to read response: Connection reset by peer")]
    );
    assert_eq!(s.action, Action::Pause(1000));
}

#[test]
fn after_the_pause_the_next_round_starts() {
    let mut round: u8 = 1;
    while round < 5 {
        let s = step(ControllerState::Exchanging { round, phase: Phase::Pausing }, Event::Completed);
        assert_eq!(
            s.state,
            ControllerState::Exchanging { round: round + 1, phase: Phase::Sending }
        );
        assert!(s.logs.is_empty());
        assert_eq!(s.action, Action::Send(round_text(round + 1).into_bytes()));
        round += 1;
    }
}

#[test]
fn after_the_fifth_pause_the_sentinel_goes_out() {
    let s = step(ControllerState::Exchanging { round: 5, phase: Phase::Pausing }, Event::Completed);
    assert_eq!(s.state, ControllerState::Terminating { stage: Teardown::Sentinel });
    assert!(s.logs.is_empty());
    assert_eq!(s.action, Action::Send(vec![0x65u8, 0x78, 0x69, 0x74]));
    assert_eq!(s.action, Action::Send(sentinel()));
}

#[test]
fn teardown_disconnects_unlinks_and_exits_with_zero() {
    let a = step(ControllerState::Terminating { stage: Teardown::Sentinel }, Event::Completed);
    assert_eq!(a.state, ControllerState::Terminating { stage: Teardown::Disconnect });
    assert_eq!(a.logs, vec![note(Level::Info, "Controller: Sent exit command to worker")]);
    assert_eq!(a.action, Action::Disconnect);
    let b = step(a.state, Event::Completed);
    assert_eq!(b.state, ControllerState::Terminating { stage: Teardown::Unlink });
    assert!(b.logs.is_empty());
    assert_eq!(b.action, Action::RemoveEndpoint);
    let c = step(b.state, Event::Completed);
    assert_eq!(c.state, ControllerState::Closed);
    assert_eq!(c.logs, vec![note(Level::Info, "Controller: Shutting down...")]);
    assert_eq!(c.action, Action::Exit(0));
}

#[test]
fn a_failed_sentinel_write_is_logged_and_teardown_goes_on() {
    let a = step(
        ControllerState::Terminating { stage: Teardown::Sentinel },
        Event::Failed("Broken pipe".to_string()),
    );
    assert_eq!(a.state, ControllerState::Terminating { stage: Teardown::Disconnect });
    assert_eq!(
        a.logs,
        vec![note(Level::Error, "Controller: Failed to send exit command: Broken pipe")]
    );
    assert_eq!(a.action, Action::Disconnect);
}

#[test]
fn a_failed_unlink_still_closes_with_zero() {
    let c = step(
        ControllerState::Terminating { stage: Teardown::Unlink },
        Event::Failed("No such file or directory".to_string()),
    );
    assert_eq!(c.state, ControllerState::Closed);
    assert_eq!(c.action, Action::Exit(0));
}

#[test]
fn final_states_stay() {
    let c = step(ControllerState::Closed, Event::Failed("late".to_string()));
    assert_eq!(c.state, ControllerState::Closed);
    assert!(c.logs.is_empty());
    assert_eq!(c.action, Action::Exit(0));
    let f = step(ControllerState::Failed, Event::Completed);
    assert_eq!(f.state, ControllerState::Failed);
    assert!(f.logs.is_empty());
    assert_eq!(f.action, Action::Exit(1));
}

#[test]
fn an_event_of_another_kind_counts_as_success() {
    let s = step(ControllerState::Idle, Event::Received(vec![1u8, 2, 3]));
    assert_eq!(s, step(ControllerState::Idle, Event::Completed));
    let t = step(ControllerState::Listening, Event::Received(Vec::new()));
    assert_eq!(t, step(ControllerState::Listening, Event::Completed));
}

#[test]
fn pending_action_of_each_state() {
    assert_eq!(pending_action(ControllerState::Idle), Action::Bind);
    assert_eq!(pending_action(ControllerState::Listening), Action::Accept);
    assert_eq!(
        pending_action(ControllerState::Exchanging { round: 2, phase: Phase::Sending }),
        Action::Send(round_text(2).into_bytes())
    );
    assert_eq!(
        pending_action(ControllerState::Exchanging { round: 2, phase: Phase::Receiving }),
        Action::Receive(1024)
    );
    assert_eq!(
        pending_action(ControllerState::Exchanging { round: 2, phase: Phase::Pausing }),
        Action::Pause(1000)
    );
    assert_eq!(
        pending_action(ControllerState::Terminating { stage: Teardown::Sentinel }),
        Action::Send(sentinel())
    );
    assert_eq!(
        pending_action(ControllerState::Terminating { stage: Teardown::Disconnect }),
        Action::Disconnect
    );
    assert_eq!(
        pending_action(ControllerState::Terminating { stage: Teardown::Unlink }),
        Action::RemoveEndpoint
    );
    assert_eq!(pending_action(ControllerState::Closed), Action::Exit(0));
    assert_eq!(pending_action(ControllerState::Failed), Action::Exit(1));
}

#[test]
fn received_record_is_an_info_record() {
    assert_eq!(received_record("pong"), note(Level::Info, "Controller: Received: pong"));
}

#[test]
fn a_clean_run_performs_the_whole_plan() {
    let mut events = vec![Event::Completed, Event::Completed];
    let mut round = 1;
    while round <= 5 {
        events.push(Event::Completed);
        events.push(Event::Received(format!("Worker[9] processed: {}", round_text(round)).into_bytes()));
        events.push(Event::Completed);
        round += 1;
    }
    events.push(Event::Completed);
    events.push(Event::Completed);
    events.push(Event::Completed);
    assert_eq!(events.len(), 20);
    let steps = drive(events);
    let mut expected = vec![Action::Bind, Action::Accept];
    let mut round = 1;
    while round <= 5 {
        expected.push(Action::Send(round_text(round).into_bytes()));
        expected.push(Action::Receive(1024));
        expected.push(Action::Pause(1000));
        round += 1;
    }
    expected.push(Action::Send(sentinel()));
    expected.push(Action::Disconnect);
    expected.push(Action::RemoveEndpoint);
    expected.push(Action::Exit(0));
    let actions: Vec<Action> = steps.iter().map(|s| s.action.clone()).collect();
    assert_eq!(actions, expected);
    assert_eq!(steps[steps.len() - 1].state, ControllerState::Closed);
    assert_eq!(sends_of(&steps), script());
    let errors = steps.iter().flat_map(|s| s.logs.iter()).filter(|r| r.level == Level::Error).count();
    assert_eq!(errors, 0);
}

#[test]
fn with_every_write_and_read_failing_the_run_still_writes_five_rounds_and_closes() {
    let mut events = vec![Event::Completed, Event::Completed];
    let mut round = 1;
    while round <= 5 {
        events.push(Event::Failed("write failed".to_string()));
        events.push(Event::Failed("read failed".to_string()));
        events.push(Event::Completed);
        round += 1;
    }
    events.push(Event::Failed("write failed".to_string()));
    events.push(Event::Failed("close failed".to_string()));
    events.push(Event::Failed("unlink failed".to_string()));
    let steps = drive(events);
    let sent = sends_of(&steps);
    assert_eq!(sent, script());
    assert_eq!(sent.iter().filter(|p| **p != sentinel()).count(), 5);
    assert_eq!(sent.iter().filter(|p| **p == sentinel()).count(), 1);
    assert_eq!(sent[sent.len() - 1], sentinel());
    let last = &steps[steps.len() - 1];
    assert_eq!(last.state, ControllerState::Closed);
    assert_eq!(last.action, Action::Exit(0));
    let n = steps.len();
    assert_eq!(steps[n - 2].action, Action::RemoveEndpoint);
    assert_eq!(steps[n - 3].action, Action::Disconnect);
    let errors = steps.iter().flat_map(|s| s.logs.iter()).filter(|r| r.level == Level::Error).count();
    assert_eq!(errors, 11);
}

#[test]
fn with_some_rounds_failing_the_count_of_writes_stays_five() {
    let mut pattern: u32 = 0;
    while pattern < 1024 {
        let mut events = vec![Event::Completed, Event::Completed];
        let mut round = 0;
        while round < 5 {
            if pattern & (1 << (2 * round)) != 0 {
                events.push(Event::Failed("w".to_string()));
            } else {
                events.push(Event::Completed);
            }
            if pattern & (1 << (2 * round + 1)) != 0 {
                events.push(Event::Failed("r".to_string()));
            } else {
                events.push(Event::Received(vec![0x6fu8, 0x6b]));
            }
            events.push(Event::Completed);
            round += 1;
        }
        events.push(Event::Completed);
        events.push(Event::Completed);
        events.push(Event::Completed);
        let steps = drive(events);
        assert_eq!(sends_of(&steps), script());
        assert_eq!(steps[steps.len() - 1].state, ControllerState::Closed);
        pattern += 1;
    }
}

#[test]
fn a_run_binds_once_and_only_first() {
    let mut events = Vec::new();
    let mut i = 0;
    while i < 30 {
        events.push(Event::Completed);
        i += 1;
    }
    let steps = drive(events);
    let mut k = 0;
    while k < steps.len() {
        assert_eq!(steps[k].action == Action::Bind, k == 0);
        if k > 20 {
            assert_eq!(steps[k].action, Action::Exit(0));
        }
        k += 1;
    }
}

#[test]
fn a_failed_bind_attempts_nothing_else() {
    let steps = drive(vec![
        Event::Failed("denied".to_string()),
        Event::Completed,
        Event::Completed,
    ]);
    assert_eq!(steps[1].state, ControllerState::Failed);
    assert_eq!(steps[2].action, Action::Exit(1));
    assert_eq!(steps[3].action, Action::Exit(1));
    assert!(sends_of(&steps).is_empty());
}

#[test]
fn a_round_number_out_of_range_still_gives_a_step() {
    let s = step(ControllerState::Exchanging { round: 200, phase: Phase::Sending }, Event::Completed);
    assert_eq!(s.logs, vec![note(Level::Info, "Controller: Sent: Message 200 from controller")]);
    let t = step(ControllerState::Exchanging { round: 200, phase: Phase::Pausing }, Event::Completed);
    assert_eq!(t.state, ControllerState::Terminating { stage: Teardown::Sentinel });
    let u = step(ControllerState::Exchanging { round: 0, phase: Phase::Pausing }, Event::Completed);
    assert_eq!(u.state, ControllerState::Exchanging { round: 1, phase: Phase::Sending });
}
