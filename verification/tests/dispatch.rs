use actuator_control::commands::{Actuator, ActuatorCommand, Direction};
use actuator_control::dispatcher::{
    status_message, Action, Dispatcher, Event, Phase, WriteOutcome, BAUD_RATE,
    COMMAND_QUEUE_CAPACITY, PACING_INTERVAL_MS, STATUS_QUEUE_CAPACITY,
};

/// Drives a dispatcher through `commands` as the loop round the link does,
/// meeting `outcomes` at the writes, and returns every action in order.
fn drive(commands: Vec<ActuatorCommand>, outcomes: Vec<WriteOutcome>) -> Vec<Action> {
    let mut dispatcher = Dispatcher::new();
    let mut queue = commands.into_iter();
    let mut outcomes = outcomes.into_iter();
    let mut actions = Vec::new();
    let mut action = Action::Receive;
    loop {
        let event = match &action {
            Action::Receive => match queue.next() {
                Some(command) => Event::Command(command),
                None => Event::SourceClosed,
            },
            Action::Write(_) => Event::WriteDone(outcomes.next().unwrap()),
            Action::Report { .. } => Event::PauseElapsed,
            Action::Stop => break,
        };
        action = dispatcher.step(&event).unwrap();
        actions.push(match &action {
            Action::Receive => Action::Receive,
            Action::Write(frame) => Action::Write(*frame),
            Action::Report { status, pause_ms } => {
                Action::Report { status: status.to_string(), pause_ms: *pause_ms }
            }
            Action::Stop => Action::Stop,
        });
    }
    assert_eq!(dispatcher.phase(), Phase::Stopped);
    actions
}

/// The frames that `actions` write, in order.
fn frames(actions: &[Action]) -> Vec<[u8; 4]> {
    let mut written = Vec::new();
    for action in actions {
        if let Action::Write(frame) = action {
            written.push(*frame);
        }
    }
    written
}

#[test]
fn limits_are_as_the_link_needs_them() {
    assert_eq!(PACING_INTERVAL_MS, 50);
    assert_eq!(COMMAND_QUEUE_CAPACITY, 100);
    assert_eq!(STATUS_QUEUE_CAPACITY, 100);
    assert_eq!(BAUD_RATE, 9600);
}

#[test]
fn new_dispatcher_awaits_a_command() {
    assert_eq!(Dispatcher::new().phase(), Phase::Idle);
}

#[test]
fn a_command_is_written_as_its_frame() {
    let mut dispatcher = Dispatcher::new();
    let command = ActuatorCommand::SetSpeed(30000, Actuator::Lift);
    assert_eq!(
        dispatcher.step(&Event::Command(command)),
        Some(Action::Write([0x00, 0x30, 0x75, 0x00]))
    );
    assert_eq!(dispatcher.phase(), Phase::Writing(command));
}

#[test]
fn a_write_that_worked_is_reported_and_paced() {
    let mut dispatcher = Dispatcher::new();
    dispatcher.step(&Event::Command(ActuatorCommand::SetSpeed(30000, Actuator::Lift)));
    assert_eq!(
        dispatcher.step(&Event::WriteDone(WriteOutcome::Written)),
        Some(Action::Report { status: "Set speed to 30000 on lift".to_string(), pause_ms: 50 })
    );
    assert_eq!(dispatcher.phase(), Phase::Pausing);
    assert_eq!(dispatcher.step(&Event::PauseElapsed), Some(Action::Receive));
    assert_eq!(dispatcher.phase(), Phase::Idle);
}

#[test]
fn a_write_that_failed_is_reported_and_paced_and_the_loop_goes_on() {
    let mut dispatcher = Dispatcher::new();
    dispatcher.step(&Event::Command(ActuatorCommand::SetDirection(
        Direction::Backward,
        Actuator::Bucket,
    )));
    assert_eq!(
        dispatcher.step(&Event::WriteDone(WriteOutcome::Failed("port unplugged".to_string()))),
        Some(Action::Report {
            status: "Serial error: port unplugged".to_string(),
            pause_ms: 50
        })
    );
    assert_eq!(dispatcher.phase(), Phase::Pausing);
    assert_eq!(dispatcher.step(&Event::PauseElapsed), Some(Action::Receive));
    let next = ActuatorCommand::SetSpeed(1, Actuator::Bucket);
    assert_eq!(dispatcher.step(&Event::Command(next)), Some(Action::Write([0, 1, 0, 1])));
}

#[test]
fn a_closed_queue_stops_the_dispatcher() {
    let mut dispatcher = Dispatcher::new();
    assert_eq!(dispatcher.step(&Event::SourceClosed), Some(Action::Stop));
    assert_eq!(dispatcher.phase(), Phase::Stopped);
    assert_eq!(dispatcher.step(&Event::SourceClosed), None);
    assert_eq!(
        dispatcher.step(&Event::Command(ActuatorCommand::SetSpeed(1, Actuator::Lift))),
        None
    );
    assert_eq!(dispatcher.step(&Event::PauseElapsed), None);
    assert_eq!(dispatcher.step(&Event::WriteDone(WriteOutcome::Written)), None);
    assert_eq!(dispatcher.phase(), Phase::Stopped);
}

#[test]
fn the_loop_does_not_stop_in_the_middle_of_a_command() {
    let mut dispatcher = Dispatcher::new();
    let command = ActuatorCommand::SetSpeed(5, Actuator::Lift);
    dispatcher.step(&Event::Command(command));
    assert_eq!(dispatcher.step(&Event::SourceClosed), None);
    assert_eq!(dispatcher.phase(), Phase::Writing(command));
    dispatcher.step(&Event::WriteDone(WriteOutcome::Written));
    assert_eq!(dispatcher.step(&Event::SourceClosed), None);
    assert_eq!(dispatcher.phase(), Phase::Pausing);
}

#[test]
fn events_out_of_turn_change_nothing() {
    let mut dispatcher = Dispatcher::new();
    assert_eq!(dispatcher.step(&Event::PauseElapsed), None);
    assert_eq!(dispatcher.step(&Event::WriteDone(WriteOutcome::Written)), None);
    assert_eq!(dispatcher.phase(), Phase::Idle);

    let first = ActuatorCommand::SetSpeed(10, Actuator::Lift);
    let second = ActuatorCommand::SetSpeed(20, Actuator::Lift);
    dispatcher.step(&Event::Command(first));
    // no second write before the first is dealt with
    assert_eq!(dispatcher.step(&Event::Command(second)), None);
    assert_eq!(dispatcher.step(&Event::PauseElapsed), None);
    assert_eq!(dispatcher.phase(), Phase::Writing(first));

    dispatcher.step(&Event::WriteDone(WriteOutcome::Written));
    // no write while the pause lasts, and no second report
    assert_eq!(dispatcher.step(&Event::Command(second)), None);
    assert_eq!(dispatcher.step(&Event::WriteDone(WriteOutcome::Written)), None);
    assert_eq!(dispatcher.phase(), Phase::Pausing);
}

#[test]
fn three_commands_leave_in_the_order_they_came() {
    let c1 = ActuatorCommand::SetSpeed(1000, Actuator::Lift);
    let c2 = ActuatorCommand::SetDirection(Direction::Backward, Actuator::Lift);
    let c3 = ActuatorCommand::SetSpeed(0, Actuator::Bucket);
    let actions = drive(
        vec![c1, c2, c3],
        vec![WriteOutcome::Written, WriteOutcome::Written, WriteOutcome::Written],
    );
    assert_eq!(frames(&actions), vec![c1.serialize(), c2.serialize(), c3.serialize()]);
    assert_eq!(
        frames(&actions),
        vec![[0, 0xE8, 0x03, 0], [1, 1, 0, 0], [0, 0, 0, 1]]
    );
}

#[test]
fn equal_commands_in_a_row_are_each_written() {
    let command = ActuatorCommand::SetSpeed(4000, Actuator::Lift);
    let actions = drive(
        vec![command, command, command],
        vec![WriteOutcome::Written, WriteOutcome::Written, WriteOutcome::Written],
    );
    assert_eq!(frames(&actions), vec![command.serialize(); 3]);
}

#[test]
fn failed_writes_are_neither_repeated_nor_do_they_hold_up_the_rest() {
    let c1 = ActuatorCommand::SetSpeed(1000, Actuator::Lift);
    let c2 = ActuatorCommand::SetSpeed(2000, Actuator::Lift);
    let c3 = ActuatorCommand::SetSpeed(3000, Actuator::Lift);
    let actions = drive(
        vec![c1, c2, c3],
        vec![
            WriteOutcome::Failed("busy".to_string()),
            WriteOutcome::Written,
            WriteOutcome::Failed("gone".to_string()),
        ],
    );
    assert_eq!(frames(&actions), vec![c1.serialize(), c2.serialize(), c3.serialize()]);
    assert_eq!(
        actions,
        vec![
            Action::Write(c1.serialize()),
            Action::Report { status: "Serial error: busy".to_string(), pause_ms: 50 },
            Action::Receive,
            Action::Write(c2.serialize()),
            Action::Report { status: "Set speed to 2000 on lift".to_string(), pause_ms: 50 },
            Action::Receive,
            Action::Write(c3.serialize()),
            Action::Report { status: "Serial error: gone".to_string(), pause_ms: 50 },
            Action::Receive,
            Action::Stop,
        ]
    );
}

#[test]
fn a_pause_lies_between_any_two_writes() {
    let mut commands = Vec::new();
    let mut outcomes = Vec::new();
    for i in 0..40u16 {
        commands.push(ActuatorCommand::SetSpeed(i * 100, Actuator::Bucket));
        outcomes.push(if i % 3 == 0 {
            WriteOutcome::Failed(format!("error {}", i))
        } else {
            WriteOutcome::Written
        });
    }
    let actions = drive(commands, outcomes);
    let mut paused_since_write = true;
    let mut clock_ms: u64 = 0;
    let mut last_write_at: Option<u64> = None;
    for action in &actions {
        match action {
            Action::Write(_) => {
                assert!(paused_since_write);
                if let Some(earlier) = last_write_at {
                    assert!(clock_ms - earlier >= 50);
                }
                last_write_at = Some(clock_ms);
                paused_since_write = false;
            }
            Action::Report { pause_ms, .. } => {
                assert_eq!(*pause_ms, 50);
                clock_ms += pause_ms;
                paused_since_write = true;
            }
            _ => {}
        }
    }
    assert_eq!(frames(&actions).len(), 40);
}

#[test]
fn an_empty_queue_that_closes_writes_nothing() {
    assert_eq!(drive(vec![], vec![]), vec![Action::Stop]);
}

#[test]
fn status_names_what_was_set_and_where() {
    assert_eq!(
        status_message(ActuatorCommand::SetSpeed(0, Actuator::Lift), &WriteOutcome::Written),
        "Set speed to 0 on lift"
    );
    assert_eq!(
        status_message(ActuatorCommand::SetSpeed(65535, Actuator::Bucket), &WriteOutcome::Written),
        "Set speed to 65535 on bucket"
    );
    assert_eq!(
        status_message(
            ActuatorCommand::SetDirection(Direction::Forward, Actuator::Lift),
            &WriteOutcome::Written
        ),
        "Set direction to forward on lift"
    );
    assert_eq!(
        status_message(
            ActuatorCommand::SetDirection(Direction::Backward, Actuator::Bucket),
            &WriteOutcome::Written
        ),
        "Set direction to backward on bucket"
    );
}

#[test]
fn status_of_a_failure_holds_the_detail() {
    assert_eq!(
        status_message(
            ActuatorCommand::SetSpeed(1, Actuator::Lift),
            &WriteOutcome::Failed("Resource temporarily unavailable".to_string())
        ),
        "Serial error: Resource temporarily unavailable"
    );
    assert_eq!(
        status_message(
            ActuatorCommand::SetDirection(Direction::Forward, Actuator::Lift),
            &WriteOutcome::Failed(String::new())
        ),
        "Serial error: "
    );
}

#[test]
fn replay_returns_the_run_over_the_events() {
    let c1 = ActuatorCommand::SetSpeed(500, Actuator::Lift);
    let c2 = ActuatorCommand::SetDirection(Direction::Forward, Actuator::Bucket);
    let events = vec![
        Event::Command(c1),
        Event::WriteDone(WriteOutcome::Written),
        Event::PauseElapsed,
        Event::Command(c2),
        Event::WriteDone(WriteOutcome::Failed("timed out".to_string())),
        Event::PauseElapsed,
        Event::SourceClosed,
    ];
    let mut dispatcher = Dispatcher::new();
    let actions = dispatcher.replay(&events);
    assert_eq!(
        actions,
        vec![
            Action::Write([0, 0xF4, 0x01, 0]),
            Action::Report { status: "Set speed to 500 on lift".to_string(), pause_ms: 50 },
            Action::Receive,
            Action::Write([1, 0, 0, 1]),
            Action::Report { status: "Serial error: timed out".to_string(), pause_ms: 50 },
            Action::Receive,
            Action::Stop,
        ]
    );
    assert_eq!(dispatcher.phase(), Phase::Stopped);
}

#[test]
fn replay_leaves_no_trace_of_events_out_of_turn() {
    let c1 = ActuatorCommand::SetSpeed(500, Actuator::Lift);
    let c2 = ActuatorCommand::SetSpeed(600, Actuator::Lift);
    let events = vec![
        Event::PauseElapsed,
        Event::Command(c1),
        Event::Command(c2),
        Event::SourceClosed,
        Event::WriteDone(WriteOutcome::Written),
        Event::Command(c2),
        Event::WriteDone(WriteOutcome::Written),
    ];
    let mut dispatcher = Dispatcher::new();
    let actions = dispatcher.replay(&events);
    assert_eq!(
        actions,
        vec![
            Action::Write(c1.serialize()),
            Action::Report { status: "Set speed to 500 on lift".to_string(), pause_ms: 50 },
        ]
    );
    assert_eq!(dispatcher.phase(), Phase::Pausing);
    assert_eq!(dispatcher.replay(&Vec::new()), Vec::new());
    assert_eq!(dispatcher.phase(), Phase::Pausing);
}

#[test]
fn replay_of_a_hundred_commands_keeps_their_order() {
    let mut events = Vec::new();
    let mut expected = Vec::new();
    for i in 0..100u16 {
        let command = if i % 4 == 0 {
            ActuatorCommand::SetDirection(Direction::Backward, Actuator::Bucket)
        } else {
            ActuatorCommand::SetSpeed(i * 600, Actuator::Lift)
        };
        expected.push(command.serialize());
        events.push(Event::Command(command));
        events.push(Event::WriteDone(if i % 5 == 0 {
            WriteOutcome::Failed("no".to_string())
        } else {
            WriteOutcome::Written
        }));
        events.push(Event::PauseElapsed);
    }
    let mut dispatcher = Dispatcher::new();
    let actions = dispatcher.replay(&events);
    assert_eq!(actions.len(), 300);
    assert_eq!(frames(&actions), expected);
    assert_eq!(dispatcher.phase(), Phase::Idle);
}
