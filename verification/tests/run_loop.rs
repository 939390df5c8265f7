use rusty_hunter::controller::{State, Step};
use rusty_hunter::domain::{BotStatus, Command, CommandType, Event, Id, Sighting, Tank};
use rusty_hunter::error::{CommsError, ControlError};
use rusty_hunter::run_loop::{tick, Directive, Incoming, Session};
use rusty_hunter::targeting::SHOTS;

fn command(kind: CommandType, parameter: Option<i32>) -> Command {
    Command { kind, target: None, parameter }
}

fn target(status: BotStatus, sighting: Option<Sighting>) -> Tank {
    Tank { id: 2, bot_id: Some(Id { name: "Randomizer".to_string(), version: 1 }), sighting, health: 70, status }
}

fn sighted() -> Tank {
    target(
        BotStatus::Idle,
        Some(Sighting { aim_micro_degrees: 12_500_000, rotate_micro_degrees: -90_000_000, distance: 9 }),
    )
}

fn event(event: Event) -> Incoming {
    Incoming::Event(event)
}

fn accepted(session: &mut Session, incoming: Incoming) -> Command {
    match session.wake(&incoming) {
        Ok(Directive::Send(sent)) => {
            assert!(session.awaiting_reply());
            assert_eq!(session.answer(Ok(())), Ok(()));
            assert!(!session.awaiting_reply());
            sent
        },
        other => panic!("unexpected directive {:?}", other),
    }
}

#[test]
fn session_starts_waiting_for_the_game() {
    let session = Session::new();
    assert_eq!(session.state(), State::WaitingForGameStart);
    assert!(!session.awaiting_reply());
}

#[test]
fn session_holds_the_state_until_the_reply() {
    let mut session = Session::new();
    let directive = session.wake(&event(Event::GameStarted));
    assert_eq!(directive, Ok(Directive::Send(command(CommandType::Scan, Some(20)))));
    assert!(session.awaiting_reply());
    assert_eq!(session.state(), State::WaitingForGameStart);
    assert_eq!(session.answer(Ok(())), Ok(()));
    assert!(!session.awaiting_reply());
    assert_eq!(session.state(), State::Searching);
}

#[test]
fn session_waits_on_events_without_transition() {
    let mut session = Session::new();
    for incoming in [
        event(Event::ShotFired),
        event(Event::ScanComplete { tanks: vec![sighted()] }),
        Incoming::Empty,
        Incoming::Failed(CommsError::DecodeError),
        Incoming::Failed(CommsError::ConnectionError),
    ] {
        assert_eq!(session.wake(&incoming), Ok(Directive::Wait));
        assert!(!session.awaiting_reply());
        assert_eq!(session.state(), State::WaitingForGameStart);
    }
}

#[test]
fn session_halts_on_game_over_and_cancellation() {
    let mut session = Session::new();
    assert_eq!(session.wake(&event(Event::GameOver { winner: None })), Ok(Directive::Halt));
    assert_eq!(session.wake(&Incoming::Cancelled), Ok(Directive::Halt));
    assert!(!session.awaiting_reply());
    accepted(&mut session, event(Event::GameStarted));
    accepted(&mut session, event(Event::ScanComplete { tanks: vec![sighted()] }));
    let winner = Some(Id { name: "Rusty".to_string(), version: 1 });
    assert_eq!(session.wake(&event(Event::GameOver { winner })), Ok(Directive::Halt));
    assert!(!session.awaiting_reply());
}

#[test]
fn busy_reply_leaves_the_session_lost_and_the_next_event_scans() {
    let mut session = Session::new();
    accepted(&mut session, event(Event::GameStarted));
    accepted(&mut session, event(Event::ScanComplete { tanks: vec![sighted()] }));
    let before = session.state();
    let directive = session.wake(&event(Event::AimingComplete));
    assert_eq!(directive, Ok(Directive::Send(command(CommandType::Fire, None))));
    assert_eq!(session.state(), before);
    assert_eq!(session.answer(Err(CommsError::Busy)), Ok(()));
    assert_eq!(session.state(), State::Lost);
    assert!(!session.awaiting_reply());
    let sent = accepted(&mut session, event(Event::MovementComplete));
    assert_eq!(sent, command(CommandType::Scan, Some(20)));
    assert_eq!(session.state(), State::Searching);
}

#[test]
fn repeated_busy_replies_keep_scanning() {
    let mut session = Session::new();
    for _ in 0..10 {
        let directive = session.wake(&event(Event::GameStarted));
        assert_eq!(directive, Ok(Directive::Send(command(CommandType::Scan, Some(20)))));
        assert_eq!(session.answer(Err(CommsError::Busy)), Ok(()));
        assert_eq!(session.state(), State::Lost);
    }
}

#[test]
fn rejected_command_stops_the_session_where_it_stood() {
    let mut session = Session::new();
    accepted(&mut session, event(Event::GameStarted));
    let directive = session.wake(&event(Event::ScanComplete { tanks: vec![] }));
    assert_eq!(directive, Ok(Directive::Send(command(CommandType::Aim, Some(20)))));
    assert_eq!(
        session.answer(Err(CommsError::Rejected)),
        Err(ControlError::Channel(CommsError::Rejected))
    );
    assert_eq!(session.state(), State::Searching);
    assert!(!session.awaiting_reply());
}

#[test]
fn undecodable_reply_stops_the_session() {
    let mut session = Session::new();
    let directive = session.wake(&event(Event::GameStarted));
    assert_eq!(directive, Ok(Directive::Send(command(CommandType::Scan, Some(20)))));
    assert_eq!(
        session.answer(Err(CommsError::DecodeError)),
        Err(ControlError::Channel(CommsError::DecodeError))
    );
    assert_eq!(session.state(), State::WaitingForGameStart);
}

#[test]
fn missing_pose_stops_the_session_without_command() {
    let mut session = Session::new();
    accepted(&mut session, event(Event::GameStarted));
    let tanks = vec![target(BotStatus::Moving, None)];
    assert_eq!(
        session.wake(&event(Event::ScanComplete { tanks })),
        Err(ControlError::MissingGeometryField)
    );
    assert!(!session.awaiting_reply());
    assert_eq!(session.state(), State::Searching);
}

#[test]
fn session_fires_all_shots_then_closes_in() {
    let mut session = Session::new();
    let mut sent: Vec<Command> = Vec::new();
    sent.push(accepted(&mut session, event(Event::GameStarted)));
    let tanks = vec![target(BotStatus::Dead, None), sighted()];
    sent.push(accepted(&mut session, event(Event::ScanComplete { tanks })));
    sent.push(accepted(&mut session, event(Event::AimingComplete)));
    let mut left = SHOTS - 1;
    loop {
        match session.state() {
            State::Firing(solution) => {
                assert_eq!(solution.shots_remaining, left);
                assert!(solution.shots_remaining >= 0);
            },
            other => panic!("unexpected state {:?}", other),
        }
        let next = accepted(&mut session, event(Event::ShotFired));
        let fired = next.kind == CommandType::Fire;
        sent.push(next);
        if !fired {
            break;
        }
        left -= 1;
    }
    assert_eq!(left, 0);
    sent.push(accepted(&mut session, event(Event::RotationComplete)));
    sent.push(accepted(&mut session, event(Event::MovementComplete)));
    let kinds: Vec<CommandType> = sent.iter().map(|c| c.kind).collect();
    assert_eq!(
        kinds,
        vec![
            CommandType::Scan,
            CommandType::Aim,
            CommandType::Fire,
            CommandType::Fire,
            CommandType::Fire,
            CommandType::Fire,
            CommandType::Fire,
            CommandType::Rotate,
            CommandType::Move,
            CommandType::Scan,
        ]
    );
    assert_eq!(sent[1].parameter, Some(12));
    assert_eq!(sent[7].parameter, Some(-90));
    assert_eq!(sent[8].parameter, Some(6));
    assert_eq!(sent[9].parameter, Some(40));
    assert_eq!(session.state(), State::Searching);
}

#[test]
fn tick_agrees_with_the_session() {
    let mut session = Session::new();
    let incoming = event(Event::GameStarted);
    let decided = tick(session.state(), &incoming);
    match (decided, session.wake(&incoming)) {
        (Ok(Step::Issue(planned, intended)), Ok(Directive::Send(sent))) => {
            assert_eq!(planned, sent);
            assert_eq!(session.answer(Ok(())), Ok(()));
            assert_eq!(session.state(), intended);
        },
        other => panic!("unexpected pair {:?}", other),
    }
}
