//! The tactical controller: which command follows from a state and an event, and which
//! state the tank is in once the server has answered.

use vstd::prelude::*;
use crate::angle::whole_degrees;
use crate::domain::{Command, CommandType, Event, Id, Tank};
use crate::error::{CommsError, ControlError};
use crate::targeting::{
    lemma_first_living, lemma_solution_for, living_target, make_targeting_solution,
    select_target, targeting_solution, TargetingSolution, SHOTS,
};

verus! {

/// The spread, in degrees, of the scan that opens a search.
pub const OPENING_SPREAD: i32 = 20;

/// The spread of the scan that follows a blind turn of the turret.
pub const NARROW_SPREAD: i32 = 10;

/// The spread of the scan that follows a move.
pub const WIDE_SPREAD: i32 = 40;

/// By how many degrees the turret turns when a scan has found nobody alive.
pub const BLIND_AIM: i32 = 20;

/// Where the controller stands. A state that engages a target holds the one live
/// targeting solution.
#[derive(Clone, Copy, Debug, PartialEq, Eq, Structural)]
pub enum State {
    WaitingForGameStart,
    Searching,
    Firing(TargetingSolution),
    Aiming,
    AimingAtTarget(TargetingSolution),
    Rotating(TargetingSolution),
    Moving,
    Lost,
}

impl State {
    /// The solution that the state holds, if it holds one, is well formed.
    pub open spec fn wf(self) -> bool {
        match self {
            State::Firing(solution) => solution.wf(),
            State::AimingAtTarget(solution) => solution.wf(),
            State::Rotating(solution) => solution.wf(),
            _ => true,
        }
    }

    /// The targeting solution that the state holds, if it holds one.
    pub open spec fn solution(self) -> Option<TargetingSolution> {
        match self {
            State::Firing(solution) => Some(solution),
            State::AimingAtTarget(solution) => Some(solution),
            State::Rotating(solution) => Some(solution),
            _ => None,
        }
    }

    /// What holds of every state of a run: the solution it holds is well formed, the
    /// turret is turned onto a target only with all shots left, a shot has been spent
    /// once the tank is firing, and the hull is turned towards the target only when no
    /// shot is left.
    pub open spec fn in_order(self) -> bool {
        &&& self.wf()
        &&& self matches State::AimingAtTarget(solution) ==> solution.shots_remaining == SHOTS
        &&& self matches State::Firing(solution) ==> solution.shots_remaining < SHOTS
        &&& self matches State::Rotating(solution) ==> solution.shots_remaining == 0
    }
}

/// What the controller wants done after an event.
#[derive(Clone, Debug, PartialEq, Eq)]
pub enum Step {
    /// The game is over: nothing more is sent, and the run ends.
    Halt,
    /// The event changes nothing: no command, and the state stays as it is.
    Stay(State),
    /// Send the command; once the server accepts it, the controller is in the state.
    Issue(Command, State),
}

/// The command that asks for a scan over `spread` degrees.
pub open spec fn scan_command(spread: i32) -> Command {
    Command { kind: CommandType::Scan, target: None, parameter: Some(spread) }
}

/// The command that turns the turret by `angle` degrees.
pub open spec fn aim_command(angle: i32) -> Command {
    Command { kind: CommandType::Aim, target: None, parameter: Some(angle) }
}

/// The command that fires the cannon.
pub open spec fn fire_command() -> Command {
    Command { kind: CommandType::Fire, target: None, parameter: None }
}

/// The command that turns the hull by `angle` degrees.
pub open spec fn rotate_command(angle: i32) -> Command {
    Command { kind: CommandType::Rotate, target: None, parameter: Some(angle) }
}

/// The command that drives `distance` units ahead.
pub open spec fn move_command(distance: i32) -> Command {
    Command { kind: CommandType::Move, target: None, parameter: Some(distance) }
}

/// Three quarters of `distance`, the fraction dropped towards zero.
pub open spec fn three_quarters(distance: int) -> int {
    if distance >= 0 {
        (3 * distance) / 4
    } else {
        -((3 * -distance) / 4)
    }
}

/// A search over `spread` degrees.
pub open spec fn searching(spread: i32) -> Step {
    Step::Issue(scan_command(spread), State::Searching)
}

/// A turn of the turret by `angle` degrees with no target in sight.
pub open spec fn aiming_at_angle(angle: i32) -> Step {
    Step::Issue(aim_command(angle), State::Aiming)
}

/// The turret turns onto `target` by the aim angle of its solution, in whole degrees.
pub open spec fn aiming_at_target(target: Tank) -> Result<Step, ControlError> {
    match targeting_solution(target) {
        Ok(solution) => Ok(
            Step::Issue(
                aim_command(whole_degrees(solution.aim_angle@) as i32),
                State::AimingAtTarget(solution),
            ),
        ),
        Err(e) => Err(e),
    }
}

/// While shots are left, one is fired and spent; once none is left, the hull turns
/// towards the target.
pub open spec fn firing(solution: TargetingSolution) -> Step {
    if solution.shots_remaining > 0 {
        Step::Issue(fire_command(), State::Firing(solution.spec_shoot()))
    } else {
        Step::Issue(
            rotate_command(whole_degrees(solution.rotate_angle@) as i32),
            State::Rotating(solution),
        )
    }
}

/// The tank closes three quarters of the range to the target.
pub open spec fn moving(solution: TargetingSolution) -> Step {
    Step::Issue(move_command(three_quarters(solution.distance as int) as i32), State::Moving)
}

/// Opens a search over `spread` degrees.
pub fn start_searching(spread: i32) -> (step: Step)
    ensures
        step == searching(spread),
{
    Step::Issue(
        Command { kind: CommandType::Scan, target: None, parameter: Some(spread) },
        State::Searching,
    )
}

/// Turns the turret onto `target`, by the aim angle of the solution made for it.
pub fn start_aiming_at_target(target: &Tank) -> (step: Result<Step, ControlError>)
    ensures
        step == aiming_at_target(*target),
        step is Err <==> target.sighting is None,
{
    match make_targeting_solution(target) {
        Ok(targeting_solution) => {
            let angle: i32 = targeting_solution.aim_angle.to_degrees();
            Ok(
                Step::Issue(
                    Command { kind: CommandType::Aim, target: None, parameter: Some(angle) },
                    State::AimingAtTarget(targeting_solution),
                ),
            )
        },
        Err(e) => Err(e),
    }
}

/// Turns the turret by `angle` degrees with no target in sight.
pub fn start_aiming_at_angle(angle: i32) -> (step: Step)
    ensures
        step == aiming_at_angle(angle),
{
    Step::Issue(
        Command { kind: CommandType::Aim, target: None, parameter: Some(angle) },
        State::Aiming,
    )
}

/// Fires if a shot is left, and spends it; turns the hull towards the target if none is.
pub fn start_firing(targeting_solution: TargetingSolution) -> (step: Step)
    ensures
        step == firing(targeting_solution),
{
    if targeting_solution.shots_remaining > 0 {
        Step::Issue(
            Command { kind: CommandType::Fire, target: None, parameter: None },
            State::Firing(targeting_solution.shoot()),
        )
    } else {
        let angle: i32 = targeting_solution.rotate_angle.to_degrees();
        Step::Issue(
            Command { kind: CommandType::Rotate, target: None, parameter: Some(angle) },
            State::Rotating(targeting_solution),
        )
    }
}

/// Drives three quarters of the way to the target.
pub fn start_moving(targeting_solution: TargetingSolution) -> (step: Step)
    ensures
        step == moving(targeting_solution),
{
    let range: i64 = targeting_solution.distance as i64;
    let distance: i64 = range * 3 / 4;
    Step::Issue(
        Command { kind: CommandType::Move, target: None, parameter: Some(distance as i32) },
        State::Moving,
    )
}

/// What the server's answer makes of the state that a command was to lead to: a busy
/// server leaves the controller lost, any other failure stops it.
pub open spec fn settled(result: Result<State, ControlError>) -> Result<State, ControlError> {
    match result {
        Ok(state) => Ok(state),
        Err(ControlError::Channel(CommsError::Busy)) => Ok(State::Lost),
        Err(e) => Err(e),
    }
}

/// Absorbs a busy server into the state `Lost`; hands on every other outcome as it is.
pub fn handle_error(result: Result<State, ControlError>) -> (handled: Result<State, ControlError>)
    ensures
        handled == settled(result),
{
    match result {
        Ok(state) => Ok(state),
        Err(e) => {
            match e {
                ControlError::Channel(CommsError::Busy) => Ok(State::Lost),
                _ => Err(e),
            }
        },
    }
}

/// The state after a command has been answered: the state that the command was to lead
/// to where the server accepted it, `Lost` where the server was busy; any other failure
/// of the channel stops the controller.
pub open spec fn concluded(intended: State, outcome: Result<(), CommsError>) -> Result<
    State,
    ControlError,
> {
    settled(
        match outcome {
            Ok(_) => Ok(intended),
            Err(e) => Err(ControlError::Channel(e)),
        },
    )
}

/// Closes a transition with the outcome of its command.
pub fn conclude(intended: State, outcome: Result<(), CommsError>) -> (state: Result<
    State,
    ControlError,
>)
    ensures
        state == concluded(intended, outcome),
{
    match outcome {
        Ok(_) => handle_error(Ok(intended)),
        Err(e) => handle_error(Err(ControlError::Channel(e))),
    }
}

/// The transition table of the controller.
pub open spec fn next_step(state: State, event: Event) -> Result<Step, ControlError> {
    match event {
        Event::GameOver { .. } => Ok(Step::Halt),
        _ => match state {
            State::Lost => Ok(searching(OPENING_SPREAD)),
            State::WaitingForGameStart => match event {
                Event::GameStarted => Ok(searching(OPENING_SPREAD)),
                _ => Ok(Step::Stay(state)),
            },
            State::Searching => match event {
                Event::ScanComplete { tanks } => match living_target(tanks@) {
                    Some(target) => aiming_at_target(target),
                    None => Ok(aiming_at_angle(BLIND_AIM)),
                },
                _ => Ok(Step::Stay(state)),
            },
            State::Aiming => match event {
                Event::AimingComplete => Ok(searching(NARROW_SPREAD)),
                _ => Ok(Step::Stay(state)),
            },
            State::AimingAtTarget(solution) => match event {
                Event::AimingComplete => Ok(firing(solution)),
                _ => Ok(Step::Stay(state)),
            },
            State::Firing(solution) => match event {
                Event::ShotFired => Ok(firing(solution)),
                _ => Ok(Step::Stay(state)),
            },
            State::Rotating(solution) => match event {
                Event::RotationComplete => Ok(moving(solution)),
                _ => Ok(Step::Stay(state)),
            },
            State::Moving => match event {
                Event::MovementComplete => Ok(searching(WIDE_SPREAD)),
                _ => Ok(Step::Stay(state)),
            },
        },
    }
}

/// Decides what follows from `event` in `state`.
pub fn step(state: State, event: &Event) -> (decided: Result<Step, ControlError>)
    ensures
        decided == next_step(state, *event),
{
    if let Event::GameOver { .. } = event {
        return Ok(Step::Halt);
    }
    match state {
        State::Lost => Ok(start_searching(OPENING_SPREAD)),
        State::WaitingForGameStart => match event {
            Event::GameStarted => Ok(start_searching(OPENING_SPREAD)),
            _ => Ok(Step::Stay(State::WaitingForGameStart)),
        },
        State::Searching => match event {
            Event::ScanComplete { tanks } => {
                if let Some(target) = select_target(tanks) {
                    start_aiming_at_target(&target)
                } else {
                    Ok(start_aiming_at_angle(BLIND_AIM))
                }
            },
            _ => Ok(Step::Stay(State::Searching)),
        },
        State::Firing(targeting_solution) => match event {
            Event::ShotFired => Ok(start_firing(targeting_solution)),
            _ => Ok(Step::Stay(State::Firing(targeting_solution))),
        },
        State::Aiming => match event {
            Event::AimingComplete => Ok(start_searching(NARROW_SPREAD)),
            _ => Ok(Step::Stay(State::Aiming)),
        },
        State::AimingAtTarget(targeting_solution) => match event {
            Event::AimingComplete => Ok(start_firing(targeting_solution)),
            _ => Ok(Step::Stay(State::AimingAtTarget(targeting_solution))),
        },
        State::Rotating(targeting_solution) => match event {
            Event::RotationComplete => Ok(start_moving(targeting_solution)),
            _ => Ok(Step::Stay(State::Rotating(targeting_solution))),
        },
        State::Moving => match event {
            Event::MovementComplete => Ok(start_searching(WIDE_SPREAD)),
            _ => Ok(Step::Stay(State::Moving)),
        },
    }
}

/// Every Fire command spends exactly one shot: it is issued only on a solution with a
/// shot left, and leads to `Firing` with that solution, one shot fewer and nothing else
/// changed. The count never falls below zero.
pub proof fn lemma_fire_spends_one_shot(state: State, event: Event, command: Command, next: State)
    requires
        next_step(state, event) == Ok::<Step, ControlError>(Step::Issue(command, next)),
        command.kind == CommandType::Fire,
    ensures
        state.solution() matches Some(before) && before.shots_remaining > 0 && next
            == State::Firing(before.spec_shoot()),
        next.solution() matches Some(after) && after.shots_remaining
            == state.solution().unwrap().shots_remaining - 1 && after.shots_remaining >= 0
            && after.aim_angle == state.solution().unwrap().aim_angle && after.rotate_angle
            == state.solution().unwrap().rotate_angle && after.distance
            == state.solution().unwrap().distance,
{
    if let Event::GameOver { .. } = event {
    } else if let State::Searching = state {
        if let Event::ScanComplete { tanks } = event {
            if let Some(target) = living_target(tanks@) {
                assert(aiming_at_target(target) matches Ok(Step::Issue(c, _)) ==> c.kind
                    == CommandType::Aim);
            }
        }
    }
}

/// Once no shot is left, the solution is not fired again: whatever the event, no Fire
/// command is issued and the controller does not pass into `Firing`. From `Firing` the
/// only way on is a turn of the hull towards the target.
pub proof fn lemma_spent_solution_is_not_fired(state: State, event: Event)
    requires
        state.solution() matches Some(solution) && solution.shots_remaining <= 0,
    ensures
        next_step(state, event) matches Ok(Step::Issue(command, next)) ==> command.kind
            != CommandType::Fire && !(next is Firing),
        state is Firing ==> (next_step(state, event) matches Ok(Step::Issue(command, next))
            ==> next == State::Rotating(state.solution().unwrap())),
{
}

/// The controller keeps its solutions well formed: from a well-formed state every
/// transition leads to a well-formed state, and an event without a transition leaves
/// the state as it is.
pub proof fn lemma_step_keeps_wf(state: State, event: Event)
    requires
        state.wf(),
    ensures
        match next_step(state, event) {
            Ok(Step::Issue(_, next)) => next.wf(),
            Ok(Step::Stay(same)) => same == state,
            Ok(Step::Halt) => event is GameOver,
            Err(e) => e == ControlError::MissingGeometryField,
        },
{
    if let Event::GameOver { .. } = event {
    } else if let State::Searching = state {
        if let Event::ScanComplete { tanks } = event {
            if let Some(target) = living_target(tanks@) {
                if let Some(sighting) = target.sighting {
                    lemma_solution_for(sighting);
                }
            }
        }
    }
}

/// A busy server changes no solution: whatever state the command was to lead to, the
/// controller is `Lost` afterwards, and the first event that reaches it there, unless
/// the game is over, has it scan again. An accepted command leads to the state it was
/// sent for, as it is.
pub proof fn lemma_busy_then_scan(intended: State, event: Event)
    ensures
        concluded(intended, Err(CommsError::Busy)) == Ok::<State, ControlError>(State::Lost),
        concluded(intended, Ok(())) == Ok::<State, ControlError>(intended),
        !(event is GameOver) ==> next_step(State::Lost, event) == Ok::<Step, ControlError>(
            Step::Issue(scan_command(OPENING_SPREAD), State::Searching),
        ),
{
}

/// Only a busy server is absorbed: every other failure of the channel stops the
/// controller with that failure.
pub proof fn lemma_other_failures_stop(intended: State, failure: CommsError)
    requires
        failure != CommsError::Busy,
    ensures
        concluded(intended, Err(failure)) == Err::<State, ControlError>(
            ControlError::Channel(failure),
        ),
{
}

/// The end of the game ends the run in every state, with no command.
pub proof fn lemma_game_over_halts(state: State, winner: Option<Id>)
    ensures
        next_step(state, Event::GameOver { winner }) == Ok::<Step, ControlError>(Step::Halt),
{
}

/// A scan picks its target by scan order alone: the first tank that is not dead is
/// aimed at, and where every tank is dead the turret turns blind.
pub proof fn lemma_scan_engages_first_living(tanks: Vec<Tank>, i: int)
    ensures
        0 <= i < tanks.len() && tanks[i].is_alive() && (forall|j: int|
            0 <= j < i ==> !tanks[j].is_alive()) ==> next_step(
            State::Searching,
            Event::ScanComplete { tanks },
        ) == aiming_at_target(tanks[i]),
        (forall|j: int| 0 <= j < tanks.len() ==> !tanks[j].is_alive()) ==> next_step(
            State::Searching,
            Event::ScanComplete { tanks },
        ) == Ok::<Step, ControlError>(Step::Issue(aim_command(BLIND_AIM), State::Aiming)),
{
    lemma_first_living(tanks@);
}

} // verus!
