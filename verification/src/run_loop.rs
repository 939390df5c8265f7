//! The run loop: what it does with each thing it wakes up to, and the session that
//! keeps commands and replies in turn.

use vstd::prelude::*;
use crate::controller::{
    conclude, concluded, lemma_step_keeps_wf, next_step, step, State, Step,
};
use crate::domain::{Command, Event, Id};
use crate::error::{CommsError, ControlError};
use crate::targeting::{lemma_solution_for, living_target};

verus! {

/// What the run loop's wait came back with.
#[derive(Clone, Debug, PartialEq, Eq)]
pub enum Incoming {
    /// The run was cancelled from outside.
    Cancelled,
    /// The event channel failed to deliver a frame.
    Failed(CommsError),
    /// A frame arrived that holds no event.
    Empty,
    /// The server published an event.
    Event(Event),
}

/// What the run loop does with what it woke up to: it ends on a cancellation, passes
/// over a failure of the event channel or an empty frame, and puts an event to the
/// controller.
pub open spec fn next_tick(state: State, incoming: Incoming) -> Result<Step, ControlError> {
    match incoming {
        Incoming::Cancelled => Ok(Step::Halt),
        Incoming::Failed(_) => Ok(Step::Stay(state)),
        Incoming::Empty => Ok(Step::Stay(state)),
        Incoming::Event(event) => next_step(state, event),
    }
}

/// One turn of the run loop.
pub fn tick(state: State, incoming: &Incoming) -> (decided: Result<Step, ControlError>)
    ensures
        decided == next_tick(state, *incoming),
{
    match incoming {
        Incoming::Cancelled => Ok(Step::Halt),
        Incoming::Failed(_) => Ok(Step::Stay(state)),
        Incoming::Empty => Ok(Step::Stay(state)),
        Incoming::Event(event) => step(state, event),
    }
}

/// One round of a run: what the loop woke up to and, for a round that sent a command,
/// how the server answered it.
pub struct Round {
    pub incoming: Incoming,
    pub outcome: Result<(), CommsError>,
}

/// Where one round leaves the controller; `None` once the run has ended.
pub open spec fn after_round(state: State, round: Round) -> Result<Option<State>, ControlError> {
    match next_tick(state, round.incoming) {
        Ok(Step::Halt) => Ok(None),
        Ok(Step::Stay(same)) => Ok(Some(same)),
        Ok(Step::Issue(_, intended)) => match concluded(intended, round.outcome) {
            Ok(next) => Ok(Some(next)),
            Err(e) => Err(e),
        },
        Err(e) => Err(e),
    }
}

/// Where a run of rounds leaves the controller. A run that has ended or failed stays
/// so, whatever follows.
pub open spec fn after_rounds(state: State, rounds: Seq<Round>) -> Result<
    Option<State>,
    ControlError,
>
    decreases rounds.len(),
{
    if rounds.len() == 0 {
        Ok(Some(state))
    } else {
        match after_rounds(state, rounds.drop_last()) {
            Ok(Some(reached)) => after_round(reached, rounds.last()),
            ended => ended,
        }
    }
}

/// One round keeps the controller in order.
pub proof fn lemma_round_keeps_order(state: State, round: Round)
    requires
        state.in_order(),
    ensures
        after_round(state, round) matches Ok(Some(next)) ==> next.in_order(),
{
    if let Incoming::Event(event) = round.incoming {
        lemma_step_keeps_wf(state, event);
        if let Event::GameOver { .. } = event {
        } else if let State::Searching = state {
            if let Event::ScanComplete { tanks } = event {
                if let Some(target) = living_target(tanks@) {
                    if let Some(sighting) = target.sighting {
                        lemma_solution_for(sighting);
                    }
                }
            }
        }
    }
}

/// From the first state on, every state of every run is in order: no count of shots
/// is ever negative, and no solution is fired on once its shots are spent.
pub proof fn lemma_run_keeps_order(rounds: Seq<Round>)
    ensures
        after_rounds(State::WaitingForGameStart, rounds) matches Ok(Some(reached))
            ==> reached.in_order(),
    decreases rounds.len(),
{
    if rounds.len() > 0 {
        lemma_run_keeps_order(rounds.drop_last());
        if let Ok(Some(reached)) = after_rounds(State::WaitingForGameStart, rounds.drop_last()) {
            lemma_round_keeps_order(reached, rounds.last());
        }
    }
}

/// The end of the game and a cancellation both end the run in every state, with no
/// command, and a failure of the event channel changes nothing.
pub proof fn lemma_run_ends_without_command(state: State, winner: Option<Id>, failure: CommsError)
    ensures
        next_tick(state, Incoming::Event(Event::GameOver { winner })) == Ok::<
            Step,
            ControlError,
        >(Step::Halt),
        next_tick(state, Incoming::Cancelled) == Ok::<Step, ControlError>(Step::Halt),
        next_tick(state, Incoming::Failed(failure)) == Ok::<Step, ControlError>(
            Step::Stay(state),
        ),
        next_tick(state, Incoming::Empty) == Ok::<Step, ControlError>(Step::Stay(state)),
{
}

/// What the run loop is to do once the session has seen what it woke up to.
#[derive(Clone, Debug, PartialEq, Eq)]
pub enum Directive {
    /// End the run.
    Halt,
    /// Nothing to send: wait for the next event.
    Wait,
    /// Send the command and bring its outcome back.
    Send(Command),
}

/// A run of the controller in which commands and replies take turns: while a command
/// is in flight the session takes nothing but its outcome.
#[derive(Debug)]
pub struct Session {
    state: State,
    pending: Option<State>,
}

impl Session {
    #[verifier::type_invariant]
    spec fn ordered(self) -> bool {
        &&& self.state.in_order()
        &&& self.pending matches Some(intended) ==> intended.in_order()
    }

    /// The state the controller is in.
    pub closed spec fn spec_state(&self) -> State {
        self.state
    }

    /// The state that the command in flight leads to, if one is in flight.
    pub closed spec fn pending(&self) -> Option<State> {
        self.pending
    }

    /// Whether a command is in flight.
    pub open spec fn spec_awaiting_reply(&self) -> bool {
        self.pending() is Some
    }

    /// A session that waits for the game to start, with no command in flight.
    pub fn new() -> (session: Session)
        ensures
            session.spec_state() == State::WaitingForGameStart,
            !session.spec_awaiting_reply(),
    {
        Session { state: State::WaitingForGameStart, pending: None }
    }

    /// The state the controller is in. It is in order, whatever the run was.
    #[verifier::when_used_as_spec(spec_state)]
    pub fn state(&self) -> (state: State)
        ensures
            state == self.spec_state(),
            state.in_order(),
    {
        proof {
            use_type_invariant(self);
        }
        self.state
    }

    /// Whether a command is in flight.
    #[verifier::when_used_as_spec(spec_awaiting_reply)]
    pub fn awaiting_reply(&self) -> (awaiting: bool)
        ensures
            awaiting == self.spec_awaiting_reply(),
    {
        self.pending.is_some()
    }

    /// Puts what the run loop woke up to before the controller. Where a command
    /// follows, the session holds the state it leads to until `answer` brings the
    /// outcome; the state itself does not change before that.
    pub fn wake(&mut self, incoming: &Incoming) -> (directive: Result<Directive, ControlError>)
        requires
            !old(self).spec_awaiting_reply(),
        ensures
            final(self).spec_state() == old(self).spec_state(),
            match next_tick(old(self).spec_state(), *incoming) {
                Ok(Step::Halt) => directive == Ok::<Directive, ControlError>(Directive::Halt)
                    && final(self).pending() is None,
                Ok(Step::Stay(_)) => directive == Ok::<Directive, ControlError>(Directive::Wait)
                    && final(self).pending() is None,
                Ok(Step::Issue(command, intended)) => directive == Ok::<
                    Directive,
                    ControlError,
                >(Directive::Send(command)) && final(self).pending() == Some(intended),
                Err(e) => directive == Err::<Directive, ControlError>(e)
                    && final(self).pending() is None,
            },
    {
        proof {
            use_type_invariant(&*self);
            lemma_round_keeps_order(self.state, Round { incoming: *incoming, outcome: Ok(()) });
        }
        match tick(self.state, incoming) {
            Ok(Step::Halt) => Ok(Directive::Halt),
            Ok(Step::Stay(_)) => Ok(Directive::Wait),
            Ok(Step::Issue(command, intended)) => {
                self.pending = Some(intended);
                Ok(Directive::Send(command))
            },
            Err(e) => Err(e),
        }
    }

    /// Brings the outcome of the command in flight. An accepted command puts the
    /// controller in the state it was sent for, a busy server leaves it lost, and any
    /// other failure stops the run where it stood. No command is in flight afterwards.
    pub fn answer(&mut self, outcome: Result<(), CommsError>) -> (result: Result<
        (),
        ControlError,
    >)
        requires
            old(self).spec_awaiting_reply(),
        ensures
            final(self).pending() is None,
            match concluded(old(self).pending().unwrap(), outcome) {
                Ok(next) => result is Ok && final(self).spec_state() == next,
                Err(e) => result == Err::<(), ControlError>(e) && final(self).spec_state()
                    == old(self).spec_state(),
            },
    {
        proof {
            use_type_invariant(&*self);
        }
        let intended = self.pending.unwrap();
        self.pending = None;
        match conclude(intended, outcome) {
            Ok(next) => {
                self.state = next;
                Ok(())
            },
            Err(e) => Err(e),
        }
    }
}

} // verus!
