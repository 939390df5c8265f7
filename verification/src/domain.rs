//! The records exchanged with the game server, as the decision engine reads them.

use vstd::prelude::*;

verus! {

/// Name and version under which a participant is known to the server.
#[derive(Debug, PartialEq, Eq)]
pub struct Id {
    pub name: String,
    pub version: i32,
}

impl Clone for Id {
    fn clone(&self) -> (copy: Self)
        ensures
            copy == *self,
    {
        Id { name: self.name.clone(), version: self.version }
    }
}

/// What a tank is doing, as far as the server tells.
#[derive(Clone, Copy, Debug, PartialEq, Eq, Structural)]
pub enum BotStatus {
    Idle,
    Moving,
    Dead,
}

/// Where a tank lies as seen from the scanning tank, in whole units.
///
/// The two angles are signed offsets in millionths of a degree, not yet reduced to
/// one turn: from the scanner's turret to the line of sight, and from its heading to
/// the line of sight. `distance` is the range, rounded down.
#[derive(Clone, Copy, Debug, PartialEq, Eq, Structural)]
pub struct Sighting {
    pub aim_micro_degrees: i64,
    pub rotate_micro_degrees: i64,
    pub distance: u32,
}

/// One tank of a scan. It is replaced as a whole by the next scan.
///
/// `sighting` is absent when the scanner's position, heading or turret, or this
/// tank's position, was missing from the scan.
#[derive(Debug, PartialEq, Eq)]
pub struct Tank {
    pub id: i32,
    pub bot_id: Option<Id>,
    pub sighting: Option<Sighting>,
    pub health: i32,
    pub status: BotStatus,
}

impl Tank {
    /// Whether the tank can still be fought.
    pub open spec fn is_alive(self) -> bool {
        self.status != BotStatus::Dead
    }

    /// Whether the tank can still be fought.
    pub fn alive(&self) -> (alive: bool)
        ensures
            alive == self.is_alive(),
    {
        match self.status {
            BotStatus::Dead => false,
            _ => true,
        }
    }
}

impl Clone for Tank {
    fn clone(&self) -> (copy: Self)
        ensures
            copy == *self,
    {
        let bot_id = match &self.bot_id {
            Some(id) => Some(id.clone()),
            None => None,
        };
        Tank {
            id: self.id,
            bot_id,
            sighting: self.sighting,
            health: self.health,
            status: self.status,
        }
    }
}

/// The actions a tank can be told to take.
#[derive(Clone, Copy, Debug, PartialEq, Eq, Structural)]
pub enum CommandType {
    Scan,
    Aim,
    Fire,
    Rotate,
    Move,
}

/// A request to the server. `parameter` is an angle in degrees or a distance in
/// units, as the kind demands; `target` names another tank, where a kind needs one.
#[derive(Clone, Debug, PartialEq, Eq)]
pub struct Command {
    pub kind: CommandType,
    pub target: Option<Id>,
    pub parameter: Option<i32>,
}

/// How the server answered a command.
#[derive(Clone, Copy, Debug, PartialEq, Eq, Structural)]
pub enum CommandResult {
    Accepted,
    Busy,
    Rejected,
}

/// The server's one reply to one command.
#[derive(Clone, Copy, Debug, PartialEq, Eq, Structural)]
pub struct CommandReply {
    pub result: CommandResult,
}

/// The kinds of client that may register.
#[derive(Clone, Copy, Debug, PartialEq, Eq, Structural)]
pub enum ClientType {
    Bot,
}

/// The opening message of a client.
#[derive(Clone, Debug, PartialEq, Eq)]
pub struct Registration {
    pub client_type: ClientType,
    pub id: Option<Id>,
}

/// Whether the server let the client in.
#[derive(Clone, Copy, Debug, PartialEq, Eq, Structural)]
pub enum RegistrationResult {
    Success,
    Failure,
}

/// The server's answer to a registration, with the addresses of the two channels.
#[derive(Clone, Debug, PartialEq, Eq)]
pub struct RegistrationReply {
    pub result: RegistrationResult,
    pub cmd_url: String,
    pub event_url: String,
}

/// What the server publishes while a game runs.
#[derive(Clone, Debug, PartialEq, Eq)]
pub enum Event {
    GameStarted,
    ScanComplete { tanks: Vec<Tank> },
    AimingComplete,
    ShotFired,
    RotationComplete,
    MovementComplete,
    GameOver { winner: Option<Id> },
}

} // verus!
