//! Choosing a target among the tanks of a scan and working out how to engage it.

use vstd::prelude::*;
use crate::angle::{lemma_of_micro_degrees, normalized, Angle, HALF_TURN};
use crate::domain::{Sighting, Tank};
use crate::error::ControlError;

verus! {

/// How many shots a fresh targeting solution allows.
pub const SHOTS: i8 = 5;

/// How to engage one target: where to aim, how to turn, how far to go, and how many
/// shots are left to spend on it.
#[derive(Clone, Copy, Debug, PartialEq, Eq, Structural)]
pub struct TargetingSolution {
    pub aim_angle: Angle,
    pub rotate_angle: Angle,
    pub distance: i32,
    pub shots_remaining: i8,
}

/// `distance` as the signed integer that a solution holds, capped at the largest one.
pub open spec fn capped_distance(distance: u32) -> int {
    if distance > i32::MAX {
        i32::MAX as int
    } else {
        distance as int
    }
}

/// The solution that a sighting gives: both angles reduced to one turn, the range as
/// it was measured, and all shots left.
pub open spec fn solution_for(sighting: Sighting) -> TargetingSolution {
    TargetingSolution {
        aim_angle: Angle::of_micro_degrees(sighting.aim_micro_degrees as int),
        rotate_angle: Angle::of_micro_degrees(sighting.rotate_micro_degrees as int),
        distance: capped_distance(sighting.distance) as i32,
        shots_remaining: SHOTS,
    }
}

/// The solution for a target, which takes its sighting.
pub open spec fn targeting_solution(target: Tank) -> Result<TargetingSolution, ControlError> {
    match target.sighting {
        Some(sighting) => Ok(solution_for(sighting)),
        None => Err(ControlError::MissingGeometryField),
    }
}

impl TargetingSolution {
    /// Both angles lie in `(-180°, 180°]`, the distance is not negative, and between
    /// none and all of the shots are left.
    pub open spec fn wf(self) -> bool {
        &&& -HALF_TURN < self.aim_angle@ <= HALF_TURN
        &&& -HALF_TURN < self.rotate_angle@ <= HALF_TURN
        &&& self.distance >= 0
        &&& 0 <= self.shots_remaining <= SHOTS
    }

    /// The same solution with one shot spent.
    pub open spec fn spec_shoot(self) -> TargetingSolution {
        TargetingSolution { shots_remaining: (self.shots_remaining - 1) as i8, ..self }
    }

    /// Spends one shot.
    pub fn shoot(self) -> (spent: TargetingSolution)
        requires
            self.shots_remaining > 0,
        ensures
            spent == self.spec_shoot(),
            spent.shots_remaining == self.shots_remaining - 1,
            spent.shots_remaining >= 0,
            self.wf() ==> spent.wf(),
    {
        TargetingSolution {
            distance: self.distance,
            aim_angle: self.aim_angle,
            rotate_angle: self.rotate_angle,
            shots_remaining: self.shots_remaining - 1,
        }
    }
}

/// The place in `tanks` of the first tank that is not dead, if there is one.
pub open spec fn first_living(tanks: Seq<Tank>) -> Option<int>
    decreases tanks.len(),
{
    if tanks.len() == 0 {
        None
    } else if tanks[0].is_alive() {
        Some(0)
    } else {
        match first_living(tanks.drop_first()) {
            Some(i) => Some(i + 1),
            None => None,
        }
    }
}

/// The first tank of the scan that is not dead, if there is one.
pub open spec fn living_target(tanks: Seq<Tank>) -> Option<Tank> {
    match first_living(tanks) {
        Some(i) => Some(tanks[i]),
        None => None,
    }
}

/// `first_living` names a living tank before which every tank is dead, and names
/// none only where every tank is dead.
pub proof fn lemma_first_living(tanks: Seq<Tank>)
    ensures
        match first_living(tanks) {
            Some(i) => {
                &&& 0 <= i < tanks.len()
                &&& tanks[i].is_alive()
                &&& forall|j: int| 0 <= j < i ==> !tanks[j].is_alive()
            },
            None => forall|j: int| 0 <= j < tanks.len() ==> !tanks[j].is_alive(),
        },
    decreases tanks.len(),
{
    if tanks.len() > 0 && !tanks[0].is_alive() {
        let rest = tanks.drop_first();
        lemma_first_living(rest);
        assert(forall|j: int| 0 <= j < rest.len() ==> rest[j] == tanks[j + 1]);
        match first_living(rest) {
            Some(i) => {
                assert forall|j: int| 0 <= j < i + 1 implies !tanks[j].is_alive() by {
                    if j > 0 {
                        assert(rest[j - 1] == tanks[j]);
                    }
                }
            },
            None => {
                assert forall|j: int| 0 <= j < tanks.len() implies !tanks[j].is_alive() by {
                    if j > 0 {
                        assert(rest[j - 1] == tanks[j]);
                    }
                }
            },
        }
    }
}

/// Selection goes by scan order alone: a living tank with only dead tanks before it
/// is the one that `first_living` names.
pub proof fn lemma_first_living_is(tanks: Seq<Tank>, i: int)
    requires
        0 <= i < tanks.len(),
        tanks[i].is_alive(),
        forall|j: int| 0 <= j < i ==> !tanks[j].is_alive(),
    ensures
        first_living(tanks) == Some(i),
        living_target(tanks) == Some(tanks[i]),
{
    lemma_first_living(tanks);
}

/// A scan in which every tank is dead offers no target.
pub proof fn lemma_no_living(tanks: Seq<Tank>)
    requires
        forall|j: int| 0 <= j < tanks.len() ==> !tanks[j].is_alive(),
    ensures
        first_living(tanks) == None::<int>,
        living_target(tanks) == None::<Tank>,
{
    lemma_first_living(tanks);
}

/// The first tank in scan order that is not dead.
pub fn select_target(tanks: &Vec<Tank>) -> (target: Option<Tank>)
    ensures
        target == living_target(tanks@),
        match target {
            Some(t) => exists|i: int|
                0 <= i < tanks.len() && t == tanks[i] && t.is_alive() && forall|j: int|
                    0 <= j < i ==> !tanks[j].is_alive(),
            None => forall|j: int| 0 <= j < tanks.len() ==> !tanks[j].is_alive(),
        },
{
    let mut i: usize = 0;
    while i < tanks.len()
        invariant
            i <= tanks.len(),
            forall|j: int| 0 <= j < i ==> !tanks[j].is_alive(),
        decreases tanks.len() - i,
    {
        if tanks[i].alive() {
            proof {
                lemma_first_living_is(tanks@, i as int);
            }
            return Some(tanks[i].clone());
        }
        i += 1;
    }
    proof {
        lemma_no_living(tanks@);
    }
    None
}

/// A solution made of a sighting is well formed, and its angles are those of the
/// sighting less whole turns.
pub proof fn lemma_solution_for(sighting: Sighting)
    ensures
        solution_for(sighting).wf(),
        solution_for(sighting).aim_angle@ == normalized(sighting.aim_micro_degrees as int),
        solution_for(sighting).rotate_angle@ == normalized(sighting.rotate_micro_degrees as int),
{
    lemma_of_micro_degrees(sighting.aim_micro_degrees as int);
    lemma_of_micro_degrees(sighting.rotate_micro_degrees as int);
}

/// Works out how to engage `target` from where the scan saw it. It fails where the
/// scan holds no sighting of the target, and only there.
pub fn make_targeting_solution(target: &Tank) -> (made: Result<TargetingSolution, ControlError>)
    ensures
        made == targeting_solution(*target),
        made is Err <==> target.sighting is None,
        made matches Ok(solution) ==> solution.wf(),
        target.sighting matches Some(sighting) ==> made matches Ok(solution)
            && solution.aim_angle@ == normalized(sighting.aim_micro_degrees as int)
            && solution.rotate_angle@ == normalized(sighting.rotate_micro_degrees as int)
            && solution.distance == capped_distance(sighting.distance)
            && solution.shots_remaining == SHOTS,
{
    proof {
        if let Some(sighting) = target.sighting {
            lemma_solution_for(sighting);
        }
    }
    match target.sighting {
        None => Err(ControlError::MissingGeometryField),
        Some(sighting) => {
            let distance: i32 = if sighting.distance > 2147483647 {
                2147483647
            } else {
                sighting.distance as i32
            };
            let aim_angle = Angle::from_micro_degrees(sighting.aim_micro_degrees);
            let rotate_angle = Angle::from_micro_degrees(sighting.rotate_micro_degrees);
            Ok(TargetingSolution { aim_angle, rotate_angle, distance, shots_remaining: SHOTS })
        },
    }
}

} // verus!
