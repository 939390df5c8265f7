//! Signed angles in fixed point, always held in the half-open turn `(-180°, 180°]`.

use vstd::prelude::*;

verus! {

/// How many units of an [`Angle`] make one degree.
pub const MICROS_PER_DEGREE: i32 = 1_000_000;

/// Half a turn, 180°, in millionths of a degree.
pub const HALF_TURN: i32 = 180_000_000;

/// A full turn, 360°, in millionths of a degree.
pub const FULL_TURN: i32 = 360_000_000;

/// The representative of `raw` modulo a full turn that lies in `(-HALF_TURN, HALF_TURN]`.
pub open spec fn normalized(raw: int) -> int {
    let r = raw % (FULL_TURN as int);
    if r > HALF_TURN {
        r - FULL_TURN
    } else {
        r
    }
}

/// `micros` cut down to whole degrees, dropping the fraction towards zero.
pub open spec fn whole_degrees(micros: int) -> int {
    if micros >= 0 {
        micros / (MICROS_PER_DEGREE as int)
    } else {
        -((-micros) / (MICROS_PER_DEGREE as int))
    }
}

/// A signed angle in millionths of a degree.
#[derive(Clone, Copy, Debug, PartialEq, Eq, Structural)]
pub struct Angle {
    micros: i32,
}

impl View for Angle {
    type V = int;

    closed spec fn view(&self) -> int {
        self.micros as int
    }
}

impl Angle {
    #[verifier::type_invariant]
    spec fn in_half_open_turn(self) -> bool {
        -HALF_TURN < self.micros <= HALF_TURN
    }

    /// The angle that `raw` millionths of a degree come to once whole turns are dropped.
    pub closed spec fn of_micro_degrees(raw: int) -> Angle {
        Angle { micros: normalized(raw) as i32 }
    }

    /// The angle that `raw` millionths of a degree come to once whole turns are dropped.
    pub fn from_micro_degrees(raw: i64) -> (angle: Angle)
        ensures
            angle == Angle::of_micro_degrees(raw as int),
            angle@ == normalized(raw as int),
    {
        let full: i64 = 360_000_000;
        let half: i64 = 180_000_000;
        let truncated: i64 = raw % full;
        let r: i64 = if truncated < 0 {
            truncated + full
        } else {
            truncated
        };
        let m: i64 = if r > half {
            r - full
        } else {
            r
        };
        Angle { micros: m as i32 }
    }

    /// The angle in millionths of a degree.
    pub fn micro_degrees(&self) -> (micros: i32)
        ensures
            micros == self@,
            -HALF_TURN < micros <= HALF_TURN,
    {
        proof {
            use_type_invariant(self);
        }
        self.micros
    }

    /// The angle in whole degrees, the fraction dropped towards zero.
    pub fn to_degrees(&self) -> (degrees: i32)
        ensures
            degrees == whole_degrees(self@),
            -180 <= degrees <= 180,
    {
        proof {
            use_type_invariant(self);
        }
        self.micros / MICROS_PER_DEGREE
    }
}

/// The reduced angle differs from `raw` by whole turns and lies in `(-180°, 180°]`;
/// no other value does both.
pub proof fn lemma_normalized(raw: int)
    ensures
        -HALF_TURN < normalized(raw) <= HALF_TURN,
        (normalized(raw) - raw) % (FULL_TURN as int) == 0,
        forall|v: int|
            -HALF_TURN < v <= HALF_TURN && #[trigger] ((v - raw) % (FULL_TURN as int)) == 0
                ==> v == normalized(raw),
{
    let full = FULL_TURN as int;
    let n = normalized(raw);
    assert((n - raw) % full == 0) by {
        lemma_whole_turns(raw, n);
    }
    assert forall|v: int|
        -HALF_TURN < v <= HALF_TURN && #[trigger] ((v - raw) % full) == 0 implies v == n by {
        lemma_whole_turns(raw, n);
        lemma_same_turn(raw, v, n);
    }
}

proof fn lemma_whole_turns(raw: int, n: int)
    requires
        n == normalized(raw),
    ensures
        (n - raw) % (FULL_TURN as int) == 0,
{
    let full = FULL_TURN as int;
    let q = raw / full;
    let r = raw % full;
    assert(raw == full * q + r) by (nonlinear_arith)
        requires
            q == raw / full,
            r == raw % full,
            full == 360_000_000,
    ;
    let k = if r > HALF_TURN {
        -q - 1
    } else {
        -q
    };
    assert(n - raw == k * full) by (nonlinear_arith)
        requires
            raw == full * q + r,
            n == if r > 180_000_000 {
                r - full
            } else {
                r
            },
            k == if r > 180_000_000 {
                -q - 1
            } else {
                -q
            },
    ;
    assert((k * full) % full == 0) by (nonlinear_arith)
        requires
            full == 360_000_000,
    ;
}

proof fn lemma_same_turn(raw: int, v: int, n: int)
    requires
        -HALF_TURN < v <= HALF_TURN,
        -HALF_TURN < n <= HALF_TURN,
        (v - raw) % (FULL_TURN as int) == 0,
        (n - raw) % (FULL_TURN as int) == 0,
    ensures
        v == n,
{
    let full = FULL_TURN as int;
    let a = (v - raw) / full;
    let b = (n - raw) / full;
    assert(v - raw == full * a && n - raw == full * b) by (nonlinear_arith)
        requires
            a == (v - raw) / full,
            b == (n - raw) / full,
            (v - raw) % full == 0,
            (n - raw) % full == 0,
            full == 360_000_000,
    ;
    assert(v - n == full * (a - b)) by (nonlinear_arith)
        requires
            v - raw == full * a,
            n - raw == full * b,
    ;
    assert(a == b) by (nonlinear_arith)
        requires
            v - n == full * (a - b),
            -full < v - n < full,
            full == 360_000_000,
    ;
}

/// An angle is what its view says: two angles of one view are the same angle.
pub proof fn lemma_angle_by_view(a: Angle, b: Angle)
    requires
        a@ == b@,
    ensures
        a == b,
{
}

/// The angle made of `raw` shows `raw` reduced to one turn.
pub proof fn lemma_of_micro_degrees(raw: int)
    ensures
        Angle::of_micro_degrees(raw)@ == normalized(raw),
        -HALF_TURN < Angle::of_micro_degrees(raw)@ <= HALF_TURN,
{
}

} // verus!
