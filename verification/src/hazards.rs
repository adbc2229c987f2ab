//! Falling hazards (asteroids): each one is randomized at creation, drifts
//! down a near-vertical trajectory, and can end the round by colliding with
//! the craft.

use vstd::prelude::*;
use crate::character::Character;
use crate::rng::rng_new;
use crate::rng::rng_range;
use crate::Position;
use crate::COORD_LIMIT;
use crate::MILLI;

verus! {

/// Smallest hazard diameter, in milli-cells (2 cells).
pub const SCALE_MIN: i64 = 2000;

/// Exclusive upper bound of the hazard diameter, in milli-cells (4 cells).
pub const SCALE_MAX: i64 = 4000;

/// Smallest hazard speed, in milli-cells per step (0.2 cells).
pub const SPEED_MIN: i64 = 200;

/// Exclusive upper bound of the hazard speed, in milli-cells per step
/// (0.6 cells).
pub const SPEED_MAX: i64 = 600;

/// Smallest trajectory angle, in milli-degrees (89.7 degrees).
pub const TRAJECTORY_MIN: i64 = 89700;

/// Exclusive upper bound of the trajectory angle, in milli-degrees
/// (90.3 degrees).
pub const TRAJECTORY_MAX: i64 = 90300;

/// A perfectly vertical descent, in milli-degrees.
pub const TRAJECTORY_VERTICAL: i64 = 90000;

/// Visual spin added to the orientation each step, in milli-degrees.
pub const SPIN_INCREMENT: i64 = 200;

/// One full turn, in milli-degrees; the orientation wraps at it.
pub const FULL_TURN: i64 = 360000;

/// Numerator of the fixed-point slope of the horizontal drift: the cosine
/// of an angle within 0.3 degrees of vertical is, to well below milli-cell
/// resolution, the angle's distance from vertical times pi / 180, and
/// 17453 / 10^9 is that ratio per milli-degree.
pub const DRIFT_NUM: i64 = 17453;

/// Denominator of the fixed-point slope of the horizontal drift.
pub const DRIFT_DEN: i64 = 1000000000;

/// Horizontal displacement of one step, in milli-cells: the near-vertical
/// trajectory's cosine (linearized around vertical) times the speed.
pub open spec fn drift_of(trajectory: int, speed: int) -> int {
    let tilt = TRAJECTORY_VERTICAL - trajectory;
    if tilt >= 0 {
        (speed * tilt * DRIFT_NUM) / (DRIFT_DEN as int)
    } else {
        -((speed * -tilt * DRIFT_NUM) / (DRIFT_DEN as int))
    }
}

/// A falling hazard. `trajectory` is its descent angle in milli-degrees,
/// `orientation` a purely visual spin, `scale` its diameter in milli-cells,
/// and `speed` its displacement per step in milli-cells.
#[derive(Clone, Copy, PartialEq, Eq, Structural, Debug)]
pub struct Asteroid {
    pub coordinate: Position,
    pub trajectory: i64,
    pub orientation: i64,
    pub scale: i64,
    pub speed: i64,
}

/// True when the hazard has left the playfield: out on the left, the right,
/// or past the bottom. The top is never checked; hazards only descend.
pub open spec fn course_finished(a: Asteroid, x_bound: int, y_bound: int) -> bool {
    ||| a.coordinate.x > x_bound * MILLI
    ||| a.coordinate.x < 0
    ||| a.coordinate.y > y_bound * MILLI
}

/// True when the hazard overlaps the craft: the distance between the two
/// centers is below the hazard's radius. The craft's own size plays no
/// part; the hit test is radius-only and deliberately asymmetric.
pub open spec fn collides(a: Asteroid, c: Character) -> bool {
    let dx = a.coordinate.x - c.coordinate.x;
    let dy = a.coordinate.y - c.coordinate.y;
    let radius = a.scale / 2;
    dx * dx + dy * dy < radius * radius
}

impl Asteroid {
    /// The randomized parameter ranges every hazard is created with.
    pub open spec fn wf(self) -> bool {
        &&& SCALE_MIN <= self.scale < SCALE_MAX
        &&& SPEED_MIN <= self.speed < SPEED_MAX
        &&& TRAJECTORY_MIN <= self.trajectory < TRAJECTORY_MAX
        &&& 0 <= self.orientation < FULL_TURN
    }

    /// A fresh hazard at `(x, y)` (milli-cells), with its diameter, speed
    /// and trajectory drawn at random from their fixed ranges.
    pub fn new(x: i64, y: i64) -> (r: Self)
        ensures
            r.coordinate.x == x,
            r.coordinate.y == y,
            r.orientation == 0,
            r.wf(),
    {
        let mut random = rng_new();
        let size = rng_range(&mut random, SCALE_MIN, SCALE_MAX);
        let trajectory = rng_range(&mut random, TRAJECTORY_MIN, TRAJECTORY_MAX);
        let speed = rng_range(&mut random, SPEED_MIN, SPEED_MAX);
        Asteroid {
            coordinate: Position { x, y },
            trajectory,
            orientation: 0,
            scale: size,
            speed,
        }
    }

    /// Advances the hazard one step along its trajectory: the horizontal
    /// displacement is the trajectory's cosine times the speed (in fixed
    /// point, the linearized drift), the vertical displacement is the
    /// trajectory's sine times the speed, which at milli-cell resolution is
    /// the speed itself for an angle within 0.3 degrees of vertical. The
    /// orientation spins by a fixed visual increment, wrapping at a full
    /// turn; it has no physical effect.
    pub fn update(&mut self)
        requires
            TRAJECTORY_MIN <= old(self).trajectory < TRAJECTORY_MAX,
            0 <= old(self).speed <= SPEED_MAX,
            0 <= old(self).orientation <= COORD_LIMIT,
            -COORD_LIMIT <= old(self).coordinate.x <= COORD_LIMIT,
            -COORD_LIMIT <= old(self).coordinate.y <= COORD_LIMIT,
        ensures
            final(self).coordinate.x == old(self).coordinate.x + drift_of(
                old(self).trajectory as int,
                old(self).speed as int,
            ),
            final(self).coordinate.y == old(self).coordinate.y + old(self).speed,
            final(self).orientation == (old(self).orientation + SPIN_INCREMENT) % (
            FULL_TURN as int),
            final(self).trajectory == old(self).trajectory,
            final(self).scale == old(self).scale,
            final(self).speed == old(self).speed,
    {
        let drift = drift_step(self.trajectory, self.speed);
        self.coordinate.x = self.coordinate.x + drift;
        self.coordinate.y = self.coordinate.y + self.speed;
        self.orientation = (self.orientation + SPIN_INCREMENT) % FULL_TURN;
    }

    /// True when the hazard has left the playfield bounded by `x_bound`
    /// cells across and `y_bound` cells down.
    pub fn check_finished_course(&self, x_bound: i64, y_bound: i64) -> (r: bool)
        requires
            -1000000 <= x_bound <= 1000000,
            -1000000 <= y_bound <= 1000000,
        ensures
            r == course_finished(*self, x_bound as int, y_bound as int),
    {
        if self.coordinate.x > x_bound * MILLI {
            return true;
        }
        if self.coordinate.x < 0 {
            return true;
        }
        if self.coordinate.y > y_bound * MILLI {
            return true;
        }
        false
    }

    /// True when the hazard's circle covers the craft's center: the
    /// radius-only hit test, compared on squared distances.
    pub fn check_collision(&self, character: &Character) -> (r: bool)
        requires
            0 <= self.scale <= 1000000,
            -COORD_LIMIT <= self.coordinate.x <= COORD_LIMIT,
            -COORD_LIMIT <= self.coordinate.y <= COORD_LIMIT,
            -COORD_LIMIT <= character.coordinate.x <= COORD_LIMIT,
            -COORD_LIMIT <= character.coordinate.y <= COORD_LIMIT,
        ensures
            r == collides(*self, *character),
    {
        let x = self.coordinate.x - character.coordinate.x;
        let y = self.coordinate.y - character.coordinate.y;
        proof {
            assert(x * x <= 4000000000000000000 && x * x >= 0) by (nonlinear_arith)
                requires
                    -2 * COORD_LIMIT <= x <= 2 * COORD_LIMIT,
            ;
            assert(y * y <= 4000000000000000000 && y * y >= 0) by (nonlinear_arith)
                requires
                    -2 * COORD_LIMIT <= y <= 2 * COORD_LIMIT,
            ;
        }
        let distance_squared = x * x + y * y;
        let radius = self.scale / 2;
        proof {
            assert(0 <= radius * radius <= 250000000000) by (nonlinear_arith)
                requires
                    0 <= radius <= 500000,
            ;
        }
        if distance_squared < radius * radius {
            return true;
        }
        false
    }
}

/// The horizontal drift of one step, computed in fixed point. The sign
/// splits so that both divisions round a nonnegative numerator toward zero.
pub fn drift_step(trajectory: i64, speed: i64) -> (r: i64)
    requires
        TRAJECTORY_MIN <= trajectory < TRAJECTORY_MAX,
        0 <= speed <= SPEED_MAX,
    ensures
        r == drift_of(trajectory as int, speed as int),
        -18 <= r <= 18,
{
    let tilt: i64 = TRAJECTORY_VERTICAL - trajectory;
    if tilt >= 0 {
        proof {
            assert(speed * tilt * DRIFT_NUM <= 18 * DRIFT_DEN && speed * tilt * DRIFT_NUM >= 0)
                by (nonlinear_arith)
                requires
                    0 <= speed <= SPEED_MAX,
                    0 <= tilt <= 300,
            ;
        }
        (speed * tilt) * DRIFT_NUM / DRIFT_DEN
    } else {
        proof {
            assert(speed * (-tilt) * DRIFT_NUM <= 18 * DRIFT_DEN && speed * (-tilt) * DRIFT_NUM
                >= 0) by (nonlinear_arith)
                requires
                    0 <= speed <= SPEED_MAX,
                    0 < -tilt <= 300,
            ;
        }
        -((speed * (-tilt)) * DRIFT_NUM / DRIFT_DEN)
    }
}

} // verus!
