//! The player-controlled craft: a position plus a momentum model that
//! reacts to thrust impulses, gravity and drag.

use vstd::prelude::*;
use crate::Position;

verus! {

/// Horizontal dead-zone, in milli-units: after a drag step, any horizontal
/// momentum strictly inside `(-DEAD_ZONE, DEAD_ZONE)` snaps to exactly zero,
/// so the craft comes to rest instead of oscillating around it.
pub const DEAD_ZONE: i64 = 50;

/// A direction in which the craft can thrust.
#[derive(Clone, Copy, PartialEq, Eq, Structural, Debug)]
pub enum Direction {
    Up,
    Left,
    Right,
}

/// Per-axis velocity of the craft, in milli-cells per simulated step.
/// `vertical` is added to the y coordinate, `horizontal` to the x coordinate.
#[derive(Clone, Copy, PartialEq, Eq, Structural, Debug)]
pub struct Momentum {
    pub vertical: i64,
    pub horizontal: i64,
}

/// One upward thrust impulse: it lowers the vertical momentum by
/// `acceleration`, but fires only while the momentum is still above the
/// floor `-max_acceleration`; at or below the floor it is a no-op.
pub open spec fn thrust_up_step(v: int, acceleration: int, max_acceleration: int) -> int {
    if v > -max_acceleration {
        v - acceleration
    } else {
        v
    }
}

/// One leftward thrust impulse on the horizontal momentum, floored at
/// `-max_acceleration` in the same way as [`thrust_up_step`].
pub open spec fn thrust_left_step(h: int, acceleration: int, max_acceleration: int) -> int {
    if h > -max_acceleration {
        h - acceleration
    } else {
        h
    }
}

/// One rightward thrust impulse on the horizontal momentum, capped at
/// `max_acceleration`.
pub open spec fn thrust_right_step(h: int, acceleration: int, max_acceleration: int) -> int {
    if h < max_acceleration {
        h + acceleration
    } else {
        h
    }
}

/// One gravity step on the vertical momentum. `gravity` acts as a terminal
/// velocity: momentum above it is clamped down to it, momentum below it
/// recovers upward by one `gravity` increment (the recovery step size is the
/// gravity constant itself, a deliberate coupling of the design).
pub open spec fn gravity_step(v: int, gravity: int) -> int {
    if v > gravity {
        gravity
    } else if v < gravity {
        v + gravity
    } else {
        v
    }
}

/// One drag step on the horizontal momentum: it moves by `drag` toward zero
/// (from either side), before the dead-zone snap.
pub open spec fn drag_step(h: int, drag: int) -> int {
    if h > 0 {
        h - drag
    } else if h < 0 {
        h + drag
    } else {
        h
    }
}

/// The dead-zone snap: horizontal momentum strictly within
/// `(-DEAD_ZONE, DEAD_ZONE)` becomes exactly zero.
pub open spec fn snap_dead_zone(h: int) -> int {
    if -DEAD_ZONE < h < DEAD_ZONE {
        0
    } else {
        h
    }
}

impl Momentum {
    /// A craft at rest: no momentum on either axis.
    fn new() -> (r: Self)
        ensures
            r.vertical == 0,
            r.horizontal == 0,
    {
        Momentum { vertical: 0, horizontal: 0 }
    }
}

/// The craft the player controls: a continuous (milli-cell) position and its
/// momentum.
#[derive(Clone, Copy, PartialEq, Eq, Structural, Debug)]
pub struct Character {
    pub coordinate: Position,
    pub momentum: Momentum,
}

impl Character {
    /// A fresh craft at `(x, y)` (milli-cells) with zero momentum.
    pub fn new(x: i64, y: i64) -> (r: Self)
        ensures
            r.coordinate.x == x,
            r.coordinate.y == y,
            r.momentum.vertical == 0,
            r.momentum.horizontal == 0,
    {
        Character { coordinate: Position { x, y }, momentum: Momentum::new() }
    }

    /// Applies one thrust impulse in `direction`. The impulse changes the
    /// momentum of that axis by `acceleration`, but only while the momentum
    /// is strictly inside the `max_acceleration` bound for that direction;
    /// once the bound is reached or passed, the call is a no-op. The other
    /// axis and the position are untouched.
    pub fn thrust(&mut self, direction: Direction, acceleration: i64, max_acceleration: i64)
        requires
            max_acceleration > i64::MIN,
            direction == Direction::Up ==> i64::MIN <= old(self).momentum.vertical - acceleration
                <= i64::MAX,
            direction == Direction::Left ==> i64::MIN <= old(self).momentum.horizontal
                - acceleration <= i64::MAX,
            direction == Direction::Right ==> i64::MIN <= old(self).momentum.horizontal
                + acceleration <= i64::MAX,
        ensures
            final(self).coordinate == old(self).coordinate,
            direction == Direction::Up ==> {
                &&& final(self).momentum.horizontal == old(self).momentum.horizontal
                &&& final(self).momentum.vertical == thrust_up_step(
                    old(self).momentum.vertical as int,
                    acceleration as int,
                    max_acceleration as int,
                )
            },
            direction == Direction::Left ==> {
                &&& final(self).momentum.vertical == old(self).momentum.vertical
                &&& final(self).momentum.horizontal == thrust_left_step(
                    old(self).momentum.horizontal as int,
                    acceleration as int,
                    max_acceleration as int,
                )
            },
            direction == Direction::Right ==> {
                &&& final(self).momentum.vertical == old(self).momentum.vertical
                &&& final(self).momentum.horizontal == thrust_right_step(
                    old(self).momentum.horizontal as int,
                    acceleration as int,
                    max_acceleration as int,
                )
            },
    {
        let negative_max_acceleration: i64 = -max_acceleration;

        match direction {
            Direction::Up => {
                if self.momentum.vertical > negative_max_acceleration {
                    self.momentum.vertical = self.momentum.vertical - acceleration;
                }
            },
            Direction::Left => {
                if self.momentum.horizontal > negative_max_acceleration {
                    self.momentum.horizontal = self.momentum.horizontal - acceleration;
                }
            },
            Direction::Right => {
                if self.momentum.horizontal < max_acceleration {
                    self.momentum.horizontal = self.momentum.horizontal + acceleration;
                }
            },
        }
    }

    /// Integrates the momentum into the position: one purely additive step,
    /// with no time scaling beyond the caller's fixed-step gate.
    pub fn apply_momentum(&mut self)
        requires
            i64::MIN <= old(self).coordinate.x + old(self).momentum.horizontal <= i64::MAX,
            i64::MIN <= old(self).coordinate.y + old(self).momentum.vertical <= i64::MAX,
        ensures
            final(self).coordinate.x == old(self).coordinate.x + old(self).momentum.horizontal,
            final(self).coordinate.y == old(self).coordinate.y + old(self).momentum.vertical,
            final(self).momentum == old(self).momentum,
    {
        self.coordinate.x = self.coordinate.x + self.momentum.horizontal;
        self.coordinate.y = self.coordinate.y + self.momentum.vertical;
    }

    /// Applies one gravity step to the vertical momentum and one drag step,
    /// followed by the dead-zone snap, to the horizontal momentum. The
    /// position is untouched.
    ///
    /// Two stated laws: if the vertical momentum is above `gravity` before
    /// the call it is exactly `gravity` after (gravity ceiling), and if the
    /// post-drag horizontal momentum lies strictly inside the dead-zone the
    /// result is exactly zero.
    pub fn apply_gravity_and_drag(&mut self, gravity: i64, drag: i64)
        requires
            old(self).momentum.vertical < gravity ==> i64::MIN <= old(self).momentum.vertical
                + gravity <= i64::MAX,
            old(self).momentum.horizontal > 0 ==> i64::MIN <= old(self).momentum.horizontal - drag
                <= i64::MAX,
            old(self).momentum.horizontal < 0 ==> i64::MIN <= old(self).momentum.horizontal + drag
                <= i64::MAX,
        ensures
            final(self).coordinate == old(self).coordinate,
            final(self).momentum.vertical == gravity_step(
                old(self).momentum.vertical as int,
                gravity as int,
            ),
            final(self).momentum.horizontal == snap_dead_zone(
                drag_step(old(self).momentum.horizontal as int, drag as int),
            ),
            old(self).momentum.vertical > gravity ==> final(self).momentum.vertical == gravity,
            -DEAD_ZONE < drag_step(old(self).momentum.horizontal as int, drag as int) < DEAD_ZONE
                ==> final(self).momentum.horizontal == 0,
    {
        if self.momentum.vertical > gravity {
            self.momentum.vertical = gravity;
        } else if self.momentum.vertical < gravity {
            self.momentum.vertical = self.momentum.vertical + gravity;
        }

        if self.momentum.horizontal > 0 {
            self.momentum.horizontal = self.momentum.horizontal - drag;
        } else if self.momentum.horizontal < 0 {
            self.momentum.horizontal = self.momentum.horizontal + drag;
        }

        if self.momentum.horizontal > -DEAD_ZONE && self.momentum.horizontal < DEAD_ZONE {
            self.momentum.horizontal = 0;
        }
    }
}

/// The vertical momentum after `n` upward thrust impulses of `acceleration`,
/// each floored at `-max_acceleration`, starting from `v`.
pub open spec fn thrust_up_iter(v: int, acceleration: int, max_acceleration: int, n: nat) -> int
    decreases n,
{
    if n == 0 {
        v
    } else {
        thrust_up_step(
            thrust_up_iter(v, acceleration, max_acceleration, (n - 1) as nat),
            acceleration,
            max_acceleration,
        )
    }
}

/// Law (thrust saturation): for any number of `thrust(Up, acceleration,
/// max_acceleration)` calls, the vertical momentum never goes below
/// `-max_acceleration`, provided the starting momentum sits a whole number
/// of impulses above the floor (`v == acceleration * k - max_acceleration`).
/// Without that premise the floor can be overshot by up to one impulse: from
/// `v == 0` with `acceleration == 420` and `max_acceleration == 1000`, three
/// impulses reach `-1260`.
pub proof fn lemma_thrust_up_saturation(
    v: int,
    acceleration: int,
    max_acceleration: int,
    k: int,
    n: nat,
)
    requires
        acceleration > 0,
        k >= 0,
        v == acceleration * k - max_acceleration,
    ensures
        thrust_up_iter(v, acceleration, max_acceleration, n) >= -max_acceleration,
        exists|k2: int|
            k2 >= 0 && thrust_up_iter(v, acceleration, max_acceleration, n) == #[trigger] (
            acceleration * k2) - max_acceleration,
    decreases n,
{
    if n == 0 {
        assert(acceleration * k >= 0) by (nonlinear_arith)
            requires
                acceleration > 0,
                k >= 0,
        ;
        assert(k >= 0 && thrust_up_iter(v, acceleration, max_acceleration, n) == acceleration * k
            - max_acceleration);
    } else {
        lemma_thrust_up_saturation(v, acceleration, max_acceleration, k, (n - 1) as nat);
        let prev = thrust_up_iter(v, acceleration, max_acceleration, (n - 1) as nat);
        let k2 = choose|k2: int|
            k2 >= 0 && prev == #[trigger] (acceleration * k2) - max_acceleration;
        if prev > -max_acceleration {
            assert(acceleration * k2 > 0) by (nonlinear_arith)
                requires
                    acceleration * k2 - max_acceleration > -max_acceleration,
            ;
            assert(k2 > 0) by (nonlinear_arith)
                requires
                    acceleration > 0,
                    acceleration * k2 > 0,
            ;
            assert(acceleration * (k2 - 1) == acceleration * k2 - acceleration) by (nonlinear_arith);
            assert(acceleration * (k2 - 1) >= 0) by (nonlinear_arith)
                requires
                    acceleration > 0,
                    k2 - 1 >= 0,
            ;
            assert(k2 - 1 >= 0 && thrust_up_iter(v, acceleration, max_acceleration, n)
                == acceleration * (k2 - 1) - max_acceleration);
        } else {
            assert(k2 >= 0 && thrust_up_iter(v, acceleration, max_acceleration, n) == acceleration
                * k2 - max_acceleration);
        }
    }
}

/// Law (unconditional saturation bound): starting at or above the floor, any
/// number of upward thrust impulses leaves the vertical momentum above
/// `-max_acceleration - acceleration`; a single impulse can overshoot the
/// floor, but never by a full `acceleration`.
pub proof fn lemma_thrust_up_overshoot_bound(
    v: int,
    acceleration: int,
    max_acceleration: int,
    n: nat,
)
    requires
        acceleration > 0,
        v >= -max_acceleration,
    ensures
        thrust_up_iter(v, acceleration, max_acceleration, n) > -max_acceleration - acceleration,
    decreases n,
{
    if n > 0 {
        lemma_thrust_up_overshoot_bound(v, acceleration, max_acceleration, (n - 1) as nat);
    }
}

} // verus!
