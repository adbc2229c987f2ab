//! The landing pad: a randomly sized and placed goal region rising from the
//! bottom edge, on which the craft can come to rest.

use vstd::prelude::*;
use crate::character::Character;
use crate::rng::rng_new;
use crate::rng::rng_range;
use crate::MILLI;
use crate::SCREEN_HEIGHT;

verus! {

/// The cell row a milli-cell coordinate falls in, rounding toward zero as
/// the rendering grid does.
pub open spec fn cell_of(v: int) -> int {
    if v >= 0 {
        v / (MILLI as int)
    } else {
        -((-v) / (MILLI as int))
    }
}

/// True when the craft sits on the pad: its x strictly inside the pad's
/// catch interval (the pad's half-width plus one cell on either side of the
/// pad's center), and its cell row exactly the pad's top surface.
pub open spec fn landing_hit(pad: LandingPad, c: Character) -> bool {
    &&& c.coordinate.x > (pad.x - (pad.pad_width / 2 + 1)) * MILLI
    &&& c.coordinate.x < (pad.x + (pad.pad_width / 2 + 1)) * MILLI
    &&& cell_of(c.coordinate.y as int) == pad.y - pad.height
}

/// The goal region: a column of height `height` cells standing at cell
/// column `x` on the bottom edge `y`, with a platform of `pad_width` cells
/// (always odd, so the platform is symmetric around `x`) on top.
#[derive(Clone, Copy, PartialEq, Eq, Structural, Debug)]
pub struct LandingPad {
    pub x: i64,
    pub y: i64,
    pub height: i64,
    pub pad_width: i64,
}

impl LandingPad {
    /// The geometry every pad is created with: a height between a quarter
    /// and half the screen, an odd width between 3 and 11 cells, and the
    /// bottom edge of the screen as its base.
    pub open spec fn wf(self) -> bool {
        &&& SCREEN_HEIGHT / 4 <= self.height < SCREEN_HEIGHT / 2
        &&& 3 <= self.pad_width <= 11
        &&& self.pad_width % 2 == 1
        &&& self.y == SCREEN_HEIGHT
        &&& -1000000 <= self.x <= 1000000
    }

    /// A fresh pad at cell column `x`, with its height and width drawn at
    /// random; an even width is bumped up by one so the platform stays
    /// symmetric around `x`.
    pub fn new(x: i64) -> (r: Self)
        requires
            -1000000 <= x <= 1000000,
        ensures
            r.x == x,
            r.wf(),
    {
        let mut random = rng_new();
        let height = rng_range(&mut random, SCREEN_HEIGHT / 4, SCREEN_HEIGHT / 2);
        let mut pad_width = rng_range(&mut random, 3, 11);
        if pad_width % 2 == 0 {
            pad_width = pad_width + 1;
        }
        LandingPad { x, y: SCREEN_HEIGHT, height, pad_width }
    }

    /// True when the craft has landed: the radius-free pad test of
    /// [`landing_hit`]. Landing keeps the craft from falling; it is not yet
    /// a distinct win outcome.
    pub fn check_landing(&self, character: &Character) -> (r: bool)
        requires
            self.wf(),
            character.coordinate.y > i64::MIN,
        ensures
            r == landing_hit(*self, *character),
    {
        let reach: i64 = self.pad_width / 2 + 1;
        let low: i64 = (self.x - reach) * MILLI;
        let high: i64 = (self.x + reach) * MILLI;
        let y = character.coordinate.y;
        let y_cell: i64 = if y >= 0 {
            y / MILLI
        } else {
            -((-y) / MILLI)
        };
        if character.coordinate.x > low && character.coordinate.x < high && y_cell == self.y
            - self.height {
            return true;
        }
        false
    }
}

} // verus!
