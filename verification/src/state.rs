//! The game's aggregate state and its mode machine: menu, play, pause,
//! loss and quit, with the per-frame play step at its center.

use vstd::prelude::*;
use crate::character::Character;
use crate::character::Direction;
use crate::character::drag_step;
use crate::character::gravity_step;
use crate::character::snap_dead_zone;
use crate::character::thrust_left_step;
use crate::character::thrust_right_step;
use crate::character::thrust_up_step;
use crate::character::Momentum;
use crate::hazards::collides;
use crate::hazards::course_finished;
use crate::hazards::Asteroid;
use crate::map::landing_hit;
use crate::map::LandingPad;
use crate::rng::rng_new;
use crate::rng::rng_range;
use crate::Position;
use crate::COORD_LIMIT;
use crate::MILLI;
use crate::SCREEN_HEIGHT;
use crate::SCREEN_WIDTH;

verus! {

/// The fixed-step gate, in milli-milliseconds: simulation runs once the
/// frame-time accumulator exceeds this threshold (10 ms).
pub const FRAME_DURATION: i64 = 10000;

/// Terminal vertical velocity, in milli-cells per step (0.4 cells).
pub const GRAVITY: i64 = 400;

/// Horizontal drag, in milli-cells per step (0.2 cells).
pub const DRAG: i64 = 200;

/// Upward thrust impulse, in milli-cells per step (0.42 cells).
pub const THRUST_ACCEL_UP: i64 = 420;

/// Sideways thrust impulse, in milli-cells per step (0.3 cells).
pub const THRUST_ACCEL_SIDE: i64 = 300;

/// Thrust saturation bound, in milli-cells per step (1 cell).
pub const THRUST_MAX: i64 = 1000;

/// The game's modes. `Menu` is the initial mode; `Quit` is terminal and
/// tells the host loop to stop; `Lost` ends a round but not the process.
#[derive(Clone, Copy, PartialEq, Eq, Structural, Debug)]
pub enum Gamemode {
    Menu,
    Play,
    Pause,
    Quit,
    Lost,
}

/// The mode-changing keys: `P` starts, pauses, resumes or restarts,
/// depending on the mode; `Q` quits.
#[derive(Clone, Copy, PartialEq, Eq, Structural, Debug)]
pub enum Key {
    P,
    Q,
}

/// The whole game state: the current mode, the craft, the hazards, the
/// fixed-step accumulator, the score counters, and the landing pad.
#[derive(Debug)]
pub struct State {
    pub mode: Gamemode,
    pub character: Character,
    pub asteroids: Vec<Asteroid>,
    pub frame_time: i64,
    pub score: usize,
    pub avoided: usize,
    pub landing_pad: LandingPad,
}

/// The mode after the mode keys of a play frame are applied: `P` pauses,
/// `Q` quits, anything else leaves the mode alone.
pub open spec fn mode_after_key(mode: Gamemode, key: Option<Key>) -> Gamemode {
    match key {
        Some(Key::P) => Gamemode::Pause,
        Some(Key::Q) => Gamemode::Quit,
        None => mode,
    }
}

/// The vertical momentum after the held thrust keys fire (up thrusts
/// against gravity).
pub open spec fn vertical_after_thrust(m: Momentum, up: bool) -> int {
    if up {
        thrust_up_step(m.vertical as int, THRUST_ACCEL_UP as int, THRUST_MAX as int)
    } else {
        m.vertical as int
    }
}

/// The horizontal momentum after the held thrust keys fire, left before
/// right.
pub open spec fn horizontal_after_thrust(m: Momentum, left: bool, right: bool) -> int {
    let h1 = if left {
        thrust_left_step(m.horizontal as int, THRUST_ACCEL_SIDE as int, THRUST_MAX as int)
    } else {
        m.horizontal as int
    };
    if right {
        thrust_right_step(h1, THRUST_ACCEL_SIDE as int, THRUST_MAX as int)
    } else {
        h1
    }
}

/// The vertical momentum after thrust and one gravity step.
pub open spec fn vertical_after_physics(m: Momentum, up: bool) -> int {
    gravity_step(vertical_after_thrust(m, up), GRAVITY as int)
}

/// The horizontal momentum after thrust, one drag step and the dead-zone
/// snap.
pub open spec fn horizontal_after_physics(m: Momentum, left: bool, right: bool) -> int {
    snap_dead_zone(drag_step(horizontal_after_thrust(m, left, right), DRAG as int))
}

/// The craft after one gated simulation step: thrust, then gravity and
/// drag, then the momentum integrated into the position.
pub open spec fn craft_after_sim(c: Character, up: bool, left: bool, right: bool) -> Character {
    let v = vertical_after_physics(c.momentum, up);
    let h = horizontal_after_physics(c.momentum, left, right);
    Character {
        coordinate: Position {
            x: (c.coordinate.x + h) as i64,
            y: (c.coordinate.y + v) as i64,
        },
        momentum: Momentum { vertical: v as i64, horizontal: h as i64 },
    }
}

/// A milli-cell coordinate clamped into `[min_cell, max_cell]` cells.
pub open spec fn clamp_milli(v: int, min_cell: int, max_cell: int) -> int {
    if v > max_cell * MILLI {
        max_cell * MILLI
    } else if v < min_cell * MILLI {
        min_cell * MILLI
    } else {
        v
    }
}

/// Whether a play frame with `elapsed` milli-milliseconds of real time
/// fires the fixed-step gate.
pub open spec fn play_steps(s: State, elapsed: int) -> bool {
    s.frame_time + elapsed > FRAME_DURATION
}

/// Whether a play frame spawns an extra hazard: only on a gated step, and
/// only while there are fewer hazards than the score. This is the sole
/// difficulty-scaling mechanism.
pub open spec fn play_spawns(s: State, elapsed: int) -> bool {
    play_steps(s, elapsed) && s.asteroids@.len() < s.score
}

/// One hazard step in the model: the drift and descent of
/// [`Asteroid::update`], as a value.
pub open spec fn asteroid_step(a: Asteroid) -> Asteroid {
    Asteroid {
        coordinate: Position {
            x: (a.coordinate.x + crate::hazards::drift_of(
                a.trajectory as int,
                a.speed as int,
            )) as i64,
            y: (a.coordinate.y + a.speed) as i64,
        },
        trajectory: a.trajectory,
        orientation: ((a.orientation + crate::hazards::SPIN_INCREMENT) % (
        crate::hazards::FULL_TURN as int)) as i64,
        scale: a.scale,
        speed: a.speed,
    }
}

/// Hazard `i` after the motion of a play frame: stepped on a simulated
/// step, untouched otherwise.
pub open spec fn moved_one(s: State, elapsed: int, i: int) -> Asteroid {
    if play_steps(s, elapsed) {
        asteroid_step(s.asteroids@[i])
    } else {
        s.asteroids@[i]
    }
}

/// What is known of a hazard freshly spawned during play, at a random top
/// edge column: its randomized ranges, and a column strictly inside the
/// side walls.
pub open spec fn replacement_spawn(a: Asteroid) -> bool {
    &&& a.wf()
    &&& a.coordinate.y == 0
    &&& MILLI <= a.coordinate.x < (SCREEN_WIDTH - 1) * MILLI
    &&& a.orientation == 0
}

/// How many of the first `n` hazards finish their course on this play
/// frame, after the frame's motion.
pub open spec fn count_finished_after_motion(s: State, elapsed: int, n: int) -> int
    decreases n,
{
    if n <= 0 {
        0
    } else {
        count_finished_after_motion(s, elapsed, n - 1) + if course_finished(
            moved_one(s, elapsed, n - 1),
            SCREEN_WIDTH as int,
            SCREEN_HEIGHT as int,
        ) {
            1int
        } else {
            0int
        }
    }
}

/// How many of the first `n` entries of an already-moved hazard sequence
/// have finished their course.
pub open spec fn count_finished_prefix(s: Seq<Asteroid>, n: int) -> int
    decreases n,
{
    if n <= 0 {
        0
    } else {
        count_finished_prefix(s, n - 1) + if course_finished(
            s[n - 1],
            SCREEN_WIDTH as int,
            SCREEN_HEIGHT as int,
        ) {
            1int
        } else {
            0int
        }
    }
}

/// The craft at the end of a play frame: the gated simulation step (if the
/// gate fired), then the unconditional clamp into the playfield, then the
/// landing pin onto the pad's surface.
pub open spec fn craft_after_play(s: State, elapsed: int, up: bool, left: bool, right: bool)
    -> Character {
    let c1 = if play_steps(s, elapsed) {
        craft_after_sim(s.character, up, left, right)
    } else {
        s.character
    };
    let c2 = Character {
        coordinate: Position {
            x: clamp_milli(c1.coordinate.x as int, 0, (SCREEN_WIDTH - 1) as int) as i64,
            y: clamp_milli(c1.coordinate.y as int, 1, SCREEN_HEIGHT as int) as i64,
        },
        momentum: c1.momentum,
    };
    if landing_hit(s.landing_pad, c2) {
        Character {
            coordinate: Position {
                x: c2.coordinate.x,
                y: ((SCREEN_HEIGHT - s.landing_pad.height) * MILLI) as i64,
            },
            momentum: c2.momentum,
        }
    } else {
        c2
    }
}

/// Everything a play frame promises of the state it leaves behind, given
/// the state it started from. The craft and the bookkeeping are pinned
/// exactly; of the randomized replacement hazards only their invariant
/// ranges can be promised.
pub open spec fn play_post(
    pre: State,
    post: State,
    elapsed: int,
    key: Option<Key>,
    up: bool,
    left: bool,
    right: bool,
) -> bool {
    let stepped = play_steps(pre, elapsed);
    let n_finished = count_finished_after_motion(pre, elapsed, pre.asteroids@.len() as int);
    let mid_avoided = pre.avoided + n_finished;
    &&& post.landing_pad == pre.landing_pad
    &&& post.frame_time == if stepped {
        0int
    } else {
        pre.frame_time + elapsed
    }
    &&& post.character == craft_after_play(pre, elapsed, up, left, right)
    &&& post.asteroids@.len() == pre.asteroids@.len() + if play_spawns(pre, elapsed) {
        1int
    } else {
        0int
    }
    &&& forall|i: int|
        0 <= i < pre.asteroids@.len() && course_finished(
            moved_one(pre, elapsed, i),
            SCREEN_WIDTH as int,
            SCREEN_HEIGHT as int,
        ) ==> replacement_spawn(#[trigger] post.asteroids@[i])
    &&& forall|i: int|
        0 <= i < pre.asteroids@.len() && !course_finished(
            moved_one(pre, elapsed, i),
            SCREEN_WIDTH as int,
            SCREEN_HEIGHT as int,
        ) ==> #[trigger] post.asteroids@[i] == moved_one(pre, elapsed, i)
    &&& play_spawns(pre, elapsed) ==> replacement_spawn(
        post.asteroids@[pre.asteroids@.len() as int],
    )
    &&& if mid_avoided > post.asteroids@.len() {
        post.score == pre.score + 1 && post.avoided == 0
    } else {
        post.score == pre.score && post.avoided == mid_avoided
    }
    &&& post.mode == if exists|i: int|
        0 <= i < post.asteroids@.len() && collides(
            #[trigger] post.asteroids@[i],
            post.character,
        ) {
        Gamemode::Lost
    } else {
        mode_after_key(pre.mode, key)
    }
}

/// The deterministic part of a freshly (re)started round: the craft at the
/// screen's horizontal midpoint on the bottom edge with no momentum,
/// exactly one hazard on the top edge, zeroed counters and accumulator, and
/// a pad somewhere on screen. The hazard's and pad's randomized fields are
/// pinned only to their invariant ranges.
pub open spec fn reset_settled(s: State) -> bool {
    &&& s.character.coordinate.x == (SCREEN_WIDTH / 2) * MILLI
    &&& s.character.coordinate.y == SCREEN_HEIGHT * MILLI
    &&& s.character.momentum.vertical == 0
    &&& s.character.momentum.horizontal == 0
    &&& s.asteroids@.len() == 1
    &&& s.asteroids@[0].wf()
    &&& s.asteroids@[0].coordinate.y == 0
    &&& 0 <= s.asteroids@[0].coordinate.x < SCREEN_WIDTH * MILLI
    &&& s.asteroids@[0].orientation == 0
    &&& s.frame_time == 0
    &&& s.avoided == 0
    &&& s.score == 0
    &&& s.landing_pad.wf()
    &&& 0 <= s.landing_pad.x < SCREEN_WIDTH
}

impl State {
    /// The structural invariant of a game state: every hazard inside its
    /// randomized ranges and within the coordinate bound, the craft's
    /// position and momentum within the coordinate bound, a well-formed
    /// pad, and a nonnegative accumulator. Every constructor establishes
    /// it and every tick preserves it.
    pub open spec fn wf(self) -> bool {
        &&& -COORD_LIMIT <= self.character.coordinate.x <= COORD_LIMIT
        &&& -COORD_LIMIT <= self.character.coordinate.y <= COORD_LIMIT
        &&& -COORD_LIMIT <= self.character.momentum.vertical <= COORD_LIMIT
        &&& -COORD_LIMIT <= self.character.momentum.horizontal <= COORD_LIMIT
        &&& self.landing_pad.wf()
        &&& forall|i: int| 0 <= i < self.asteroids@.len() ==> (#[trigger] self.asteroids@[i]).wf()
        &&& forall|i: int|
            0 <= i < self.asteroids@.len() ==> -COORD_LIMIT <= (
            #[trigger] self.asteroids@[i]).coordinate.x <= COORD_LIMIT && -COORD_LIMIT
                <= self.asteroids@[i].coordinate.y <= COORD_LIMIT
        &&& 0 <= self.frame_time
    }

    /// The initial state of the process: the menu, with a starting round
    /// already populated behind it.
    pub fn new() -> (r: Self)
        ensures
            reset_settled(r),
            r.mode == Gamemode::Menu,
            r.wf(),
    {
        let mut random = rng_new();
        let starting_point = rng_range(&mut random, 0, SCREEN_WIDTH * MILLI);
        let mut asteroids: Vec<Asteroid> = Vec::new();
        asteroids.push(Asteroid::new(starting_point, 0));
        let pad_x = rng_range(&mut random, 0, SCREEN_WIDTH);
        State {
            mode: Gamemode::Menu,
            character: Character::new((SCREEN_WIDTH / 2) * MILLI, SCREEN_HEIGHT * MILLI),
            frame_time: 0,
            asteroids,
            score: 0,
            avoided: 0,
            landing_pad: LandingPad::new(pad_x),
        }
    }

    /// Resets everything for a fresh round — craft, hazards, counters,
    /// accumulator and a newly randomized pad — and enters `Play`.
    pub fn restart(&mut self)
        ensures
            reset_settled(*final(self)),
            final(self).mode == Gamemode::Play,
            final(self).wf(),
    {
        self.character = Character::new((SCREEN_WIDTH / 2) * MILLI, SCREEN_HEIGHT * MILLI);
        let mut random = rng_new();
        self.asteroids = Vec::new();
        let starting_point = rng_range(&mut random, 0, SCREEN_WIDTH * MILLI);
        self.asteroids.push(Asteroid::new(starting_point, 0));
        self.frame_time = 0;
        self.avoided = 0;
        self.landing_pad = LandingPad::new(rng_range(&mut random, 0, SCREEN_WIDTH));
        self.score = 0;
        self.mode = Gamemode::Play;
    }

    /// The menu's transition: `P` starts a fresh round, `Q` quits, anything
    /// else stays on the menu.
    pub fn main_menu(&mut self, key: Option<Key>)
        ensures
            key == Some(Key::P) ==> reset_settled(*final(self)) && final(self).mode
                == Gamemode::Play,
            key == Some(Key::Q) ==> *final(self) == (State {
                mode: Gamemode::Quit,
                ..*old(self)
            }),
            key == None::<Key> ==> *final(self) == *old(self),
            old(self).wf() ==> final(self).wf(),
    {
        match key {
            Some(Key::P) => self.restart(),
            Some(Key::Q) => self.mode = Gamemode::Quit,
            None => {},
        }
    }

    /// The pause transition: `P` resumes play, `Q` quits, anything else
    /// stays paused; the round itself is untouched either way.
    pub fn pause(&mut self, key: Option<Key>)
        ensures
            *final(self) == (State {
                mode: match key {
                    Some(Key::P) => Gamemode::Play,
                    Some(Key::Q) => Gamemode::Quit,
                    None => old(self).mode,
                },
                ..*old(self)
            }),
    {
        match key {
            Some(Key::P) => self.mode = Gamemode::Play,
            Some(Key::Q) => self.mode = Gamemode::Quit,
            None => {},
        }
    }

    /// The loss-screen transition: `P` restarts a fresh round, `Q` quits,
    /// anything else stays on the loss screen (the final score remains
    /// readable there).
    pub fn lost(&mut self, key: Option<Key>)
        ensures
            key == Some(Key::P) ==> reset_settled(*final(self)) && final(self).mode
                == Gamemode::Play,
            key == Some(Key::Q) ==> *final(self) == (State {
                mode: Gamemode::Quit,
                ..*old(self)
            }),
            key == None::<Key> ==> *final(self) == *old(self),
            old(self).wf() ==> final(self).wf(),
    {
        match key {
            Some(Key::P) => self.restart(),
            Some(Key::Q) => self.mode = Gamemode::Quit,
            None => {},
        }
    }
}

/// Steps every hazard once, in place.
fn advance_asteroids(asteroids: &mut Vec<Asteroid>)
    requires
        forall|i: int| 0 <= i < old(asteroids)@.len() ==> (#[trigger] old(asteroids)@[i]).wf(),
        forall|i: int|
            0 <= i < old(asteroids)@.len() ==> -COORD_LIMIT <= (
            #[trigger] old(asteroids)@[i]).coordinate.x <= COORD_LIMIT && -COORD_LIMIT <= old(
                asteroids,
            )@[i].coordinate.y <= COORD_LIMIT,
    ensures
        final(asteroids)@.len() == old(asteroids)@.len(),
        forall|i: int|
            0 <= i < old(asteroids)@.len() ==> #[trigger] final(asteroids)@[i] == asteroid_step(
                old(asteroids)@[i],
            ),
{
    let mut i: usize = 0;
    while i < asteroids.len()
        invariant
            0 <= i <= asteroids@.len(),
            asteroids@.len() == old(asteroids)@.len(),
            forall|j: int| 0 <= j < old(asteroids)@.len() ==> (#[trigger] old(asteroids)@[j]).wf(),
            forall|j: int|
                0 <= j < old(asteroids)@.len() ==> -COORD_LIMIT <= (
                #[trigger] old(asteroids)@[j]).coordinate.x <= COORD_LIMIT && -COORD_LIMIT <= old(
                    asteroids,
                )@[j].coordinate.y <= COORD_LIMIT,
            forall|j: int|
                0 <= j < i ==> #[trigger] asteroids@[j] == asteroid_step(old(asteroids)@[j]),
            forall|j: int|
                i <= j < asteroids@.len() ==> #[trigger] asteroids@[j] == old(asteroids)@[j],
        decreases asteroids@.len() - i,
    {
        let mut a = asteroids[i];
        a.update();
        asteroids.set(i, a);
        i = i + 1;
    }
}

/// Replaces every hazard that has finished its course with a fresh random
/// spawn on the top edge, counting each replacement as one avoided hazard.
fn recycle_asteroids(asteroids: &mut Vec<Asteroid>, avoided: &mut usize)
    requires
        *old(avoided) + old(asteroids)@.len() < usize::MAX,
    ensures
        final(asteroids)@.len() == old(asteroids)@.len(),
        forall|i: int|
            0 <= i < old(asteroids)@.len() && course_finished(
                old(asteroids)@[i],
                SCREEN_WIDTH as int,
                SCREEN_HEIGHT as int,
            ) ==> replacement_spawn(#[trigger] final(asteroids)@[i]),
        forall|i: int|
            0 <= i < old(asteroids)@.len() && !course_finished(
                old(asteroids)@[i],
                SCREEN_WIDTH as int,
                SCREEN_HEIGHT as int,
            ) ==> #[trigger] final(asteroids)@[i] == old(asteroids)@[i],
        *final(avoided) == *old(avoided) + count_finished_prefix(
            old(asteroids)@,
            old(asteroids)@.len() as int,
        ),
{
    let mut i: usize = 0;
    while i < asteroids.len()
        invariant
            0 <= i <= asteroids@.len(),
            asteroids@.len() == old(asteroids)@.len(),
            *old(avoided) + old(asteroids)@.len() < usize::MAX,
            forall|j: int|
                i <= j < asteroids@.len() ==> #[trigger] asteroids@[j] == old(asteroids)@[j],
            forall|j: int|
                0 <= j < i && course_finished(
                    old(asteroids)@[j],
                    SCREEN_WIDTH as int,
                    SCREEN_HEIGHT as int,
                ) ==> replacement_spawn(#[trigger] asteroids@[j]),
            forall|j: int|
                0 <= j < i && !course_finished(
                    old(asteroids)@[j],
                    SCREEN_WIDTH as int,
                    SCREEN_HEIGHT as int,
                ) ==> #[trigger] asteroids@[j] == old(asteroids)@[j],
            *avoided == *old(avoided) + count_finished_prefix(old(asteroids)@, i as int),
            count_finished_prefix(old(asteroids)@, i as int) <= i,
        decreases asteroids@.len() - i,
    {
        if asteroids[i].check_finished_course(SCREEN_WIDTH, SCREEN_HEIGHT) {
            let mut random = rng_new();
            let spawn_x = rng_range(&mut random, MILLI, (SCREEN_WIDTH - 1) * MILLI);
            asteroids.set(i, Asteroid::new(spawn_x, 0));
            *avoided = *avoided + 1;
        }
        i = i + 1;
    }
}

/// True when any hazard currently covers the craft.
fn any_collision(asteroids: &Vec<Asteroid>, character: &Character) -> (r: bool)
    requires
        forall|i: int| 0 <= i < asteroids@.len() ==> (#[trigger] asteroids@[i]).wf(),
        forall|i: int|
            0 <= i < asteroids@.len() ==> -COORD_LIMIT <= (
            #[trigger] asteroids@[i]).coordinate.x <= COORD_LIMIT && -COORD_LIMIT
                <= asteroids@[i].coordinate.y <= COORD_LIMIT,
        -COORD_LIMIT <= character.coordinate.x <= COORD_LIMIT,
        -COORD_LIMIT <= character.coordinate.y <= COORD_LIMIT,
    ensures
        r == exists|i: int|
            0 <= i < asteroids@.len() && collides(#[trigger] asteroids@[i], *character),
{
    let mut i: usize = 0;
    let mut hit = false;
    while i < asteroids.len()
        invariant
            0 <= i <= asteroids@.len(),
            forall|j: int| 0 <= j < asteroids@.len() ==> (#[trigger] asteroids@[j]).wf(),
            forall|j: int|
                0 <= j < asteroids@.len() ==> -COORD_LIMIT <= (
                #[trigger] asteroids@[j]).coordinate.x <= COORD_LIMIT && -COORD_LIMIT
                    <= asteroids@[j].coordinate.y <= COORD_LIMIT,
            -COORD_LIMIT <= character.coordinate.x <= COORD_LIMIT,
            -COORD_LIMIT <= character.coordinate.y <= COORD_LIMIT,
            hit == exists|j: int| 0 <= j < i && collides(#[trigger] asteroids@[j], *character),
        decreases asteroids@.len() - i,
    {
        if asteroids[i].check_collision(character) {
            hit = true;
        }
        i = i + 1;
    }
    hit
}

/// An already-moved hazard sequence has the same finished count as the
/// model of the frame's motion, entry for entry.
proof fn lemma_count_prefix_matches_motion(s: State, elapsed: int, q: Seq<Asteroid>, n: int)
    requires
        0 <= n <= s.asteroids@.len(),
        n <= q.len(),
        forall|j: int| 0 <= j < n ==> q[j] == moved_one(s, elapsed, j),
    ensures
        count_finished_prefix(q, n) == count_finished_after_motion(s, elapsed, n),
    decreases n,
{
    if n > 0 {
        lemma_count_prefix_matches_motion(s, elapsed, q, n - 1);
    }
}

impl State {
    /// A milli-cell coordinate kept inside `[min, max]` cells.
    fn keep_in_bounds(coordinate: i64, min: i64, max: i64) -> (r: i64)
        requires
            -1000000 <= min <= 1000000,
            -1000000 <= max <= 1000000,
        ensures
            r == clamp_milli(coordinate as int, min as int, max as int),
    {
        if coordinate > max * MILLI {
            return max * MILLI;
        }
        if coordinate < min * MILLI {
            return min * MILLI;
        }
        coordinate
    }

    /// One real frame of play. The elapsed time accumulates toward the
    /// fixed-step threshold; the mode keys act immediately; on a simulated
    /// step, held thrust is applied, gravity, drag and momentum move the craft,
    /// every hazard advances, and the population grows by one while it lags
    /// the score. Every frame, gated or not, the craft is clamped into the
    /// playfield and pinned onto the pad when it has landed, finished
    /// hazards are recycled into the avoided count and the score, and any
    /// collision ends the round.
    #[verifier::rlimit(100)]
    #[verifier::spinoff_prover]
    pub fn play(&mut self, elapsed: i64, key: Option<Key>, up: bool, left: bool, right: bool)
        requires
            old(self).wf(),
            0 <= elapsed,
            old(self).frame_time + elapsed <= i64::MAX,
            old(self).score < usize::MAX,
            old(self).avoided + old(self).asteroids@.len() + 1 < usize::MAX,
        ensures
            final(self).wf(),
            play_post(*old(self), *final(self), elapsed as int, key, up, left, right),
    {
        let ghost pre = *old(self);
        self.frame_time = self.frame_time + elapsed;
        match key {
            Some(Key::P) => {
                self.mode = Gamemode::Pause;
            },
            Some(Key::Q) => {
                self.mode = Gamemode::Quit;
            },
            None => {},
        }
        if self.frame_time > FRAME_DURATION {
            if up {
                self.character.thrust(Direction::Up, THRUST_ACCEL_UP, THRUST_MAX);
            }
            if left {
                self.character.thrust(Direction::Left, THRUST_ACCEL_SIDE, THRUST_MAX);
            }
            if right {
                self.character.thrust(Direction::Right, THRUST_ACCEL_SIDE, THRUST_MAX);
            }
            proof {
                assert(self.character.momentum.vertical == vertical_after_thrust(
                    pre.character.momentum,
                    up,
                ));
                assert(self.character.momentum.horizontal == horizontal_after_thrust(
                    pre.character.momentum,
                    left,
                    right,
                ));
            }
            self.character.apply_gravity_and_drag(GRAVITY, DRAG);
            self.character.apply_momentum();
            proof {
                assert(self.character == craft_after_sim(pre.character, up, left, right));
            }
            advance_asteroids(&mut self.asteroids);
            if self.asteroids.len() < self.score {
                let mut random = rng_new();
                let spawn_x = rng_range(&mut random, MILLI, (SCREEN_WIDTH - 1) * MILLI);
                self.asteroids.push(Asteroid::new(spawn_x, 0));
            }
            self.frame_time = 0;
        }
        proof {
            assert(self.frame_time == if play_steps(pre, elapsed as int) {
                0int
            } else {
                pre.frame_time + elapsed
            });
            assert(self.asteroids@.len() == pre.asteroids@.len() + if play_spawns(
                pre,
                elapsed as int,
            ) {
                1int
            } else {
                0int
            });
            assert(forall|j: int|
                0 <= j < pre.asteroids@.len() ==> #[trigger] self.asteroids@[j] == moved_one(
                    pre,
                    elapsed as int,
                    j,
                ));
            assert(play_spawns(pre, elapsed as int) ==> replacement_spawn(
                self.asteroids@[pre.asteroids@.len() as int],
            ));
        }
        self.character.coordinate.x = State::keep_in_bounds(
            self.character.coordinate.x,
            0,
            SCREEN_WIDTH - 1,
        );
        self.character.coordinate.y = State::keep_in_bounds(
            self.character.coordinate.y,
            1,
            SCREEN_HEIGHT,
        );
        if self.landing_pad.check_landing(&self.character) {
            self.character.coordinate.y = (SCREEN_HEIGHT - self.landing_pad.height) * MILLI;
        }
        proof {
            assert(self.character == craft_after_play(pre, elapsed as int, up, left, right));
            assert(0 <= self.character.coordinate.x <= (SCREEN_WIDTH - 1) * MILLI);
            assert(MILLI <= self.character.coordinate.y <= SCREEN_HEIGHT * MILLI);
        }
        let ghost mid = self.asteroids@;
        let ghost pre_len = pre.asteroids@.len() as int;
        proof {
            lemma_count_prefix_matches_motion(pre, elapsed as int, mid, pre_len);
            if play_spawns(pre, elapsed as int) {
                assert(!course_finished(mid[pre_len], SCREEN_WIDTH as int, SCREEN_HEIGHT as int));
            }
            assert(count_finished_prefix(mid, mid.len() as int) == count_finished_after_motion(
                pre,
                elapsed as int,
                pre_len,
            ));
        }
        recycle_asteroids(&mut self.asteroids, &mut self.avoided);
        proof {
            assert(self.avoided == pre.avoided + count_finished_after_motion(
                pre,
                elapsed as int,
                pre_len,
            ));
            assert forall|j: int|
                0 <= j < self.asteroids@.len() implies (#[trigger] self.asteroids@[j]).wf()
                && -COORD_LIMIT <= self.asteroids@[j].coordinate.x <= COORD_LIMIT && -COORD_LIMIT
                <= self.asteroids@[j].coordinate.y <= COORD_LIMIT by {
                if !course_finished(mid[j], SCREEN_WIDTH as int, SCREEN_HEIGHT as int) {
                    assert(self.asteroids@[j] == mid[j]);
                    if j < pre_len {
                        assert(mid[j] == moved_one(pre, elapsed as int, j));
                        assert((pre.asteroids@[j]).wf());
                    }
                }
            }
        }
        if self.avoided > self.asteroids.len() {
            self.score = self.score + 1;
            self.avoided = 0;
        }
        proof {
            assert(self.mode == mode_after_key(pre.mode, key));
        }
        if any_collision(&self.asteroids, &self.character) {
            self.mode = Gamemode::Lost;
        }
        proof {
            assert(play_post(pre, *self, elapsed as int, key, up, left, right));
        }
    }

    /// One frame of the whole game: dispatches on the current mode to the
    /// menu, play, pause or loss transition; `Quit` is terminal and changes
    /// nothing.
    pub fn tick(&mut self, elapsed: i64, key: Option<Key>, up: bool, left: bool, right: bool)
        requires
            old(self).wf(),
            0 <= elapsed,
            old(self).frame_time + elapsed <= i64::MAX,
            old(self).score < usize::MAX,
            old(self).avoided + old(self).asteroids@.len() + 1 < usize::MAX,
        ensures
            final(self).wf(),
            old(self).mode == Gamemode::Menu || old(self).mode == Gamemode::Lost ==> {
                &&& (key == Some(Key::P) ==> reset_settled(*final(self)) && final(self).mode
                    == Gamemode::Play)
                &&& (key == Some(Key::Q) ==> *final(self) == (State {
                    mode: Gamemode::Quit,
                    ..*old(self)
                }))
                &&& (key == None::<Key> ==> *final(self) == *old(self))
            },
            old(self).mode == Gamemode::Play ==> play_post(
                *old(self),
                *final(self),
                elapsed as int,
                key,
                up,
                left,
                right,
            ),
            old(self).mode == Gamemode::Pause ==> *final(self) == (State {
                mode: match key {
                    Some(Key::P) => Gamemode::Play,
                    Some(Key::Q) => Gamemode::Quit,
                    None => old(self).mode,
                },
                ..*old(self)
            }),
            old(self).mode == Gamemode::Quit ==> *final(self) == *old(self),
    {
        match self.mode {
            Gamemode::Menu => self.main_menu(key),
            Gamemode::Play => self.play(elapsed, key, up, left, right),
            Gamemode::Pause => self.pause(key),
            Gamemode::Quit => {},
            Gamemode::Lost => self.lost(key),
        }
    }
}

/// Law (landing pin): on a frame where the fixed-step gate does not fire,
/// a craft already inside the playfield, horizontally within the pad's
/// catch interval and vertically in the pad's surface row, comes out of the
/// frame pinned exactly onto the pad's top surface.
pub proof fn lemma_landing_pin(s: State, elapsed: int, up: bool, left: bool, right: bool)
    requires
        s.wf(),
        !play_steps(s, elapsed),
        0 <= s.character.coordinate.x <= (SCREEN_WIDTH - 1) * MILLI,
        MILLI <= s.character.coordinate.y <= SCREEN_HEIGHT * MILLI,
        landing_hit(s.landing_pad, s.character),
    ensures
        craft_after_play(s, elapsed, up, left, right).coordinate.y == (SCREEN_HEIGHT
            - s.landing_pad.height) * MILLI,
{
}

/// Law (restart idempotence): any two freshly restarted states agree on
/// everything deterministic — the craft, the counters, the accumulator, the
/// mode and the hazard count; only the randomized hazard and pad fields may
/// differ.
pub proof fn lemma_restart_idempotent(s1: State, s2: State)
    requires
        reset_settled(s1),
        s1.mode == Gamemode::Play,
        reset_settled(s2),
        s2.mode == Gamemode::Play,
    ensures
        s1.character == s2.character,
        s1.score == s2.score,
        s1.avoided == s2.avoided,
        s1.frame_time == s2.frame_time,
        s1.mode == s2.mode,
        s1.asteroids@.len() == s2.asteroids@.len(),
{
}

/// Law (difficulty gate): a play frame on a state with score zero never
/// spawns a hazard, so the hazard population stays at its initial one until
/// the first point is scored.
pub proof fn lemma_no_spawn_before_first_score(s: State, elapsed: int)
    requires
        s.score == 0,
    ensures
        !play_spawns(s, elapsed),
{
}

} // verus!
