use crate::settings::{
    valid_timing, MapMoveSettings, SPRITE_DOWN_INDEX, SPRITE_LEFT1_INDEX, SPRITE_LEFT2_INDEX,
    SPRITE_UP_INDEX,
};
use vstd::arithmetic::div_mod::{
    lemma_div_is_ordered, lemma_div_multiples_vanish, lemma_fundamental_div_mod,
};
use vstd::prelude::*;

verus! {

/// The way an actor faces, and moves.
#[derive(Clone, Copy, Debug, PartialEq, Eq, Structural)]
pub enum Orientation {
    Up,
    Left,
    Right,
    Down,
}

/// Whether an actor is between crossings or in the middle of one.
#[derive(Clone, Copy, Debug, PartialEq, Eq, Structural)]
pub enum MovementState {
    Idle,
    Moving,
}

/// The unit vector of an orientation, y pointing up.
pub open spec fn unit_of(o: Orientation) -> (int, int) {
    match o {
        Orientation::Up => (0, 1),
        Orientation::Down => (0, -1),
        Orientation::Left => (-1, 0),
        Orientation::Right => (1, 0),
    }
}

/// Number of substeps whose time has come once `elapsed` of `nanos`
/// nanoseconds have passed: substep `k` is due at `k * nanos / steps`.
pub open spec fn due_steps(elapsed: int, steps: int, nanos: int) -> int {
    (elapsed * steps) / nanos
}

/// A request to cross one tile.
#[derive(Clone, Copy, Debug, PartialEq, Eq, Structural)]
pub struct MovementEvent {
    pub change_x: i32,
    pub change_y: i32,
    pub orientation: Orientation,
    /// Duration of the whole crossing, in nanoseconds.
    pub nanos: u64,
    pub steps: u32,
}

impl MovementEvent {
    /// The direction is the orientation's unit vector and the timing is usable.
    pub open spec fn wf(&self) -> bool {
        &&& (self.change_x as int, self.change_y as int) == unit_of(self.orientation)
        &&& valid_timing(self.nanos, self.steps)
    }

    /// The request to cross one tile toward `orientation` with the given timing.
    pub open spec fn spec_toward(orientation: Orientation, settings: MapMoveSettings) -> Self {
        MovementEvent {
            change_x: unit_of(orientation).0 as i32,
            change_y: unit_of(orientation).1 as i32,
            orientation,
            nanos: settings.nanos_per_tile,
            steps: settings.steps_per_tile,
        }
    }

    /// Builds the request to cross one tile toward `orientation`.
    pub fn toward(orientation: Orientation, settings: &MapMoveSettings) -> (r: Self)
        requires
            settings.wf(),
        ensures
            r == Self::spec_toward(orientation, *settings),
            r.wf(),
    {
        let (change_x, change_y): (i32, i32) = match orientation {
            Orientation::Up => (0, 1),
            Orientation::Down => (0, -1),
            Orientation::Left => (-1, 0),
            Orientation::Right => (1, 0),
        };
        MovementEvent {
            change_x,
            change_y,
            orientation,
            nanos: settings.nanos_per_tile,
            steps: settings.steps_per_tile,
        }
    }
}

/// The plan of one tile crossing and how far it has got.
#[derive(Clone, Copy, Debug, PartialEq, Eq, Structural)]
pub struct Movement {
    pub change_x: i32,
    pub change_y: i32,
    pub orientation: Orientation,
    pub tile_size: u32,
    /// Substep count of the whole crossing.
    pub steps: u32,
    pub steps_remaining: u32,
    /// Duration of the whole crossing, in nanoseconds.
    pub nanos: u64,
    /// Time spent on the crossing so far, never beyond `nanos`.
    pub elapsed: u64,
}

impl Movement {
    pub open spec fn wf(&self) -> bool {
        &&& (self.change_x as int, self.change_y as int) == unit_of(self.orientation)
        &&& valid_timing(self.nanos, self.steps)
        &&& self.tile_size >= 1
        &&& self.elapsed <= self.nanos
        &&& self.steps_remaining <= self.steps
        &&& self.done() <= self.due()
    }

    /// Substeps applied so far.
    pub open spec fn done(&self) -> int {
        self.steps - self.steps_remaining
    }

    /// Substeps whose time has come.
    pub open spec fn due(&self) -> int {
        due_steps(self.elapsed as int, self.steps as int, self.nanos as int)
    }

    /// The crossing that `event` asks for, over tiles of extent `tile_size`.
    pub open spec fn spec_new(event: MovementEvent, tile_size: u32) -> Self {
        Movement {
            change_x: event.change_x,
            change_y: event.change_y,
            orientation: event.orientation,
            tile_size,
            steps: event.steps,
            steps_remaining: event.steps,
            nanos: event.nanos,
            elapsed: 0,
        }
    }

    /// Plans the crossing that `event` asks for.
    pub fn new(event: &MovementEvent, tile_size: u32) -> (r: Self)
        requires
            event.wf(),
            tile_size >= 1,
        ensures
            r == Self::spec_new(*event, tile_size),
            r.wf(),
            r.done() == 0,
    {
        assert(due_steps(0, event.steps as int, event.nanos as int) == 0);
        Movement {
            change_x: event.change_x,
            change_y: event.change_y,
            orientation: event.orientation,
            tile_size,
            steps: event.steps,
            steps_remaining: event.steps,
            nanos: event.nanos,
            elapsed: 0,
        }
    }

    /// All substeps have been applied.
    pub fn is_done(&self) -> (r: bool)
        ensures
            r == (self.steps_remaining == 0),
    {
        self.steps_remaining < 1
    }

    /// Time between two substeps, rounded down to whole nanoseconds.
    pub fn interval_nanos(&self) -> (r: u64)
        requires
            self.wf(),
        ensures
            r == self.nanos / (self.steps as u64),
    {
        self.nanos / (self.steps as u64)
    }

    /// Per-substep displacement as an exact fraction: the vector
    /// `(x, y)` divided by `d`, that is the direction times the tile extent over
    /// the substep count.
    pub fn move_vector(&self) -> (r: (i64, i64, u32))
        requires
            self.wf(),
        ensures
            r.0 == self.change_x * self.tile_size,
            r.1 == self.change_y * self.tile_size,
            r.2 == self.steps,
    {
        (
            scaled(self.change_x, self.tile_size as u64),
            scaled(self.change_y, self.tile_size as u64),
            self.steps,
        )
    }

    /// The crossing after `delta` more nanoseconds, with no substep applied.
    pub open spec fn spec_tick(self, delta: u64) -> Self {
        Movement {
            elapsed: if self.elapsed + delta >= self.nanos {
                self.nanos
            } else {
                (self.elapsed + delta) as u64
            },
            ..self
        }
    }

    /// Lets `delta` nanoseconds pass. Time past the end of the crossing is
    /// dropped. Returns how many substeps are now due and not yet applied.
    pub fn tick(&mut self, delta: u64) -> (r: u32)
        requires
            old(self).wf(),
        ensures
            *final(self) == old(self).spec_tick(delta),
            final(self).wf(),
            r == final(self).due() - final(self).done(),
    {
        if delta >= self.nanos - self.elapsed {
            self.elapsed = self.nanos;
        } else {
            self.elapsed = self.elapsed + delta;
        }
        proof {
            lemma_due_monotone(old(self).elapsed as int, self.elapsed as int, self.steps as int,
                self.nanos as int);
        }
        let due = self.due_count();
        due - (self.steps - self.steps_remaining)
    }

    /// The number of substeps due, computed.
    fn due_count(&self) -> (r: u32)
        requires
            valid_timing(self.nanos, self.steps),
            self.elapsed <= self.nanos,
        ensures
            r == self.due(),
            r <= self.steps,
    {
        proof {
            lemma_due_monotone(self.elapsed as int, self.nanos as int, self.steps as int,
                self.nanos as int);
            assert(self.elapsed * self.steps <= self.nanos * self.steps) by (nonlinear_arith)
                requires
                    self.elapsed <= self.nanos,
            ;
        }
        ((self.elapsed * (self.steps as u64)) / self.nanos) as u32
    }

    /// Counts off the next due substep.
    pub fn complete_substep(&mut self)
        requires
            old(self).wf(),
            old(self).done() < old(self).due(),
        ensures
            final(self).wf(),
            *final(self) == (Movement {
                steps_remaining: (old(self).steps_remaining - 1) as u32,
                ..*old(self)
            }),
    {
        proof {
            lemma_due_monotone(self.elapsed as int, self.nanos as int, self.steps as int,
                self.nanos as int);
        }
        self.steps_remaining = self.steps_remaining - 1;
    }
}

/// `c * d` for a unit component `c`.
fn scaled(c: i32, d: u64) -> (r: i64)
    requires
        -1 <= c <= 1,
        d <= i64::MAX,
    ensures
        r == c * d,
{
    if c > 0 {
        assert(c == 1);
        d as i64
    } else if c < 0 {
        assert(c == -1);
        0 - (d as i64)
    } else {
        0
    }
}

/// Moving a unit step of `b - a` from `t` stays representable when the full
/// step of `e - a` does and `a <= b <= e`.
pub(crate) proof fn lemma_unit_step_fits(t: int, c: int, a: int, b: int, e: int)
    requires
        -1 <= c <= 1,
        a <= b <= e,
        fits_i64(t),
        fits_i64(t + c * (e - a)),
    ensures
        fits_i64(t + c * (b - a)),
{
    if c == 1 {
        assert(c * (e - a) == e - a && c * (b - a) == b - a) by (nonlinear_arith)
            requires
                c == 1,
        ;
    } else if c == -1 {
        assert(c * (e - a) == a - e && c * (b - a) == a - b) by (nonlinear_arith)
            requires
                c == -1,
        ;
    } else {
        assert(c * (b - a) == 0) by (nonlinear_arith)
            requires
                c == 0,
        ;
    }
}

/// A component times a sum of distances is the sum of the products.
pub(crate) proof fn lemma_scale_adds(c: int, p: int, q: int)
    ensures
        c * p + c * q == c * (p + q),
{
    assert(c * p + c * q == c * (p + q)) by (nonlinear_arith);
}

/// More elapsed time never makes fewer substeps due, and the whole duration
/// makes all of them due.
pub proof fn lemma_due_monotone(e1: int, e2: int, steps: int, nanos: int)
    requires
        0 <= e1 <= e2,
        steps >= 1,
        nanos >= 1,
    ensures
        due_steps(e1, steps, nanos) <= due_steps(e2, steps, nanos),
        due_steps(0, steps, nanos) == 0,
        due_steps(nanos, steps, nanos) == steps,
        e2 <= nanos ==> due_steps(e2, steps, nanos) <= steps,
        e2 < nanos ==> due_steps(e2, steps, nanos) < steps,
{
    assert(e1 * steps <= e2 * steps) by (nonlinear_arith)
        requires
            0 <= e1 <= e2,
            steps >= 1,
    ;
    lemma_div_is_ordered(e1 * steps, e2 * steps, nanos);
    lemma_div_multiples_vanish(steps, nanos);
    assert(nanos * steps == steps * nanos) by (nonlinear_arith);
    if e2 <= nanos {
        assert(e2 * steps <= nanos * steps) by (nonlinear_arith)
            requires
                e2 <= nanos,
                steps >= 1,
        ;
        lemma_div_is_ordered(e2 * steps, nanos * steps, nanos);
    }
    if e2 < nanos {
        assert(e2 * steps < steps * nanos) by (nonlinear_arith)
            requires
                0 <= e2 < nanos,
                steps >= 1,
        ;
        assert((e2 * steps) / nanos < steps) by (nonlinear_arith)
            requires
                0 <= e2 * steps < steps * nanos,
                nanos >= 1,
        ;
    }
}


/// Position of an actor: `(x / den, y / den)` in world units, so that each
/// substep's share of a tile is exact; `z` in whole units.
#[derive(Clone, Copy, Debug, PartialEq, Eq, Structural)]
pub struct Translation {
    pub x: i64,
    pub y: i64,
    pub z: i64,
    pub den: u64,
}

impl Translation {
    /// A position at whole world units.
    pub fn whole(x: i64, y: i64, z: i64) -> (r: Self)
        ensures
            r == (Translation { x, y, z, den: 1 }),
    {
        Translation { x, y, z, den: 1 }
    }
}

/// What the actor's sprite shows: the sheet frame, absent when the sprite is
/// not frame-based, and the horizontal mirror flag.
#[derive(Clone, Copy, Debug, PartialEq, Eq, Structural)]
pub struct SpriteState {
    pub frame: Option<usize>,
    pub flip_x: bool,
}

/// Which direction keys are held this tick.
#[derive(Clone, Copy, Debug, PartialEq, Eq, Structural)]
pub struct DirectionKeys {
    pub left: bool,
    pub right: bool,
    pub down: bool,
    pub up: bool,
}

/// Movement state of one actor, with its crossing while it moves.
#[derive(Clone, Copy, Debug, PartialEq, Eq, Structural)]
pub struct MovableOnMap {
    pub movement_state: MovementState,
    pub movement: Option<Movement>,
}

/// An `i64` holds `v`.
pub open spec fn fits_i64(v: int) -> bool {
    i64::MIN <= v <= i64::MAX
}

/// Numerator, over a denominator `den` that `steps` divides, of one substep's
/// share `tile / steps` of a tile.
pub open spec fn step_num(tile: int, den: int, steps: int) -> int {
    tile * (den / steps)
}

/// The factor that brings a denominator to a multiple of `steps`.
pub open spec fn rescale_factor(den: int, steps: int) -> int {
    if den % steps == 0 {
        1
    } else {
        steps
    }
}

/// The same position over a denominator that `steps` divides.
pub open spec fn spec_rescale(t: Translation, steps: u32) -> Translation {
    let f = rescale_factor(t.den as int, steps as int);
    Translation {
        x: (t.x * f) as i64,
        y: (t.y * f) as i64,
        z: t.z,
        den: (t.den * f) as u64,
    }
}

/// A crossing for `event` from `t` over tiles of extent `tile_size` can be
/// represented, from its rescaled start to its end.
pub open spec fn start_fits(t: Translation, event: MovementEvent, tile_size: u32) -> bool {
    let f = rescale_factor(t.den as int, event.steps as int);
    let den = t.den * f;
    let x = t.x * f;
    let y = t.y * f;
    &&& t.den >= 1
    &&& den <= u64::MAX
    &&& fits_i64(x)
    &&& fits_i64(y)
    &&& tile_size * den <= i64::MAX
    &&& fits_i64(x + event.change_x * (tile_size * den))
    &&& fits_i64(y + event.change_y * (tile_size * den))
}

/// The sideways walk frame that follows `i`.
pub open spec fn next_walk_frame(i: usize) -> usize {
    if i == SPRITE_LEFT1_INDEX {
        SPRITE_LEFT2_INDEX
    } else {
        SPRITE_LEFT1_INDEX
    }
}

/// The sideways walk frame after `n` substeps from `i`.
pub open spec fn walk_frames(i: usize, n: nat) -> usize
    decreases n,
{
    if n == 0 {
        i
    } else {
        next_walk_frame(walk_frames(i, (n - 1) as nat))
    }
}

/// The mirror flag after `n` toggles from `b`.
pub open spec fn flips(b: bool, n: nat) -> bool
    decreases n,
{
    if n == 0 {
        b
    } else {
        !flips(b, (n - 1) as nat)
    }
}

/// The sprite after `n` substeps toward `o`: vertical travel toggles the
/// mirror flag, sideways travel alternates the walk frames; a sprite without
/// frames is left alone.
pub open spec fn substep_visual(sprite: SpriteState, o: Orientation, n: nat) -> SpriteState {
    match sprite.frame {
        None => sprite,
        Some(i) => match o {
            Orientation::Up | Orientation::Down => SpriteState {
                flip_x: flips(sprite.flip_x, n),
                ..sprite
            },
            Orientation::Left | Orientation::Right => SpriteState {
                frame: Some(walk_frames(i, n)),
                ..sprite
            },
        },
    }
}

/// The sprite when a crossing toward `o` starts: the facing frame for vertical
/// travel, a walk frame for sideways travel (the current one if it already
/// is one), mirrored for right and not for left.
pub open spec fn trigger_visual(sprite: SpriteState, o: Orientation) -> SpriteState {
    match sprite.frame {
        None => sprite,
        Some(i) => SpriteState {
            frame: Some(
                match o {
                    Orientation::Down => SPRITE_DOWN_INDEX,
                    Orientation::Up => SPRITE_UP_INDEX,
                    Orientation::Left | Orientation::Right => if i == SPRITE_LEFT1_INDEX || i
                        == SPRITE_LEFT2_INDEX {
                        i
                    } else {
                        SPRITE_LEFT1_INDEX
                    },
                },
            ),
            flip_x: match o {
                Orientation::Left => false,
                Orientation::Right => true,
                _ => sprite.flip_x,
            },
        },
    }
}

/// The orientation asked for by the held keys: left, then right, then down,
/// then up wins.
pub open spec fn chosen_orientation(keys: DirectionKeys) -> Option<Orientation> {
    if keys.left {
        Some(Orientation::Left)
    } else if keys.right {
        Some(Orientation::Right)
    } else if keys.down {
        Some(Orientation::Down)
    } else if keys.up {
        Some(Orientation::Up)
    } else {
        None
    }
}

impl MovableOnMap {
    /// The actor is moving exactly while it holds an unfinished crossing whose
    /// due substeps have all been applied.
    pub open spec fn wf(&self) -> bool {
        match self.movement_state {
            MovementState::Idle => self.movement is None,
            MovementState::Moving => match self.movement {
                None => false,
                Some(m) => m.wf() && m.steps_remaining > 0 && m.done() == m.due(),
            },
        }
    }

    /// Position `t` carries the current crossing's substeps exactly, and the
    /// crossing's end is representable.
    pub open spec fn reach_fits(&self, t: Translation) -> bool {
        &&& t.den >= 1
        &&& match self.movement {
            None => true,
            Some(m) => {
                let u = step_num(m.tile_size as int, t.den as int, m.steps as int);
                &&& (t.den as int) % (m.steps as int) == 0
                &&& u <= i64::MAX
                &&& fits_i64(t.x + m.change_x * ((m.steps - m.done()) * u))
                &&& fits_i64(t.y + m.change_y * ((m.steps - m.done()) * u))
            },
        }
    }

    /// An idle actor with no crossing.
    pub fn new() -> (r: Self)
        ensures
            r.movement_state == MovementState::Idle,
            r.movement is None,
            r.wf(),
    {
        MovableOnMap { movement_state: MovementState::Idle, movement: None }
    }

    /// The actor after a trigger for `event`: an idle actor starts the crossing,
    /// a moving one ignores it.
    pub open spec fn spec_on_move(self, event: MovementEvent, tile_size: u32) -> Self {
        match self.movement_state {
            MovementState::Moving => self,
            MovementState::Idle => MovableOnMap {
                movement_state: MovementState::Moving,
                movement: Some(Movement::spec_new(event, tile_size)),
            },
        }
    }

    /// Position, sprite, actor and number of substeps applied after `delta`
    /// more nanoseconds; each substep moves the position by exactly
    /// `(change_x, change_y) * tile_size / steps`.
    pub open spec fn spec_advance(self, t: Translation, sprite: SpriteState, delta: u64) -> (
        Translation,
        SpriteState,
        MovableOnMap,
        nat,
    ) {
        match self.movement {
            None => (t, sprite, self, 0),
            Some(m) => {
                let m1 = m.spec_tick(delta);
                let d0 = m.done();
                let d1 = m1.due();
                let u = step_num(m.tile_size as int, t.den as int, m.steps as int);
                let t1 = Translation {
                    x: (t.x + m.change_x * ((d1 - d0) * u)) as i64,
                    y: (t.y + m.change_y * ((d1 - d0) * u)) as i64,
                    z: t.z,
                    den: t.den,
                };
                let mv1 = if d1 == m.steps {
                    MovableOnMap { movement_state: MovementState::Idle, movement: None }
                } else {
                    MovableOnMap {
                        movement_state: MovementState::Moving,
                        movement: Some(Movement { steps_remaining: (m.steps - d1) as u32, ..m1 }),
                    }
                };
                (t1, substep_visual(sprite, m.orientation, (d1 - d0) as nat), mv1, (d1 - d0) as nat)
            },
        }
    }
}

impl Default for MovableOnMap {
    /// An idle actor with no crossing.
    fn default() -> (r: Self)
        ensures
            r.movement_state == MovementState::Idle,
            r.movement is None,
    {
        MovableOnMap::new()
    }
}

/// Reads the held direction keys for an actor: an idle actor gets a request
/// toward the winning direction, a moving one gets none.
pub fn move_player(movable: &MovableOnMap, keys: &DirectionKeys, settings: &MapMoveSettings) -> (r:
    Option<MovementEvent>)
    requires
        settings.wf(),
    ensures
        movable.movement_state == MovementState::Moving ==> r is None,
        movable.movement_state == MovementState::Idle ==> r == match chosen_orientation(*keys) {
            None => None,
            Some(o) => Some(MovementEvent::spec_toward(o, *settings)),
        },
        r matches Some(e) ==> e.wf(),
{
    if movable.movement_state != MovementState::Idle {
        return None;
    }
    if keys.left {
        Some(MovementEvent::toward(Orientation::Left, settings))
    } else if keys.right {
        Some(MovementEvent::toward(Orientation::Right, settings))
    } else if keys.down {
        Some(MovementEvent::toward(Orientation::Down, settings))
    } else if keys.up {
        Some(MovementEvent::toward(Orientation::Up, settings))
    } else {
        None
    }
}

/// `v + c * d` for a unit component `c`, in a wider type.
fn add_unit(v: i128, c: i32, d: i128) -> (r: i128)
    requires
        -1 <= c <= 1,
        -0x1000_0000_0000_0000_0000_0000_0000 <= v <= 0x1000_0000_0000_0000_0000_0000_0000,
        0 <= d <= 0x1000_0000_0000_0000_0000_0000_0000,
    ensures
        r == v + c * d,
{
    if c > 0 {
        assert(c == 1);
        v + d
    } else if c < 0 {
        assert(c == -1);
        v - d
    } else {
        v
    }
}

/// Whether a crossing for `event` can start from `t` within the position's
/// representable range.
pub fn can_start(t: &Translation, event: &MovementEvent, tile_size: u32) -> (r: bool)
    requires
        event.wf(),
    ensures
        r == start_fits(*t, *event, tile_size),
{
    if t.den == 0 {
        return false;
    }
    let s = event.steps as u64;
    let f: u64 = if t.den % s == 0 {
        1
    } else {
        s
    };
    assert(f == rescale_factor(t.den as int, event.steps as int));
    assert(1 <= f <= u32::MAX);
    let ghost fi = f as int;
    assert(t.den * fi <= u64::MAX * u32::MAX) by (nonlinear_arith)
        requires
            t.den <= u64::MAX,
            1 <= fi <= u32::MAX,
    ;
    assert(-(0x8000_0000_0000_0000 * u32::MAX) <= t.x * fi <= i64::MAX * u32::MAX)
        by (nonlinear_arith)
        requires
            i64::MIN <= t.x <= i64::MAX,
            1 <= fi <= u32::MAX,
    ;
    assert(-(0x8000_0000_0000_0000 * u32::MAX) <= t.y * fi <= i64::MAX * u32::MAX)
        by (nonlinear_arith)
        requires
            i64::MIN <= t.y <= i64::MAX,
            1 <= fi <= u32::MAX,
    ;
    let den: i128 = (t.den as i128) * (f as i128);
    let x: i128 = (t.x as i128) * (f as i128);
    let y: i128 = (t.y as i128) * (f as i128);
    if den > u64::MAX as i128 || x < i64::MIN as i128 || x > i64::MAX as i128 || y < i64::MIN
        as i128 || y > i64::MAX as i128 {
        return false;
    }
    assert(tile_size * den <= u32::MAX * u64::MAX) by (nonlinear_arith)
        requires
            0 <= den <= u64::MAX,
            tile_size <= u32::MAX,
    ;
    let span: i128 = (tile_size as i128) * den;
    if span > i64::MAX as i128 {
        return false;
    }
    let end_x = add_unit(x, event.change_x, span);
    let end_y = add_unit(y, event.change_y, span);
    i64::MIN as i128 <= end_x && end_x <= i64::MAX as i128 && i64::MIN as i128 <= end_y && end_y
        <= i64::MAX as i128
}

/// Rescaling for a crossing keeps the position's value, leaves a
/// denominator that the substep count divides, and keeps the crossing
/// representable.
pub proof fn lemma_rescale(t: Translation, event: MovementEvent, tile_size: u32)
    requires
        event.wf(),
        tile_size >= 1,
        start_fits(t, event, tile_size),
    ensures
        ({
            let t1 = spec_rescale(t, event.steps);
            let s = event.steps as int;
            let u = step_num(tile_size as int, t1.den as int, s);
            &&& t1.den >= 1
            &&& (t1.den as int) % s == 0
            &&& s * u == tile_size * t1.den
            &&& 0 <= u <= tile_size * t1.den
            &&& t1.x * t.den == t.x * t1.den
            &&& t1.y * t.den == t.y * t1.den
            &&& t1.z == t.z
            &&& fits_i64(t1.x + event.change_x * (s * u))
            &&& fits_i64(t1.y + event.change_y * (s * u))
        }),
{
    let si = event.steps as int;
    let f = rescale_factor(t.den as int, si);
    let t1 = spec_rescale(t, event.steps);
    let den = t.den * f;
    assert(t1.den == den && t1.x == t.x * f && t1.y == t.y * f);
    assert(den % si == 0 && den >= 1) by (nonlinear_arith)
        requires
            f == 1 ==> (t.den as int) % si == 0,
            f == si ==> den == t.den * si,
            f == 1 || f == si,
            f == 1 ==> den == t.den,
            si >= 1,
            t.den >= 1,
    ;
    lemma_fundamental_div_mod(den, si);
    let u = step_num(tile_size as int, den, si);
    assert(si * u == tile_size * den && 0 <= u <= tile_size * den) by (nonlinear_arith)
        requires
            den == si * (den / si) + den % si,
            den % si == 0,
            u == tile_size * (den / si),
            si >= 1,
            den >= 1,
            tile_size >= 1,
    ;
    assert(t1.x * t.den == t.x * den && t1.y * t.den == t.y * den) by (nonlinear_arith)
        requires
            t1.x == t.x * f,
            t1.y == t.y * f,
            den == t.den * f,
    ;
}

/// Starts the crossing that `event` asks for on an idle actor: rewrites the
/// position over a denominator that the substep count divides (its value
/// unchanged), stores the plan, turns the actor to `Moving` and sets the
/// starting sprite. A moving actor ignores the trigger.
pub fn on_move(
    event: &MovementEvent,
    tile_size: u32,
    transform: &mut Translation,
    sprite: &mut SpriteState,
    movable: &mut MovableOnMap,
)
    requires
        event.wf(),
        tile_size >= 1,
        old(movable).wf(),
        old(movable).reach_fits(*old(transform)),
        old(movable).movement_state == MovementState::Idle ==> start_fits(
            *old(transform),
            *event,
            tile_size,
        ),
    ensures
        *final(movable) == old(movable).spec_on_move(*event, tile_size),
        old(movable).movement_state == MovementState::Moving ==> *final(sprite) == *old(sprite)
            && *final(transform) == *old(transform),
        old(movable).movement_state == MovementState::Idle ==> *final(sprite) == trigger_visual(
            *old(sprite),
            event.orientation,
        ) && *final(transform) == spec_rescale(*old(transform), event.steps),
        final(transform).x * old(transform).den == old(transform).x * final(transform).den,
        final(transform).y * old(transform).den == old(transform).y * final(transform).den,
        final(movable).wf(),
        final(movable).reach_fits(*final(transform)),
{
    if movable.movement_state == MovementState::Moving {
        return;
    }
    let ghost t0 = *transform;
    let s = event.steps as u64;
    let ghost f = rescale_factor(t0.den as int, s as int);
    if transform.den % s != 0 {
        transform.x = transform.x * (s as i64);
        transform.y = transform.y * (s as i64);
        transform.den = transform.den * s;
    } else {
        assert(t0.x * f == t0.x && t0.y * f == t0.y && t0.den * f == t0.den);
    }
    proof {
        assert(transform.x == t0.x * f);
        assert(transform.den == t0.den * f);
        assert(*transform == spec_rescale(t0, event.steps));
        lemma_rescale(t0, *event, tile_size);
    }
    let movement = Movement::new(event, tile_size);
    match sprite.frame {
        None => {},
        Some(i) => {
            let frame = match event.orientation {
                Orientation::Down => SPRITE_DOWN_INDEX,
                Orientation::Up => SPRITE_UP_INDEX,
                Orientation::Left | Orientation::Right => if i == SPRITE_LEFT1_INDEX || i
                    == SPRITE_LEFT2_INDEX {
                    i
                } else {
                    SPRITE_LEFT1_INDEX
                },
            };
            sprite.frame = Some(frame);
            match event.orientation {
                Orientation::Left => sprite.flip_x = false,
                Orientation::Right => sprite.flip_x = true,
                _ => {},
            }
        },
    }
    movable.movement = Some(movement);
    movable.movement_state = MovementState::Moving;
}

/// Lets `delta` nanoseconds pass for an actor. Each substep that comes due
/// moves the actor by exactly `(change_x, change_y) * tile_size / steps`,
/// counts down the crossing and updates the sprite; when the last one is
/// applied the actor turns `Idle`. Returns the number of substeps applied.
pub fn move_movables(
    delta: u64,
    transform: &mut Translation,
    sprite: &mut SpriteState,
    movable: &mut MovableOnMap,
) -> (r: u32)
    requires
        old(movable).wf(),
        old(movable).reach_fits(*old(transform)),
    ensures
        (*final(transform), *final(sprite), *final(movable), r as nat) == old(
            movable,
        ).spec_advance(*old(transform), *old(sprite), delta),
        final(transform).den == old(transform).den,
        final(transform).z == old(transform).z,
        old(movable).movement matches Some(m) ==> {
            &&& (final(transform).x - old(transform).x) * m.steps == m.change_x * m.tile_size * r
                * old(transform).den
            &&& (final(transform).y - old(transform).y) * m.steps == m.change_y * m.tile_size * r
                * old(transform).den
        },
        final(movable).wf(),
        final(movable).reach_fits(*final(transform)),
{
    if movable.movement_state != MovementState::Moving {
        return 0;
    }
    let mut m = match movable.movement {
        Some(m) => m,
        None => return 0,
    };
    let ghost m0 = m;
    let ghost t0 = *transform;
    let ghost s0 = *sprite;
    let n = m.tick(delta);
    let ghost m1 = m;
    let ghost d0 = m0.done();
    let ghost si = m0.steps as int;
    let q = transform.den / (m.steps as u64);
    let ghost ui = step_num(m0.tile_size as int, t0.den as int, si);
    proof {
        lemma_due_monotone(m1.elapsed as int, m1.nanos as int, m1.steps as int, m1.nanos as int);
        assert((m.tile_size as int) * (q as int) == ui);
    }
    let u: u64 = (m.tile_size as u64) * q;
    let mut k: u32 = 0;
    while k < n
        invariant
            0 <= k <= n,
            m.wf(),
            m0.wf(),
            m == (Movement { steps_remaining: m.steps_remaining, ..m1 }),
            m.done() == d0 + k,
            d0 + n == m1.due(),
            m1.due() <= m1.steps,
            m1 == m0.spec_tick(delta),
            d0 == m0.done(),
            si == m0.steps,
            u == ui,
            u <= i64::MAX,
            fits_i64(t0.x as int),
            fits_i64(t0.y as int),
            fits_i64(t0.x + m0.change_x * ((si - d0) * ui)),
            fits_i64(t0.y + m0.change_y * ((si - d0) * ui)),
            (m0.change_x as int, m0.change_y as int) == unit_of(m0.orientation),
            transform.z == t0.z,
            transform.den == t0.den,
            transform.x == t0.x + m0.change_x * (k * ui),
            transform.y == t0.y + m0.change_y * (k * ui),
            *sprite == substep_visual(s0, m0.orientation, k as nat),
        decreases n - k,
    {
        proof {
            let ki = k as int;
            assert(0 <= (ki + 1) * ui <= (si - d0) * ui && ki * ui + ui == (ki + 1) * ui)
                by (nonlinear_arith)
                requires
                    0 <= ki,
                    ki + 1 <= si - d0,
                    0 <= ui,
            ;
            lemma_unit_step_fits(t0.x as int, m0.change_x as int, 0, (ki + 1) * ui, (si - d0) * ui);
            lemma_unit_step_fits(t0.y as int, m0.change_y as int, 0, (ki + 1) * ui, (si - d0) * ui);
            lemma_scale_adds(m0.change_x as int, ki * ui, ui);
            lemma_scale_adds(m0.change_y as int, ki * ui, ui);
        }
        m.complete_substep();
        transform.x = transform.x + scaled(m.change_x, u);
        transform.y = transform.y + scaled(m.change_y, u);
        match sprite.frame {
            None => {},
            Some(i) => match m.orientation {
                Orientation::Up | Orientation::Down => sprite.flip_x = !sprite.flip_x,
                Orientation::Left | Orientation::Right => {
                    sprite.frame = Some(
                        if i == SPRITE_LEFT1_INDEX {
                            SPRITE_LEFT2_INDEX
                        } else {
                            SPRITE_LEFT1_INDEX
                        },
                    );
                },
            },
        }
        k = k + 1;
    }
    proof {
        let ni = n as int;
        let d1 = d0 + ni;
        assert(ni * ui + (si - d1) * ui == (si - d0) * ui) by (nonlinear_arith)
            requires
                d1 == d0 + ni,
        ;
        lemma_scale_adds(m0.change_x as int, ni * ui, (si - d1) * ui);
        lemma_scale_adds(m0.change_y as int, ni * ui, (si - d1) * ui);
        let den = t0.den as int;
        lemma_fundamental_div_mod(den, si);
        assert(m0.change_x * (ni * ui) * si == m0.change_x * m0.tile_size * ni * den
            && m0.change_y * (ni * ui) * si == m0.change_y * m0.tile_size * ni * den)
            by (nonlinear_arith)
            requires
                den == si * (den / si) + den % si,
                den % si == 0,
                ui == m0.tile_size * (den / si),
        ;
    }
    if m.is_done() {
        movable.movement_state = MovementState::Idle;
        movable.movement = None;
    } else {
        movable.movement = Some(m);
    }
    n
}

} // verus!
