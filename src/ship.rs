//! The player's ship: it turns, thrusts along its facing and coasts without
//! drag.
use vstd::prelude::*;
use crate::actions::{pushes_forward, Movement, AXIS_ONE};
use crate::geometry::{
    clamp, displaced_position, div_toward_zero, div_trunc, wrapped_position, Heading, Position,
    Velocity, Viewport, COORD_LIMIT, SCALE, SPEED_LIMIT,
};

verus! {

/// Angle units in a full turn.
pub const TURN: i64 = 4096;

/// Entries of the direction table, evenly spread over a turn.
pub const DIRECTIONS: i64 = 64;

/// Angle units per entry of the direction table.
pub const ANGLE_PER_DIRECTION: i64 = 64;

/// Angle units turned per tick at full deflection of the turn axis.
pub const ROTATION_STEP: i64 = 71;

/// Velocity gained per tick at full thrust along a unit facing, in units per
/// tick.
pub const THRUST_GAIN: i64 = 73;

/// Half extent of the ship's bounding box.
pub const SHIP_HALF_EXTENT: i64 = 15 * SCALE;

/// Radius of the drawn ship.
pub const SHIP_RADIUS: i64 = 15 * SCALE;

/// One thousand times the sine of `k` sixty-fourths of a turn, for `k` in
/// `0..=16`, rounded.
pub open spec fn quarter_sine(k: int) -> int {
    if k <= 0 { 0 }
    else if k == 1 { 98 }
    else if k == 2 { 195 }
    else if k == 3 { 290 }
    else if k == 4 { 383 }
    else if k == 5 { 471 }
    else if k == 6 { 556 }
    else if k == 7 { 634 }
    else if k == 8 { 707 }
    else if k == 9 { 773 }
    else if k == 10 { 831 }
    else if k == 11 { 882 }
    else if k == 12 { 924 }
    else if k == 13 { 957 }
    else if k == 14 { 981 }
    else if k == 15 { 995 }
    else { 1000 }
}

/// One thousand times the sine of `k` sixty-fourths of a turn, for `k` in
/// `0..64`.
pub open spec fn sine(k: int) -> int {
    if k <= 16 {
        quarter_sine(k)
    } else if k <= 32 {
        quarter_sine(32 - k)
    } else if k <= 48 {
        -quarter_sine(k - 32)
    } else {
        -quarter_sine(64 - k)
    }
}

/// The unit direction the ship points to at `angle` (counter-clockwise from
/// straight up): `(-sin, cos)` of the angle, taken at the table's direction
/// at or below it.
pub open spec fn facing(angle: int) -> Heading {
    let k = angle / ANGLE_PER_DIRECTION as int;
    Heading { x: -sine(k) as i64, y: sine((k + 16) % 64) as i64 }
}

/// `angle` after a tick of turning with the turn axis at `axis`.
pub open spec fn rotated(angle: int, axis: int) -> int {
    let a = angle - div_toward_zero(axis * ROTATION_STEP, AXIS_ONE as int);
    if a < 0 {
        a + TURN
    } else if a >= TURN {
        a - TURN
    } else {
        a
    }
}

/// Velocity gained in a tick of thrust `thrust` along `f`.
pub open spec fn thrust_delta(f: Heading, thrust: int) -> (int, int) {
    (
        div_toward_zero(f.x * thrust * THRUST_GAIN, 1_000_000),
        div_toward_zero(f.y * thrust * THRUST_GAIN, 1_000_000),
    )
}

/// A ship at rest at the centre of the window, pointing up.
pub open spec fn fresh_ship() -> Ship {
    Ship {
        position: Position { x: 0, y: 0 },
        velocity: Velocity { x: 0, y: 0 },
        heading: Heading { x: 0, y: 0 },
        angle: 0,
    }
}

/// `s` after turning by the movement intent (see `Ship::rotate`).
pub open spec fn rotated_ship(s: Ship, movement: Option<Movement>) -> Ship {
    match movement {
        Some(m) => Ship { angle: rotated(s.angle as int, m.x as int) as i64, ..s },
        None => s,
    }
}

/// `s` after thrusting by the movement intent (see `Ship::accelerate`).
pub open spec fn accelerated_ship(s: Ship, movement: Option<Movement>) -> Ship {
    match movement {
        Some(m) => if m.y > 0 {
            let f = facing(s.angle as int);
            let d = thrust_delta(f, m.y as int);
            Ship {
                velocity: Velocity {
                    x: clamp(s.velocity.x + d.0, SPEED_LIMIT as int) as i64,
                    y: clamp(s.velocity.y + d.1, SPEED_LIMIT as int) as i64,
                },
                heading: f,
                ..s
            }
        } else {
            s
        },
        None => s,
    }
}

/// `s` after one tick of coasting.
pub open spec fn displaced_ship(s: Ship) -> Ship {
    Ship { position: displaced_position(s.position, s.velocity), ..s }
}

/// `s` after one tick: turn, thrust, coast, then fold back into `view`.
pub open spec fn moved_ship(s: Ship, movement: Option<Movement>, view: Viewport) -> Ship {
    let d = displaced_ship(accelerated_ship(rotated_ship(s, movement), movement));
    Ship { position: wrapped_position(d.position, view), ..d }
}

fn quarter_sine_of(k: i64) -> (r: i64)
    requires
        0 <= k <= 16,
    ensures
        r == quarter_sine(k as int),
{
    match k {
        0 => 0,
        1 => 98,
        2 => 195,
        3 => 290,
        4 => 383,
        5 => 471,
        6 => 556,
        7 => 634,
        8 => 707,
        9 => 773,
        10 => 831,
        11 => 882,
        12 => 924,
        13 => 957,
        14 => 981,
        15 => 995,
        _ => 1000,
    }
}

fn sine_of(k: i64) -> (r: i64)
    requires
        0 <= k < 64,
    ensures
        r == sine(k as int),
        -1000 <= r <= 1000,
{
    if k <= 16 {
        quarter_sine_of(k)
    } else if k <= 32 {
        quarter_sine_of(32 - k)
    } else if k <= 48 {
        -quarter_sine_of(k - 32)
    } else {
        -quarter_sine_of(64 - k)
    }
}

/// The ship's facing at `angle` (see `facing`).
pub fn facing_of(angle: i64) -> (r: Heading)
    requires
        0 <= angle < TURN,
    ensures
        r == facing(angle as int),
        r.bounded(),
{
    let k = angle / ANGLE_PER_DIRECTION;
    Heading { x: -sine_of(k), y: sine_of((k + 16) % 64) }
}

#[derive(Clone, Copy, Debug, PartialEq, Eq, Structural)]
pub struct Ship {
    pub position: Position,
    pub velocity: Velocity,
    /// Direction of the last thrust.
    pub heading: Heading,
    /// Rotation in angle units, counter-clockwise from straight up.
    pub angle: i64,
}

impl Ship {
    pub open spec fn wf(self) -> bool {
        &&& self.position.bounded()
        &&& self.velocity.bounded()
        &&& self.heading.bounded()
        &&& 0 <= self.angle < TURN
    }

    /// A ship at rest at the centre of the window, pointing up.
    pub fn new() -> (r: Ship)
        ensures
            r.position == (Position { x: 0, y: 0 }),
            r.velocity == (Velocity { x: 0, y: 0 }),
            r.heading == (Heading { x: 0, y: 0 }),
            r.angle == 0,
            r == fresh_ship(),
            r.wf(),
    {
        Ship {
            position: Position::zero(),
            velocity: Velocity::zero(),
            heading: Heading { x: 0, y: 0 },
            angle: 0,
        }
    }

    /// The direction the ship points to.
    pub fn facing(&self) -> (r: Heading)
        requires
            self.wf(),
        ensures
            r == facing(self.angle as int),
            r.bounded(),
    {
        facing_of(self.angle)
    }

    /// Turns the ship by the turn axis of the movement intent, if any.
    pub fn rotate(&mut self, movement: Option<Movement>)
        requires
            old(self).wf(),
            movement matches Some(m) ==> m.valid(),
        ensures
            final(self).angle == match movement {
                Some(m) => rotated(old(self).angle as int, m.x as int),
                None => old(self).angle as int,
            },
            *final(self) == rotated_ship(*old(self), movement),
            final(self).position == old(self).position,
            final(self).velocity == old(self).velocity,
            final(self).heading == old(self).heading,
            final(self).wf(),
    {
        if let Some(m) = movement {
            let delta = div_trunc(m.x * ROTATION_STEP, AXIS_ONE);
            proof {
                assert(-71000 <= m.x * ROTATION_STEP <= 71000);
                if m.x * ROTATION_STEP >= 0 {
                    assert((m.x * ROTATION_STEP) / 1000 <= 71);
                } else {
                    assert((-(m.x * ROTATION_STEP)) / 1000 <= 71);
                }
            }
            let a = self.angle - delta;
            self.angle = if a < 0 {
                a + TURN
            } else if a >= TURN {
                a - TURN
            } else {
                a
            };
        }
    }

    /// Thrusts along the ship's facing when the movement intent pushes
    /// forward: the velocity grows by `thrust_delta` (saturating at
    /// `SPEED_LIMIT`) and the heading becomes the facing. Returns whether it
    /// thrust.
    pub fn accelerate(&mut self, movement: Option<Movement>) -> (thrust: bool)
        requires
            old(self).wf(),
            movement matches Some(m) ==> m.valid(),
        ensures
            thrust == pushes_forward(movement),
            thrust ==> ({
                let f = facing(old(self).angle as int);
                let d = thrust_delta(f, movement.unwrap().y as int);
                &&& final(self).velocity.x == clamp(
                    old(self).velocity.x + d.0,
                    SPEED_LIMIT as int,
                )
                &&& final(self).velocity.y == clamp(
                    old(self).velocity.y + d.1,
                    SPEED_LIMIT as int,
                )
                &&& final(self).heading == f
            }),
            !thrust ==> final(self).velocity == old(self).velocity && final(self).heading == old(
                self,
            ).heading,
            final(self).position == old(self).position,
            final(self).angle == old(self).angle,
            *final(self) == accelerated_ship(*old(self), movement),
            final(self).wf(),
    {
        match movement {
            Some(m) => {
                if m.y > 0 {
                    let f = self.facing();
                    proof {
                        assert(-1000 * 1000 <= f.x * m.y <= 1000 * 1000) by (nonlinear_arith)
                            requires
                                -1000 <= f.x <= 1000,
                                0 < m.y <= 1000,
                        ;
                        assert(-1000 * 1000 <= f.y * m.y <= 1000 * 1000) by (nonlinear_arith)
                            requires
                                -1000 <= f.y <= 1000,
                                0 < m.y <= 1000,
                        ;
                    }
                    let dx = div_trunc(f.x * m.y * THRUST_GAIN, 1_000_000);
                    let dy = div_trunc(f.y * m.y * THRUST_GAIN, 1_000_000);
                    proof {
                        lemma_thrust_small(f.x * m.y * THRUST_GAIN);
                        lemma_thrust_small(f.y * m.y * THRUST_GAIN);
                    }
                    self.velocity = Velocity {
                        x: clamp_speed(self.velocity.x + dx),
                        y: clamp_speed(self.velocity.y + dy),
                    };
                    self.heading = f;
                    true
                } else {
                    false
                }
            },
            None => false,
        }
    }

    /// Moves the ship one tick along its velocity, saturating at
    /// `COORD_LIMIT`.
    pub fn displace(&mut self)
        requires
            old(self).wf(),
        ensures
            final(self).position.x == clamp(
                old(self).position.x + old(self).velocity.x,
                COORD_LIMIT as int,
            ),
            final(self).position.y == clamp(
                old(self).position.y + old(self).velocity.y,
                COORD_LIMIT as int,
            ),
            final(self).velocity == old(self).velocity,
            final(self).heading == old(self).heading,
            final(self).angle == old(self).angle,
            *final(self) == displaced_ship(*old(self)),
            final(self).wf(),
    {
        self.position = self.position.displaced(self.velocity);
    }
}

proof fn lemma_thrust_small(n: int)
    requires
        -73 * 1000000 <= n <= 73 * 1000000,
    ensures
        -73 <= div_toward_zero(n, 1_000_000) <= 73,
{
}

fn clamp_speed(v: i64) -> (r: i64)
    ensures
        r == clamp(v as int, SPEED_LIMIT as int),
{
    if v > SPEED_LIMIT {
        SPEED_LIMIT
    } else if v < -SPEED_LIMIT {
        -SPEED_LIMIT
    } else {
        v
    }
}

} // verus!
