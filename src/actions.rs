//! Player intents for one tick: a movement vector from the direction keys and
//! a shot when the fire key has just been pressed.
use vstd::prelude::*;
use crate::geometry::{Heading, Position};
use crate::ship::{facing, Ship};

verus! {

/// Length of a full deflection of the movement vector.
pub const AXIS_ONE: i64 = 1000;

/// Each component of a diagonal movement vector of unit length.
pub const AXIS_DIAGONAL: i64 = 707;

/// Movement intent, each component scaled by `AXIS_ONE`: `x` turns the ship
/// (positive turns clockwise), `y` thrusts (only positive values do).
#[derive(Clone, Copy, Debug, PartialEq, Eq, Structural)]
pub struct Movement {
    pub x: i64,
    pub y: i64,
}

impl Movement {
    pub open spec fn valid(self) -> bool {
        -AXIS_ONE <= self.x <= AXIS_ONE && -AXIS_ONE <= self.y <= AXIS_ONE
    }
}

/// The movement intent of the current tick; `None` while no direction key is
/// held.
#[derive(Clone, Copy, Debug, PartialEq, Eq, Structural)]
pub struct Actions {
    pub player_movement: Option<Movement>,
}

/// The shot of the current tick, if the fire key has just been pressed: the
/// ship's facing and position at that moment.
#[derive(Clone, Copy, Debug, PartialEq, Eq, Structural)]
pub struct FiredAction {
    pub heading: Option<Heading>,
    pub position: Option<Position>,
}

impl Actions {
    pub fn new() -> (r: Actions)
        ensures
            r.player_movement is None,
    {
        Actions { player_movement: None }
    }

    pub open spec fn valid(self) -> bool {
        match self.player_movement {
            Some(m) => m.valid(),
            None => true,
        }
    }
}

impl FiredAction {
    pub fn new() -> (r: FiredAction)
        ensures
            r.heading is None,
            r.position is None,
    {
        FiredAction { heading: None, position: None }
    }
}

/// Whether the movement intent thrusts: only a forward push does.
pub open spec fn pushes_forward(movement: Option<Movement>) -> bool {
    match movement {
        Some(m) => m.y > 0,
        None => false,
    }
}

/// `1`, `-1` or `0` for a pair of opposite keys.
pub open spec fn axis(positive: bool, negative: bool) -> int {
    (if positive { 1int } else { 0int }) - (if negative { 1int } else { 0int })
}

/// The normalised movement vector for the held direction keys, or `None`
/// when they cancel out or none is held.
pub open spec fn movement_for(right: bool, left: bool, up: bool, down: bool) -> Option<Movement> {
    let x = axis(right, left);
    let y = axis(up, down);
    if x == 0 && y == 0 {
        None
    } else if x != 0 && y != 0 {
        Some(Movement { x: (x * AXIS_DIAGONAL) as i64, y: (y * AXIS_DIAGONAL) as i64 })
    } else {
        Some(Movement { x: (x * AXIS_ONE) as i64, y: (y * AXIS_ONE) as i64 })
    }
}

fn axis_of(positive: bool, negative: bool) -> (r: i64)
    ensures
        r == axis(positive, negative),
{
    (if positive { 1 } else { 0 }) - (if negative { 1 } else { 0 })
}

/// Records the movement intent for the direction keys held this tick.
pub fn set_movement_actions(actions: &mut Actions, right: bool, left: bool, up: bool, down: bool)
    ensures
        final(actions).player_movement == movement_for(right, left, up, down),
        final(actions).valid(),
{
    let x = axis_of(right, left);
    let y = axis_of(up, down);
    if x == 0 && y == 0 {
        actions.player_movement = None;
    } else if x != 0 && y != 0 {
        actions.player_movement = Some(Movement { x: x * AXIS_DIAGONAL, y: y * AXIS_DIAGONAL });
    } else {
        actions.player_movement = Some(Movement { x: x * AXIS_ONE, y: y * AXIS_ONE });
    }
}

/// Records a shot when the fire key has just been pressed and a ship is
/// flying: it leaves from the ship's position along the ship's facing.
/// Otherwise no shot is recorded.
pub fn set_fired_actions(actions: &mut FiredAction, just_pressed: bool, ship: &Option<Ship>)
    requires
        ship matches Some(s) ==> s.wf(),
    ensures
        match (just_pressed, *ship) {
            (true, Some(s)) => {
                &&& final(actions).heading == Some(facing(s.angle as int))
                &&& final(actions).position == Some(s.position)
            },
            _ => final(actions).heading is None && final(actions).position is None,
        },
{
    match (just_pressed, ship) {
        (true, Some(s)) => {
            actions.heading = Some(s.facing());
            actions.position = Some(s.position);
        },
        _ => {
            actions.heading = None;
            actions.position = None;
        },
    }
}

} // verus!
