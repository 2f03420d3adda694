//! Fixed-point plane geometry: positions, velocities, headings, the toroidal
//! wrap of the window and axis-aligned bounding boxes.
use vstd::prelude::*;

verus! {

/// Units per screen pixel.
pub const SCALE: i64 = 1000;

/// Every stored coordinate stays within `[-COORD_LIMIT, COORD_LIMIT]`;
/// a displacement that would leave that range saturates at its edge.
pub const COORD_LIMIT: i64 = 0x1000_0000_0000_0000;

/// Every stored velocity component stays within `[-SPEED_LIMIT, SPEED_LIMIT]`.
/// This is a bound of representation, far beyond any speed reached in play:
/// thrust saturates there instead of overflowing, and there is no other cap.
pub const SPEED_LIMIT: i64 = 0x100_0000_0000;

/// Largest accepted half-width or half-height of the window, in units.
pub const MAX_HALF_EXTENT: i64 = 0x100_0000_0000;

/// Scale of a heading: a unit direction has length `HEADING_ONE`.
pub const HEADING_ONE: i64 = 1000;

/// `v` forced into `[-lim, lim]`.
pub open spec fn clamp(v: int, lim: int) -> int {
    if v > lim {
        lim
    } else if v < -lim {
        -lim
    } else {
        v
    }
}

/// Integer division rounding toward zero, as Rust's `/` does.
pub open spec fn div_toward_zero(n: int, d: int) -> int {
    if n >= 0 {
        n / d
    } else {
        -((-n) / d)
    }
}

/// Computes `n / d` rounded toward zero.
pub fn div_trunc(n: i64, d: i64) -> (r: i64)
    requires
        d > 0,
        n > i64::MIN,
    ensures
        r == div_toward_zero(n as int, d as int),
{
    if n >= 0 {
        n / d
    } else {
        let m: i64 = -n;
        -(m / d)
    }
}

/// A point of the plane, in units, origin at the window's centre.
#[derive(Clone, Copy, Debug, PartialEq, Eq, Structural)]
pub struct Position {
    pub x: i64,
    pub y: i64,
}

/// A displacement per tick, in units.
#[derive(Clone, Copy, Debug, PartialEq, Eq, Structural)]
pub struct Velocity {
    pub x: i64,
    pub y: i64,
}

/// A direction, each component scaled by `HEADING_ONE`.
#[derive(Clone, Copy, Debug, PartialEq, Eq, Structural)]
pub struct Heading {
    pub x: i64,
    pub y: i64,
}

/// The window, by its half extents in units.
#[derive(Clone, Copy, Debug, PartialEq, Eq, Structural)]
pub struct Viewport {
    pub half_width: i64,
    pub half_height: i64,
}

/// `p` displaced by `v`, saturating at `COORD_LIMIT`.
pub open spec fn displaced_position(p: Position, v: Velocity) -> Position {
    Position {
        x: clamp(p.x + v.x, COORD_LIMIT as int) as i64,
        y: clamp(p.y + v.y, COORD_LIMIT as int) as i64,
    }
}

/// `p` folded back into `view` (see `wrapped`).
pub open spec fn wrapped_position(p: Position, view: Viewport) -> Position {
    let w = wrapped(p.x as int, p.y as int, view.half_width as int, view.half_height as int);
    Position { x: w.0 as i64, y: w.1 as i64 }
}

impl Position {
    pub open spec fn bounded(self) -> bool {
        -COORD_LIMIT <= self.x <= COORD_LIMIT && -COORD_LIMIT <= self.y <= COORD_LIMIT
    }

    /// The origin, the centre of the window.
    pub fn zero() -> (r: Position)
        ensures
            r.x == 0 && r.y == 0,
    {
        Position { x: 0, y: 0 }
    }

    /// This position displaced by `v`, saturating at `COORD_LIMIT`.
    pub fn displaced(self, v: Velocity) -> (r: Position)
        requires
            self.bounded(),
            v.bounded(),
        ensures
            r.x == clamp(self.x + v.x, COORD_LIMIT as int),
            r.y == clamp(self.y + v.y, COORD_LIMIT as int),
            r == displaced_position(self, v),
            r.bounded(),
    {
        Position { x: clamp_coord(self.x + v.x), y: clamp_coord(self.y + v.y) }
    }
}

impl Position {
    /// Loose bound that positions of bullets, which are never clamped, obey.
    pub open spec fn within_reach(self) -> bool {
        -2 * COORD_LIMIT <= self.x <= 2 * COORD_LIMIT && -2 * COORD_LIMIT <= self.y <= 2
            * COORD_LIMIT
    }
}

impl Velocity {
    pub open spec fn bounded(self) -> bool {
        -SPEED_LIMIT <= self.x <= SPEED_LIMIT && -SPEED_LIMIT <= self.y <= SPEED_LIMIT
    }

    /// No motion.
    pub fn zero() -> (r: Velocity)
        ensures
            r.x == 0 && r.y == 0,
    {
        Velocity { x: 0, y: 0 }
    }
}

impl Heading {
    pub open spec fn bounded(self) -> bool {
        -HEADING_ONE <= self.x <= HEADING_ONE && -HEADING_ONE <= self.y <= HEADING_ONE
    }
}

impl Viewport {
    pub open spec fn valid(self) -> bool {
        0 < self.half_width <= MAX_HALF_EXTENT && 0 < self.half_height <= MAX_HALF_EXTENT
    }

    /// Whether `p` lies inside the window, edges included.
    pub open spec fn contains(self, p: Position) -> bool {
        -self.half_width <= p.x <= self.half_width && -self.half_height <= p.y
            <= self.half_height
    }
}

/// `v` saturated at `COORD_LIMIT`.
fn clamp_coord(v: i64) -> (r: i64)
    ensures
        r == clamp(v as int, COORD_LIMIT as int),
{
    if v > COORD_LIMIT {
        COORD_LIMIT
    } else if v < -COORD_LIMIT {
        -COORD_LIMIT
    } else {
        v
    }
}

/// The toroidal fold of `(x, y)` into a window of half extents `hw` and `hh`.
/// Four checks in this order, each on the point the earlier ones left:
/// past the right edge, past the left edge, past the top edge, past the
/// bottom edge. Crossing a vertical edge also mirrors `y`, crossing a
/// horizontal edge also mirrors `x`.
pub open spec fn wrapped(x: int, y: int, hw: int, hh: int) -> (int, int) {
    let r1 = if x > hw { (x - 2 * hw, -y) } else { (x, y) };
    let r2 = if r1.0 < -hw { (r1.0 + 2 * hw, -r1.1) } else { r1 };
    let r3 = if r2.1 > hh { (-r2.0, r2.1 - 2 * hh) } else { r2 };
    if r3.1 < -hh { (-r3.0, r3.1 + 2 * hh) } else { r3 }
}

/// Folds a position that left the window back into it (see `wrapped`).
pub fn wrap(p: Position, view: Viewport) -> (r: Position)
    requires
        p.bounded(),
        view.valid(),
    ensures
        (r.x as int, r.y as int) == wrapped(
            p.x as int,
            p.y as int,
            view.half_width as int,
            view.half_height as int,
        ),
        r == wrapped_position(p, view),
        r.bounded(),
{
    let hw = view.half_width;
    let hh = view.half_height;
    let mut x = p.x;
    let mut y = p.y;
    if x > hw {
        x = x - 2 * hw;
        y = -y;
    }
    if x < -hw {
        x = x + 2 * hw;
        y = -y;
    }
    if y > hh {
        x = -x;
        y = y - 2 * hh;
    }
    if y < -hh {
        x = -x;
        y = y + 2 * hh;
    }
    Position { x, y }
}

/// A point that overshot a vertical edge by at most two window widths, and
/// stays between the horizontal edges, comes back between the vertical edges
/// with its `y` mirrored.
pub proof fn lemma_wrap_across_vertical_edge(x: int, y: int, hw: int, hh: int)
    requires
        hw > 0,
        hh > 0,
        hw < x <= 3 * hw || -3 * hw <= x < -hw,
        -hh <= y <= hh,
    ensures
        -hw <= wrapped(x, y, hw, hh).0 <= hw,
        wrapped(x, y, hw, hh).1 == -y,
{
}

/// A point that overshot a horizontal edge by at most two window heights,
/// and stays between the vertical edges, comes back between the horizontal
/// edges with its `x` mirrored.
pub proof fn lemma_wrap_across_horizontal_edge(x: int, y: int, hw: int, hh: int)
    requires
        hw > 0,
        hh > 0,
        hh < y <= 3 * hh || -3 * hh <= y < -hh,
        -hw <= x <= hw,
    ensures
        wrapped(x, y, hw, hh).0 == -x,
        -hh <= wrapped(x, y, hw, hh).1 <= hh,
{
}

/// A point past the right and the top edge at once is folded by both: it
/// lands at `(2 * hw - x, 2 * hh - y)`, inside the window.
pub proof fn lemma_wrap_across_corner(x: int, y: int, hw: int, hh: int)
    requires
        hw > 0,
        hh > 0,
        hw < x <= 3 * hw,
        hh < y <= 3 * hh,
    ensures
        wrapped(x, y, hw, hh) == (2 * hw - x, 2 * hh - y),
        -hw <= wrapped(x, y, hw, hh).0 <= hw,
        -hh <= wrapped(x, y, hw, hh).1 <= hh,
{
}

/// Every point within two window extents of the window, on each axis, is
/// folded into the window.
pub proof fn lemma_wrap_lands_inside(x: int, y: int, hw: int, hh: int)
    requires
        hw > 0,
        hh > 0,
        -3 * hw <= x <= 3 * hw,
        -3 * hh <= y <= 3 * hh,
    ensures
        -hw <= wrapped(x, y, hw, hh).0 <= hw,
        -hh <= wrapped(x, y, hw, hh).1 <= hh,
{
}

/// A point inside the window is left where it is.
pub proof fn lemma_wrap_inside_is_identity(x: int, y: int, hw: int, hh: int)
    requires
        -hw <= x <= hw,
        -hh <= y <= hh,
    ensures
        wrapped(x, y, hw, hh) == (x, y),
{
}

/// Whether the axis-aligned boxes centred on `a` and `b`, with half extents
/// `ha` and `hb`, touch or overlap (edges included).
pub open spec fn boxes_intersect(a: Position, ha: int, b: Position, hb: int) -> bool {
    &&& a.x - ha <= b.x + hb
    &&& a.x + ha >= b.x - hb
    &&& a.y - ha <= b.y + hb
    &&& a.y + ha >= b.y - hb
}

/// Tests two axis-aligned bounding boxes for intersection.
pub fn intersects(a: Position, ha: i64, b: Position, hb: i64) -> (r: bool)
    requires
        a.within_reach(),
        b.within_reach(),
        0 <= ha <= COORD_LIMIT,
        0 <= hb <= COORD_LIMIT,
    ensures
        r == boxes_intersect(a, ha as int, b, hb as int),
{
    a.x - ha <= b.x + hb && a.x + ha >= b.x - hb && a.y - ha <= b.y + hb && a.y + ha >= b.y - hb
}

} // verus!
