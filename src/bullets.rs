//! Bullets: they fly straight from where they were fired and vanish once
//! farther than `BULLET_RANGE` from there.
use vstd::prelude::*;
use crate::actions::FiredAction;
use crate::geometry::{Heading, Position, HEADING_ONE, SCALE};

verus! {

/// Displacement per tick for each unit of heading: a unit heading moves a
/// bullet ten pixels per tick.
pub const BULLET_SPEED: i64 = 10;

/// Largest displacement of a bullet along one axis in one tick.
pub const BULLET_STEP_LIMIT: i64 = HEADING_ONE * BULLET_SPEED;

/// Distance from its origin beyond which a bullet is gone.
pub const BULLET_RANGE: i64 = 1000 * SCALE;

/// Half extent of a bullet's bounding box.
pub const BULLET_HALF_EXTENT: i64 = SCALE;

/// Radius of the drawn bullet.
pub const BULLET_RADIUS: i64 = 2 * SCALE;

#[derive(Clone, Copy, Debug, PartialEq, Eq, Structural)]
pub struct Bullet {
    /// Where the bullet was fired.
    pub origin: Position,
    pub position: Position,
    pub heading: Heading,
}

impl Bullet {
    /// Square of the distance travelled from the origin.
    pub open spec fn travelled_sq(self) -> int {
        let dx = self.position.x - self.origin.x;
        let dy = self.position.y - self.origin.y;
        dx * dx + dy * dy
    }

    /// Whether the bullet is no farther than `BULLET_RANGE` from its origin.
    pub open spec fn in_range(self) -> bool {
        self.travelled_sq() <= BULLET_RANGE * BULLET_RANGE
    }

    /// Bounds that hold of a bullet at every point of a tick.
    pub open spec fn moving(self) -> bool {
        &&& self.origin.bounded()
        &&& self.heading.bounded()
        &&& -(BULLET_RANGE + BULLET_STEP_LIMIT) <= self.position.x - self.origin.x <= BULLET_RANGE
            + BULLET_STEP_LIMIT
        &&& -(BULLET_RANGE + BULLET_STEP_LIMIT) <= self.position.y - self.origin.y <= BULLET_RANGE
            + BULLET_STEP_LIMIT
    }

    /// What holds of every live bullet between ticks.
    pub open spec fn wf(self) -> bool {
        self.moving() && self.in_range()
    }

    /// A bullet fired from `position` along `heading`.
    pub fn new(heading: Heading, position: Position) -> (r: Bullet)
        requires
            position.bounded(),
            heading.bounded(),
        ensures
            r.origin == position,
            r.position == position,
            r.heading == heading,
            r.wf(),
    {
        let r = Bullet { origin: position, position, heading };
        assert(r.travelled_sq() == 0) by (nonlinear_arith)
            requires
                r.position == r.origin,
                r.travelled_sq() == (r.position.x - r.origin.x) * (r.position.x - r.origin.x) + (
                r.position.y - r.origin.y) * (r.position.y - r.origin.y),
        ;
        r
    }

    /// Moves the bullet one tick along its heading.
    pub fn displace(&mut self)
        requires
            old(self).wf(),
        ensures
            final(self).position.x == old(self).position.x + old(self).heading.x * BULLET_SPEED,
            final(self).position.y == old(self).position.y + old(self).heading.y * BULLET_SPEED,
            final(self).origin == old(self).origin,
            final(self).heading == old(self).heading,
            *final(self) == displaced_bullet(*old(self)),
            final(self).moving(),
    {
        proof {
            lemma_in_range_bounds(*self);
        }
        self.position = Position {
            x: self.position.x + self.heading.x * BULLET_SPEED,
            y: self.position.y + self.heading.y * BULLET_SPEED,
        };
    }

    /// Whether the bullet is still within range of its origin.
    pub fn within_range(&self) -> (r: bool)
        requires
            self.moving(),
        ensures
            r == self.in_range(),
    {
        let dx = self.position.x - self.origin.x;
        let dy = self.position.y - self.origin.y;
        proof {
            assert(BULLET_RANGE == 1000000 && BULLET_STEP_LIMIT == 10000);
            assert(0 <= dx * dx && 0 <= dy * dy) by (nonlinear_arith);
            assert(dx * dx <= 1010000 * 1010000) by (nonlinear_arith)
                requires
                    -1010000 <= dx <= 1010000,
            ;
            assert(dy * dy <= 1010000 * 1010000) by (nonlinear_arith)
                requires
                    -1010000 <= dy <= 1010000,
            ;
        }
        dx * dx + dy * dy <= BULLET_RANGE * BULLET_RANGE
    }
}

/// The bullet of a recorded shot, if there is one: it leaves from the
/// recorded position along the recorded heading.
pub fn spawn_bullet(fired: &FiredAction) -> (r: Option<Bullet>)
    requires
        fired.heading matches Some(h) ==> h.bounded(),
        fired.position matches Some(p) ==> p.bounded(),
    ensures
        r == match (fired.heading, fired.position) {
            (Some(h), Some(p)) => Some(Bullet { origin: p, position: p, heading: h }),
            _ => None,
        },
        r matches Some(b) ==> b.wf(),
{
    match (fired.heading, fired.position) {
        (Some(h), Some(p)) => Some(Bullet::new(h, p)),
        _ => None,
    }
}

/// `b` after one tick of flight.
pub open spec fn displaced_bullet(b: Bullet) -> Bullet {
    Bullet {
        position: Position {
            x: (b.position.x + b.heading.x * BULLET_SPEED) as i64,
            y: (b.position.y + b.heading.y * BULLET_SPEED) as i64,
        },
        ..b
    }
}

/// Every bullet of `s` after one tick of flight.
pub open spec fn displaced_bullets(s: Seq<Bullet>) -> Seq<Bullet> {
    s.map_values(|b: Bullet| displaced_bullet(b))
}

/// Moves every bullet one tick along its heading.
pub fn displace(bullets: &mut Vec<Bullet>)
    requires
        forall|i: int| 0 <= i < old(bullets)@.len() ==> (#[trigger] old(bullets)@[i]).wf(),
    ensures
        final(bullets)@ == displaced_bullets(old(bullets)@),
        forall|i: int| 0 <= i < final(bullets)@.len() ==> (#[trigger] final(bullets)@[i]).moving(),
{
    let ghost s = bullets@;
    let n = bullets.len();
    for i in 0..n
        invariant
            n == s.len(),
            bullets@.len() == n,
            forall|t: int| 0 <= t < n ==> (#[trigger] s[t]).wf(),
            forall|t: int| 0 <= t < i ==> bullets@[t] == displaced_bullet(#[trigger] s[t]),
            forall|t: int| i <= t < n ==> bullets@[t] == #[trigger] s[t],
            forall|t: int| 0 <= t < i ==> (#[trigger] bullets@[t]).moving(),
    {
        let mut b = bullets[i];
        assert(b == s[i as int]);
        b.displace();
        bullets.set(i, b);
    }
    assert(bullets@ =~= displaced_bullets(s));
}

/// A bullet within range is within `BULLET_RANGE` of its origin on each axis,
/// so its position stays within reach.
pub proof fn lemma_in_range_bounds(b: Bullet)
    requires
        b.in_range(),
        b.origin.bounded(),
    ensures
        -BULLET_RANGE <= b.position.x - b.origin.x <= BULLET_RANGE,
        -BULLET_RANGE <= b.position.y - b.origin.y <= BULLET_RANGE,
        b.position.within_reach(),
{
    let dx = b.position.x - b.origin.x;
    let dy = b.position.y - b.origin.y;
    assert(-1000000 <= dx <= 1000000) by (nonlinear_arith)
        requires
            dx * dx + dy * dy <= 1000000 * 1000000,
    ;
    assert(-1000000 <= dy <= 1000000) by (nonlinear_arith)
        requires
            dx * dx + dy * dy <= 1000000 * 1000000,
    ;
}

/// The bullets among the first `n` of `s` that are within range, in order.
pub open spec fn in_range_prefix(s: Seq<Bullet>, n: nat) -> Seq<Bullet>
    decreases n,
{
    if n == 0 {
        seq![]
    } else {
        let p = in_range_prefix(s, (n - 1) as nat);
        if s[n - 1].in_range() {
            p.push(s[n - 1])
        } else {
            p
        }
    }
}

/// The bullets among the first `n` of `s` that `hit` does not mark, in order.
pub open spec fn unhit_prefix(s: Seq<Bullet>, hit: Seq<bool>, n: nat) -> Seq<Bullet>
    decreases n,
{
    if n == 0 {
        seq![]
    } else {
        let p = unhit_prefix(s, hit, (n - 1) as nat);
        if hit[n - 1] {
            p
        } else {
            p.push(s[n - 1])
        }
    }
}

/// Removes every bullet that has gone farther than `BULLET_RANGE` from its
/// origin; the others stay, in order.
pub fn despawn_bullet(bullets: &mut Vec<Bullet>)
    requires
        forall|i: int| 0 <= i < old(bullets)@.len() ==> (#[trigger] old(bullets)@[i]).moving(),
    ensures
        final(bullets)@ == in_range_prefix(old(bullets)@, old(bullets)@.len()),
        forall|i: int| 0 <= i < final(bullets)@.len() ==> (#[trigger] final(bullets)@[i]).wf(),
{
    let ghost s = bullets@;
    let mut kept: Vec<Bullet> = Vec::new();
    let n = bullets.len();
    for i in 0..n
        invariant
            n == s.len(),
            s == bullets@,
            forall|j: int| 0 <= j < s.len() ==> (#[trigger] s[j]).moving(),
            kept@ == in_range_prefix(s, i as nat),
            forall|j: int| 0 <= j < kept@.len() ==> (#[trigger] kept@[j]).wf(),
    {
        let b = bullets[i];
        if b.within_range() {
            kept.push(b);
        }
    }
    *bullets = kept;
}

/// Removes the bullets that `hit` marks; the others stay, in order.
pub fn remove_hit_bullets(bullets: &mut Vec<Bullet>, hit: &Vec<bool>)
    requires
        hit@.len() == old(bullets)@.len(),
        forall|i: int| 0 <= i < old(bullets)@.len() ==> (#[trigger] old(bullets)@[i]).wf(),
    ensures
        final(bullets)@ == unhit_prefix(old(bullets)@, hit@, hit@.len()),
        forall|i: int| 0 <= i < final(bullets)@.len() ==> (#[trigger] final(bullets)@[i]).wf(),
{
    let ghost s = bullets@;
    let mut kept: Vec<Bullet> = Vec::new();
    let n = bullets.len();
    for i in 0..n
        invariant
            n == s.len(),
            s == bullets@,
            hit@.len() == n,
            forall|j: int| 0 <= j < s.len() ==> (#[trigger] s[j]).wf(),
            kept@ == unhit_prefix(s, hit@, i as nat),
            forall|j: int| 0 <= j < kept@.len() ==> (#[trigger] kept@[j]).wf(),
    {
        if !hit[i] {
            kept.push(bullets[i]);
        }
    }
    *bullets = kept;
}

/// A bullet fired from `origin` along `heading`, after `n` ticks of flight.
pub open spec fn flown(origin: Position, heading: Heading, n: nat) -> (int, int) {
    (origin.x + n * heading.x * BULLET_SPEED, origin.y + n * heading.y * BULLET_SPEED)
}

/// Square of the distance a bullet covers in `n` ticks along `heading`.
pub open spec fn flight_sq(heading: Heading, n: nat) -> int {
    let dx = n * heading.x * BULLET_SPEED;
    let dy = n * heading.y * BULLET_SPEED;
    dx * dx + dy * dy
}

/// A bullet whose flight from its origin has lasted `n` ticks is kept by
/// `despawn_bullet` exactly while `flight_sq(heading, n)` does not exceed
/// the square of `BULLET_RANGE`; that distance never shrinks from one tick to
/// the next, so a bullet is removed on the first tick on which it exceeds the
/// range and on no earlier one.
pub proof fn lemma_bullet_range(b: Bullet, n: nat)
    requires
        (b.position.x as int, b.position.y as int) == flown(b.origin, b.heading, n),
    ensures
        b.in_range() <==> flight_sq(b.heading, n) <= BULLET_RANGE * BULLET_RANGE,
        n > 0 ==> flight_sq(b.heading, (n - 1) as nat) <= flight_sq(b.heading, n),
{
    if n > 0 {
        let hx = b.heading.x * BULLET_SPEED;
        let hy = b.heading.y * BULLET_SPEED;
        let m = (n - 1) as nat;
        assert(flight_sq(b.heading, m) == m * m * (hx * hx + hy * hy)) by (nonlinear_arith)
            requires
                hx == b.heading.x * BULLET_SPEED,
                hy == b.heading.y * BULLET_SPEED,
                flight_sq(b.heading, m) == (m * b.heading.x * BULLET_SPEED) * (m * b.heading.x
                    * BULLET_SPEED) + (m * b.heading.y * BULLET_SPEED) * (m * b.heading.y
                    * BULLET_SPEED),
        ;
        assert(flight_sq(b.heading, n) == n * n * (hx * hx + hy * hy)) by (nonlinear_arith)
            requires
                hx == b.heading.x * BULLET_SPEED,
                hy == b.heading.y * BULLET_SPEED,
                flight_sq(b.heading, n) == (n * b.heading.x * BULLET_SPEED) * (n * b.heading.x
                    * BULLET_SPEED) + (n * b.heading.y * BULLET_SPEED) * (n * b.heading.y
                    * BULLET_SPEED),
        ;
        assert(m * m * (hx * hx + hy * hy) <= n * n * (hx * hx + hy * hy)) by (nonlinear_arith)
            requires
                m + 1 == n,
                m >= 0,
        ;
    }
}

} // verus!
