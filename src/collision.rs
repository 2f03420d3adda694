//! Broad-phase collision detection: axis-aligned bounding boxes of fixed half
//! extents per kind, ship against asteroids and bullets against asteroids.
use vstd::prelude::*;
use crate::asteroids::{Asteroid, ASTEROID_HALF_EXTENT};
use crate::bullets::{Bullet, BULLET_HALF_EXTENT, lemma_in_range_bounds};
use crate::geometry::{boxes_intersect, intersects};
use crate::ship::{Ship, SHIP_HALF_EXTENT};

verus! {

/// What the collision pass marks in one tick. Each entity is marked once,
/// however many others overlap it.
#[derive(Debug)]
pub struct Hits {
    pub ship: bool,
    /// One mark per asteroid, in the order of the asteroids.
    pub asteroids: Vec<bool>,
    /// One mark per bullet, in the order of the bullets.
    pub bullets: Vec<bool>,
}

pub open spec fn ship_touches(s: Ship, a: Asteroid) -> bool {
    boxes_intersect(s.position, SHIP_HALF_EXTENT as int, a.position, ASTEROID_HALF_EXTENT as int)
}

pub open spec fn bullet_touches(b: Bullet, a: Asteroid) -> bool {
    boxes_intersect(b.position, BULLET_HALF_EXTENT as int, a.position, ASTEROID_HALF_EXTENT as int)
}

/// Whether asteroid `a` is hit: the ship or at least one bullet overlaps it.
pub open spec fn asteroid_hit(ship: Option<Ship>, bullets: Seq<Bullet>, a: Asteroid) -> bool {
    ||| (ship matches Some(s) && ship_touches(s, a))
    ||| exists|j: int| 0 <= j < bullets.len() && bullet_touches(#[trigger] bullets[j], a)
}

/// Whether bullet `b` is hit: it overlaps at least one asteroid.
pub open spec fn bullet_hit(b: Bullet, asteroids: Seq<Asteroid>) -> bool {
    exists|i: int| 0 <= i < asteroids.len() && bullet_touches(b, #[trigger] asteroids[i])
}

/// Whether the ship is hit: it exists and overlaps at least one asteroid.
pub open spec fn ship_hit(ship: Option<Ship>, asteroids: Seq<Asteroid>) -> bool {
    ship matches Some(s) && exists|i: int|
        0 <= i < asteroids.len() && ship_touches(s, #[trigger] asteroids[i])
}

/// The marks of the collision pass over these entities.
pub open spec fn hits_match(
    h: Hits,
    ship: Option<Ship>,
    asteroids: Seq<Asteroid>,
    bullets: Seq<Bullet>,
) -> bool {
    &&& h.ship == ship_hit(ship, asteroids)
    &&& h.asteroids@.len() == asteroids.len()
    &&& h.bullets@.len() == bullets.len()
    &&& forall|i: int|
        0 <= i < asteroids.len() ==> h.asteroids@[i] == asteroid_hit(
            ship,
            bullets,
            #[trigger] asteroids[i],
        )
    &&& forall|j: int|
        0 <= j < bullets.len() ==> h.bullets@[j] == bullet_hit(#[trigger] bullets[j], asteroids)
}

/// Tests the ship and every bullet against every asteroid.
pub fn detect_collisions(ship: &Option<Ship>, asteroids: &Vec<Asteroid>, bullets: &Vec<Bullet>) -> (r: Hits)
    requires
        ship matches Some(s) ==> s.wf(),
        forall|i: int| 0 <= i < asteroids@.len() ==> (#[trigger] asteroids@[i]).wf(),
        forall|j: int| 0 <= j < bullets@.len() ==> (#[trigger] bullets@[j]).wf(),
    ensures
        hits_match(r, *ship, asteroids@, bullets@),
{
    let na = asteroids.len();
    let nb = bullets.len();
    let mut ship_mark = false;
    let mut amarks: Vec<bool> = Vec::new();
    for i in 0..na
        invariant
            na == asteroids@.len(),
            nb == bullets@.len(),
            ship matches Some(s) ==> s.wf(),
            forall|t: int| 0 <= t < asteroids@.len() ==> (#[trigger] asteroids@[t]).wf(),
            forall|t: int| 0 <= t < bullets@.len() ==> (#[trigger] bullets@[t]).wf(),
            amarks@.len() == i,
            forall|t: int|
                0 <= t < i ==> amarks@[t] == asteroid_hit(*ship, bullets@, #[trigger] asteroids@[t]),
            ship_mark == (*ship matches Some(s) && exists|t: int|
                0 <= t < i && ship_touches(s, #[trigger] asteroids@[t])),
    {
        let a = asteroids[i];
        let mut mark = false;
        if let Some(s) = ship {
            if intersects(s.position, SHIP_HALF_EXTENT, a.position, ASTEROID_HALF_EXTENT) {
                mark = true;
                ship_mark = true;
            }
        }
        let ghost by_ship = mark;
        for j in 0..nb
            invariant
                nb == bullets@.len(),
                a == asteroids@[i as int],
                a.wf(),
                forall|t: int| 0 <= t < bullets@.len() ==> (#[trigger] bullets@[t]).wf(),
                mark == (by_ship || exists|t: int|
                    0 <= t < j && bullet_touches(#[trigger] bullets@[t], a)),
        {
            let b = bullets[j];
            proof {
                lemma_in_range_bounds(b);
            }
            if intersects(b.position, BULLET_HALF_EXTENT, a.position, ASTEROID_HALF_EXTENT) {
                mark = true;
            }
        }
        amarks.push(mark);
    }
    let mut bmarks: Vec<bool> = Vec::new();
    for j in 0..nb
        invariant
            na == asteroids@.len(),
            nb == bullets@.len(),
            forall|t: int| 0 <= t < asteroids@.len() ==> (#[trigger] asteroids@[t]).wf(),
            forall|t: int| 0 <= t < bullets@.len() ==> (#[trigger] bullets@[t]).wf(),
            bmarks@.len() == j,
            forall|t: int|
                0 <= t < j ==> bmarks@[t] == bullet_hit(#[trigger] bullets@[t], asteroids@),
    {
        let b = bullets[j];
        proof {
            lemma_in_range_bounds(b);
        }
        let mut mark = false;
        for i in 0..na
            invariant
                na == asteroids@.len(),
                b == bullets@[j as int],
                b.wf(),
                b.position.within_reach(),
                forall|t: int| 0 <= t < asteroids@.len() ==> (#[trigger] asteroids@[t]).wf(),
                mark == exists|t: int| 0 <= t < i && bullet_touches(b, #[trigger] asteroids@[t]),
        {
            let a = asteroids[i];
            if intersects(b.position, BULLET_HALF_EXTENT, a.position, ASTEROID_HALF_EXTENT) {
                mark = true;
            }
        }
        bmarks.push(mark);
    }
    Hits { ship: ship_mark, asteroids: amarks, bullets: bmarks }
}

} // verus!
