//! Asteroids: size classes, fragments left by a destroyed asteroid, random
//! velocities and the opening wave.
use vstd::prelude::*;
use crate::geometry::{
    clamp, displaced_position, div_toward_zero, div_trunc, wrap, wrapped_position, Position,
    Velocity, Viewport, COORD_LIMIT, SCALE,
};
use crate::player::points_of;
use crate::random::random_in;
use crate::ship::{facing, facing_of, ANGLE_PER_DIRECTION, DIRECTIONS};

verus! {

/// Half extent of every asteroid's bounding box, whatever its size.
pub const ASTEROID_HALF_EXTENT: i64 = 20 * SCALE;

pub const ASTEROID_RADIUS_LARGE: i64 = 40 * SCALE;
pub const ASTEROID_RADIUS_MEDIUM: i64 = 20 * SCALE;
pub const ASTEROID_RADIUS_SMALL: i64 = 10 * SCALE;

/// Speeds are given in thousandths of a pixel per tick.
pub const SPEED_ONE: i64 = 1000;

/// Fragments move at a speed drawn from `[FRAGMENT_MIN_SPEED, FRAGMENT_MAX_SPEED)`.
pub const FRAGMENT_MIN_SPEED: i64 = 100;
pub const FRAGMENT_MAX_SPEED: i64 = 3000;

/// Speed of the asteroids of a fresh wave.
pub const WAVE_SPEED: i64 = 1000;

/// A fresh wave holds a number of asteroids drawn from `[WAVE_MIN, WAVE_MAX)`.
pub const WAVE_MIN: i64 = 5;
pub const WAVE_MAX: i64 = 10;

#[derive(Clone, Copy, Debug, PartialEq, Eq, Structural)]
pub enum AsteroidSize {
    Large,
    Medium,
    Small,
}

impl AsteroidSize {
    pub open spec fn radius_spec(self) -> int {
        match self {
            AsteroidSize::Large => ASTEROID_RADIUS_LARGE as int,
            AsteroidSize::Medium => ASTEROID_RADIUS_MEDIUM as int,
            AsteroidSize::Small => ASTEROID_RADIUS_SMALL as int,
        }
    }

    /// Radius of the drawn circle, in units.
    pub fn radius(&self) -> (r: i64)
        ensures
            r == self.radius_spec(),
    {
        match self {
            AsteroidSize::Large => ASTEROID_RADIUS_LARGE,
            AsteroidSize::Medium => ASTEROID_RADIUS_MEDIUM,
            AsteroidSize::Small => ASTEROID_RADIUS_SMALL,
        }
    }

    /// Score for destroying an asteroid of this size: smaller is worth more.
    pub open spec fn points_spec(self) -> int {
        match self {
            AsteroidSize::Large => 20,
            AsteroidSize::Medium => 50,
            AsteroidSize::Small => 100,
        }
    }

    pub fn points(&self) -> (r: i32)
        ensures
            r == self.points_spec(),
    {
        match self {
            AsteroidSize::Large => 20,
            AsteroidSize::Medium => 50,
            AsteroidSize::Small => 100,
        }
    }

    /// Size of the fragments that an asteroid of this size leaves; `Small`
    /// leaves none.
    pub open spec fn offspring(self) -> Option<AsteroidSize> {
        match self {
            AsteroidSize::Large => Some(AsteroidSize::Medium),
            AsteroidSize::Medium => Some(AsteroidSize::Small),
            AsteroidSize::Small => None,
        }
    }

    /// Position of the size along the split chain; it strictly decreases
    /// from a size to its offspring.
    pub open spec fn rank(self) -> nat {
        match self {
            AsteroidSize::Large => 2,
            AsteroidSize::Medium => 1,
            AsteroidSize::Small => 0,
        }
    }

    /// Number of fragments an asteroid of this size leaves.
    pub open spec fn fragment_count(self) -> nat {
        if self.offspring() is Some {
            2
        } else {
            0
        }
    }
}

#[derive(Clone, Copy, Debug, PartialEq, Eq, Structural)]
pub struct Asteroid {
    pub position: Position,
    pub velocity: Velocity,
    pub size: AsteroidSize,
}

impl Asteroid {
    pub open spec fn wf(self) -> bool {
        self.position.bounded() && self.velocity.bounded()
    }

    pub fn new(position: Position, velocity: Velocity, size: AsteroidSize) -> (r: Asteroid)
        ensures
            r.position == position,
            r.velocity == velocity,
            r.size == size,
    {
        Asteroid { position, velocity, size }
    }

    /// An asteroid of the given size at `position`, with a random velocity
    /// as fragments get.
    pub fn random_velocity(position: Position, size: AsteroidSize) -> (r: Asteroid)
        ensures
            r.position == position,
            r.size == size,
            fragment_velocity(r.velocity),
    {
        Asteroid { position, velocity: Velocity::random(), size }
    }

    /// This asteroid after one tick of coasting.
    pub fn displace(&mut self)
        requires
            old(self).wf(),
        ensures
            final(self).position.x == clamp(
                old(self).position.x + old(self).velocity.x,
                COORD_LIMIT as int,
            ),
            final(self).position.y == clamp(
                old(self).position.y + old(self).velocity.y,
                COORD_LIMIT as int,
            ),
            final(self).velocity == old(self).velocity,
            final(self).size == old(self).size,
            *final(self) == displaced_asteroid(*old(self)),
            final(self).wf(),
    {
        self.position = self.position.displaced(self.velocity);
    }
}

/// `a` after one tick of coasting.
pub open spec fn displaced_asteroid(a: Asteroid) -> Asteroid {
    Asteroid { position: displaced_position(a.position, a.velocity), ..a }
}

/// `a` after one tick: coast, then fold back into `view`.
pub open spec fn moved_asteroid(a: Asteroid, view: Viewport) -> Asteroid {
    let d = displaced_asteroid(a);
    Asteroid { position: wrapped_position(d.position, view), ..d }
}

/// Every asteroid of `s` after one tick (see `moved_asteroid`).
pub open spec fn moved_asteroids(s: Seq<Asteroid>, view: Viewport) -> Seq<Asteroid> {
    s.map_values(|a: Asteroid| moved_asteroid(a, view))
}

/// Moves every asteroid one tick along its velocity and folds it back into
/// `view`.
pub fn displace(asteroids: &mut Vec<Asteroid>, view: Viewport)
    requires
        view.valid(),
        forall|i: int| 0 <= i < old(asteroids)@.len() ==> (#[trigger] old(asteroids)@[i]).wf(),
    ensures
        final(asteroids)@ == moved_asteroids(old(asteroids)@, view),
        forall|i: int| 0 <= i < final(asteroids)@.len() ==> (#[trigger] final(asteroids)@[i]).wf(),
{
    let ghost s = asteroids@;
    let n = asteroids.len();
    for i in 0..n
        invariant
            n == s.len(),
            asteroids@.len() == n,
            view.valid(),
            forall|t: int| 0 <= t < n ==> (#[trigger] s[t]).wf(),
            forall|t: int| 0 <= t < i ==> asteroids@[t] == moved_asteroid(#[trigger] s[t], view),
            forall|t: int| i <= t < n ==> asteroids@[t] == #[trigger] s[t],
            forall|t: int| 0 <= t < n ==> (#[trigger] asteroids@[t]).wf(),
    {
        let mut a = asteroids[i];
        a.displace();
        a.position = wrap(a.position, view);
        asteroids.set(i, a);
    }
    assert(asteroids@ =~= moved_asteroids(s, view));
}

/// The velocity of direction `(dx, dy)` (thousandths, each in `[-1, 1]`)
/// scaled by `speed` (thousandths of a pixel per tick).
pub open spec fn velocity_for(dx: int, dy: int, speed: int) -> (int, int) {
    (div_toward_zero(dx * speed, SPEED_ONE as int), div_toward_zero(dy * speed, SPEED_ONE as int))
}

/// What holds of a velocity drawn for a speed of at most `speed`: each
/// component is at most that speed in size.
pub open spec fn speed_at_most(v: Velocity, speed: int) -> bool {
    -speed <= v.x <= speed && -speed <= v.y <= speed
}

/// The velocity of speed `speed` along entry `k` of the ship's direction
/// table, whose directions are of unit length to within a thousandth.
pub open spec fn table_velocity(k: int, speed: int) -> (int, int) {
    let f = facing(k * ANGLE_PER_DIRECTION);
    velocity_for(f.x as int, f.y as int, speed)
}

/// Whether `v` is `speed` along one of the `DIRECTIONS` table directions.
pub open spec fn along_some_direction(v: Velocity, speed: int) -> bool {
    exists|k: int| 0 <= k < DIRECTIONS && (v.x as int, v.y as int) == #[trigger] table_velocity(k, speed)
}

/// What holds of every velocity a fragment may get: a speed from
/// `[FRAGMENT_MIN_SPEED, FRAGMENT_MAX_SPEED)` along a table direction.
pub open spec fn fragment_velocity(v: Velocity) -> bool {
    &&& speed_at_most(v, FRAGMENT_MAX_SPEED as int)
    &&& exists|k: int, s: int|
        0 <= k < DIRECTIONS && FRAGMENT_MIN_SPEED <= s < FRAGMENT_MAX_SPEED && (v.x as int, v.y as int)
            == #[trigger] table_velocity(k, s)
}

/// The velocity for a direction and a speed (see `velocity_for`).
pub fn velocity_toward(dx: i64, dy: i64, speed: i64) -> (v: Velocity)
    requires
        -SPEED_ONE <= dx <= SPEED_ONE,
        -SPEED_ONE <= dy <= SPEED_ONE,
        0 <= speed <= FRAGMENT_MAX_SPEED,
    ensures
        (v.x as int, v.y as int) == velocity_for(dx as int, dy as int, speed as int),
        speed_at_most(v, speed as int),
{
    proof {
        assert(-SPEED_ONE * speed <= dx * speed <= SPEED_ONE * speed) by (nonlinear_arith)
            requires
                -SPEED_ONE <= dx <= SPEED_ONE,
                0 <= speed,
        ;
        assert(-SPEED_ONE * speed <= dy * speed <= SPEED_ONE * speed) by (nonlinear_arith)
            requires
                -SPEED_ONE <= dy <= SPEED_ONE,
                0 <= speed,
        ;
        lemma_scaled_down_bound(dx * speed, speed as int);
        lemma_scaled_down_bound(dy * speed, speed as int);
    }
    Velocity { x: div_trunc(dx * speed, SPEED_ONE), y: div_trunc(dy * speed, SPEED_ONE) }
}

proof fn lemma_scaled_down_bound(n: int, speed: int)
    requires
        0 <= speed,
        -1000 * speed <= n <= 1000 * speed,
    ensures
        -speed <= div_toward_zero(n, SPEED_ONE as int) <= speed,
{
    if n >= 0 {
        assert(n / 1000 <= speed) by (nonlinear_arith)
            requires
                0 <= n <= 1000 * speed,
        ;
    } else {
        assert((-n) / 1000 <= speed) by (nonlinear_arith)
            requires
                0 <= -n <= 1000 * speed,
        ;
    }
}

impl Velocity {
    /// A velocity of `speed` along a direction drawn from the `DIRECTIONS`
    /// directions of the ship's direction table.
    pub fn random_with_speed(speed: i64) -> (v: Velocity)
        requires
            0 <= speed <= FRAGMENT_MAX_SPEED,
        ensures
            speed_at_most(v, speed as int),
            along_some_direction(v, speed as int),
    {
        let k = random_in(0, DIRECTIONS);
        let f = facing_of(k * ANGLE_PER_DIRECTION);
        let v = velocity_toward(f.x, f.y, speed);
        assert((v.x as int, v.y as int) == table_velocity(k as int, speed as int));
        v
    }

    /// A velocity of a random direction and a random speed drawn from
    /// `[FRAGMENT_MIN_SPEED, FRAGMENT_MAX_SPEED)`.
    pub fn random() -> (v: Velocity)
        ensures
            fragment_velocity(v),
    {
        let speed = random_in(FRAGMENT_MIN_SPEED, FRAGMENT_MAX_SPEED);
        let v = Velocity::random_with_speed(speed);
        proof {
            let k = choose|k: int|
                0 <= k < DIRECTIONS && (v.x as int, v.y as int) == #[trigger] table_velocity(
                    k,
                    speed as int,
                );
            assert((v.x as int, v.y as int) == table_velocity(k, speed as int));
        }
        v
    }
}

/// Where an asteroid is and what size it has: what a hit decides of its
/// fragments, whose velocities are drawn.
pub open spec fn placement(a: Asteroid) -> (Position, AsteroidSize) {
    (a.position, a.size)
}

/// Placements of the fragments that destroying `a` leaves: two of the next
/// smaller size at its position, or none for a `Small` one.
pub open spec fn pieces(a: Asteroid) -> Seq<(Position, AsteroidSize)> {
    match a.size.offspring() {
        Some(s) => seq![(a.position, s), (a.position, s)],
        None => seq![],
    }
}

/// Whether `r` holds fragments at the placements `places`, in that order,
/// each with a velocity a fragment may get.
pub open spec fn fragments_match(r: Seq<Asteroid>, places: Seq<(Position, AsteroidSize)>) -> bool {
    &&& r.len() == places.len()
    &&& forall|j: int|
        0 <= j < r.len() ==> placement(#[trigger] r[j]) == places[j] && fragment_velocity(
            r[j].velocity,
        ) && r[j].wf()
}

/// The first `n` asteroids of `s` that `hit` does not mark, in order.
pub open spec fn survivors(s: Seq<Asteroid>, hit: Seq<bool>, n: nat) -> Seq<Asteroid>
    decreases n,
{
    if n == 0 {
        seq![]
    } else {
        let p = survivors(s, hit, (n - 1) as nat);
        if hit[n - 1] {
            p
        } else {
            p.push(s[n - 1])
        }
    }
}

/// Placements of the fragments left by the marked ones among the first `n`
/// asteroids of `s`, in order.
pub open spec fn debris(s: Seq<Asteroid>, hit: Seq<bool>, n: nat) -> Seq<(Position, AsteroidSize)>
    decreases n,
{
    if n == 0 {
        seq![]
    } else {
        let p = debris(s, hit, (n - 1) as nat);
        if hit[n - 1] {
            p + pieces(s[n - 1])
        } else {
            p
        }
    }
}

/// What holds of every asteroid of a fresh wave in `view`.
pub open spec fn wave_asteroid(a: Asteroid, view: Viewport) -> bool {
    &&& a.size == AsteroidSize::Large
    &&& -view.half_width <= a.position.x < view.half_width
    &&& -view.half_height <= a.position.y < view.half_height
    &&& speed_at_most(a.velocity, WAVE_SPEED as int)
    &&& along_some_direction(a.velocity, WAVE_SPEED as int)
}

/// What holds of every fresh wave in `view`.
pub open spec fn fresh_wave(r: Seq<Asteroid>, view: Viewport) -> bool {
    &&& WAVE_MIN <= r.len() < WAVE_MAX
    &&& forall|i: int| 0 <= i < r.len() ==> wave_asteroid(#[trigger] r[i], view)
}

/// Appends the fragments that destroying `a` leaves.
fn push_fragments(out: &mut Vec<Asteroid>, a: &Asteroid)
    requires
        a.wf(),
    ensures
        final(out)@.len() == old(out)@.len() + pieces(*a).len(),
        final(out)@.subrange(0, old(out)@.len() as int) == old(out)@,
        fragments_match(final(out)@.subrange(old(out)@.len() as int, final(out)@.len() as int), pieces(*a)),
{
    match a.size {
        AsteroidSize::Large => {
            out.push(Asteroid::random_velocity(a.position, AsteroidSize::Medium));
            out.push(Asteroid::random_velocity(a.position, AsteroidSize::Medium));
        },
        AsteroidSize::Medium => {
            out.push(Asteroid::random_velocity(a.position, AsteroidSize::Small));
            out.push(Asteroid::random_velocity(a.position, AsteroidSize::Small));
        },
        AsteroidSize::Small => {},
    }
    proof {
        let tail = out@.subrange(old(out)@.len() as int, out@.len() as int);
        assert(forall|j: int| 0 <= j < tail.len() ==> tail[j] == out@[old(out)@.len() + j]);
    }
}

/// The fragments that destroying `a` leaves: two asteroids of the next
/// smaller size at its position, each with its own random velocity; none
/// for a `Small` one.
pub fn fragments(a: &Asteroid) -> (r: Vec<Asteroid>)
    requires
        a.wf(),
    ensures
        fragments_match(r@, pieces(*a)),
        r@.len() == a.size.fragment_count(),
{
    let mut r: Vec<Asteroid> = Vec::new();
    push_fragments(&mut r, a);
    assert(r@.subrange(0, r@.len() as int) == r@);
    r
}

/// What destroying the asteroids of `pre` that `hit` marks may leave: the
/// others, in order, then the fragments of the destroyed ones.
pub open spec fn hit_outcome(pre: Seq<Asteroid>, hit: Seq<bool>, post: Seq<Asteroid>) -> bool {
    let k = survivors(pre, hit, hit.len()).len();
    &&& post.len() == k + debris(pre, hit, hit.len()).len()
    &&& post.subrange(0, k as int) == survivors(pre, hit, hit.len())
    &&& fragments_match(post.subrange(k as int, post.len() as int), debris(pre, hit, hit.len()))
}

/// Destroys the asteroids that `hit` marks. The others stay, in order, and
/// the fragments of the destroyed ones follow them (see `fragments`).
pub fn handle_hit(asteroids: &mut Vec<Asteroid>, hit: &Vec<bool>)
    requires
        hit@.len() == old(asteroids)@.len(),
        forall|i: int| 0 <= i < old(asteroids)@.len() ==> (#[trigger] old(asteroids)@[i]).wf(),
    ensures
        hit_outcome(old(asteroids)@, hit@, final(asteroids)@),
        forall|i: int| 0 <= i < final(asteroids)@.len() ==> (#[trigger] final(asteroids)@[i]).wf(),
{
    let ghost s = asteroids@;
    let mut kept: Vec<Asteroid> = Vec::new();
    let mut left: Vec<Asteroid> = Vec::new();
    let n = asteroids.len();
    for i in 0..n
        invariant
            n == s.len(),
            s == asteroids@,
            hit@.len() == n,
            forall|j: int| 0 <= j < s.len() ==> (#[trigger] s[j]).wf(),
            kept@ == survivors(s, hit@, i as nat),
            fragments_match(left@, debris(s, hit@, i as nat)),
    {
        let a = asteroids[i];
        if hit[i] {
            let ghost before = left@;
            push_fragments(&mut left, &a);
            proof {
                let d = debris(s, hit@, (i + 1) as nat);
                assert(d == debris(s, hit@, i as nat) + pieces(s[i as int]));
                assert forall|j: int| 0 <= j < left@.len() implies placement(#[trigger] left@[j])
                    == d[j] && fragment_velocity(left@[j].velocity) && left@[j].wf() by {
                    if j < before.len() {
                        assert(left@[j] == left@.subrange(0, before.len() as int)[j]);
                    } else {
                        let t = left@.subrange(before.len() as int, left@.len() as int);
                        assert(left@[j] == t[j - before.len()]);
                    }
                }
            }
        } else {
            kept.push(a);
        }
    }
    let ghost k = kept@.len();
    let m = left.len();
    for j in 0..m
        invariant
            m == left@.len(),
            kept@.len() == k + j,
            kept@.subrange(0, k as int) == survivors(s, hit@, n as nat),
            forall|t: int| 0 <= t < j ==> kept@[k + t] == left@[t],
            fragments_match(left@, debris(s, hit@, n as nat)),
    {
        let ghost prev = kept@;
        kept.push(left[j]);
        assert(kept@.subrange(0, k as int) =~= prev.subrange(0, k as int));
    }
    proof {
        let tail = kept@.subrange(k as int, kept@.len() as int);
        assert(tail =~= left@);
        lemma_survivors_wf(s, hit@, n as nat);
        assert forall|i: int| 0 <= i < kept@.len() implies (#[trigger] kept@[i]).wf() by {
            if i < k {
                assert(kept@[i] == kept@.subrange(0, k as int)[i]);
            } else {
                assert(kept@[i] == left@[i - k]);
            }
        }
    }
    *asteroids = kept;
}

proof fn lemma_survivors_wf(s: Seq<Asteroid>, hit: Seq<bool>, n: nat)
    requires
        n <= s.len(),
        n <= hit.len(),
        forall|j: int| 0 <= j < s.len() ==> (#[trigger] s[j]).wf(),
    ensures
        forall|j: int|
            0 <= j < survivors(s, hit, n).len() ==> (#[trigger] survivors(s, hit, n)[j]).wf(),
    decreases n,
{
    if n > 0 {
        lemma_survivors_wf(s, hit, (n - 1) as nat);
        let p = survivors(s, hit, (n - 1) as nat);
        assert forall|j: int| 0 <= j < survivors(s, hit, n).len() implies (#[trigger] survivors(
            s,
            hit,
            n,
        )[j]).wf() by {
            if j < p.len() {
                assert(survivors(s, hit, n)[j] == p[j]);
            }
        }
    }
}

/// A fresh wave of `Large` asteroids, their number drawn from
/// `[WAVE_MIN, WAVE_MAX)`, each at a random position inside `view` and with
/// a velocity of speed `WAVE_SPEED` along a random table direction.
pub fn spawn_asteroids(view: Viewport) -> (r: Vec<Asteroid>)
    requires
        view.valid(),
    ensures
        fresh_wave(r@, view),
        forall|i: int| 0 <= i < r@.len() ==> (#[trigger] r@[i]).wf(),
{
    let count = random_in(WAVE_MIN, WAVE_MAX);
    let mut r: Vec<Asteroid> = Vec::new();
    let mut i: i64 = 0;
    while i < count
        invariant
            view.valid(),
            0 <= i <= count,
            WAVE_MIN <= count < WAVE_MAX,
            r@.len() == i,
            forall|j: int| 0 <= j < r@.len() ==> wave_asteroid(#[trigger] r@[j], view) && r@[j].wf(),
        decreases count - i,
    {
        let x = random_in(-view.half_width, view.half_width);
        let y = random_in(-view.half_height, view.half_height);
        let velocity = Velocity::random_with_speed(WAVE_SPEED);
        r.push(Asteroid::new(Position { x, y }, velocity, AsteroidSize::Large));
        i = i + 1;
    }
    r
}

/// Sizes of the asteroids among the first `n` of `s` that `hit` marks, in
/// order.
pub open spec fn hit_sizes(s: Seq<Asteroid>, hit: Seq<bool>, n: nat) -> Seq<AsteroidSize>
    decreases n,
{
    if n == 0 {
        seq![]
    } else {
        let p = hit_sizes(s, hit, (n - 1) as nat);
        if hit[n - 1] {
            p.push(s[n - 1].size)
        } else {
            p
        }
    }
}

/// The sizes of the asteroids that `hit` marks, in order.
pub fn destroyed_sizes(asteroids: &Vec<Asteroid>, hit: &Vec<bool>) -> (r: Vec<AsteroidSize>)
    requires
        hit@.len() == asteroids@.len(),
    ensures
        r@ == hit_sizes(asteroids@, hit@, hit@.len()),
{
    let mut r: Vec<AsteroidSize> = Vec::new();
    let n = asteroids.len();
    for i in 0..n
        invariant
            n == asteroids@.len(),
            hit@.len() == n,
            r@ == hit_sizes(asteroids@, hit@, i as nat),
    {
        if hit[i] {
            r.push(asteroids[i].size);
        }
    }
    r
}

/// Each split yields a strictly smaller size, and `Small` is where the chain
/// ends.
pub proof fn lemma_split_chain_descends(s: AsteroidSize)
    ensures
        s.offspring() matches Some(o) ==> o.rank() < s.rank(),
        s.offspring() is None <==> s == AsteroidSize::Small,
        s.fragment_count() == if s == AsteroidSize::Small { 0nat } else { 2nat },
{
}

/// A mark on each of `n` asteroids.
pub open spec fn all_marked(n: nat) -> Seq<bool> {
    Seq::new(n, |i: int| true)
}

proof fn lemma_all_marked_same_size(s: Seq<Asteroid>, z: AsteroidSize, n: nat, m: nat)
    requires
        n <= s.len(),
        n <= m,
        forall|i: int| 0 <= i < n ==> (#[trigger] s[i]).size == z,
    ensures
        survivors(s, all_marked(m), n) == Seq::<Asteroid>::empty(),
        hit_sizes(s, all_marked(m), n) == Seq::new(n, |i: int| z),
        debris(s, all_marked(m), n).len() == n * z.fragment_count(),
        forall|j: int|
            0 <= j < debris(s, all_marked(m), n).len() ==> Some(
                (#[trigger] debris(s, all_marked(m), n)[j]).1,
            ) == z.offspring(),
    decreases n,
{
    if n > 0 {
        let p = (n - 1) as nat;
        lemma_all_marked_same_size(s, z, p, m);
        assert(all_marked(m)[p as int]);
        assert(hit_sizes(s, all_marked(m), n) =~= Seq::new(n, |i: int| z));
        let d0 = debris(s, all_marked(m), p);
        let d = debris(s, all_marked(m), n);
        assert(d == d0 + pieces(s[p as int]));
        assert(n * z.fragment_count() == p * z.fragment_count() + z.fragment_count()) by (
        nonlinear_arith)
            requires
                n == p + 1,
        ;
        assert forall|j: int| 0 <= j < d.len() implies Some((#[trigger] d[j]).1) == z.offspring() by {
            if j >= d0.len() {
                assert(d[j] == pieces(s[p as int])[j - d0.len()]);
            }
        }
    }
}

proof fn lemma_points_of_same_size(z: AsteroidSize, n: nat)
    ensures
        points_of(Seq::new(n, |i: int| z)) == n * z.points_spec(),
    decreases n,
{
    if n > 0 {
        lemma_points_of_same_size(z, (n - 1) as nat);
        assert(Seq::new(n, |i: int| z).drop_last() =~= Seq::new((n - 1) as nat, |i: int| z));
        assert(n * z.points_spec() == (n - 1) * z.points_spec() + z.points_spec()) by (
        nonlinear_arith);
    }
}

/// Destroying every asteroid of a list whose asteroids all have size `z`
/// leaves two fragments of the next smaller size for each of them, and none
/// for `Small` ones; it scores the points of `z` once per asteroid.
pub proof fn lemma_destroy_all_of_one_size(pre: Seq<Asteroid>, z: AsteroidSize, post: Seq<Asteroid>)
    requires
        forall|i: int| 0 <= i < pre.len() ==> (#[trigger] pre[i]).size == z,
        hit_outcome(pre, all_marked(pre.len()), post),
    ensures
        post.len() == pre.len() * z.fragment_count(),
        forall|j: int| 0 <= j < post.len() ==> Some((#[trigger] post[j]).size) == z.offspring(),
        points_of(hit_sizes(pre, all_marked(pre.len()), pre.len())) == pre.len() * z.points_spec(),
{
    let n = pre.len();
    lemma_all_marked_same_size(pre, z, n, n);
    lemma_points_of_same_size(z, n);
    assert(all_marked(n).len() == n);
    let d = debris(pre, all_marked(n), n);
    assert(post.subrange(0, post.len() as int) =~= post);
    assert forall|j: int| 0 <= j < post.len() implies Some((#[trigger] post[j]).size)
        == z.offspring() by {
        assert(placement(post.subrange(0, post.len() as int)[j]) == d[j]);
    }
}

/// The whole split chain of a `Large` asteroid through `handle_hit`:
/// destroying it leaves two `Medium` fragments, destroying those leaves four
/// `Small` ones, and destroying those leaves nothing. That is six fragments,
/// of which the four `Small` ones split no further. The destroyed sizes score
/// 20, then 2 * 50, then 4 * 100: 500 for the fragments, 520 in all.
pub proof fn lemma_large_chain_through_hits(
    a: Asteroid,
    s1: Seq<Asteroid>,
    s2: Seq<Asteroid>,
    s3: Seq<Asteroid>,
)
    requires
        a.size == AsteroidSize::Large,
        hit_outcome(seq![a], all_marked(1), s1),
        hit_outcome(s1, all_marked(s1.len()), s2),
        hit_outcome(s2, all_marked(s2.len()), s3),
    ensures
        s1.len() == 2,
        forall|i: int| 0 <= i < s1.len() ==> (#[trigger] s1[i]).size == AsteroidSize::Medium,
        s2.len() == 4,
        forall|i: int| 0 <= i < s2.len() ==> (#[trigger] s2[i]).size == AsteroidSize::Small,
        s3.len() == 0,
        points_of(hit_sizes(seq![a], all_marked(1), 1)) == 20,
        points_of(hit_sizes(s1, all_marked(s1.len()), s1.len())) + points_of(
            hit_sizes(s2, all_marked(s2.len()), s2.len()),
        ) == 500,
{
    lemma_destroy_all_of_one_size(seq![a], AsteroidSize::Large, s1);
    assert forall|i: int| 0 <= i < s1.len() implies (#[trigger] s1[i]).size
        == AsteroidSize::Medium by {
        assert(Some(s1[i].size) == AsteroidSize::Large.offspring());
    }
    lemma_destroy_all_of_one_size(s1, AsteroidSize::Medium, s2);
    assert forall|i: int| 0 <= i < s2.len() implies (#[trigger] s2[i]).size
        == AsteroidSize::Small by {
        assert(Some(s2[i].size) == AsteroidSize::Medium.offspring());
    }
    lemma_destroy_all_of_one_size(s2, AsteroidSize::Small, s3);
}

/// Whether `piece` is the placement of a fragment of `parent`: at its
/// position, of the next smaller size.
pub open spec fn fragment_of(piece: (Position, AsteroidSize), parent: Asteroid) -> bool {
    piece.0 == parent.position && Some(piece.1) == parent.size.offspring()
}

/// Every fragment placement that destroying the marked asteroids leaves
/// comes from one of them: returns that one's index.
pub proof fn lemma_debris_from_marked(s: Seq<Asteroid>, hit: Seq<bool>, n: nat, j: int) -> (i: int)
    requires
        n <= s.len(),
        n <= hit.len(),
        0 <= j < debris(s, hit, n).len(),
    ensures
        0 <= i < n,
        hit[i],
        fragment_of(debris(s, hit, n)[j], s[i]),
    decreases n,
{
    let p = (n - 1) as nat;
    let d0 = debris(s, hit, p);
    let d = debris(s, hit, n);
    if j < d0.len() {
        if hit[p as int] {
            assert(d[j] == (d0 + pieces(s[p as int]))[j]);
        }
        lemma_debris_from_marked(s, hit, p, j)
    } else {
        assert(hit[p as int]);
        assert(d[j] == pieces(s[p as int])[j - d0.len()]);
        p as int
    }
}

/// Every asteroid that survives is one of the unmarked ones.
pub proof fn lemma_survivors_unmarked(s: Seq<Asteroid>, hit: Seq<bool>, n: nat)
    requires
        n <= s.len(),
        n <= hit.len(),
    ensures
        forall|j: int|
            #![trigger survivors(s, hit, n)[j]]
            0 <= j < survivors(s, hit, n).len() ==> exists|i: int|
                0 <= i < n && !hit[i] && survivors(s, hit, n)[j] == #[trigger] s[i],
    decreases n,
{
    if n > 0 {
        let p = (n - 1) as nat;
        lemma_survivors_unmarked(s, hit, p);
        let v0 = survivors(s, hit, p);
        let v = survivors(s, hit, n);
        assert forall|j: int| #![trigger v[j]] 0 <= j < v.len() implies exists|i: int|
            0 <= i < n && !hit[i] && v[j] == #[trigger] s[i] by {
            if j < v0.len() {
                assert(v[j] == v0[j]);
                let i = choose|i: int| 0 <= i < p && !hit[i] && v0[j] == #[trigger] s[i];
                assert(v[j] == s[i]);
            } else {
                assert(v[j] == s[p as int]);
            }
        }
    }
}

} // verus!
