//! The session: top-level and nested states, respawn timers, and the fixed
//! tick that runs every phase of the simulation in order.
use vstd::prelude::*;
use crate::actions::{pushes_forward, set_fired_actions, FiredAction, Movement};
use crate::asteroids::{
    debris, destroyed_sizes, fragment_of, fragments_match, lemma_debris_from_marked,
    lemma_survivors_unmarked, placement, fresh_wave, handle_hit, hit_sizes, moved_asteroids,
    spawn_asteroids, survivors, Asteroid, AsteroidSize,
};
use crate::bullets::{
    despawn_bullet, displaced_bullets, in_range_prefix, remove_hit_bullets, spawn_bullet,
    unhit_prefix, Bullet,
};
use crate::collision::{asteroid_hit, bullet_hit, bullet_touches, detect_collisions, ship_hit};
use crate::geometry::{wrap, Position, Viewport};
use crate::player::{
    added_score, after_ship_hit, fresh_player, handle_asteroid_hit, handle_player_hit,
    lemma_points_nonneg, points_of, Player,
};
use crate::ship::{facing, fresh_ship, moved_ship, Ship};

verus! {

/// Fixed steps per second of simulated time.
pub const TICKS_PER_SECOND: i64 = 64;

/// Ticks from the destruction of the ship to its respawn.
pub const SHIP_RESPAWN_TICKS: i64 = 3 * TICKS_PER_SECOND;

/// Ticks from clearing a wave to the next one.
pub const WAVE_RESPAWN_TICKS: i64 = 4 * TICKS_PER_SECOND;

#[derive(Clone, Copy, Debug, PartialEq, Eq, Structural)]
pub enum GameState {
    Menu,
    Playing,
}

/// State of the ship while playing.
#[derive(Clone, Copy, Debug, PartialEq, Eq, Structural)]
pub enum ShipState {
    Flying,
    /// The ship is gone; a wreck marks where it was, and it respawns after
    /// `respawn_in` more ticks.
    Destroyed { wreck: Position, respawn_in: i64 },
}

/// State of the asteroid wave while playing.
#[derive(Clone, Copy, Debug, PartialEq, Eq, Structural)]
pub enum AsteroidsState {
    Flying,
    /// The wave is cleared; the next one comes after `respawn_in` more ticks.
    Destroyed { respawn_in: i64 },
}

/// What the world is told each tick.
#[derive(Clone, Copy, Debug, PartialEq, Eq, Structural)]
pub struct TickInput {
    pub movement: Option<Movement>,
    /// The fire key went down this tick.
    pub fire: bool,
    pub viewport: Viewport,
}

impl TickInput {
    pub open spec fn valid(self) -> bool {
        &&& self.viewport.valid()
        &&& (self.movement matches Some(m) ==> m.valid())
    }
}

/// What happened during one tick, for sound and display.
#[derive(Debug)]
pub struct TickReport {
    pub fired: bool,
    pub thrust: bool,
    /// Sizes of the asteroids destroyed, in order.
    pub destroyed: Vec<AsteroidSize>,
    pub ship_destroyed: bool,
    pub ship_respawned: bool,
    pub wave_cleared: bool,
    pub wave_spawned: bool,
    pub game_over: bool,
}

impl TickReport {
    pub open spec fn is_quiet(&self) -> bool {
        &&& !self.fired
        &&& !self.thrust
        &&& self.destroyed@.len() == 0
        &&& !self.ship_destroyed
        &&& !self.ship_respawned
        &&& !self.wave_cleared
        &&& !self.wave_spawned
        &&& !self.game_over
    }

    /// A report of a tick in which nothing happened.
    pub fn quiet() -> (r: TickReport)
        ensures
            r.is_quiet(),
    {
        TickReport {
            fired: false,
            thrust: false,
            destroyed: Vec::new(),
            ship_destroyed: false,
            ship_respawned: false,
            wave_cleared: false,
            wave_spawned: false,
            game_over: false,
        }
    }
}

/// Everything that is simulated.
pub struct World {
    pub state: GameState,
    /// Present while playing.
    pub player: Option<Player>,
    /// Present while playing and the ship is flying.
    pub ship: Option<Ship>,
    pub ship_state: ShipState,
    pub wave_state: AsteroidsState,
    pub asteroids: Vec<Asteroid>,
    pub bullets: Vec<Bullet>,
}

/// The world as a value.
pub struct WorldView {
    pub state: GameState,
    pub player: Option<Player>,
    pub ship: Option<Ship>,
    pub ship_state: ShipState,
    pub wave_state: AsteroidsState,
    pub asteroids: Seq<Asteroid>,
    pub bullets: Seq<Bullet>,
}

impl View for World {
    type V = WorldView;

    open spec fn view(&self) -> WorldView {
        WorldView {
            state: self.state,
            player: self.player,
            ship: self.ship,
            ship_state: self.ship_state,
            wave_state: self.wave_state,
            asteroids: self.asteroids@,
            bullets: self.bullets@,
        }
    }
}

/// The world in the menu: nothing simulated.
pub open spec fn menu_view() -> WorldView {
    WorldView {
        state: GameState::Menu,
        player: None,
        ship: None,
        ship_state: ShipState::Flying,
        wave_state: AsteroidsState::Flying,
        asteroids: seq![],
        bullets: seq![],
    }
}

impl WorldView {
    /// Bounds on every entity, and the states agree with what exists.
    pub open spec fn wf(self) -> bool {
        &&& forall|i: int| 0 <= i < self.asteroids.len() ==> (#[trigger] self.asteroids[i]).wf()
        &&& forall|j: int| 0 <= j < self.bullets.len() ==> (#[trigger] self.bullets[j]).wf()
        &&& (self.ship matches Some(s) ==> s.wf())
        &&& match self.state {
            GameState::Menu => self == menu_view(),
            GameState::Playing => {
                &&& self.player matches Some(p) && p.life_count > 0 && p.wf()
                &&& (self.ship_state is Flying <==> self.ship is Some)
                &&& (self.ship_state matches ShipState::Destroyed { wreck, respawn_in } ==> 1
                    <= respawn_in <= SHIP_RESPAWN_TICKS && wreck.bounded())
                &&& (self.wave_state matches AsteroidsState::Destroyed { respawn_in } ==> 1
                    <= respawn_in <= WAVE_RESPAWN_TICKS && self.asteroids.len() == 0)
            },
        }
    }
}

/// The bullet fired from ship `s`: from its position along its facing.
pub open spec fn shot(s: Ship) -> Bullet {
    Bullet { origin: s.position, position: s.position, heading: facing(s.angle as int) }
}

/// The bullets after the input of a tick: one more when the fire key went
/// down while the ship flies.
pub open spec fn fired_bullets(bullets: Seq<Bullet>, ship: Option<Ship>, fire: bool) -> Seq<Bullet> {
    match ship {
        Some(s) => if fire {
            bullets.push(shot(s))
        } else {
            bullets
        },
        None => bullets,
    }
}

/// The world after the first phases of a tick: input, motion, the wrap, and
/// the removal of bullets out of range.
pub open spec fn advanced(w: WorldView, input: TickInput) -> WorldView {
    let flown = displaced_bullets(fired_bullets(w.bullets, w.ship, input.fire));
    WorldView {
        ship: match w.ship {
            Some(s) => Some(moved_ship(s, input.movement, input.viewport)),
            None => None,
        },
        asteroids: moved_asteroids(w.asteroids, input.viewport),
        bullets: in_range_prefix(flown, flown.len()),
        ..w
    }
}

/// Which asteroids of `w` the collision pass marks.
pub open spec fn asteroid_marks(w: WorldView) -> Seq<bool> {
    Seq::new(w.asteroids.len(), |i: int| asteroid_hit(w.ship, w.bullets, w.asteroids[i]))
}

/// Which bullets of `w` the collision pass marks.
pub open spec fn bullet_marks(w: WorldView) -> Seq<bool> {
    Seq::new(w.bullets.len(), |j: int| bullet_hit(w.bullets[j], w.asteroids))
}

/// The player after the tally of a tick: points for the destroyed asteroids,
/// and a life fewer if the ship was hit.
pub open spec fn tallied(p: Player, destroyed: Seq<AsteroidSize>, ship_was_hit: bool) -> Player {
    let scored = Player { score: added_score(p.score as int, points_of(destroyed)) as i32, ..p };
    if ship_was_hit {
        after_ship_hit(scored)
    } else {
        scored
    }
}

/// The ship and its state after a tick: a running timer counts down and
/// respawns the ship when it runs out; a hit destroys a flying ship, leaves a
/// wreck where it was and starts the timer.
pub open spec fn ship_step(w: WorldView, ship_was_hit: bool) -> (Option<Ship>, ShipState) {
    match w.ship_state {
        ShipState::Destroyed { wreck, respawn_in } => if respawn_in <= 1 {
            (Some(fresh_ship()), ShipState::Flying)
        } else {
            (None, ShipState::Destroyed { wreck, respawn_in: (respawn_in - 1) as i64 })
        },
        ShipState::Flying => if ship_was_hit {
            (
                None,
                ShipState::Destroyed {
                    wreck: w.ship.unwrap().position,
                    respawn_in: SHIP_RESPAWN_TICKS,
                },
            )
        } else {
            (w.ship, ShipState::Flying)
        },
    }
}

/// The wave state after a tick that leaves `remaining` asteroids: a running
/// timer counts down and brings a new wave when it runs out; a flying wave
/// with no asteroid left is cleared and starts the timer.
pub open spec fn wave_step(ws: AsteroidsState, remaining: nat) -> AsteroidsState {
    match ws {
        AsteroidsState::Destroyed { respawn_in } => if respawn_in <= 1 {
            AsteroidsState::Flying
        } else {
            AsteroidsState::Destroyed { respawn_in: (respawn_in - 1) as i64 }
        },
        AsteroidsState::Flying => if remaining == 0 {
            AsteroidsState::Destroyed { respawn_in: WAVE_RESPAWN_TICKS }
        } else {
            AsteroidsState::Flying
        },
    }
}

/// What the last phases of a tick make of `pre`, the world after
/// `advanced`: collisions, destruction and splitting, state transitions and
/// the tally. Only the velocities of new asteroids and the placement of a new
/// wave are left to chance.
pub open spec fn resolved(pre: WorldView, view: Viewport, post: WorldView, report: TickReport) -> bool {
    let am = asteroid_marks(pre);
    let bm = bullet_marks(pre);
    let sh = ship_hit(pre.ship, pre.asteroids);
    let n = pre.asteroids.len();
    let destroyed = hit_sizes(pre.asteroids, am, n);
    let surv = survivors(pre.asteroids, am, n);
    let deb = debris(pre.asteroids, am, n);
    let p = tallied(pre.player.unwrap(), destroyed, sh);
    let over = sh && p.life_count == 0;
    &&& report.destroyed@ == destroyed
    &&& report.ship_destroyed == sh
    &&& report.game_over == over
    &&& report.ship_respawned == (pre.ship_state matches ShipState::Destroyed { respawn_in, .. }
        && respawn_in <= 1)
    &&& report.wave_spawned == (pre.wave_state matches AsteroidsState::Destroyed { respawn_in }
        && respawn_in <= 1)
    &&& report.wave_cleared == (pre.wave_state is Flying && surv.len() + deb.len() == 0)
    &&& if over {
        post == menu_view()
    } else {
        &&& post.state == GameState::Playing
        &&& post.player == Some(p)
        &&& post.bullets == unhit_prefix(pre.bullets, bm, pre.bullets.len())
        &&& (post.ship, post.ship_state) == ship_step(pre, sh)
        &&& post.wave_state == wave_step(pre.wave_state, surv.len() + deb.len())
        &&& match pre.wave_state {
            AsteroidsState::Destroyed { respawn_in } => if respawn_in <= 1 {
                fresh_wave(post.asteroids, view)
            } else {
                post.asteroids.len() == 0
            },
            AsteroidsState::Flying => {
                &&& post.asteroids.len() == surv.len() + deb.len()
                &&& post.asteroids.subrange(0, surv.len() as int) == surv
                &&& fragments_match(
                    post.asteroids.subrange(surv.len() as int, post.asteroids.len() as int),
                    deb,
                )
            },
        }
    }
}

impl World {
    /// A world in the menu.
    pub fn new() -> (r: World)
        ensures
            r@ == menu_view(),
    {
        World {
            state: GameState::Menu,
            player: None,
            ship: None,
            ship_state: ShipState::Flying,
            wave_state: AsteroidsState::Flying,
            asteroids: Vec::new(),
            bullets: Vec::new(),
        }
    }

    /// Starts a game from the menu: a fresh player, a ship at the centre and
    /// a fresh wave. Does nothing while a game is on. Returns whether a game
    /// started.
    pub fn start_game(&mut self, view: Viewport) -> (started: bool)
        requires
            old(self)@.wf(),
            view.valid(),
        ensures
            started == (old(self)@.state == GameState::Menu),
            !started ==> final(self)@ == old(self)@,
            started ==> {
                &&& final(self)@.state == GameState::Playing
                &&& final(self)@.player == Some(fresh_player())
                &&& final(self)@.ship == Some(fresh_ship())
                &&& final(self)@.ship_state == ShipState::Flying
                &&& final(self)@.wave_state == AsteroidsState::Flying
                &&& fresh_wave(final(self)@.asteroids, view)
                &&& final(self)@.bullets.len() == 0
            },
            final(self)@.wf(),
    {
        match self.state {
            GameState::Playing => false,
            GameState::Menu => {
                self.state = GameState::Playing;
                self.player = Some(Player::new());
                self.ship = Some(Ship::new());
                self.ship_state = ShipState::Flying;
                self.wave_state = AsteroidsState::Flying;
                self.asteroids = spawn_asteroids(view);
                self.bullets = Vec::new();
                true
            },
        }
    }

    /// Ends the game: back to the menu, with everything removed.
    fn clear_to_menu(&mut self)
        ensures
            final(self)@ == menu_view(),
    {
        self.state = GameState::Menu;
        self.player = None;
        self.ship = None;
        self.ship_state = ShipState::Flying;
        self.wave_state = AsteroidsState::Flying;
        self.asteroids = Vec::new();
        self.bullets = Vec::new();
        assert(self@.asteroids =~= seq![]);
        assert(self@.bullets =~= seq![]);
    }

    /// Input, motion, wrap and range: the phases of a tick that chance does
    /// not touch. Returns whether a bullet was fired and whether the ship
    /// thrust.
    fn advance(&mut self, input: TickInput) -> (r: (bool, bool))
        requires
            old(self)@.wf(),
            old(self)@.state == GameState::Playing,
            input.valid(),
        ensures
            final(self)@ == advanced(old(self)@, input),
            final(self)@.wf(),
            r.0 == (input.fire && old(self)@.ship is Some),
            r.1 == (old(self)@.ship is Some && pushes_forward(input.movement)),
    {
        let ghost w = self@;
        let view = input.viewport;
        let mut shot = FiredAction::new();
        set_fired_actions(&mut shot, input.fire, &self.ship);
        let mut fired = false;
        match spawn_bullet(&shot) {
            Some(b) => {
                self.bullets.push(b);
                fired = true;
            },
            None => {},
        }
        assert(self.bullets@ == fired_bullets(w.bullets, w.ship, input.fire));
        let mut thrust = false;
        match self.ship {
            Some(s0) => {
                let mut s = s0;
                s.rotate(input.movement);
                thrust = s.accelerate(input.movement);
                s.displace();
                s.position = wrap(s.position, view);
                self.ship = Some(s);
            },
            None => {},
        }
        crate::asteroids::displace(&mut self.asteroids, view);
        crate::bullets::displace(&mut self.bullets);
        despawn_bullet(&mut self.bullets);
        (fired, thrust)
    }

    /// Collisions, destruction and splitting, state transitions and the
    /// tally: the phases of a tick after `advance`.
    fn resolve(&mut self, view: Viewport) -> (report: TickReport)
        requires
            old(self)@.wf(),
            old(self)@.state == GameState::Playing,
            view.valid(),
        ensures
            resolved(old(self)@, view, final(self)@, report),
            final(self)@.wf(),
    {
        let ghost pre = self@;
        let hits = detect_collisions(&self.ship, &self.asteroids, &self.bullets);
        assert(hits.asteroids@ =~= asteroid_marks(pre));
        assert(hits.bullets@ =~= bullet_marks(pre));
        let destroyed = destroyed_sizes(&self.asteroids, &hits.asteroids);
        handle_hit(&mut self.asteroids, &hits.asteroids);
        remove_hit_bullets(&mut self.bullets, &hits.bullets);
        let mut ship_respawned = false;
        match self.ship_state {
            ShipState::Destroyed { wreck, respawn_in } => {
                if respawn_in <= 1 {
                    self.ship = Some(Ship::new());
                    self.ship_state = ShipState::Flying;
                    ship_respawned = true;
                } else {
                    self.ship_state = ShipState::Destroyed { wreck, respawn_in: respawn_in - 1 };
                }
            },
            ShipState::Flying => {
                if hits.ship {
                    match self.ship {
                        Some(s) => {
                            self.ship_state = ShipState::Destroyed {
                                wreck: s.position,
                                respawn_in: SHIP_RESPAWN_TICKS,
                            };
                            self.ship = None;
                        },
                        None => {},
                    }
                }
            },
        }
        let mut wave_spawned = false;
        let mut wave_cleared = false;
        match self.wave_state {
            AsteroidsState::Destroyed { respawn_in } => {
                if respawn_in <= 1 {
                    self.asteroids = spawn_asteroids(view);
                    self.wave_state = AsteroidsState::Flying;
                    wave_spawned = true;
                } else {
                    self.wave_state = AsteroidsState::Destroyed { respawn_in: respawn_in - 1 };
                }
            },
            AsteroidsState::Flying => {
                if self.asteroids.len() == 0 {
                    self.wave_state = AsteroidsState::Destroyed { respawn_in: WAVE_RESPAWN_TICKS };
                    wave_cleared = true;
                }
            },
        }
        let mut game_over = false;
        match self.player {
            Some(p0) => {
                let mut p = p0;
                handle_asteroid_hit(&mut p, &destroyed);
                game_over = handle_player_hit(&mut p, hits.ship);
                self.player = Some(p);
            },
            None => {},
        }
        if game_over {
            self.clear_to_menu();
        }
        TickReport {
            fired: false,
            thrust: false,
            destroyed,
            ship_destroyed: hits.ship,
            ship_respawned,
            wave_cleared,
            wave_spawned,
            game_over,
        }
    }

    /// Advances the simulation by one fixed step. In the menu nothing
    /// happens. While playing, the phases run in this order: the shot of the
    /// fire key, turning and thrust of the ship, motion of every entity, the
    /// wrap of ship and asteroids, removal of bullets out of range (together
    /// `advanced`); then collisions, destruction and splitting, the ship and
    /// wave timers and transitions, and the tally of score and lives, which
    /// ends the game when the last life is lost (together `resolved`).
    pub fn tick(&mut self, input: TickInput) -> (report: TickReport)
        requires
            old(self)@.wf(),
            input.valid(),
        ensures
            final(self)@.wf(),
            old(self)@.state == GameState::Menu ==> final(self)@ == old(self)@ && report.is_quiet(),
            old(self)@.state == GameState::Playing ==> {
                &&& report.fired == (input.fire && old(self)@.ship is Some)
                &&& report.thrust == (old(self)@.ship is Some && pushes_forward(input.movement))
                &&& resolved(advanced(old(self)@, input), input.viewport, final(self)@, report)
            },
    {
        match self.state {
            GameState::Menu => TickReport::quiet(),
            GameState::Playing => {
                let (fired, thrust) = self.advance(input);
                let mut report = self.resolve(input.viewport);
                report.fired = fired;
                report.thrust = thrust;
                report
            },
        }
    }
}

/// The wave state after `k` ticks without asteroids.
pub open spec fn wave_after(ws: AsteroidsState, k: nat) -> AsteroidsState
    decreases k,
{
    if k == 0 {
        ws
    } else {
        wave_step(wave_after(ws, (k - 1) as nat), 0)
    }
}

/// A flying wave is cleared on exactly the tick that leaves no asteroid;
/// the next wave then comes after the full respawn delay: it is still
/// cleared on every tick before, and flying on the tick the delay ends.
pub proof fn lemma_wave_respawns_after_delay(remaining: nat, k: nat)
    ensures
        (wave_step(AsteroidsState::Flying, remaining) is Destroyed) <==> remaining == 0,
        wave_step(AsteroidsState::Flying, 0) == (AsteroidsState::Destroyed {
            respawn_in: WAVE_RESPAWN_TICKS,
        }),
        k < WAVE_RESPAWN_TICKS ==> wave_after(wave_step(AsteroidsState::Flying, 0), k) == (
        AsteroidsState::Destroyed { respawn_in: (WAVE_RESPAWN_TICKS - k) as i64 }),
        wave_after(wave_step(AsteroidsState::Flying, 0), WAVE_RESPAWN_TICKS as nat)
            == AsteroidsState::Flying,
{
    lemma_wave_countdown(k);
    lemma_wave_countdown((WAVE_RESPAWN_TICKS - 1) as nat);
    let last = (WAVE_RESPAWN_TICKS - 1) as nat;
    assert(wave_after(wave_step(AsteroidsState::Flying, 0), WAVE_RESPAWN_TICKS as nat)
        == wave_step(wave_after(wave_step(AsteroidsState::Flying, 0), last), 0));
}

proof fn lemma_wave_countdown(k: nat)
    ensures
        k < WAVE_RESPAWN_TICKS ==> wave_after(wave_step(AsteroidsState::Flying, 0), k) == (
        AsteroidsState::Destroyed { respawn_in: (WAVE_RESPAWN_TICKS - k) as i64 }),
    decreases k,
{
    if k > 0 {
        lemma_wave_countdown((k - 1) as nat);
    }
}

/// Number of marks set among the first `n` of `hit`.
pub open spec fn marked_count(hit: Seq<bool>, n: nat) -> nat
    decreases n,
{
    if n == 0 {
        0
    } else {
        marked_count(hit, (n - 1) as nat) + if hit[n - 1] { 1nat } else { 0nat }
    }
}

proof fn lemma_marks_partition(s: Seq<Asteroid>, hit: Seq<bool>, n: nat)
    requires
        n <= s.len(),
        n <= hit.len(),
    ensures
        hit_sizes(s, hit, n).len() == marked_count(hit, n),
        survivors(s, hit, n).len() + marked_count(hit, n) == n,
    decreases n,
{
    if n > 0 {
        lemma_marks_partition(s, hit, (n - 1) as nat);
    }
}

/// An asteroid overlapped by several bullets, or by the ship and bullets, is
/// marked once: one more bullet that overlaps an asteroid some bullet already
/// overlaps leaves its mark as it was.
pub proof fn lemma_extra_overlap_changes_no_mark(
    ship: Option<Ship>,
    bullets: Seq<Bullet>,
    j: int,
    extra: Bullet,
    a: Asteroid,
)
    requires
        0 <= j < bullets.len(),
        bullet_touches(bullets[j], a),
    ensures
        asteroid_hit(ship, bullets, a),
        asteroid_hit(ship, bullets.push(extra), a) == asteroid_hit(ship, bullets, a),
{
    assert(bullets.push(extra)[j] == bullets[j]);
}

/// A hit is counted once: every asteroid marked in a tick is destroyed in
/// that tick, so none of them is left to be hit, or scored, again on a later
/// tick. What the tick leaves is the unmarked asteroids, then fragments of
/// the destroyed ones, each of a strictly smaller size than its parent. The
/// report names each destroyed asteroid once, and the score grows by exactly
/// their points, however many bullets overlapped each.
pub proof fn lemma_hit_counted_once(
    pre: WorldView,
    view: Viewport,
    post: WorldView,
    report: TickReport,
)
    requires
        pre.wf(),
        pre.state == GameState::Playing,
        pre.wave_state is Flying,
        resolved(pre, view, post, report),
        !report.game_over,
    ensures
        report.destroyed@.len() == marked_count(asteroid_marks(pre), pre.asteroids.len()),
        survivors(pre.asteroids, asteroid_marks(pre), pre.asteroids.len()).len() + report.destroyed@.len()
            == pre.asteroids.len(),
        post.asteroids.subrange(
            0,
            survivors(pre.asteroids, asteroid_marks(pre), pre.asteroids.len()).len() as int,
        ) == survivors(pre.asteroids, asteroid_marks(pre), pre.asteroids.len()),
        post.player.unwrap().score == added_score(
            pre.player.unwrap().score as int,
            points_of(report.destroyed@),
        ),
        forall|j: int|
            0 <= j < survivors(pre.asteroids, asteroid_marks(pre), pre.asteroids.len()).len()
                ==> unmarked_in(pre, #[trigger] post.asteroids[j]),
        forall|j: int|
            survivors(pre.asteroids, asteroid_marks(pre), pre.asteroids.len()).len() <= j
                < post.asteroids.len() ==> smaller_fragment_of_marked(pre, #[trigger] post.asteroids[j]),
{
    lemma_marks_partition(pre.asteroids, asteroid_marks(pre), pre.asteroids.len());
    lemma_points_nonneg(report.destroyed@);
    lemma_survivors_unmarked(pre.asteroids, asteroid_marks(pre), pre.asteroids.len());
    let k = survivors(pre.asteroids, asteroid_marks(pre), pre.asteroids.len()).len();
    assert forall|j: int| 0 <= j < k implies unmarked_in(pre, #[trigger] post.asteroids[j]) by {
        assert(post.asteroids[j] == post.asteroids.subrange(0, k as int)[j]);
        let i = choose|i: int|
            0 <= i < pre.asteroids.len() && !asteroid_marks(pre)[i] && survivors(
                pre.asteroids,
                asteroid_marks(pre),
                pre.asteroids.len(),
            )[j] == #[trigger] pre.asteroids[i];
        assert(post.asteroids[j] == pre.asteroids[i]);
    }
    assert forall|j: int| k <= j < post.asteroids.len() implies smaller_fragment_of_marked(
        pre,
        #[trigger] post.asteroids[j],
    ) by {
        let tail = post.asteroids.subrange(k as int, post.asteroids.len() as int);
        assert(post.asteroids[j] == tail[j - k]);
        let i = lemma_debris_from_marked(
            pre.asteroids,
            asteroid_marks(pre),
            pre.asteroids.len(),
            j - k,
        );
        crate::asteroids::lemma_split_chain_descends(pre.asteroids[i].size);
        assert(fragment_of(placement(post.asteroids[j]), pre.asteroids[i]));
    }
}

/// Whether `a` is one of the asteroids of `w` that the collision pass of
/// `w` does not mark.
pub open spec fn unmarked_in(w: WorldView, a: Asteroid) -> bool {
    exists|i: int|
        0 <= i < w.asteroids.len() && !asteroid_marks(w)[i] && #[trigger] w.asteroids[i] == a
}

/// Whether `a` is a fragment of an asteroid of `w` that the collision pass
/// of `w` marks: at its position, of a strictly smaller size.
pub open spec fn smaller_fragment_of_marked(w: WorldView, a: Asteroid) -> bool {
    exists|i: int|
        0 <= i < w.asteroids.len() && asteroid_marks(w)[i] && fragment_of(
            placement(a),
            #[trigger] w.asteroids[i],
        ) && a.size.rank() < w.asteroids[i].size.rank()
}

} // verus!
