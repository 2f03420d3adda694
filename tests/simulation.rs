use asteroids::actions::Movement;
use asteroids::asteroids::{Asteroid, AsteroidSize};
use asteroids::bullets::Bullet;
use asteroids::geometry::{Heading, Position, Velocity, Viewport};
use asteroids::player::Player;
use asteroids::ship::Ship;
use asteroids::world::{
    AsteroidsState, GameState, ShipState, TickInput, World, SHIP_RESPAWN_TICKS,
    WAVE_RESPAWN_TICKS,
};

const VIEW: Viewport = Viewport { half_width: 640_000, half_height: 360_000 };

fn at(x: i64, y: i64) -> Position {
    Position { x, y }
}

fn still(x: i64, y: i64, size: AsteroidSize) -> Asteroid {
    Asteroid::new(at(x, y), Velocity { x: 0, y: 0 }, size)
}

/// A bullet that stays where it is put.
fn mine(p: Position) -> Bullet {
    Bullet::new(Heading { x: 0, y: 0 }, p)
}

fn idle() -> TickInput {
    TickInput { movement: None, fire: false, viewport: VIEW }
}

/// A game in progress with the ship at the centre and the given asteroids.
fn playing(asteroids: Vec<Asteroid>) -> World {
    World {
        state: GameState::Playing,
        player: Some(Player::new()),
        ship: Some(Ship::new()),
        ship_state: ShipState::Flying,
        wave_state: AsteroidsState::Flying,
        asteroids,
        bullets: Vec::new(),
    }
}

/// A stationary asteroid in a far corner, so that the wave is never cleared.
fn anchor() -> Asteroid {
    still(-600_000, -330_000, AsteroidSize::Small)
}

#[test]
fn new_world_is_in_the_menu_and_ticks_quietly() {
    let mut w = World::new();
    assert_eq!(w.state, GameState::Menu);
    let r = w.tick(TickInput { movement: Some(Movement { x: 0, y: 1000 }), fire: true, viewport: VIEW });
    assert!(!r.fired && !r.thrust && r.destroyed.is_empty() && !r.game_over);
    assert_eq!(w.state, GameState::Menu);
    assert!(w.player.is_none() && w.ship.is_none() && w.asteroids.is_empty());
}

#[test]
fn starting_a_game_spawns_player_ship_and_wave() {
    let mut w = World::new();
    assert!(w.start_game(VIEW));
    assert_eq!(w.state, GameState::Playing);
    assert_eq!(w.player, Some(Player { life_count: 3, score: 0 }));
    assert_eq!(w.ship, Some(Ship::new()));
    assert!(w.asteroids.len() >= 5 && w.asteroids.len() < 10);
    assert!(w.asteroids.iter().all(|a| a.size == AsteroidSize::Large));
    assert!(!w.start_game(VIEW));
}

#[test]
fn asteroids_coast_and_wrap() {
    let mut a = still(639_000, 100_000, AsteroidSize::Large);
    a.velocity = Velocity { x: 3_000, y: 0 };
    let mut w = playing(vec![a, anchor()]);
    w.tick(idle());
    assert_eq!(w.asteroids[0].position, at(642_000 - 1_280_000, -100_000));
    assert_eq!(w.asteroids[0].velocity, Velocity { x: 3_000, y: 0 });
}

#[test]
fn fired_bullet_leaves_along_the_ship_facing() {
    let mut w = playing(vec![anchor()]);
    let r = w.tick(TickInput { movement: None, fire: true, viewport: VIEW });
    assert!(r.fired);
    assert_eq!(w.bullets.len(), 1);
    assert_eq!(w.bullets[0].origin, at(0, 0));
    assert_eq!(w.bullets[0].position, at(0, 10_000));
}

#[test]
fn bullet_despawns_on_the_first_tick_past_its_range() {
    let mut w = playing(vec![anchor()]);
    w.tick(TickInput { movement: None, fire: true, viewport: VIEW });
    for _ in 1..100 {
        w.tick(idle());
    }
    assert_eq!(w.bullets.len(), 1);
    assert_eq!(w.bullets[0].position, at(0, 1_000_000));
    w.tick(idle());
    assert!(w.bullets.is_empty());
}

#[test]
fn thrust_accumulates_without_drag() {
    let mut w = playing(vec![anchor()]);
    let push = TickInput { movement: Some(Movement { x: 0, y: 1000 }), fire: false, viewport: VIEW };
    assert!(w.tick(push).thrust);
    assert!(w.tick(push).thrust);
    let s = w.ship.unwrap();
    assert_eq!(s.velocity, Velocity { x: 0, y: 146 });
    assert_eq!(s.position, at(0, 73 + 146));
    for _ in 0..10 {
        w.tick(idle());
    }
    assert_eq!(w.ship.unwrap().velocity, Velocity { x: 0, y: 146 });
}

#[test]
fn shooting_a_large_asteroid_and_all_its_fragments_scores_520() {
    let mut w = playing(vec![still(300_000, 200_000, AsteroidSize::Large), anchor()]);
    let mut made = 0;
    let mut small_destroyed = 0;
    for _ in 0..3 {
        let targets: Vec<Position> = w
            .asteroids
            .iter()
            .filter(|a| a.position != at(-600_000, -330_000))
            .map(|a| a.position)
            .collect();
        for t in targets {
            w.bullets.push(mine(t));
        }
        let before = w.asteroids.len();
        let r = w.tick(idle());
        small_destroyed += r.destroyed.iter().filter(|s| **s == AsteroidSize::Small).count();
        made += w.asteroids.len() + r.destroyed.len() - before;
    }
    assert_eq!(made, 6);
    assert_eq!(small_destroyed, 4);
    assert_eq!(w.asteroids, vec![anchor()]);
    assert_eq!(w.player.unwrap().score, 20 + 2 * 50 + 4 * 100);
}

#[test]
fn overlapping_hits_count_once() {
    let mut w = playing(vec![still(300_000, 0, AsteroidSize::Large), anchor()]);
    w.bullets.push(mine(at(300_000, 0)));
    w.bullets.push(mine(at(305_000, 5_000)));
    let r = w.tick(idle());
    assert_eq!(r.destroyed, vec![AsteroidSize::Large]);
    assert_eq!(w.player.unwrap().score, 20);
    assert!(w.bullets.is_empty());
    assert_eq!(w.asteroids.iter().filter(|a| a.size == AsteroidSize::Large).count(), 0);
    assert_eq!(w.asteroids.iter().filter(|a| a.size == AsteroidSize::Medium).count(), 2);
    w.tick(idle());
    assert_eq!(w.player.unwrap().score, 20);
}

#[test]
fn ship_and_bullet_on_one_asteroid_count_it_once() {
    let mut w = playing(vec![still(0, 0, AsteroidSize::Small), anchor()]);
    w.bullets.push(mine(at(0, 0)));
    let r = w.tick(idle());
    assert_eq!(r.destroyed, vec![AsteroidSize::Small]);
    assert!(r.ship_destroyed);
    assert_eq!(w.player, Some(Player { life_count: 2, score: 100 }));
}

#[test]
fn ship_respawns_after_its_delay() {
    let mut w = playing(vec![still(0, 0, AsteroidSize::Small), anchor()]);
    let r = w.tick(idle());
    assert!(r.ship_destroyed && !r.game_over);
    assert!(w.ship.is_none());
    assert_eq!(w.ship_state, ShipState::Destroyed { wreck: at(0, 0), respawn_in: SHIP_RESPAWN_TICKS });
    for _ in 1..SHIP_RESPAWN_TICKS {
        assert!(!w.tick(idle()).ship_respawned);
        assert!(w.ship.is_none());
    }
    assert!(w.tick(idle()).ship_respawned);
    assert_eq!(w.ship, Some(Ship::new()));
    assert_eq!(w.ship_state, ShipState::Flying);
}

#[test]
fn third_hit_ends_the_game() {
    let mut w = playing(vec![anchor()]);
    for hit in 1..=3u8 {
        w.asteroids.push(still(0, 0, AsteroidSize::Small));
        let r = w.tick(idle());
        assert!(r.ship_destroyed);
        if hit < 3 {
            assert!(!r.game_over);
            assert_eq!(w.state, GameState::Playing);
            assert_eq!(w.player.unwrap().life_count, 3 - hit);
            for _ in 0..SHIP_RESPAWN_TICKS {
                w.tick(idle());
            }
            assert!(w.ship.is_some());
        } else {
            assert!(r.game_over);
        }
    }
    assert_eq!(w.state, GameState::Menu);
    assert!(w.player.is_none() && w.ship.is_none());
    assert!(w.asteroids.is_empty() && w.bullets.is_empty());
}

#[test]
fn wave_is_cleared_when_the_last_asteroid_goes_and_returns_after_the_full_delay() {
    let mut w = playing(vec![still(300_000, 0, AsteroidSize::Small)]);
    w.bullets.push(mine(at(300_000, 0)));
    let r = w.tick(idle());
    assert!(r.wave_cleared);
    assert_eq!(w.wave_state, AsteroidsState::Destroyed { respawn_in: WAVE_RESPAWN_TICKS });
    for _ in 1..WAVE_RESPAWN_TICKS {
        let r = w.tick(idle());
        assert!(!r.wave_spawned);
        assert!(w.asteroids.is_empty());
        assert!(matches!(w.wave_state, AsteroidsState::Destroyed { .. }));
    }
    let r = w.tick(idle());
    assert!(r.wave_spawned);
    assert_eq!(w.wave_state, AsteroidsState::Flying);
    assert!(w.asteroids.len() >= 5 && w.asteroids.len() < 10);
}

#[test]
fn wave_with_asteroids_left_is_not_cleared() {
    let mut w = playing(vec![still(300_000, 0, AsteroidSize::Medium)]);
    w.bullets.push(mine(at(300_000, 0)));
    let r = w.tick(idle());
    assert!(!r.wave_cleared);
    assert_eq!(w.wave_state, AsteroidsState::Flying);
    assert_eq!(w.asteroids.len(), 2);
}
