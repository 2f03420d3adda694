use asteroids::actions::{set_fired_actions, set_movement_actions, Actions, FiredAction, Movement};
use asteroids::asteroids::{
    destroyed_sizes, fragments, handle_hit, spawn_asteroids,
    Asteroid, AsteroidSize,
};
use asteroids::bullets::{despawn_bullet, spawn_bullet, Bullet};
use asteroids::collision::detect_collisions;
use asteroids::geometry::{div_trunc, intersects, wrap, Heading, Position, Velocity, Viewport};
use asteroids::player::{handle_asteroid_hit, handle_player_hit, Player};
use asteroids::ship::{facing_of, Ship};
use asteroids::ui::{update_lifes_ui, update_score_ui};

const VIEW: Viewport = Viewport { half_width: 100, half_height: 50 };

fn at(x: i64, y: i64) -> Position {
    Position { x, y }
}

fn still(x: i64, y: i64, size: AsteroidSize) -> Asteroid {
    Asteroid::new(at(x, y), Velocity { x: 0, y: 0 }, size)
}

#[test]
fn wrap_across_right_edge_mirrors_y() {
    assert_eq!(wrap(at(120, 10), VIEW), at(-80, -10));
}

#[test]
fn wrap_across_left_edge_mirrors_y() {
    assert_eq!(wrap(at(-130, -20), VIEW), at(70, 20));
}

#[test]
fn wrap_across_top_edge_mirrors_x() {
    assert_eq!(wrap(at(30, 70), VIEW), at(-30, -30));
}

#[test]
fn wrap_across_bottom_edge_mirrors_x() {
    assert_eq!(wrap(at(-30, -51), VIEW), at(30, 49));
}

#[test]
fn wrap_leaves_inside_and_edges_alone() {
    assert_eq!(wrap(at(40, -20), VIEW), at(40, -20));
    assert_eq!(wrap(at(100, 50), VIEW), at(100, 50));
    assert_eq!(wrap(at(-100, -50), VIEW), at(-100, -50));
}

#[test]
fn wrap_across_a_corner_folds_both_axes() {
    assert_eq!(wrap(at(120, 60), VIEW), at(80, 40));
    assert_eq!(wrap(at(-150, -70), VIEW), at(-50, -30));
    assert_eq!(wrap(at(130, -55), VIEW), at(70, -45));
}

#[test]
fn boxes_touching_at_edges_intersect() {
    assert!(intersects(at(0, 0), 15, at(35, 35), 20));
    assert!(!intersects(at(0, 0), 15, at(36, 0), 20));
    assert!(!intersects(at(0, 0), 15, at(0, -36), 20));
}

#[test]
fn division_rounds_toward_zero() {
    assert_eq!(div_trunc(7, 2), 3);
    assert_eq!(div_trunc(-7, 2), -3);
    assert_eq!(div_trunc(-71000, 1000), -71);
}

#[test]
fn asteroid_sizes_have_fixed_radius_and_points() {
    assert_eq!(AsteroidSize::Large.radius(), 40_000);
    assert_eq!(AsteroidSize::Medium.radius(), 20_000);
    assert_eq!(AsteroidSize::Small.radius(), 10_000);
    assert_eq!(AsteroidSize::Large.points(), 20);
    assert_eq!(AsteroidSize::Medium.points(), 50);
    assert_eq!(AsteroidSize::Small.points(), 100);
}

#[test]
fn large_splits_into_two_medium_at_its_position() {
    let a = still(500, -700, AsteroidSize::Large);
    let f = fragments(&a);
    assert_eq!(f.len(), 2);
    for piece in &f {
        assert_eq!(piece.size, AsteroidSize::Medium);
        assert_eq!(piece.position, at(500, -700));
        assert!(piece.velocity.x.abs() < 3000 && piece.velocity.y.abs() < 3000);
    }
}

#[test]
fn medium_splits_into_two_small() {
    let f = fragments(&still(1, 2, AsteroidSize::Medium));
    assert_eq!(f.len(), 2);
    assert!(f.iter().all(|p| p.size == AsteroidSize::Small && p.position == at(1, 2)));
}

#[test]
fn small_leaves_nothing() {
    assert!(fragments(&still(1, 2, AsteroidSize::Small)).is_empty());
}

#[test]
fn handle_hit_keeps_survivors_then_fragments() {
    let mut list = vec![
        still(10, 10, AsteroidSize::Small),
        still(20, 20, AsteroidSize::Large),
        still(30, 30, AsteroidSize::Medium),
        still(40, 40, AsteroidSize::Small),
    ];
    let hit = vec![true, false, true, false];
    assert_eq!(destroyed_sizes(&list, &hit), vec![AsteroidSize::Small, AsteroidSize::Medium]);
    handle_hit(&mut list, &hit);
    assert_eq!(list.len(), 4);
    assert_eq!(list[0], still(20, 20, AsteroidSize::Large));
    assert_eq!(list[1], still(40, 40, AsteroidSize::Small));
    assert!(list[2..].iter().all(|p| p.size == AsteroidSize::Small && p.position == at(30, 30)));
}

#[test]
fn random_velocities_stay_within_their_speed() {
    for _ in 0..200 {
        let v = Velocity::random_with_speed(500);
        assert!(v.x.abs() <= 500 && v.y.abs() <= 500);
        let len_sq = v.x * v.x + v.y * v.y;
        assert!(len_sq >= 495 * 495 && len_sq <= 501 * 501);
        let w = Velocity::random();
        assert!(w.x.abs() < 3000 && w.y.abs() < 3000);
        let len_sq = w.x * w.x + w.y * w.y;
        assert!(len_sq >= 95 * 95 && len_sq <= 3002 * 3002);
    }
}

#[test]
fn spawned_wave_is_large_and_inside_the_window() {
    let view = Viewport { half_width: 640_000, half_height: 360_000 };
    let mut xs = Vec::new();
    for _ in 0..20 {
        let wave = spawn_asteroids(view);
        assert!(wave.len() >= 5 && wave.len() < 10);
        for a in &wave {
            assert_eq!(a.size, AsteroidSize::Large);
            assert!(a.position.x >= -640_000 && a.position.x < 640_000);
            assert!(a.position.y >= -360_000 && a.position.y < 360_000);
            assert!(a.velocity.x.abs() <= 1000 && a.velocity.y.abs() <= 1000);
            let len_sq = a.velocity.x * a.velocity.x + a.velocity.y * a.velocity.y;
            assert!(len_sq >= 995 * 995 && len_sq <= 1001 * 1001);
            xs.push(a.position.x);
        }
    }
    assert!(xs.iter().any(|&x| x != -640_000));
}

#[test]
fn bullet_moves_ten_pixels_per_tick_and_expires_past_range() {
    let mut b = Bullet::new(Heading { x: 0, y: 1000 }, at(0, 0));
    for _ in 0..100 {
        b.displace();
    }
    assert_eq!(b.position, at(0, 1_000_000));
    assert!(b.within_range());
    let mut list = vec![b];
    despawn_bullet(&mut list);
    assert_eq!(list.len(), 1);
    list[0].displace();
    assert!(!list[0].within_range());
    despawn_bullet(&mut list);
    assert!(list.is_empty());
}

#[test]
fn several_bullets_on_one_asteroid_mark_it_once() {
    let ship = None;
    let asteroids = vec![still(0, 0, AsteroidSize::Large), still(500_000, 0, AsteroidSize::Small)];
    let bullets = vec![
        Bullet::new(Heading { x: 0, y: 0 }, at(5_000, 0)),
        Bullet::new(Heading { x: 0, y: 0 }, at(-5_000, 3_000)),
        Bullet::new(Heading { x: 0, y: 0 }, at(200_000, 0)),
    ];
    let hits = detect_collisions(&ship, &asteroids, &bullets);
    assert!(!hits.ship);
    assert_eq!(hits.asteroids, vec![true, false]);
    assert_eq!(hits.bullets, vec![true, true, false]);
}

#[test]
fn ship_overlapping_asteroid_is_hit() {
    let ship = Some(Ship::new());
    let asteroids = vec![still(35_000, -35_000, AsteroidSize::Medium)];
    let hits = detect_collisions(&ship, &asteroids, &Vec::new());
    assert!(hits.ship);
    assert_eq!(hits.asteroids, vec![true]);
    let far = vec![still(35_001, 0, AsteroidSize::Medium)];
    assert!(!detect_collisions(&ship, &far, &Vec::new()).ship);
}

#[test]
fn scoring_by_size() {
    let mut p = Player::new();
    handle_asteroid_hit(&mut p, &vec![AsteroidSize::Large, AsteroidSize::Medium, AsteroidSize::Small]);
    assert_eq!(p.score, 170);
    assert_eq!(p.life_count, 3);
}

#[test]
fn score_saturates_at_the_largest_i32() {
    let mut p = Player { life_count: 1, score: i32::MAX - 30 };
    handle_asteroid_hit(&mut p, &vec![AsteroidSize::Medium]);
    assert_eq!(p.score, i32::MAX);
}

#[test]
fn losing_the_last_life_ends_the_game() {
    let mut p = Player::new();
    assert!(!handle_player_hit(&mut p, false));
    assert_eq!(p.life_count, 3);
    assert!(!handle_player_hit(&mut p, true));
    assert!(!handle_player_hit(&mut p, true));
    assert!(handle_player_hit(&mut p, true));
    assert_eq!(p.life_count, 0);
    assert!(handle_player_hit(&mut p, true));
    assert_eq!(p.life_count, 0);
    assert!(!handle_player_hit(&mut p, false));
    assert_eq!(p.life_count, 0);
}

#[test]
fn facing_table_points_the_right_way() {
    assert_eq!(facing_of(0), Heading { x: 0, y: 1000 });
    assert_eq!(facing_of(1024), Heading { x: -1000, y: 0 });
    assert_eq!(facing_of(2048), Heading { x: 0, y: -1000 });
    assert_eq!(facing_of(3072), Heading { x: 1000, y: 0 });
    assert_eq!(facing_of(512), Heading { x: -707, y: 707 });
}

#[test]
fn ship_turns_thrusts_and_coasts() {
    let mut s = Ship::new();
    s.rotate(Some(Movement { x: 1000, y: 0 }));
    assert_eq!(s.angle, 4096 - 71);
    s.rotate(Some(Movement { x: -1000, y: 0 }));
    assert_eq!(s.angle, 0);
    assert!(s.accelerate(Some(Movement { x: 0, y: 1000 })));
    assert_eq!(s.velocity, Velocity { x: 0, y: 73 });
    assert_eq!(s.heading, Heading { x: 0, y: 1000 });
    assert!(!s.accelerate(Some(Movement { x: 0, y: -1000 })));
    assert!(!s.accelerate(None));
    s.displace();
    s.displace();
    assert_eq!(s.position, at(0, 146));
    assert_eq!(s.velocity, Velocity { x: 0, y: 73 });
}

#[test]
fn movement_is_normalised() {
    let mut a = Actions::new();
    set_movement_actions(&mut a, true, false, false, false);
    assert_eq!(a.player_movement, Some(Movement { x: 1000, y: 0 }));
    set_movement_actions(&mut a, false, true, false, true);
    assert_eq!(a.player_movement, Some(Movement { x: -707, y: -707 }));
    set_movement_actions(&mut a, true, true, false, false);
    assert_eq!(a.player_movement, None);
}

#[test]
fn shot_needs_a_fresh_press_and_a_ship() {
    let mut f = FiredAction::new();
    let ship = Some(Ship { angle: 1024, ..Ship::new() });
    set_fired_actions(&mut f, true, &ship);
    assert_eq!(f.heading, Some(Heading { x: -1000, y: 0 }));
    assert_eq!(f.position, Some(at(0, 0)));
    set_fired_actions(&mut f, false, &ship);
    assert_eq!(f.heading, None);
    set_fired_actions(&mut f, true, &None);
    assert_eq!(f.position, None);
}

#[test]
fn display_texts() {
    let mut lives = String::from("?");
    let mut score = String::from("?");
    update_lifes_ui(&None, &mut lives);
    assert_eq!(lives, "?");
    let p = Some(Player { life_count: 3, score: 520 });
    update_lifes_ui(&p, &mut lives);
    update_score_ui(&p, &mut score);
    assert_eq!(lives, "3");
    assert_eq!(score, "520");
}

#[test]
fn recorded_shot_becomes_a_bullet() {
    let mut f = FiredAction::new();
    assert_eq!(spawn_bullet(&f), None);
    set_fired_actions(&mut f, true, &Some(Ship { position: at(7, 8), ..Ship::new() }));
    let b = spawn_bullet(&f).unwrap();
    assert_eq!(b.origin, at(7, 8));
    assert_eq!(b.position, at(7, 8));
    assert_eq!(b.heading, Heading { x: 0, y: 1000 });
}
