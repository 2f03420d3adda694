//! The player's tally: lives left and score.
use vstd::prelude::*;
use crate::asteroids::AsteroidSize;

verus! {

/// Lives a player starts a game with.
pub const STARTING_LIVES: u8 = 3;

#[derive(Clone, Copy, Debug, PartialEq, Eq, Structural)]
pub struct Player {
    pub life_count: u8,
    pub score: i32,
}

/// The player at the start of a game.
pub open spec fn fresh_player() -> Player {
    Player { life_count: STARTING_LIVES, score: 0 }
}

/// Total points for destroying asteroids of the sizes `sizes`.
pub open spec fn points_of(sizes: Seq<AsteroidSize>) -> int
    decreases sizes.len(),
{
    if sizes.len() == 0 {
        0
    } else {
        points_of(sizes.drop_last()) + sizes.last().points_spec()
    }
}

/// `score` raised by `points`, saturating at the largest `i32`.
pub open spec fn added_score(score: int, points: int) -> int {
    if score + points > i32::MAX {
        i32::MAX as int
    } else {
        score + points
    }
}

/// The player after the ship was hit once: one life fewer, never below
/// zero.
pub open spec fn after_ship_hit(p: Player) -> Player {
    if p.life_count > 0 {
        Player { life_count: (p.life_count - 1) as u8, score: p.score }
    } else {
        p
    }
}

/// The player after `k` hits of the ship, one per tick.
pub open spec fn after_ship_hits(p: Player, k: nat) -> Player
    decreases k,
{
    if k == 0 {
        p
    } else {
        after_ship_hit(after_ship_hits(p, (k - 1) as nat))
    }
}

impl Player {
    /// Score never goes below zero.
    pub open spec fn wf(self) -> bool {
        self.score >= 0
    }

    pub fn new() -> (r: Player)
        ensures
            r == fresh_player(),
    {
        Player { life_count: STARTING_LIVES, score: 0 }
    }
}

/// Points are never negative.
pub proof fn lemma_points_nonneg(sizes: Seq<AsteroidSize>)
    ensures
        points_of(sizes) >= 0,
    decreases sizes.len(),
{
    if sizes.len() > 0 {
        lemma_points_nonneg(sizes.drop_last());
    }
}

/// Adds the points for the asteroids destroyed this tick, given by size.
pub fn handle_asteroid_hit(player: &mut Player, destroyed: &Vec<AsteroidSize>)
    requires
        old(player).wf(),
    ensures
        final(player).score == added_score(old(player).score as int, points_of(destroyed@)),
        final(player).life_count == old(player).life_count,
        final(player).wf(),
{
    let n = destroyed.len();
    let ghost s0 = player.score as int;
    for i in 0..n
        invariant
            n == destroyed@.len(),
            s0 >= 0,
            player.score == added_score(s0, points_of(destroyed@.take(i as int))),
            player.life_count == old(player).life_count,
            s0 == old(player).score,
            player.wf(),
    {
        let p = destroyed[i].points();
        proof {
            assert(destroyed@.take(i + 1).drop_last() =~= destroyed@.take(i as int));
            lemma_points_nonneg(destroyed@.take(i as int));
        }
        if player.score > i32::MAX - p {
            player.score = i32::MAX;
        } else {
            player.score = player.score + p;
        }
    }
    assert(destroyed@.take(n as int) =~= destroyed@);
}

/// Takes a life when the ship was hit this tick; with no life left the
/// count stays at zero. Returns whether a hit left no life, which ends the
/// game.
pub fn handle_player_hit(player: &mut Player, ship_hit: bool) -> (game_over: bool)
    ensures
        *final(player) == if ship_hit {
            after_ship_hit(*old(player))
        } else {
            *old(player)
        },
        game_over == (ship_hit && final(player).life_count == 0),
{
    if ship_hit {
        if player.life_count > 0 {
            player.life_count = player.life_count - 1;
        }
        player.life_count == 0
    } else {
        false
    }
}

/// A player with `p.life_count` lives left survives every hit of the ship
/// but the one that takes the last life: after `k` hits, one per tick, the
/// lives are down by `k`, and none are left exactly when `k` is the number
/// the player had.
pub proof fn lemma_last_life_ends_game(p: Player, k: nat)
    requires
        k <= p.life_count,
    ensures
        after_ship_hits(p, k).life_count == p.life_count - k,
        after_ship_hits(p, k).score == p.score,
        (after_ship_hits(p, k).life_count == 0) <==> (k == p.life_count),
    decreases k,
{
    if k > 0 {
        lemma_last_life_ends_game(p, (k - 1) as nat);
    }
}

/// A fresh player survives the first two hits of the ship, and the third one
/// ends the game.
pub proof fn lemma_third_hit_ends_game()
    ensures
        after_ship_hits(fresh_player(), 1).life_count > 0,
        after_ship_hits(fresh_player(), 2).life_count > 0,
        after_ship_hits(fresh_player(), 3).life_count == 0,
{
    lemma_last_life_ends_game(fresh_player(), 1);
    lemma_last_life_ends_game(fresh_player(), 2);
    lemma_last_life_ends_game(fresh_player(), 3);
}

} // verus!
