//! The mathematical model of collision resolution.
//!
//! Both passes scan in sequence order and remove entities mid-scan; the
//! functions here give the scan a direct recursive description that the
//! executable passes in [`crate::game`] are proved to implement: a bullet
//! destroys the first enemy in scan order strictly closer than
//! [`BULLET_HIT_RANGE`] (at most one per pass), and every enemy strictly
//! closer to the player than [`PLAYER_HIT_RANGE`] is removed, each costing
//! one life.

use vstd::prelude::*;
use crate::bullet::Bullet;
use crate::enemy::Enemy;
use crate::position::dist_sq;
use crate::position::Position;

verus! {

/// A bullet destroys an enemy strictly closer than this distance.
pub const BULLET_HIT_RANGE: i32 = 150;

/// An enemy strictly closer than this distance to the player costs a life.
pub const PLAYER_HIT_RANGE: i32 = 120;

/// The bullet-enemy collision test: Euclidean distance strictly below
/// [`BULLET_HIT_RANGE`], compared on squares to stay in integers.
pub open spec fn bullet_hits_enemy(b: Bullet, e: Enemy) -> bool {
    dist_sq(b.position, e.position) < BULLET_HIT_RANGE * BULLET_HIT_RANGE
}

/// The player-enemy collision test: Euclidean distance strictly below
/// [`PLAYER_HIT_RANGE`], compared on squares to stay in integers.
pub open spec fn enemy_hits_player(p: Position, e: Enemy) -> bool {
    dist_sq(p, e.position) < PLAYER_HIT_RANGE * PLAYER_HIT_RANGE
}

/// The index of the first enemy at or after `from`, in scan order, that the
/// bullet hits.
pub open spec fn first_hit_index(b: Bullet, es: Seq<Enemy>, from: int) -> Option<int>
    decreases es.len() - from,
{
    if from < 0 || from >= es.len() {
        None
    } else if bullet_hits_enemy(b, es[from]) {
        Some(from)
    } else {
        first_hit_index(b, es, from + 1)
    }
}

/// Outcome of the bullet-enemy pass: the surviving bullets and enemies, in
/// their original order, and how many bullet-enemy pairs were removed.
pub ghost struct BulletPassResult {
    pub bullets: Seq<Bullet>,
    pub enemies: Seq<Enemy>,
    pub hits: nat,
}

/// The bullet-enemy pass, bullet by bullet in firing order: a bullet that
/// hits an enemy removes that enemy and itself (first match in scan order
/// wins, one enemy at most per bullet); a bullet that hits none survives and
/// the scan advances.
pub open spec fn bullet_pass(bs: Seq<Bullet>, es: Seq<Enemy>) -> BulletPassResult
    decreases bs.len(),
{
    if bs.len() == 0 {
        BulletPassResult { bullets: bs, enemies: es, hits: 0 }
    } else {
        match first_hit_index(bs[0], es, 0) {
            Some(j) => {
                let r = bullet_pass(bs.skip(1), es.remove(j));
                BulletPassResult { bullets: r.bullets, enemies: r.enemies, hits: r.hits + 1 }
            },
            None => {
                let r = bullet_pass(bs.skip(1), es);
                BulletPassResult {
                    bullets: seq![bs[0]] + r.bullets,
                    enemies: r.enemies,
                    hits: r.hits,
                }
            },
        }
    }
}

/// The enemies the player-enemy pass leaves alive: those at or beyond
/// [`PLAYER_HIT_RANGE`] from the player, in their original order.
pub open spec fn surviving_enemies(p: Position, es: Seq<Enemy>) -> Seq<Enemy>
    decreases es.len(),
{
    if es.len() == 0 {
        es
    } else if enemy_hits_player(p, es[0]) {
        surviving_enemies(p, es.skip(1))
    } else {
        seq![es[0]] + surviving_enemies(p, es.skip(1))
    }
}

/// How many enemies collide with the player; each one costs one life.
pub open spec fn player_hit_count(p: Position, es: Seq<Enemy>) -> nat
    decreases es.len(),
{
    if es.len() == 0 {
        0
    } else if enemy_hits_player(p, es[0]) {
        1 + player_hit_count(p, es.skip(1))
    } else {
        player_hit_count(p, es.skip(1))
    }
}

/// Every bullet in `s` has the constructed sprite size and speed.
pub open spec fn all_bullets_wf(s: Seq<Bullet>) -> bool {
    forall|i: int| 0 <= i < s.len() ==> (#[trigger] s[i]).wf()
}

/// Every enemy in `s` has the constructed sprite size and speed.
pub open spec fn all_enemies_wf(s: Seq<Enemy>) -> bool {
    forall|i: int| 0 <= i < s.len() ==> (#[trigger] s[i]).wf()
}

/// The smaller of the two lengths: no pass can remove more pairs.
pub open spec fn hits_cap(b: nat, e: nat) -> nat {
    if b <= e {
        b
    } else {
        e
    }
}

/// A first hit lies in range, hits its enemy, and nothing before it hits.
pub proof fn lemma_first_hit_index_spec(b: Bullet, es: Seq<Enemy>, from: int)
    requires
        0 <= from,
    ensures
        match first_hit_index(b, es, from) {
            Some(j) => from <= j < es.len() && bullet_hits_enemy(b, es[j]) && (forall|k: int|
                from <= k < j ==> !bullet_hits_enemy(b, es[k])),
            None => forall|k: int| from <= k < es.len() ==> !bullet_hits_enemy(b, es[k]),
        },
    decreases es.len() - from,
{
    if from < es.len() && !bullet_hits_enemy(b, es[from]) {
        lemma_first_hit_index_spec(b, es, from + 1);
    }
}

/// The bullet-enemy pass removes at most one enemy per bullet: the number of
/// removed pairs is bounded by both sequence lengths, and exactly that many
/// bullets and that many enemies disappear. Well-formedness of the entities
/// carries over to the survivors.
pub proof fn lemma_bullet_pass_counts(bs: Seq<Bullet>, es: Seq<Enemy>)
    ensures
        bullet_pass(bs, es).hits <= hits_cap(bs.len(), es.len()),
        bullet_pass(bs, es).bullets.len() == bs.len() - bullet_pass(bs, es).hits,
        bullet_pass(bs, es).enemies.len() == es.len() - bullet_pass(bs, es).hits,
        all_bullets_wf(bs) && all_enemies_wf(es) ==> all_bullets_wf(bullet_pass(bs, es).bullets)
            && all_enemies_wf(bullet_pass(bs, es).enemies),
    decreases bs.len(),
{
    if bs.len() > 0 {
        assert(all_bullets_wf(bs) ==> all_bullets_wf(bs.skip(1)));
        match first_hit_index(bs[0], es, 0) {
            Some(j) => {
                lemma_first_hit_index_spec(bs[0], es, 0);
                assert(all_enemies_wf(es) ==> all_enemies_wf(es.remove(j)));
                lemma_bullet_pass_counts(bs.skip(1), es.remove(j));
            },
            None => {
                lemma_bullet_pass_counts(bs.skip(1), es);
            },
        }
    }
}

/// The player-enemy pass splits the enemies exactly: every enemy either
/// survives or is one of the counted hits, and well-formedness carries over
/// to the survivors.
pub proof fn lemma_player_pass_counts(p: Position, es: Seq<Enemy>)
    ensures
        surviving_enemies(p, es).len() + player_hit_count(p, es) == es.len(),
        all_enemies_wf(es) ==> all_enemies_wf(surviving_enemies(p, es)),
    decreases es.len(),
{
    if es.len() > 0 {
        assert(all_enemies_wf(es) ==> all_enemies_wf(es.skip(1)));
        lemma_player_pass_counts(p, es.skip(1));
    }
}

} // verus!
