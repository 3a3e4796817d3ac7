//! The game state machine: owns all entities and advances the simulation one
//! frame at a time.
//!
//! A frame runs spawn, movement and collision resolution; input commands
//! arrive between frames through [`Game::key_down`] / [`Game::key_up`]. The
//! surrounding application supplies each frame's timestamp and the random
//! x coordinate for a spawn, renders the state after each frame, and shows
//! the terminal message when [`Game::frame_outcome`] asks for it.

use vstd::pervasive::VecAdditionalExecFns;
use vstd::prelude::*;
use crate::bullet::Bullet;
use crate::bullet::BULLET_HEIGHT;
use crate::bullet::BULLET_SPEED;
use crate::bullet::BULLET_WIDTH;
use crate::collision::all_bullets_wf;
use crate::collision::all_enemies_wf;
use crate::collision::bullet_pass;
use crate::collision::enemy_hits_player;
use crate::collision::first_hit_index;
use crate::collision::hits_cap;
use crate::collision::lemma_bullet_pass_counts;
use crate::collision::lemma_first_hit_index_spec;
use crate::collision::lemma_player_pass_counts;
use crate::collision::player_hit_count;
use crate::collision::surviving_enemies;
use crate::collision::BULLET_HIT_RANGE;
use crate::collision::PLAYER_HIT_RANGE;
use crate::enemy::Enemy;
use crate::enemy::ENEMY_HEIGHT;
use crate::enemy::ENEMY_SPEED;
use crate::enemy::ENEMY_WIDTH;
use crate::enemy_type::EnemySpawnInfo;
use crate::enemy_type::EnemyType;
use crate::game_state::GameState;
use crate::player::life_after_hits;
use crate::player::Player;
use crate::position::distance_squared;
use crate::position::Position;

verus! {

/// Horizontal start position of the player.
pub const PLAYER_START_X: i32 = 400;

/// Vertical start position of the player.
pub const PLAYER_START_Y: i32 = 500;

/// Milliseconds between successive spawns of the regular enemy.
pub const SPAWN_INTERVAL_MS: u64 = 2000;

/// Points awarded for each enemy a bullet destroys.
pub const SCORE_PER_HIT: u32 = 10;

pub struct Game {
    pub player: Player,
    pub bullets: Vec<Bullet>,
    pub enemies: Vec<Enemy>,
    pub score: u32,
    pub state: GameState,
    pub keys_pressed: Vec<String>,
    /// Timestamp of the very first processed frame, once one was processed.
    pub last_enemy_spawn: Option<u64>,
    pub enemies_spawn_info: Vec<EnemySpawnInfo>,
    pub canvas_width: i32,
    /// Whether the terminal game-over message was already requested; it is
    /// requested exactly once per game.
    pub game_over_notified: bool,
}

/// The enemy a spawn at horizontal position `x` creates.
pub open spec fn spawned_enemy(x: i32) -> Enemy {
    Enemy {
        position: Position { x, y: 0 },
        width: ENEMY_WIDTH,
        height: ENEMY_HEIGHT,
        velocity: ENEMY_SPEED,
    }
}

/// The bullet a fire command creates when the player is at `p`.
pub open spec fn fired_bullet(p: Position) -> Bullet {
    Bullet { position: p, width: BULLET_WIDTH, height: BULLET_HEIGHT, velocity: BULLET_SPEED }
}

/// Some key in `keys` reads as `k`.
pub open spec fn has_key(keys: Seq<String>, k: Seq<char>) -> bool {
    exists|i: int| 0 <= i < keys.len() && keys[i]@ == k
}

/// The first index at or after `from` whose key reads as `k`.
pub open spec fn first_key_match(keys: Seq<String>, k: Seq<char>, from: int) -> Option<int>
    decreases keys.len() - from,
{
    if from < 0 || from >= keys.len() {
        None
    } else if keys[from]@ == k {
        Some(from)
    } else {
        first_key_match(keys, k, from + 1)
    }
}

/// The key name that fires a bullet.
pub open spec fn is_fire_key(k: Seq<char>) -> bool {
    k == " "@ || k == "Space"@
}

impl Game {
    /// Everything construction establishes and every command and frame
    /// preserves: well-formed entities, one spawn record (for the regular
    /// enemy), a positive life while playing, and a game-over notification
    /// only after the game is over.
    pub open spec fn wf(self) -> bool {
        &&& self.player.wf()
        &&& 0 <= self.canvas_width
        &&& all_bullets_wf(self.bullets@)
        &&& all_enemies_wf(self.enemies@)
        &&& self.enemies_spawn_info@.len() == 1
        &&& self.enemies_spawn_info@[0].enemy_type == EnemyType::Regular
        &&& (self.state == GameState::Playing ==> self.player.life >= 1)
        &&& (self.game_over_notified ==> self.state == GameState::GameOver)
    }

    /// Creates a fresh game on a canvas of the given width: the player at
    /// the start position with full life, no entities, score zero, playing,
    /// and no frame processed yet.
    pub fn new(canvas_width: i32) -> (g: Game)
        requires
            0 <= canvas_width,
        ensures
            g.wf(),
            g.player == (Player {
                position: Position { x: PLAYER_START_X, y: PLAYER_START_Y },
                width: crate::player::PLAYER_WIDTH,
                height: crate::player::PLAYER_HEIGHT,
                life: crate::player::PLAYER_START_LIFE,
                velocity: crate::player::PLAYER_STEP,
            }),
            g.bullets@.len() == 0,
            g.enemies@.len() == 0,
            g.score == 0,
            g.state == GameState::Playing,
            g.keys_pressed@.len() == 0,
            g.last_enemy_spawn is None,
            g.enemies_spawn_info@ =~= seq![
                EnemySpawnInfo {
                    enemy_type: EnemyType::Regular,
                    spawn_interval: SPAWN_INTERVAL_MS,
                    last_spawn_time: 0,
                },
            ],
            g.canvas_width == canvas_width,
            !g.game_over_notified,
    {
        let mut infos: Vec<EnemySpawnInfo> = Vec::new();
        infos.push(
            EnemySpawnInfo {
                enemy_type: EnemyType::Regular,
                spawn_interval: SPAWN_INTERVAL_MS,
                last_spawn_time: 0,
            },
        );
        Game {
            player: Player::new(PLAYER_START_X, PLAYER_START_Y),
            bullets: Vec::new(),
            enemies: Vec::new(),
            score: 0,
            state: GameState::Playing,
            keys_pressed: Vec::new(),
            last_enemy_spawn: None,
            enemies_spawn_info: infos,
            canvas_width,
            game_over_notified: false,
        }
    }

    /// Appends one bullet at the player's current position to the bullet
    /// sequence; it always succeeds and changes nothing else.
    pub fn fire_bullet(&mut self)
        ensures
            *final(self) == (Game { bullets: final(self).bullets, ..*old(self) }),
            final(self).bullets@ == old(self).bullets@.push(
                fired_bullet(old(self).player.position),
            ),
    {
        let bullet = Bullet::new(self.player.position.x, self.player.position.y);
        self.bullets.push(bullet);
    }

    /// Spawns one enemy of the given type at `(x, 0)`, appended in spawn
    /// order. Spawning is suppressed entirely outside `Playing`, and the
    /// `Fast` and `Strong` variants are declared but do not spawn.
    pub fn spawn_enemy(&mut self, enemy_type: EnemyType, x: i32)
        ensures
            *final(self) == (Game { enemies: final(self).enemies, ..*old(self) }),
            final(self).enemies@ == if old(self).state == GameState::Playing && enemy_type
                == EnemyType::Regular {
                old(self).enemies@.push(spawned_enemy(x))
            } else {
                old(self).enemies@
            },
    {
        if self.state != GameState::Playing {
            return;
        }
        match enemy_type {
            EnemyType::Regular => {
                self.enemies.push(Enemy::new(x, 0));
            },
            EnemyType::Fast => {},
            EnemyType::Strong => {},
        }
    }
}

/// Whether `key` occurs in `keys`, comparing key names character for
/// character.
fn contains_key(keys: &Vec<String>, key: &String) -> (r: bool)
    ensures
        r == has_key(keys@, key@),
{
    let mut i: usize = 0;
    while i < keys.len()
        invariant
            0 <= i <= keys@.len(),
            forall|j: int| 0 <= j < i ==> keys@[j]@ != key@,
        decreases keys@.len() - i,
    {
        if keys[i] == *key {
            return true;
        }
        i = i + 1;
    }
    false
}

impl Game {
    /// Records `key` in the pressed-set if absent (idempotent), and applies
    /// its command: the fire key appends one bullet at the player's current
    /// position, the arrow keys move the player once, edge-triggered.
    /// Unrecognized keys are tracked but have no further effect.
    pub fn key_down(&mut self, key: String)
        requires
            old(self).wf(),
        ensures
            final(self).wf(),
            final(self).keys_pressed@ == if has_key(old(self).keys_pressed@, key@) {
                old(self).keys_pressed@
            } else {
                old(self).keys_pressed@.push(key)
            },
            final(self).bullets@ == if is_fire_key(key@) {
                old(self).bullets@.push(fired_bullet(old(self).player.position))
            } else {
                old(self).bullets@
            },
            final(self).player == if key@ == "ArrowRight"@ {
                old(self).player.moved_right(old(self).canvas_width)
            } else if key@ == "ArrowLeft"@ {
                old(self).player.moved_left()
            } else {
                old(self).player
            },
            final(self).enemies == old(self).enemies,
            final(self).score == old(self).score,
            final(self).state == old(self).state,
            final(self).last_enemy_spawn == old(self).last_enemy_spawn,
            final(self).enemies_spawn_info == old(self).enemies_spawn_info,
            final(self).canvas_width == old(self).canvas_width,
            final(self).game_over_notified == old(self).game_over_notified,
    {
        proof {
            reveal_strlit(" ");
            reveal_strlit("Space");
            reveal_strlit("ArrowRight");
            reveal_strlit("ArrowLeft");
        }
        if !contains_key(&self.keys_pressed, &key) {
            self.keys_pressed.push(key.clone());
        }
        if key == " ".to_owned() || key == "Space".to_owned() {
            self.fire_bullet();
        }
        if key == "ArrowRight".to_owned() {
            let cw = self.canvas_width;
            self.player.move_right(cw);
        } else if key == "ArrowLeft".to_owned() {
            let cw = self.canvas_width;
            self.player.move_left(cw);
        }
    }

    /// Removes the first occurrence of `key` from the pressed-set; a no-op
    /// if the key is not recorded.
    pub fn key_up(&mut self, key: String)
        ensures
            *final(self) == (Game { keys_pressed: final(self).keys_pressed, ..*old(self) }),
            final(self).keys_pressed@ == match first_key_match(
                old(self).keys_pressed@,
                key@,
                0,
            ) {
                Some(i) => old(self).keys_pressed@.remove(i),
                None => old(self).keys_pressed@,
            },
    {
        let mut i: usize = 0;
        while i < self.keys_pressed.len()
            invariant
                0 <= i <= self.keys_pressed@.len(),
                first_key_match(self.keys_pressed@, key@, 0) == first_key_match(
                    self.keys_pressed@,
                    key@,
                    i as int,
                ),
                *self == *old(self),
            decreases self.keys_pressed@.len() - i,
        {
            if self.keys_pressed[i] == key {
                self.keys_pressed.remove(i);
                return;
            }
            i = i + 1;
        }
    }
}

/// The game state after the player-enemy pass: `GameOver` as soon as a
/// collision empties the life counter, the incoming state otherwise.
pub open spec fn state_after_collisions(s: GameState, life: u32, hits: nat) -> GameState {
    if s == GameState::GameOver || (hits >= 1 && life_after_hits(life, hits) == 0) {
        GameState::GameOver
    } else {
        s
    }
}

/// While playing with at least one life, the player-enemy pass moves the
/// state to `GameOver` if and only if it reduces the life counter to exactly
/// zero; no other event causes the transition.
pub proof fn lemma_game_over_iff(s: GameState, life: u32, hits: nat)
    requires
        s == GameState::Playing,
        life >= 1,
    ensures
        state_after_collisions(s, life, hits) == GameState::GameOver <==> life_after_hits(
            life,
            hits,
        ) == 0,
{
}

/// The index of the first enemy, in scan order, strictly closer to the
/// bullet than [`BULLET_HIT_RANGE`].
fn find_first_hit(b: &Bullet, enemies: &Vec<Enemy>) -> (r: Option<usize>)
    ensures
        match r {
            Some(j) => first_hit_index(*b, enemies@, 0) == Some(j as int),
            None => first_hit_index(*b, enemies@, 0) is None,
        },
{
    let mut j: usize = 0;
    while j < enemies.len()
        invariant
            j <= enemies@.len(),
            first_hit_index(*b, enemies@, 0) == first_hit_index(*b, enemies@, j as int),
        decreases enemies@.len() - j,
    {
        let d = distance_squared(b.position, enemies[j].position);
        if d < (BULLET_HIT_RANGE as i128) * (BULLET_HIT_RANGE as i128) {
            return Some(j);
        }
        j = j + 1;
    }
    None
}

impl Game {
    /// The bullet-enemy pass: each bullet, in firing order, destroys the
    /// first enemy in scan order strictly closer than [`BULLET_HIT_RANGE`];
    /// the bullet is consumed with it and the score grows by
    /// [`SCORE_PER_HIT`] per destroyed enemy. A bullet destroys at most one
    /// enemy per pass. Removal never perturbs the scan over the entities not
    /// yet visited.
    ///
    /// The score bound only keeps the addition inside `u32`.
    pub fn check_bullet_enemy_collisions(&mut self)
        requires
            old(self).score + SCORE_PER_HIT * hits_cap(
                old(self).bullets@.len(),
                old(self).enemies@.len(),
            ) <= u32::MAX,
        ensures
            *final(self) == (Game {
                bullets: final(self).bullets,
                enemies: final(self).enemies,
                score: final(self).score,
                ..*old(self)
            }),
            final(self).bullets@ == bullet_pass(old(self).bullets@, old(self).enemies@).bullets,
            final(self).enemies@ == bullet_pass(old(self).bullets@, old(self).enemies@).enemies,
            final(self).score == old(self).score + SCORE_PER_HIT * bullet_pass(
                old(self).bullets@,
                old(self).enemies@,
            ).hits,
    {
        proof {
            lemma_bullet_pass_counts(old(self).bullets@, old(self).enemies@);
        }
        let ghost mut hits: nat = 0;
        let mut i: usize = 0;
        proof {
            assert(self.bullets@.take(0) =~= Seq::<Bullet>::empty());
            assert(self.bullets@.skip(0) =~= self.bullets@);
            assert(Seq::<Bullet>::empty() + bullet_pass(self.bullets@, self.enemies@).bullets
                =~= bullet_pass(self.bullets@, self.enemies@).bullets);
        }
        while i < self.bullets.len()
            invariant
                i <= self.bullets@.len(),
                *self == (Game {
                    bullets: self.bullets,
                    enemies: self.enemies,
                    score: self.score,
                    ..*old(self)
                }),
                bullet_pass(old(self).bullets@, old(self).enemies@).bullets == self.bullets@.take(
                    i as int,
                ) + bullet_pass(self.bullets@.skip(i as int), self.enemies@).bullets,
                bullet_pass(old(self).bullets@, old(self).enemies@).enemies == bullet_pass(
                    self.bullets@.skip(i as int),
                    self.enemies@,
                ).enemies,
                bullet_pass(old(self).bullets@, old(self).enemies@).hits == hits + bullet_pass(
                    self.bullets@.skip(i as int),
                    self.enemies@,
                ).hits,
                self.score == old(self).score + SCORE_PER_HIT * hits,
                old(self).score + SCORE_PER_HIT * bullet_pass(
                    old(self).bullets@,
                    old(self).enemies@,
                ).hits <= u32::MAX,
            decreases self.bullets@.len() - i,
        {
            let ghost bpre = self.bullets@;
            let ghost epre = self.enemies@;
            let bullet = self.bullets[i];
            proof {
                assert(bpre.skip(i as int)[0] == bpre[i as int]);
            }
            match find_first_hit(&bullet, &self.enemies) {
                Some(j) => {
                    proof {
                        lemma_first_hit_index_spec(bullet, epre, 0);
                    }
                    self.enemies.remove(j);
                    self.bullets.remove(i);
                    self.score = self.score + SCORE_PER_HIT;
                    proof {
                        hits = hits + 1;
                        assert(self.bullets@.take(i as int) =~= bpre.take(i as int));
                        assert(self.bullets@.skip(i as int) =~= bpre.skip(i as int).skip(1));
                    }
                },
                None => {
                    i = i + 1;
                    proof {
                        assert(bpre.skip(i - 1).skip(1) =~= bpre.skip(i as int));
                        assert(bpre.take(i as int) =~= bpre.take(i - 1) + seq![bpre[i - 1]]);
                        assert(bpre.take(i - 1) + (seq![bpre[i - 1]] + bullet_pass(
                            bpre.skip(i as int),
                            epre,
                        ).bullets) =~= bpre.take(i as int) + bullet_pass(
                            bpre.skip(i as int),
                            epre,
                        ).bullets);
                    }
                },
            }
        }
        proof {
            assert(self.bullets@.take(i as int) =~= self.bullets@);
            assert(bullet_pass(self.bullets@.skip(i as int), self.enemies@).bullets
                =~= Seq::<Bullet>::empty());
            assert(self.bullets@ + Seq::<Bullet>::empty() =~= self.bullets@);
        }
    }

    /// The player-enemy pass: every enemy strictly closer to the player than
    /// [`PLAYER_HIT_RANGE`] is removed and costs one life (clamped at zero).
    /// The instant a collision empties the life counter the state moves to
    /// `GameOver`, inside the pass, not deferred.
    pub fn check_player_enemy_collisions(&mut self)
        ensures
            *final(self) == (Game {
                player: final(self).player,
                enemies: final(self).enemies,
                state: final(self).state,
                ..*old(self)
            }),
            final(self).enemies@ == surviving_enemies(
                old(self).player.position,
                old(self).enemies@,
            ),
            final(self).player == (Player {
                life: life_after_hits(
                    old(self).player.life,
                    player_hit_count(old(self).player.position, old(self).enemies@),
                ),
                ..old(self).player
            }),
            final(self).state == state_after_collisions(
                old(self).state,
                old(self).player.life,
                player_hit_count(old(self).player.position, old(self).enemies@),
            ),
    {
        let ghost player_pos = old(self).player.position;
        let ghost mut hits: nat = 0;
        let mut k: usize = 0;
        proof {
            assert(self.enemies@.take(0) =~= Seq::<Enemy>::empty());
            assert(self.enemies@.skip(0) =~= self.enemies@);
            assert(Seq::<Enemy>::empty() + surviving_enemies(player_pos, self.enemies@)
                =~= surviving_enemies(player_pos, self.enemies@));
        }
        while k < self.enemies.len()
            invariant
                player_pos == old(self).player.position,
                k <= self.enemies@.len(),
                *self == (Game {
                    player: self.player,
                    enemies: self.enemies,
                    state: self.state,
                    ..*old(self)
                }),
                self.player == (Player { life: self.player.life, ..old(self).player }),
                self.player.life == life_after_hits(old(self).player.life, hits),
                surviving_enemies(player_pos, old(self).enemies@) == self.enemies@.take(k as int)
                    + surviving_enemies(player_pos, self.enemies@.skip(k as int)),
                player_hit_count(player_pos, old(self).enemies@) == hits + player_hit_count(
                    player_pos,
                    self.enemies@.skip(k as int),
                ),
                self.state == state_after_collisions(
                    old(self).state,
                    old(self).player.life,
                    hits,
                ),
            decreases self.enemies@.len() - k,
        {
            let ghost epre = self.enemies@;
            proof {
                assert(epre.skip(k as int)[0] == epre[k as int]);
            }
            let d = distance_squared(self.player.position, self.enemies[k].position);
            if d < (PLAYER_HIT_RANGE as i128) * (PLAYER_HIT_RANGE as i128) {
                self.player.decrease_life();
                self.enemies.remove(k);
                if self.player.get_life() == 0 {
                    self.state = GameState::GameOver;
                }
                proof {
                    hits = hits + 1;
                    assert(enemy_hits_player(player_pos, epre.skip(k as int)[0]));
                    assert(surviving_enemies(player_pos, epre.skip(k as int)) == surviving_enemies(
                        player_pos,
                        epre.skip(k as int).skip(1),
                    ));
                    assert(player_hit_count(player_pos, epre.skip(k as int)) == 1 + player_hit_count(
                        player_pos,
                        epre.skip(k as int).skip(1),
                    ));
                    assert(self.enemies@.take(k as int) =~= epre.take(k as int));
                    assert(self.enemies@.skip(k as int) =~= epre.skip(k as int).skip(1));
                }
            } else {
                k = k + 1;
                proof {
                    assert(!enemy_hits_player(player_pos, epre.skip(k - 1)[0]));
                    assert(surviving_enemies(player_pos, epre.skip(k - 1)) == seq![epre[k - 1]]
                        + surviving_enemies(player_pos, epre.skip(k - 1).skip(1)));
                    assert(player_hit_count(player_pos, epre.skip(k - 1)) == player_hit_count(
                        player_pos,
                        epre.skip(k - 1).skip(1),
                    ));
                    assert(epre.skip(k - 1).skip(1) =~= epre.skip(k as int));
                    assert(epre.take(k as int) =~= epre.take(k - 1) + seq![epre[k - 1]]);
                    assert(epre.take(k - 1) + (seq![epre[k - 1]] + surviving_enemies(
                        player_pos,
                        epre.skip(k as int),
                    )) =~= epre.take(k as int) + surviving_enemies(player_pos, epre.skip(k as int)));
                }
            }
        }
        proof {
            assert(self.enemies@.take(k as int) =~= self.enemies@);
            assert(surviving_enemies(player_pos, self.enemies@.skip(k as int))
                =~= Seq::<Enemy>::empty());
            assert(self.enemies@ + Seq::<Enemy>::empty() =~= self.enemies@);
        }
    }
}

/// Every bullet's `y` admits one more step up without leaving `i32`.
pub open spec fn bullets_can_move(s: Seq<Bullet>) -> bool {
    forall|i: int|
        0 <= i < s.len() ==> i32::MIN + (#[trigger] s[i]).velocity <= s[i].position.y
}

/// Every enemy's `y` admits one more step down without leaving `i32`.
pub open spec fn enemies_can_move(s: Seq<Enemy>) -> bool {
    forall|i: int|
        0 <= i < s.len() ==> i32::MIN <= (#[trigger] s[i]).position.y + s[i].velocity
            <= i32::MAX
}

/// All bullets after one frame of upward movement.
pub open spec fn moved_bullets(s: Seq<Bullet>) -> Seq<Bullet> {
    s.map_values(|b: Bullet| b.moved_up())
}

/// All enemies after one frame of downward movement.
pub open spec fn moved_enemies(s: Seq<Enemy>) -> Seq<Enemy> {
    s.map_values(|e: Enemy| e.moved_down())
}

impl Game {
    /// Runs the bullet-enemy pass, then the player-enemy pass on its
    /// survivors, in that order.
    pub fn check_collisions(&mut self)
        requires
            old(self).score + SCORE_PER_HIT * hits_cap(
                old(self).bullets@.len(),
                old(self).enemies@.len(),
            ) <= u32::MAX,
        ensures
            *final(self) == (Game {
                player: final(self).player,
                bullets: final(self).bullets,
                enemies: final(self).enemies,
                score: final(self).score,
                state: final(self).state,
                ..*old(self)
            }),
            final(self).bullets@ == bullet_pass(old(self).bullets@, old(self).enemies@).bullets,
            final(self).enemies@ == surviving_enemies(
                old(self).player.position,
                bullet_pass(old(self).bullets@, old(self).enemies@).enemies,
            ),
            final(self).score == old(self).score + SCORE_PER_HIT * bullet_pass(
                old(self).bullets@,
                old(self).enemies@,
            ).hits,
            final(self).player == (Player {
                life: life_after_hits(
                    old(self).player.life,
                    player_hit_count(
                        old(self).player.position,
                        bullet_pass(old(self).bullets@, old(self).enemies@).enemies,
                    ),
                ),
                ..old(self).player
            }),
            final(self).state == state_after_collisions(
                old(self).state,
                old(self).player.life,
                player_hit_count(
                    old(self).player.position,
                    bullet_pass(old(self).bullets@, old(self).enemies@).enemies,
                ),
            ),
    {
        self.check_bullet_enemy_collisions();
        self.check_player_enemy_collisions();
    }

    /// One frame of simulation after spawning: every bullet moves up, every
    /// enemy moves down, then both collision passes run on the moved
    /// entities.
    pub fn update(&mut self)
        requires
            old(self).wf(),
            bullets_can_move(old(self).bullets@),
            enemies_can_move(old(self).enemies@),
            old(self).score + SCORE_PER_HIT * hits_cap(
                old(self).bullets@.len(),
                old(self).enemies@.len(),
            ) <= u32::MAX,
        ensures
            final(self).wf(),
            *final(self) == (Game {
                player: final(self).player,
                bullets: final(self).bullets,
                enemies: final(self).enemies,
                score: final(self).score,
                state: final(self).state,
                ..*old(self)
            }),
            ({
                let r = bullet_pass(
                    moved_bullets(old(self).bullets@),
                    moved_enemies(old(self).enemies@),
                );
                let ph = player_hit_count(old(self).player.position, r.enemies);
                &&& final(self).bullets@ == r.bullets
                &&& final(self).enemies@ == surviving_enemies(old(self).player.position, r.enemies)
                &&& final(self).score == old(self).score + SCORE_PER_HIT * r.hits
                &&& final(self).player == (Player {
                    life: life_after_hits(old(self).player.life, ph),
                    ..old(self).player
                })
                &&& final(self).state == state_after_collisions(
                    old(self).state,
                    old(self).player.life,
                    ph,
                )
            }),
    {
        let mut i: usize = 0;
        while i < self.bullets.len()
            invariant
                i <= self.bullets@.len(),
                self.bullets@.len() == old(self).bullets@.len(),
                *self == (Game { bullets: self.bullets, ..*old(self) }),
                bullets_can_move(old(self).bullets@),
                all_bullets_wf(old(self).bullets@),
                forall|j: int| 0 <= j < i ==> self.bullets@[j] == old(self).bullets@[j].moved_up(),
                forall|j: int|
                    i <= j < self.bullets@.len() ==> self.bullets@[j] == old(self).bullets@[j],
            decreases self.bullets@.len() - i,
        {
            let mut b = self.bullets[i];
            b.move_up();
            self.bullets.set(i, b);
            i = i + 1;
        }
        proof {
            assert(self.bullets@ =~= moved_bullets(old(self).bullets@));
        }
        let mut k: usize = 0;
        while k < self.enemies.len()
            invariant
                k <= self.enemies@.len(),
                self.enemies@.len() == old(self).enemies@.len(),
                *self == (Game { bullets: self.bullets, enemies: self.enemies, ..*old(self) }),
                self.bullets@ == moved_bullets(old(self).bullets@),
                enemies_can_move(old(self).enemies@),
                all_enemies_wf(old(self).enemies@),
                forall|j: int| 0 <= j < k ==> self.enemies@[j] == old(self).enemies@[j].moved_down(),
                forall|j: int|
                    k <= j < self.enemies@.len() ==> self.enemies@[j] == old(self).enemies@[j],
            decreases self.enemies@.len() - k,
        {
            let mut e = self.enemies[k];
            e.move_down();
            self.enemies.set(k, e);
            k = k + 1;
        }
        proof {
            assert(self.enemies@ =~= moved_enemies(old(self).enemies@));
            assert(all_bullets_wf(self.bullets@));
            assert(all_enemies_wf(self.enemies@));
            lemma_bullet_pass_counts(self.bullets@, self.enemies@);
            lemma_player_pass_counts(
                self.player.position,
                bullet_pass(self.bullets@, self.enemies@).enemies,
            );
        }
        self.check_collisions();
    }
}

/// What the application should do after one frame-advance decision.
#[derive(Clone, Copy, PartialEq, Eq, Structural, Debug)]
pub enum FrameOutcome {
    /// The game is playing: run the simulation step, render the state, and
    /// request the next animation frame.
    Continue,
    /// The game just ended: render the final life count, show the terminal
    /// game-over message, and request no further frame.
    NotifyGameOver,
    /// The game is over and the message was already shown: do nothing.
    Idle,
}

impl Game {
    /// One simulation frame at timestamp `current_time` (milliseconds,
    /// monotonically increasing across frames), while playing.
    ///
    /// The very first processed frame only starts the spawn clock: every
    /// spawn record's `last_spawn_time` is initialised to `current_time`, so
    /// no spawn happens before a full interval has passed. On later frames
    /// one enemy spawns at `(spawn_x, 0)` exactly when more than the spawn
    /// interval elapsed since the record's last spawn, and the record is
    /// updated to `current_time`, exactly once per spawn; no spawn happens
    /// otherwise. Then every entity moves one step and collisions are
    /// resolved. `spawn_x` is the caller's random draw from the canvas span.
    pub fn process_frame(&mut self, current_time: u64, spawn_x: i32)
        requires
            old(self).wf(),
            old(self).state == GameState::Playing,
            0 <= spawn_x <= old(self).canvas_width,
            old(self).enemies_spawn_info@[0].last_spawn_time <= current_time,
            bullets_can_move(old(self).bullets@),
            enemies_can_move(old(self).enemies@),
            old(self).score + SCORE_PER_HIT * hits_cap(
                old(self).bullets@.len(),
                old(self).enemies@.len() + 1,
            ) <= u32::MAX,
        ensures
            final(self).wf(),
            *final(self) == (Game {
                player: final(self).player,
                bullets: final(self).bullets,
                enemies: final(self).enemies,
                score: final(self).score,
                state: final(self).state,
                last_enemy_spawn: final(self).last_enemy_spawn,
                enemies_spawn_info: final(self).enemies_spawn_info,
                ..*old(self)
            }),
            final(self).last_enemy_spawn == if old(self).last_enemy_spawn is None {
                Some(current_time)
            } else {
                old(self).last_enemy_spawn
            },
            ({
                let info0 = old(self).enemies_spawn_info@[0];
                let inited = if old(self).last_enemy_spawn is None {
                    EnemySpawnInfo { last_spawn_time: current_time, ..info0 }
                } else {
                    info0
                };
                let spawns = current_time - inited.last_spawn_time > inited.spawn_interval;
                let es1 = if spawns {
                    old(self).enemies@.push(spawned_enemy(spawn_x))
                } else {
                    old(self).enemies@
                };
                let info2 = if spawns {
                    EnemySpawnInfo { last_spawn_time: current_time, ..inited }
                } else {
                    inited
                };
                let r = bullet_pass(moved_bullets(old(self).bullets@), moved_enemies(es1));
                let ph = player_hit_count(old(self).player.position, r.enemies);
                &&& final(self).enemies_spawn_info@ =~= seq![info2]
                &&& final(self).bullets@ == r.bullets
                &&& final(self).enemies@ == surviving_enemies(old(self).player.position, r.enemies)
                &&& final(self).score == old(self).score + SCORE_PER_HIT * r.hits
                &&& final(self).player == (Player {
                    life: life_after_hits(old(self).player.life, ph),
                    ..old(self).player
                })
                &&& final(self).state == state_after_collisions(
                    old(self).state,
                    old(self).player.life,
                    ph,
                )
            }),
    {
        if self.last_enemy_spawn.is_none() {
            self.last_enemy_spawn = Some(current_time);
            let mut info = self.enemies_spawn_info[0];
            info.last_spawn_time = current_time;
            self.enemies_spawn_info.set(0, info);
        }
        let info = self.enemies_spawn_info[0];
        if current_time - info.last_spawn_time > info.spawn_interval {
            self.spawn_enemy(EnemyType::Regular, spawn_x);
            let mut updated = self.enemies_spawn_info[0];
            updated.last_spawn_time = current_time;
            self.enemies_spawn_info.set(0, updated);
        }
        self.update();
    }

    /// The frame-advance dispatch, to run once per animation tick before
    /// anything else: while playing the caller should run the simulation
    /// step and request the next tick; on the tick after the game ends it
    /// should show the terminal message, exactly once per game; afterwards
    /// nothing remains to do and no tick is requested.
    pub fn frame_outcome(&mut self) -> (o: FrameOutcome)
        ensures
            *final(self) == (Game {
                game_over_notified: final(self).game_over_notified,
                ..*old(self)
            }),
            final(self).game_over_notified == (old(self).game_over_notified || old(self).state
                == GameState::GameOver),
            old(self).wf() ==> final(self).wf(),
            (o == FrameOutcome::Continue <==> old(self).state == GameState::Playing),
            (o == FrameOutcome::NotifyGameOver <==> old(self).state == GameState::GameOver
                && !old(self).game_over_notified),
            (o == FrameOutcome::Idle <==> old(self).state == GameState::GameOver && old(
                self,
            ).game_over_notified),
    {
        match self.state {
            GameState::Playing => FrameOutcome::Continue,
            GameState::GameOver => {
                if !self.game_over_notified {
                    self.game_over_notified = true;
                    FrameOutcome::NotifyGameOver
                } else {
                    FrameOutcome::Idle
                }
            },
        }
    }
}

} // verus!
