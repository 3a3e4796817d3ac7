use shooting_game::bullet::Bullet;
use shooting_game::enemy::Enemy;
use shooting_game::enemy_type::EnemyType;
use shooting_game::game::FrameOutcome;
use shooting_game::game::Game;
use shooting_game::game_state::GameState;
use shooting_game::position::Position;

#[test]
fn new_game_starts_playing_with_empty_field() {
    let g = Game::new(800);
    assert_eq!(g.state, GameState::Playing);
    assert_eq!(g.player.get_position(), Position::new(400, 500));
    assert_eq!(g.player.get_life(), 3);
    assert!(g.bullets.is_empty());
    assert!(g.enemies.is_empty());
    assert_eq!(g.score, 0);
    assert!(g.last_enemy_spawn.is_none());
    assert_eq!(g.enemies_spawn_info.len(), 1);
    assert_eq!(g.enemies_spawn_info[0].spawn_interval, 2000);
}

#[test]
fn bullet_and_enemy_within_range_are_both_removed() {
    // Distance 10 < 150: one hit, both entities removed, score 0 -> 10.
    let mut g = Game::new(800);
    g.bullets.push(Bullet::new(400, 200));
    g.enemies.push(Enemy::new(400, 210));
    g.check_bullet_enemy_collisions();
    assert!(g.bullets.is_empty());
    assert!(g.enemies.is_empty());
    assert_eq!(g.score, 10);
}

#[test]
fn bullet_at_threshold_distance_does_not_hit() {
    // Distance exactly 150 is not a collision.
    let mut g = Game::new(800);
    g.bullets.push(Bullet::new(400, 200));
    g.enemies.push(Enemy::new(400, 350));
    g.check_bullet_enemy_collisions();
    assert_eq!(g.bullets.len(), 1);
    assert_eq!(g.enemies.len(), 1);
    assert_eq!(g.score, 0);
}

#[test]
fn bullet_removes_at_most_one_enemy() {
    // Both enemies are in range; only the first in scan order is removed.
    let mut g = Game::new(800);
    g.bullets.push(Bullet::new(400, 200));
    g.enemies.push(Enemy::new(400, 210));
    g.enemies.push(Enemy::new(400, 220));
    g.check_bullet_enemy_collisions();
    assert!(g.bullets.is_empty());
    assert_eq!(g.enemies.len(), 1);
    assert_eq!(g.enemies[0].get_position().y, 220);
    assert_eq!(g.score, 10);
}

#[test]
fn score_grows_ten_per_removed_enemy() {
    let mut g = Game::new(800);
    g.bullets.push(Bullet::new(400, 200));
    g.bullets.push(Bullet::new(410, 200));
    g.enemies.push(Enemy::new(400, 210));
    g.enemies.push(Enemy::new(410, 220));
    g.check_bullet_enemy_collisions();
    assert!(g.bullets.is_empty());
    assert!(g.enemies.is_empty());
    assert_eq!(g.score, 20);
}

#[test]
fn surviving_bullet_keeps_scanning_order() {
    // The far bullet misses; the near one removes the first enemy in scan
    // order. Removal does not skip the remaining bullet.
    let mut g = Game::new(800);
    g.bullets.push(Bullet::new(0, 3000));
    g.bullets.push(Bullet::new(400, 200));
    g.enemies.push(Enemy::new(400, 210));
    g.check_bullet_enemy_collisions();
    assert_eq!(g.bullets.len(), 1);
    assert_eq!(g.bullets[0].get_position(), Position::new(0, 3000));
    assert!(g.enemies.is_empty());
    assert_eq!(g.score, 10);
}

#[test]
fn player_collision_costs_one_life_and_removes_enemy() {
    let mut g = Game::new(800);
    g.enemies.push(Enemy::new(400, 450));
    g.check_player_enemy_collisions();
    assert!(g.enemies.is_empty());
    assert_eq!(g.player.get_life(), 2);
    assert_eq!(g.state, GameState::Playing);
}

#[test]
fn player_collision_at_threshold_distance_is_no_hit() {
    // Distance exactly 120 is not a collision.
    let mut g = Game::new(800);
    g.enemies.push(Enemy::new(400, 380));
    g.check_player_enemy_collisions();
    assert_eq!(g.enemies.len(), 1);
    assert_eq!(g.player.get_life(), 3);
}

#[test]
fn three_player_collisions_end_the_game() {
    // Life sequence 3, 2, 1, 0; the transition happens exactly at the third
    // collision, not before.
    let mut g = Game::new(800);
    assert_eq!(g.player.get_life(), 3);

    g.enemies.push(Enemy::new(400, 450));
    g.check_player_enemy_collisions();
    assert_eq!(g.player.get_life(), 2);
    assert_eq!(g.state, GameState::Playing);

    g.enemies.push(Enemy::new(400, 450));
    g.check_player_enemy_collisions();
    assert_eq!(g.player.get_life(), 1);
    assert_eq!(g.state, GameState::Playing);

    g.enemies.push(Enemy::new(400, 450));
    g.check_player_enemy_collisions();
    assert_eq!(g.player.get_life(), 0);
    assert_eq!(g.state, GameState::GameOver);
}

#[test]
fn descending_enemy_eventually_hits_player() {
    // The enemy spawned at (400, 0) descends 2 per frame toward the player
    // at (400, 500); within 250 simulated frames it comes close enough to
    // collide, costing one life.
    let mut g = Game::new(800);
    g.spawn_enemy(EnemyType::Regular, 400);
    assert_eq!(g.enemies.len(), 1);
    assert_eq!(g.enemies[0].get_position(), Position::new(400, 0));

    for _ in 0..190 {
        g.update();
    }
    // After 190 frames the enemy sits at y = 380, distance 120: no hit yet.
    assert_eq!(g.enemies.len(), 1);
    assert_eq!(g.enemies[0].get_position().y, 380);
    assert_eq!(g.player.get_life(), 3);

    g.update();
    // One frame later the distance drops below 120: collision.
    assert!(g.enemies.is_empty());
    assert_eq!(g.player.get_life(), 2);
    assert_eq!(g.state, GameState::Playing);

    for _ in 191..250 {
        g.update();
    }
    assert!(g.enemies.is_empty());
    assert_eq!(g.player.get_life(), 2);
    assert_eq!(g.state, GameState::Playing);
}

#[test]
fn first_frame_only_starts_the_spawn_clock() {
    // Spawn interval 2000 ms, first frame at 5000 ms: the record is
    // initialised to 5000, no spawn happens, and the first spawn comes on
    // the first frame with timestamp beyond 7000 ms.
    let mut g = Game::new(800);
    g.process_frame(5000, 100);
    assert!(g.enemies.is_empty());
    assert_eq!(g.enemies_spawn_info[0].last_spawn_time, 5000);
    assert_eq!(g.last_enemy_spawn, Some(5000));

    g.process_frame(6999, 100);
    assert!(g.enemies.is_empty());
    assert_eq!(g.enemies_spawn_info[0].last_spawn_time, 5000);

    g.process_frame(7000, 100);
    assert!(g.enemies.is_empty());

    g.process_frame(7001, 100);
    assert_eq!(g.enemies.len(), 1);
    // The new enemy spawned at (100, 0) and moved down once this frame.
    assert_eq!(g.enemies[0].get_position(), Position::new(100, 2));
    assert_eq!(g.enemies_spawn_info[0].last_spawn_time, 7001);
}

#[test]
fn spawning_is_suppressed_after_game_over() {
    let mut g = Game::new(800);
    g.state = GameState::GameOver;
    g.spawn_enemy(EnemyType::Regular, 100);
    assert!(g.enemies.is_empty());
}

#[test]
fn only_the_regular_variant_spawns() {
    let mut g = Game::new(800);
    g.spawn_enemy(EnemyType::Fast, 100);
    g.spawn_enemy(EnemyType::Strong, 100);
    assert!(g.enemies.is_empty());
    g.spawn_enemy(EnemyType::Regular, 100);
    assert_eq!(g.enemies.len(), 1);
}

#[test]
fn fire_bullet_appends_at_player_position() {
    let mut g = Game::new(800);
    g.fire_bullet();
    assert_eq!(g.bullets.len(), 1);
    assert_eq!(g.bullets[0].get_position(), Position::new(400, 500));
    g.fire_bullet();
    assert_eq!(g.bullets.len(), 2);
}

#[test]
fn fire_keys_fire_one_bullet_each() {
    let mut g = Game::new(800);
    g.key_down(String::from(" "));
    assert_eq!(g.bullets.len(), 1);
    g.key_down(String::from("Space"));
    assert_eq!(g.bullets.len(), 2);
    assert_eq!(g.bullets[0].get_position(), Position::new(400, 500));
}

#[test]
fn arrow_keys_move_the_player_once() {
    let mut g = Game::new(800);
    g.key_down(String::from("ArrowLeft"));
    assert_eq!(g.player.get_position().x, 370);
    g.key_up(String::from("ArrowLeft"));
    g.key_down(String::from("ArrowRight"));
    assert_eq!(g.player.get_position().x, 400);
}

#[test]
fn pressed_set_is_idempotent() {
    let mut g = Game::new(800);
    g.key_down(String::from("x"));
    g.key_down(String::from("x"));
    assert_eq!(g.keys_pressed.len(), 1);
    g.key_down(String::from("y"));
    assert_eq!(g.keys_pressed.len(), 2);
    g.key_up(String::from("x"));
    assert_eq!(g.keys_pressed.len(), 1);
    assert_eq!(g.keys_pressed[0], "y");
    g.key_up(String::from("x"));
    assert_eq!(g.keys_pressed.len(), 1);
}

#[test]
fn unrecognized_key_is_tracked_without_effect() {
    let mut g = Game::new(800);
    g.key_down(String::from("q"));
    assert_eq!(g.keys_pressed.len(), 1);
    assert_eq!(g.keys_pressed[0], "q");
    assert!(g.bullets.is_empty());
    assert_eq!(g.player.get_position(), Position::new(400, 500));
    assert_eq!(g.score, 0);
}

#[test]
fn game_over_is_notified_exactly_once() {
    let mut g = Game::new(800);
    assert_eq!(g.frame_outcome(), FrameOutcome::Continue);
    assert_eq!(g.frame_outcome(), FrameOutcome::Continue);

    g.player.life = 1;
    g.enemies.push(Enemy::new(400, 450));
    g.check_player_enemy_collisions();
    assert_eq!(g.state, GameState::GameOver);

    assert_eq!(g.frame_outcome(), FrameOutcome::NotifyGameOver);
    assert_eq!(g.frame_outcome(), FrameOutcome::Idle);
    assert_eq!(g.frame_outcome(), FrameOutcome::Idle);
}

#[test]
fn game_over_happens_inside_the_frame() {
    // A frame whose player-enemy pass empties the life counter flips the
    // state within that same frame.
    let mut g = Game::new(800);
    g.player.life = 1;
    g.enemies.push(Enemy::new(400, 452));
    g.process_frame(5000, 0);
    assert_eq!(g.player.get_life(), 0);
    assert_eq!(g.state, GameState::GameOver);
    assert_eq!(g.frame_outcome(), FrameOutcome::NotifyGameOver);
}

#[test]
fn update_moves_all_entities() {
    let mut g = Game::new(800);
    g.bullets.push(Bullet::new(10, 200));
    g.enemies.push(Enemy::new(700, 0));
    g.update();
    assert_eq!(g.bullets[0].get_position().y, 195);
    assert_eq!(g.enemies[0].get_position().y, 2);
    assert_eq!(g.score, 0);
    assert_eq!(g.player.get_life(), 3);
}

#[test]
fn key_up_removes_only_the_first_occurrence() {
    let mut g = Game::new(800);
    g.keys_pressed.push(String::from("a"));
    g.keys_pressed.push(String::from("b"));
    g.keys_pressed.push(String::from("a"));
    g.key_up(String::from("a"));
    assert_eq!(g.keys_pressed, vec![String::from("b"), String::from("a")]);
}

#[test]
fn update_resolves_collisions_on_moved_positions() {
    // After this frame's movement the bullet sits at (400, 205) and the
    // enemy at (400, 350): distance 145 < 150, so the pair is removed.
    let mut g = Game::new(800);
    g.bullets.push(Bullet::new(400, 210));
    g.enemies.push(Enemy::new(400, 348));
    g.update();
    assert!(g.bullets.is_empty());
    assert!(g.enemies.is_empty());
    assert_eq!(g.score, 10);
    assert_eq!(g.player.get_life(), 3);
}
