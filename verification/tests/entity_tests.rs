use shooting_game::bullet::Bullet;
use shooting_game::enemy::Enemy;
use shooting_game::player::Player;
use shooting_game::position::Position;

#[test]
fn position_new_holds_coordinates() {
    let p = Position::new(40, -7);
    assert_eq!(p.x, 40);
    assert_eq!(p.y, -7);
}

#[test]
fn bullet_new_has_sprite_size_and_position() {
    let b = Bullet::new(400, 200);
    assert_eq!(b.get_position(), Position::new(400, 200));
    assert_eq!(b.width, 90);
    assert_eq!(b.height, 90);
}

#[test]
fn bullet_moves_up_by_speed() {
    let mut b = Bullet::new(400, 200);
    b.move_up();
    assert_eq!(b.get_position(), Position::new(400, 195));
    b.move_up();
    assert_eq!(b.get_position().y, 190);
}

#[test]
fn bullet_is_not_culled_off_screen() {
    let mut b = Bullet::new(10, 4);
    b.move_up();
    b.move_up();
    assert_eq!(b.get_position().y, -6);
}

#[test]
fn enemy_new_has_sprite_size_and_position() {
    let e = Enemy::new(123, 0);
    assert_eq!(e.get_position(), Position::new(123, 0));
    assert_eq!(e.width, 216);
    assert_eq!(e.height, 216);
}

#[test]
fn enemy_moves_down_by_speed() {
    let mut e = Enemy::new(123, 0);
    e.move_down();
    assert_eq!(e.get_position(), Position::new(123, 2));
    e.move_down();
    assert_eq!(e.get_position().y, 4);
}

#[test]
fn player_new_starts_with_three_lives() {
    let p = Player::new(400, 500);
    assert_eq!(p.get_position(), Position::new(400, 500));
    assert_eq!(p.get_life(), 3);
    assert_eq!(p.width, 180);
    assert_eq!(p.height, 180);
}

#[test]
fn decrease_life_clamps_at_zero() {
    let mut p = Player::new(400, 500);
    p.decrease_life();
    assert_eq!(p.get_life(), 2);
    p.decrease_life();
    assert_eq!(p.get_life(), 1);
    p.decrease_life();
    assert_eq!(p.get_life(), 0);
    p.decrease_life();
    assert_eq!(p.get_life(), 0);
    p.decrease_life();
    assert_eq!(p.get_life(), 0);
}

#[test]
fn move_left_shifts_by_step() {
    let mut p = Player::new(400, 500);
    p.move_left(800);
    assert_eq!(p.get_position(), Position::new(370, 500));
}

#[test]
fn move_left_clamped_at_left_edge() {
    let mut p = Player::new(400, 500);
    p.position.x = 90;
    p.move_left(800);
    assert_eq!(p.get_position().x, 90);
}

#[test]
fn move_right_shifts_by_step() {
    let mut p = Player::new(400, 500);
    p.move_right(800);
    assert_eq!(p.get_position(), Position::new(430, 500));
}

#[test]
fn move_right_clamped_at_right_edge() {
    let mut p = Player::new(400, 500);
    p.position.x = 710;
    p.move_right(800);
    assert_eq!(p.get_position().x, 710);
}

#[test]
fn moves_keep_vertical_position() {
    let mut p = Player::new(400, 500);
    p.move_left(800);
    p.move_right(800);
    assert_eq!(p.get_position().y, 500);
}
