use cosmic_yudh::enemy::Enemy;
use cosmic_yudh::geometry::Rect;
use cosmic_yudh::joystick::direction_from_adc;
use cosmic_yudh::player::{Player, PlayerDirection};

fn shots_of_player(p: &Player) -> Vec<Rect> {
    p.bullets.iter().copied().collect()
}

fn shots_of_enemy(e: &Enemy) -> Vec<Rect> {
    e.bullets.iter().copied().collect()
}

#[test]
fn player_starts_centred_with_full_lives() {
    let p = Player::new(128, 64);
    assert_eq!(p.x, 10);
    assert_eq!(p.y, 24);
    assert_eq!(p.lives, 3);
    assert!(p.bullets.is_empty());
}

#[test]
fn player_moves_and_stops_at_margins() {
    let mut p = Player::new(128, 64);
    p.update(PlayerDirection::Up);
    assert_eq!(p.y, 21);
    p.update(PlayerDirection::Idle);
    assert_eq!(p.y, 21);
    for _ in 0..20 {
        p.update(PlayerDirection::Up);
        assert!(p.y >= 5 && p.y <= 64 - 5 - 16);
    }
    assert_eq!(p.y, 5);
    for _ in 0..20 {
        p.update(PlayerDirection::Down);
        assert!(p.y >= 5 && p.y <= 64 - 5 - 16);
    }
    assert_eq!(p.y, 43);
}

#[test]
fn player_queue_drops_shot_past_capacity() {
    let mut p = Player::new(128, 64);
    assert!(p.shoot());
    assert!(!p.shoot());
    assert_eq!(shots_of_player(&p), vec![Rect { x: 26, y: 32, width: 5, height: 2 }]);
}

#[test]
fn player_bullets_advance_and_leave_screen() {
    let mut p = Player::new(40, 64);
    assert!(p.shoot());
    p.update(PlayerDirection::Idle);
    assert_eq!(shots_of_player(&p), vec![Rect { x: 29, y: 32, width: 5, height: 2 }]);
    for _ in 0..3 {
        p.update(PlayerDirection::Idle);
    }
    assert_eq!(shots_of_player(&p)[0].x, 38);
    p.update(PlayerDirection::Idle);
    assert!(shots_of_player(&p).is_empty());
    assert!(p.shoot());
}

#[test]
fn enemy_starts_at_right_edge() {
    let e = Enemy::new(128, 64);
    assert_eq!(e.x, 92);
    assert_eq!(e.y, 20);
    assert_eq!(e.velocity, 1);
    assert_eq!(e.max_bullet, 1);
}

#[test]
fn enemy_bounces_at_bounds() {
    let mut e = Enemy::new(128, 64);
    e.y = 39;
    e.update_position();
    assert_eq!(e.y, 38);
    assert_eq!(e.velocity, -1);
    e.y = 0;
    e.update_position();
    assert_eq!(e.y, 1);
    assert_eq!(e.velocity, 1);
}

#[test]
fn enemy_level_up_raises_limit_and_speed() {
    let mut e = Enemy::new(128, 64);
    e.increase_level();
    assert_eq!(e.max_bullet, 2);
    assert_eq!(e.velocity, 2);
    e.velocity = -2;
    for _ in 0..5 {
        e.increase_level();
    }
    assert_eq!(e.max_bullet, 4);
    assert_eq!(e.velocity, -7);
}

#[test]
fn enemy_shot_size_and_position() {
    let mut e = Enemy::new(128, 64);
    e.shoot(7);
    assert_eq!(shots_of_enemy(&e), vec![Rect { x: 68, y: 32, width: 7, height: 7 }]);
}

#[test]
fn enemy_at_limit_does_not_shoot_until_a_bullet_leaves() {
    let mut e = Enemy::new(128, 64);
    e.shoot(0);
    assert_eq!(e.bullets.len(), 1);
    e.y = 0;
    e.shoot(0);
    e.shoot(3);
    assert_eq!(e.bullets.len(), 1);
    e.bullets.dequeue();
    e.shoot(3);
    assert_eq!(shots_of_enemy(&e), vec![Rect { x: 68, y: 12, width: 8, height: 8 }]);
}

#[test]
fn enemy_skips_spawn_too_close_to_newest_bullet() {
    let mut e = Enemy::new(128, 64);
    e.max_bullet = 4;
    e.shoot(0);
    e.shoot(0);
    assert_eq!(e.bullets.len(), 1);
    e.y = 25;
    e.shoot(0);
    assert_eq!(e.bullets.len(), 2);
}

#[test]
fn enemy_queue_holds_at_most_four() {
    let mut e = Enemy::new(128, 64);
    e.max_bullet = 4;
    for i in 0..5 {
        e.y = i * 10;
        e.shoot(0);
    }
    let shots = shots_of_enemy(&e);
    assert_eq!(shots.len(), 4);
    assert_eq!(shots.iter().map(|b| b.y).collect::<Vec<_>>(), vec![12, 22, 32, 42]);
}

#[test]
fn enemy_bullets_fly_left_and_vanish() {
    let mut e = Enemy::new(128, 64);
    e.bullets.enqueue(Rect { x: 3, y: 30, width: 5, height: 5 }).unwrap();
    e.bullets.enqueue(Rect { x: 40, y: 30, width: 5, height: 5 }).unwrap();
    e.update(1, 0);
    assert_eq!(shots_of_enemy(&e), vec![Rect { x: 37, y: 30, width: 5, height: 5 }]);
    assert_eq!(e.y, 21);
}

#[test]
fn enemy_fires_on_even_draw_only() {
    let mut e = Enemy::new(128, 64);
    e.update(3, 0);
    assert!(e.bullets.is_empty());
    e.update(4, 2);
    assert_eq!(shots_of_enemy(&e), vec![Rect { x: 68, y: 34, width: 7, height: 7 }]);
}

#[test]
fn stick_readings_map_to_directions() {
    assert_eq!(direction_from_adc(0), PlayerDirection::Up);
    assert_eq!(direction_from_adc(1499), PlayerDirection::Up);
    assert_eq!(direction_from_adc(1500), PlayerDirection::Idle);
    assert_eq!(direction_from_adc(3000), PlayerDirection::Idle);
    assert_eq!(direction_from_adc(3001), PlayerDirection::Down);
    assert_eq!(direction_from_adc(4095), PlayerDirection::Down);
}

#[test]
fn fast_enemy_reflects_once_past_the_band() {
    let mut e = Enemy::new(128, 64);
    e.y = 10;
    e.velocity = 100;
    e.update_position();
    assert_eq!(e.y, -90);
    assert_eq!(e.velocity, -100);
    e.update_position();
    assert_eq!(e.y, 10);
    assert_eq!(e.velocity, 100);
}
