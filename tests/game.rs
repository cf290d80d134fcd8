use cosmic_yudh::audio::music::{NOTE_AS6, NOTE_B4, NOTE_D6, NOTE_FS2};
use cosmic_yudh::game::{Game, GameState, Tone};
use cosmic_yudh::geometry::Rect;
use cosmic_yudh::player::PlayerDirection;

fn tone(note: u32) -> Tone {
    Tone { note, duration: 20 }
}

fn playing() -> Game {
    let mut g = Game::new(128, 64);
    let r = g.tick(true, PlayerDirection::Idle, 1, 0);
    assert!(r.tones.is_empty());
    g
}

#[test]
fn new_game_waits_on_menu() {
    let mut g = Game::new(128, 64);
    assert_eq!(g.state, GameState::Menu);
    assert_eq!(g.score, 0);
    assert_eq!(g.level, 1);
    let r = g.tick(false, PlayerDirection::Up, 0, 0);
    assert_eq!(g.state, GameState::Menu);
    assert!(r.tones.is_empty());
    assert!(!r.clear_input);
}

#[test]
fn menu_press_starts_fresh_playthrough() {
    let mut g = Game::new(128, 64);
    g.score = 120;
    g.level = 3;
    g.player.lives = 0;
    g.state = GameState::Menu;
    let r = g.tick(true, PlayerDirection::Idle, 0, 0);
    assert_eq!(g.state, GameState::Playing);
    assert_eq!(g.score, 0);
    assert_eq!(g.level, 1);
    assert_eq!(g.player.lives, 3);
    assert_eq!(g.player.y, 24);
    assert!(g.player.bullets.is_empty());
    assert_eq!(g.enemy.y, 20);
    assert!(g.enemy.bullets.is_empty());
    assert!(!r.clear_input);
}

#[test]
fn enemy_bullet_on_player_costs_one_life() {
    let mut g = playing();
    g.enemy.bullets.enqueue(Rect { x: 12, y: 26, width: 5, height: 5 }).unwrap();
    let r = g.tick(false, PlayerDirection::Idle, 1, 0);
    assert_eq!(g.player.lives, 2);
    assert!(g.enemy.bullets.is_empty());
    assert_eq!(g.state, GameState::Playing);
    assert_eq!(r.tones, vec![tone(NOTE_FS2)]);
    assert!(!r.clear_input);
}

#[test]
fn last_life_lost_ends_the_game() {
    let mut g = playing();
    g.player.lives = 1;
    g.enemy.bullets.enqueue(Rect { x: 12, y: 26, width: 5, height: 5 }).unwrap();
    let r = g.tick(false, PlayerDirection::Idle, 1, 0);
    assert_eq!(g.player.lives, 0);
    assert_eq!(g.state, GameState::Dead);
    assert!(r.clear_input);
    let r = g.tick(false, PlayerDirection::Idle, 1, 0);
    assert_eq!(g.state, GameState::Dead);
    assert!(!r.clear_input);
    g.tick(true, PlayerDirection::Idle, 1, 0);
    assert_eq!(g.state, GameState::Menu);
    assert_eq!(g.player.lives, 0);
}

#[test]
fn lives_saturate_at_zero() {
    let mut g = playing();
    g.player.lives = 1;
    g.enemy.bullets.enqueue(Rect { x: 12, y: 26, width: 5, height: 5 }).unwrap();
    g.enemy.bullets.enqueue(Rect { x: 14, y: 30, width: 5, height: 5 }).unwrap();
    let r = g.tick(false, PlayerDirection::Idle, 1, 0);
    assert_eq!(g.player.lives, 0);
    assert_eq!(g.state, GameState::Dead);
    assert_eq!(r.tones, vec![tone(NOTE_FS2), tone(NOTE_FS2)]);
}

#[test]
fn press_fires_with_cue() {
    let mut g = playing();
    let r = g.tick(true, PlayerDirection::Idle, 1, 0);
    assert_eq!(r.tones, vec![tone(NOTE_D6)]);
    assert_eq!(g.player.bullets.iter().copied().collect::<Vec<_>>(), vec![Rect {
        x: 29,
        y: 32,
        width: 5,
        height: 2
    }]);
    let r = g.tick(true, PlayerDirection::Idle, 1, 0);
    assert!(r.tones.is_empty());
    assert_eq!(g.player.bullets.len(), 1);
}

#[test]
fn bullet_on_enemy_scores() {
    let mut g = playing();
    g.player.bullets.enqueue(Rect { x: 90, y: 30, width: 5, height: 2 }).unwrap();
    let r = g.tick(false, PlayerDirection::Idle, 1, 0);
    assert_eq!(g.score, 1);
    assert!(g.player.bullets.is_empty());
    assert_eq!(r.tones, vec![tone(NOTE_B4)]);
}

#[test]
fn score_holds_at_maximum() {
    let mut g = playing();
    g.score = u32::MAX;
    g.level = u32::MAX / 50 + 1;
    g.player.bullets.enqueue(Rect { x: 90, y: 30, width: 5, height: 2 }).unwrap();
    g.tick(false, PlayerDirection::Idle, 1, 0);
    assert_eq!(g.score, u32::MAX);
}

#[test]
fn bullets_that_meet_destroy_each_other() {
    let mut g = playing();
    g.player.bullets.enqueue(Rect { x: 50, y: 10, width: 5, height: 2 }).unwrap();
    g.enemy.bullets.enqueue(Rect { x: 58, y: 8, width: 6, height: 6 }).unwrap();
    g.enemy.bullets.enqueue(Rect { x: 80, y: 50, width: 6, height: 6 }).unwrap();
    let r = g.tick(false, PlayerDirection::Idle, 1, 0);
    assert!(g.player.bullets.is_empty());
    assert_eq!(g.enemy.bullets.iter().copied().collect::<Vec<_>>(), vec![Rect {
        x: 77,
        y: 50,
        width: 6,
        height: 6
    }]);
    assert_eq!(r.tones, vec![tone(NOTE_AS6)]);
    assert_eq!(g.score, 0);
}

#[test]
fn level_rises_once_at_interval() {
    let mut g = playing();
    g.score = 49;
    g.tick(false, PlayerDirection::Idle, 1, 0);
    assert_eq!(g.level, 1);
    assert_eq!(g.enemy.max_bullet, 1);
    g.score = 50;
    g.tick(false, PlayerDirection::Idle, 1, 0);
    assert_eq!(g.level, 2);
    assert_eq!(g.enemy.max_bullet, 2);
    assert_eq!(g.enemy.velocity.abs(), 2);
    for _ in 0..5 {
        g.tick(false, PlayerDirection::Idle, 1, 0);
    }
    assert_eq!(g.level, 2);
    assert_eq!(g.enemy.max_bullet, 2);
    assert_eq!(g.enemy.velocity.abs(), 2);
}

#[test]
fn score_never_falls_while_playing() {
    let mut g = playing();
    let mut last = g.score;
    for i in 0..200u32 {
        if i % 7 == 0 {
            g.player.lives = 3;
        }
        g.tick(i % 3 == 0, PlayerDirection::Idle, i, i / 2);
        if g.state != GameState::Playing {
            break;
        }
        assert!(g.score >= last);
        last = g.score;
    }
}

#[test]
fn enemy_at_bullet_limit_holds_fire() {
    let mut g = playing();
    g.tick(false, PlayerDirection::Idle, 0, 0);
    assert_eq!(g.enemy.bullets.len(), 1);
    for i in 0..5u32 {
        g.tick(false, PlayerDirection::Idle, 0, i);
        assert_eq!(g.enemy.bullets.len(), 1);
    }
}

#[test]
fn dead_screen_press_returns_to_menu() {
    let mut g = playing();
    g.state = GameState::Dead;
    let r = g.tick(false, PlayerDirection::Down, 0, 0);
    assert_eq!(g.state, GameState::Dead);
    assert!(r.tones.is_empty());
    g.tick(true, PlayerDirection::Down, 0, 0);
    assert_eq!(g.state, GameState::Menu);
    g.state = GameState::LevelCompleted;
    g.tick(true, PlayerDirection::Down, 0, 0);
    assert_eq!(g.state, GameState::Menu);
}

#[test]
fn new_game_has_fresh_entities() {
    let g = Game::new(128, 64);
    assert_eq!(g.player.lives, 3);
    assert!(g.player.bullets.is_empty());
    assert!(g.enemy.bullets.is_empty());
    assert_eq!(g.enemy.max_bullet, 1);
    assert_eq!(g.enemy.screen_height, 64);
}

#[test]
fn level_handle_steps_once_per_level() {
    let mut g = playing();
    g.score = 50;
    g.level_handle();
    assert_eq!(g.level, 2);
    assert_eq!(g.enemy.max_bullet, 2);
    assert_eq!(g.enemy.velocity, 2);
    g.score = 99;
    g.level_handle();
    assert_eq!(g.level, 2);
    assert_eq!(g.enemy.max_bullet, 2);
    assert_eq!(g.enemy.velocity, 2);
}

#[test]
fn player_collison_removes_hitting_bullet() {
    let mut g = playing();
    g.enemy.bullets.enqueue(Rect { x: 12, y: 26, width: 5, height: 5 }).unwrap();
    let mut tones = Vec::new();
    let dead = g.player_collison(&mut tones);
    assert!(!dead);
    assert_eq!(g.player.lives, 2);
    assert!(g.enemy.bullets.is_empty());
    assert_eq!(g.state, GameState::Playing);
    assert_eq!(tones, vec![tone(NOTE_FS2)]);
}

#[test]
fn enemy_collison_adds_a_point_per_hit() {
    let mut g = playing();
    g.score = 7;
    g.player.bullets.enqueue(Rect { x: 95, y: 30, width: 5, height: 2 }).unwrap();
    let mut tones = Vec::new();
    g.enemy_collison(&mut tones);
    assert_eq!(g.score, 8);
    assert!(g.player.bullets.is_empty());
    assert_eq!(tones, vec![tone(NOTE_B4)]);
}
