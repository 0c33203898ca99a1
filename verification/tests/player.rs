use ubiland::enemy::{Enemy, Species};
use ubiland::gui::Topbar;
use ubiland::input_mgr::{InputManager, KEY_RIGHT, KEY_UP, KEY_LEFT};
use ubiland::player::Player;
use ubiland::shape::BOTTOM;
use ubiland::texture::{AnimatedTexture, Texture};

fn anim(n: usize, speed: i64) -> AnimatedTexture {
    let mut v = Vec::new();
    let mut i = 0;
    while i < n {
        v.push(Texture::new(i as u64, 40_000, 40_000));
        i += 1;
    }
    AnimatedTexture::new(v, speed)
}

fn fresh_player() -> Player {
    Player::new(anim(3, 300), anim(5, 500))
}

fn topbar() -> Topbar {
    let z = Texture::new(0, 20_000, 28_000);
    let l = Texture::new(9, 32_000, 32_000);
    Topbar::new(l, l, l, l, z, z, z)
}

#[test]
fn player_spawns_at_start_point() {
    let p = fresh_player();
    assert_eq!(p.x, BOTTOM + 48_000);
    assert_eq!(p.y, 120_000);
    assert!(!p.is_dead);
    assert_eq!(p.velocity_y, 0);
}

#[test]
fn gravity_decays_velocity_each_step() {
    let mut p = fresh_player();
    let input = InputManager::new();
    p.update(&input, 16);
    assert_eq!(p.x, BOTTOM + 48_000);
    assert_eq!(p.y, 120_000);
    assert_eq!(p.velocity_y, -48);
    p.update(&input, 16);
    assert_eq!(p.y, 120_000 - 48);
    assert_eq!(p.velocity_y, -96);
}

#[test]
fn held_right_runs_right() {
    let mut p = fresh_player();
    let mut input = InputManager::new();
    input.update(true, KEY_RIGHT);
    p.update(&input, 16);
    // 200 units per second for 16 ms.
    assert_eq!(p.x, BOTTOM + 48_000 + 3_200);
    assert!(p.is_moving_right);
    assert_eq!(p.distance, 16);
}

#[test]
fn left_needs_a_platform_underfoot() {
    let mut p = fresh_player();
    let mut input = InputManager::new();
    input.update(true, KEY_LEFT);
    p.update(&input, 16);
    assert_eq!(p.x, BOTTOM + 48_000);
    p.set_on_platform(true);
    p.update(&input, 16);
    assert_eq!(p.x, BOTTOM + 48_000 - 3_200);
}

#[test]
fn up_sets_jump_velocity() {
    let mut p = fresh_player();
    let mut input = InputManager::new();
    input.update(true, KEY_UP);
    p.update(&input, 16);
    assert_eq!(p.velocity_y, 380 * 16);
}

#[test]
fn right_wall_clamps_at_zero() {
    let mut p = fresh_player();
    p.x = -100;
    let mut input = InputManager::new();
    input.update(true, KEY_RIGHT);
    p.update(&input, 16);
    assert_eq!(p.x, 0);
}

#[test]
fn dead_player_ignores_input() {
    let mut p = fresh_player();
    p.set_dead(true);
    let x0 = p.x;
    let mut input = InputManager::new();
    input.update(true, KEY_RIGHT);
    input.update(true, KEY_LEFT);
    input.update(true, KEY_UP);
    for _ in 0..10 {
        p.update(&input, 16);
        assert_eq!(p.x, x0);
        assert!(p.is_dead);
        assert!(!p.is_moving_right);
    }
}

#[test]
fn falling_below_screen_kills() {
    let mut p = fresh_player();
    p.y = BOTTOM - p.height;
    let input = InputManager::new();
    p.update(&input, 16);
    assert!(p.is_dead);
}

fn contact_pair() -> (Player, Enemy) {
    // Player at the origin; enemy placed so that both the stomp test and
    // the side-hit test hold in the same frame.
    let mut p = fresh_player();
    p.x = 0;
    p.y = 0;
    p.apply_gravity(0);
    let mut e = Enemy::new(Species::Land, anim(2, 300), anim(3, 350));
    e.set_position(0, -10_000);
    (p, e)
}

#[test]
fn stomp_takes_precedence_over_side_hit() {
    let (mut p, mut e) = contact_pair();
    let mut t = topbar();
    // Both tests really do hold simultaneously.
    assert!(p.was_killed(&e));
    p.check_interaction(&mut e, &mut t);
    assert!(e.is_dead);
    assert!(!p.is_dead);
    assert_eq!(t.enemy_score.value, 1);
}

#[test]
fn side_hit_alone_kills_player() {
    let mut p = fresh_player();
    p.x = 0;
    p.y = 0;
    p.apply_gravity(0);
    let mut e = Enemy::new(Species::Flying, anim(2, 300), anim(3, 350));
    // Level with the player: a side hit but no stomp.
    e.set_position(-30_000, 0);
    let mut t = topbar();
    p.check_interaction(&mut e, &mut t);
    assert!(p.is_dead);
    assert!(!e.is_dead);
    assert_eq!(t.enemy_score.value, 0);
}

#[test]
fn dead_enemy_cannot_kill() {
    let (mut p, mut e) = contact_pair();
    e.set_dead(true);
    let mut t = topbar();
    assert!(!p.was_killed(&e));
    p.check_interaction(&mut e, &mut t);
    assert!(!p.is_dead);
    assert_eq!(t.enemy_score.value, 0);
}
