use ubiland::collision::overlap_x;
use ubiland::enemy::{Enemy, Species};
use ubiland::game::Level;
use ubiland::gui::Topbar;
use ubiland::input_mgr::InputManager;
use ubiland::platform::{Platform, Size, Type};
use ubiland::player::Player;
use ubiland::shape::{BOTTOM, TOP};
use ubiland::texture::{AnimatedTexture, Rect, Texture};

fn anim(n: usize, speed: i64) -> AnimatedTexture {
    let mut v = Vec::new();
    let mut i = 0;
    while i < n {
        v.push(Texture::new(i as u64, 40_000, 40_000));
        i += 1;
    }
    AnimatedTexture::new(v, speed)
}

fn topbar() -> Topbar {
    let z = Texture::new(0, 20_000, 28_000);
    let l = Texture::new(9, 32_000, 32_000);
    Topbar::new(l, l, l, l, z, z, z)
}

fn land_proto() -> Enemy {
    Enemy::new(Species::Land, anim(2, 300), anim(3, 350))
}

fn flying_proto() -> Enemy {
    Enemy::new(Species::Flying, anim(7, 1_050), anim(3, 350))
}

fn fresh_level() -> Level {
    Level::new(
        Player::new(anim(3, 300), anim(5, 500)),
        Texture::new(20, 336_000, 96_000),
        Texture::new(21, 96_000, 96_000),
        Texture::new(22, 144_000, 96_000),
        Texture::new(23, 240_000, 96_000),
        land_proto(),
        Texture::new(24, 30_000, 20_000),
        Texture::new(25, 120_000, 60_000),
        Texture::new(26, 120_000, 60_000),
        topbar(),
        flying_proto(),
    )
}

fn platform_rect(p: &Platform) -> Rect {
    Rect { x: p.x, y: p.y, w: p.width, h: p.height }
}

#[test]
fn initial_platforms_do_not_overlap() {
    let lv = fresh_level();
    assert_eq!(lv.platforms.len(), 4);
    for i in 0..4 {
        for j in 0..4 {
            if i != j {
                assert!(!overlap_x(
                    platform_rect(&lv.platforms[i]),
                    platform_rect(&lv.platforms[j]),
                ));
            }
        }
    }
}

#[test]
fn regeneration_never_overlaps_the_others() {
    let mut lv = fresh_level();
    // Regenerate each platform a few times; every fresh position must
    // avoid every other platform and lie in the spawn region.
    for round in 0..5 {
        let index = round % 4;
        lv.regenerate_platform(index);
        let p = platform_rect(&lv.platforms[index]);
        assert!(p.x >= 484_000);
        assert!(p.x <= 484_000 + 3 * 800_000);
        assert!(p.y >= BOTTOM + 100_000);
        assert!(p.y < TOP - 200_000);
        for j in 0..4 {
            if j != index {
                assert!(!overlap_x(p, platform_rect(&lv.platforms[j])));
            }
        }
        let t = lv.platforms[index].platform_type;
        assert!(matches!(t, Type::Fish | Type::Enemy | Type::Plain));
    }
}

#[test]
fn regenerated_fish_platform_is_restocked() {
    let mut lv = fresh_level();
    // Draw until a fish platform comes up on a platform that has fish.
    for _ in 0..200 {
        lv.regenerate_platform(0);
        if matches!(lv.platforms[0].platform_type, Type::Fish) {
            for f in lv.platforms[0].fish.iter() {
                assert!(!f.taken);
            }
            return;
        }
    }
    panic!("two hundred draws never produced a fish platform");
}

#[test]
fn game_over_fires_after_exactly_the_delay() {
    let mut lv = fresh_level();
    assert!(!lv.game_over(2_000));
    assert_eq!(lv.game_over_delay, 0);
    lv.player.set_dead(true);
    assert!(!lv.game_over(1_000));
    assert!(!lv.game_over(2_000));
    // Exactly 3.0 time-units accumulated: not yet over the threshold.
    assert_eq!(lv.game_over_delay, 3_000);
    assert!(lv.game_over(1));
}

#[test]
fn paused_level_is_inert() {
    let mut lv = fresh_level();
    let mut input = InputManager::new();
    lv.paused = true;
    let px = lv.player.x;
    let py = lv.player.y;
    let p0x = lv.platforms[0].x;
    lv.update(&mut input, 16);
    assert_eq!(lv.player.x, px);
    assert_eq!(lv.player.y, py);
    assert_eq!(lv.platforms[0].x, p0x);
    lv.resume();
    assert!(!lv.paused);
}

#[test]
fn dead_player_stays_put_through_level_updates() {
    let mut lv = fresh_level();
    let mut input = InputManager::new();
    lv.player.set_dead(true);
    let x0 = lv.player.x;
    input.update(true, ubiland::input_mgr::KEY_RIGHT);
    input.update(true, ubiland::input_mgr::KEY_LEFT);
    for _ in 0..8 {
        lv.update(&mut input, 16);
        assert_eq!(lv.player.x, x0);
        assert!(lv.player.is_dead);
    }
}

#[test]
fn running_right_scrolls_the_world() {
    let mut lv = fresh_level();
    let mut input = InputManager::new();
    input.update(true, ubiland::input_mgr::KEY_RIGHT);
    let plat: Vec<i64> = lv.platforms.iter().map(|p| p.x).collect();
    let ctrl: Vec<i64> = lv.controls.iter().map(|c| c.x).collect();
    lv.update(&mut input, 16);
    assert!(lv.player.is_moving_right);
    for j in 0..4 {
        assert_eq!(lv.platforms[j].x, plat[j] - 80 * 16);
    }
    for j in 0..2 {
        assert_eq!(lv.controls[j].x, ctrl[j] - 80 * 16);
    }
    // Without rightward intent, nothing scrolls.
    let mut idle = InputManager::new();
    let plat2: Vec<i64> = lv.platforms.iter().map(|p| p.x).collect();
    lv.update(&mut idle, 16);
    assert!(!lv.player.is_moving_right);
    for j in 0..4 {
        assert_eq!(lv.platforms[j].x, plat2[j]);
    }
}

#[test]
fn flying_enemy_spawns_on_schedule() {
    let mut lv = fresh_level();
    let mut input = InputManager::new();
    assert_eq!(lv.enemies.len(), 0);
    lv.update(&mut input, 29_999);
    assert_eq!(lv.enemies.len(), 0);
    lv.update(&mut input, 1);
    assert_eq!(lv.enemies.len(), 1);
    assert_eq!(lv.spawn_time, 0);
}

#[test]
fn restart_resets_the_run() {
    let mut lv = fresh_level();
    let mut input = InputManager::new();
    lv.update(&mut input, 30_000);
    lv.player.set_dead(true);
    lv.game_over(5_000);
    lv.restart();
    assert_eq!(lv.game_over_delay, 0);
    assert_eq!(lv.enemies.len(), 0);
    assert!(!lv.player.is_dead);
    assert_eq!(lv.player.x, BOTTOM + 48_000);
    assert_eq!(lv.player.y, 120_000);
    assert_eq!(lv.topbar.fish_score.value, 0);
    assert_eq!(lv.platforms[3].x, 510_000);
    for p in lv.platforms.iter() {
        assert!(matches!(p.platform_type, Type::Plain));
    }
}

#[test]
fn patrol_reverses_at_platform_edge() {
    let mut p = Platform::new(
        Size::Medium,
        Texture::new(1, 144_000, 96_000),
        land_proto(),
        Texture::new(2, 30_000, 20_000),
    );
    p.set_position(0, 0);
    p.set_type(Type::Enemy);
    assert_eq!(p.enemy_speed, 150);
    p.update(100);
    // 150 units per second for 100 ms, from the platform center.
    assert_eq!(p.enemies[0].x, 15_000);
    // Drop the enemy at the right edge: the patrol flips and walks back.
    let e = &mut p.enemies[0];
    e.set_x(40_000);
    let mirrored_before = p.enemies[0].texture.textures[0].mirrored_h;
    p.update(100);
    assert_eq!(p.enemy_speed, -150);
    assert_eq!(p.enemies[0].x, 40_000 - 15_000);
    assert_ne!(p.enemies[0].texture.textures[0].mirrored_h, mirrored_before);
}

#[test]
fn fish_pickup_counts_once() {
    let mut p = Platform::new(
        Size::Medium,
        Texture::new(1, 144_000, 96_000),
        land_proto(),
        Texture::new(2, 30_000, 20_000),
    );
    p.set_position(0, 0);
    p.set_type(Type::Fish);
    let mut player = Player::new(anim(3, 300), anim(5, 500));
    // Put the player on the middle fish.
    player.x = 0;
    player.y = 84_000;
    player.apply_gravity(0);
    let mut t = topbar();
    p.player_took_fish(&player, &mut t);
    assert_eq!(t.fish_score.value, 1);
    assert!(p.fish[0].taken);
    // A second pass takes nothing new.
    p.player_took_fish(&player, &mut t);
    assert_eq!(t.fish_score.value, 1);
}
