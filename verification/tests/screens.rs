use ubiland::background::Background;
use ubiland::enemy::{Enemy, Species};
use ubiland::game::Level;
use ubiland::gui::Topbar;
use ubiland::input_mgr::{InputManager, KEY_DOWN, KEY_UP, KEY_RETURN, KEY_ESCAPE};
use ubiland::platform::{Platform, Size};
use ubiland::player::Player;
use ubiland::screen_mgr::ScreenMgr;
use ubiland::screens::{GameOver, Pause, Screen, StartScreen, Store};
use ubiland::texture::{AnimatedTexture, Texture};

fn anim(n: usize, speed: i64) -> AnimatedTexture {
    let mut v = Vec::new();
    let mut i = 0;
    while i < n {
        v.push(Texture::new(i as u64, 40_000, 40_000));
        i += 1;
    }
    AnimatedTexture::new(v, speed)
}

fn tex(id: u64) -> Texture {
    Texture::new(id, 64_000, 32_000)
}

fn topbar() -> Topbar {
    let z = Texture::new(0, 20_000, 28_000);
    let l = Texture::new(9, 32_000, 32_000);
    Topbar::new(l, l, l, l, z, z, z)
}

fn land_proto() -> Enemy {
    Enemy::new(Species::Land, anim(2, 300), anim(3, 350))
}

fn platform(size: Size, w: i64) -> Platform {
    Platform::new(size, Texture::new(1, w, 96_000), land_proto(), Texture::new(2, 30_000, 20_000))
}

fn fresh_level() -> Level {
    Level::new(
        Player::new(anim(3, 300), anim(5, 500)),
        Texture::new(20, 336_000, 96_000),
        Texture::new(21, 96_000, 96_000),
        Texture::new(22, 144_000, 96_000),
        Texture::new(23, 240_000, 96_000),
        land_proto(),
        Texture::new(24, 30_000, 20_000),
        Texture::new(25, 120_000, 60_000),
        Texture::new(26, 120_000, 60_000),
        topbar(),
        Enemy::new(Species::Flying, anim(7, 1_050), anim(3, 350)),
    )
}

fn fresh_manager() -> ScreenMgr {
    let start = StartScreen::new(
        tex(30),
        tex(31),
        tex(32),
        platform(Size::Medium, 144_000),
        platform(Size::Large, 240_000),
        anim(4, 400),
    );
    let game_over = GameOver::new(tex(40), tex(41), tex(42), tex(43));
    let pause = Pause::new(tex(50), tex(51), tex(52), tex(53));
    let store = Store::new(tex(60), tex(61));
    let birds = vec![anim(2, 300), anim(2, 300), anim(2, 300), anim(2, 300), anim(2, 300)];
    let background = Background::new(tex(70), tex(71), tex(72), birds);
    ScreenMgr::new(fresh_level(), start, game_over, pause, store, background)
}

/// A release edge for `key`: pressed, then released.
fn release(input: &mut InputManager, key: usize) {
    input.update(true, key);
    input.update(false, key);
}

#[test]
fn input_edges_are_consumed_once() {
    let mut input = InputManager::new();
    release(&mut input, KEY_RETURN);
    assert!(input.key_went_up(KEY_RETURN));
    assert!(!input.key_went_up(KEY_RETURN));
    input.update(true, KEY_RETURN);
    assert!(input.key_down(KEY_RETURN));
    assert!(!input.key_went_up(KEY_RETURN));
}

#[test]
fn menu_cursor_clamps_to_option_count() {
    let mut pause = Pause::new(tex(1), tex(2), tex(3), tex(4));
    let mut input = InputManager::new();
    for _ in 0..5 {
        release(&mut input, KEY_DOWN);
        pause.update(&mut input, 16);
    }
    assert_eq!(pause.menu_choice, 3);
    for _ in 0..7 {
        release(&mut input, KEY_UP);
        pause.update(&mut input, 16);
    }
    assert_eq!(pause.menu_choice, 0);
}

#[test]
fn start_confirm_enters_play() {
    let mut sm = fresh_manager();
    assert!(matches!(sm.current_screen, Screen::Start));
    assert_eq!(sm.start.menu_choice, 0);
    release(&mut sm.input, KEY_RETURN);
    sm.update(16);
    assert!(matches!(sm.current_screen, Screen::Play));
    assert!(!sm.exited());
}

#[test]
fn start_menu_reaches_store_and_back() {
    let mut sm = fresh_manager();
    release(&mut sm.input, KEY_DOWN);
    sm.update(16);
    assert_eq!(sm.start.menu_choice, 1);
    assert!(matches!(sm.current_screen, Screen::Start));
    release(&mut sm.input, KEY_RETURN);
    sm.update(16);
    assert!(matches!(sm.current_screen, Screen::Store));
    release(&mut sm.input, KEY_ESCAPE);
    sm.update(16);
    assert!(matches!(sm.current_screen, Screen::Start));
}

#[test]
fn pause_and_resume_keep_the_level_state() {
    let mut sm = fresh_manager();
    release(&mut sm.input, KEY_RETURN);
    sm.update(16);
    assert!(matches!(sm.current_screen, Screen::Play));
    // Let the simulation run a few frames.
    sm.update(16);
    sm.update(16);
    // A pause input is consumed inside the play screen.
    release(&mut sm.input, KEY_ESCAPE);
    sm.update(16);
    assert!(matches!(sm.current_screen, Screen::Pause));
    assert!(sm.level.paused);
    // Snapshot the paused level.
    let px = sm.level.player.x;
    let py = sm.level.player.y;
    let pvy = sm.level.player.velocity_y;
    let plat: Vec<(i64, i64)> = sm.level.platforms.iter().map(|p| (p.x, p.y)).collect();
    let fish = sm.level.topbar.fish_score.value;
    let foes = sm.level.topbar.enemy_score.value;
    // Sitting in the pause menu does not advance the simulation.
    sm.update(16);
    sm.update(16);
    // Resume is the first pause-menu entry.
    assert_eq!(sm.pause.menu_choice, 0);
    release(&mut sm.input, KEY_RETURN);
    sm.update(16);
    assert!(matches!(sm.current_screen, Screen::Play));
    assert!(!sm.level.paused);
    assert_eq!(sm.level.player.x, px);
    assert_eq!(sm.level.player.y, py);
    assert_eq!(sm.level.player.velocity_y, pvy);
    let plat2: Vec<(i64, i64)> = sm.level.platforms.iter().map(|p| (p.x, p.y)).collect();
    assert_eq!(plat, plat2);
    assert_eq!(sm.level.topbar.fish_score.value, fish);
    assert_eq!(sm.level.topbar.enemy_score.value, foes);
}

#[test]
fn game_over_path_and_restart() {
    let mut sm = fresh_manager();
    release(&mut sm.input, KEY_RETURN);
    sm.update(16);
    assert!(matches!(sm.current_screen, Screen::Play));
    sm.level.player.set_dead(true);
    // The death delay accumulates only while in play.
    sm.update(2_000);
    assert!(matches!(sm.current_screen, Screen::Play));
    sm.update(2_000);
    assert!(matches!(sm.current_screen, Screen::GameOver));
    // Restart is the first game-over entry.
    release(&mut sm.input, KEY_RETURN);
    sm.update(16);
    assert!(matches!(sm.current_screen, Screen::Play));
    assert!(!sm.level.player.is_dead);
    assert_eq!(sm.level.game_over_delay, 0);
}

#[test]
fn store_screen_latch_resets() {
    let mut store = Store::new(tex(1), tex(2));
    let mut input = InputManager::new();
    store.update(&mut input, 16);
    assert!(!store.exited());
    release(&mut input, KEY_ESCAPE);
    store.update(&mut input, 16);
    assert!(store.exited());
    // The latch was consumed.
    assert!(!store.exited());
}
