use ubiland::texture::{AnimatedTexture, AnimationMode, Texture};
use ubiland::shape::Direction;

fn frames(n: usize) -> Vec<Texture> {
    let mut v = Vec::new();
    let mut i = 0;
    while i < n {
        v.push(Texture::new(i as u64, 40_000, 40_000));
        i += 1;
    }
    v
}

#[test]
fn loop_frame_follows_total_time() {
    let mut a = AnimatedTexture::new(frames(3), 300);
    assert_eq!(a.current_frame, 0);
    a.update(50);
    assert_eq!(a.current_frame, 0);
    a.update(60);
    // 110 ms consumed, 100 ms per frame.
    assert_eq!(a.current_frame, 1);
    a.update(200);
    // 310 ms consumed: floor(310 / 100) mod 3 == 0.
    assert_eq!(a.current_frame, 0);
    assert_eq!(a.animation_timer, 10);
}

#[test]
fn loop_frame_independent_of_split() {
    let mut a = AnimatedTexture::new(frames(4), 400);
    let mut b = AnimatedTexture::new(frames(4), 400);
    // Same total elapsed time, split differently.
    a.update(70);
    a.update(70);
    a.update(70);
    a.update(70);
    a.update(220);
    b.update(500);
    assert_eq!(a.current_frame, b.current_frame);
    assert_eq!(a.animation_timer, b.animation_timer);
    assert_eq!(a.current_frame, 1);
}

#[test]
fn loop_wraps_many_cycles_in_one_update() {
    let mut a = AnimatedTexture::new(frames(3), 300);
    a.update(1_050);
    // floor(1050 / 100) mod 3 == 10 mod 3 == 1.
    assert_eq!(a.current_frame, 1);
    assert_eq!(a.animation_timer, 50);
}

#[test]
fn play_once_saturates_at_last_frame() {
    let mut a = AnimatedTexture::new(frames(2), 200);
    a.set_mode(AnimationMode::Once);
    a.update(100);
    assert_eq!(a.current_frame, 1);
    assert!(!a.animation_done);
    a.update(100);
    assert_eq!(a.current_frame, 1);
    assert!(a.animation_done);
}

#[test]
fn play_once_finished_is_terminal() {
    let mut a = AnimatedTexture::new(frames(2), 200);
    a.set_mode(AnimationMode::Once);
    a.update(5_000);
    assert!(a.animation_done);
    assert_eq!(a.current_frame, 1);
    let timer = a.animation_timer;
    a.update(5_000);
    a.update(123);
    assert!(a.animation_done);
    assert_eq!(a.current_frame, 1);
    assert_eq!(a.animation_timer, timer);
}

#[test]
fn mirror_twice_restores_orientation() {
    let mut t = Texture::new(7, 50_000, 20_000);
    assert!(!t.mirrored_h);
    t.mirror(Direction::Horizontal);
    assert!(t.mirrored_h);
    t.mirror(Direction::Horizontal);
    assert!(!t.mirrored_h);
    t.mirror(Direction::Vertical);
    assert!(t.mirrored_v);
    t.mirror(Direction::Vertical);
    assert!(!t.mirrored_v);
}

#[test]
fn texture_transform_ops() {
    let mut t = Texture::new(1, 100_000, 60_000);
    t.set_position(10_000, -20_000);
    assert_eq!(t.get_position(), (10_000, -20_000));
    t.translate(-4_000, 6_000);
    assert_eq!(t.get_position(), (6_000, -14_000));
    t.scale(500);
    assert_eq!(t.get_dimensions(), (50_000, 30_000));
    assert_eq!(t.get_position(), (6_000, -14_000));
    t.clip(100, 200, 300, 400);
    assert!(t.clipped);
    assert_eq!(t.clip_rect.x, 100);
    assert_eq!(t.clip_rect.h, 400);
}

#[test]
fn animated_moves_every_frame() {
    let mut a = AnimatedTexture::new(frames(3), 300);
    a.set_position(12_000, 34_000);
    assert_eq!(a.get_position(), (12_000, 34_000));
    for f in a.textures.iter() {
        assert_eq!(f.x, 12_000);
        assert_eq!(f.y, 34_000);
    }
    a.translate(-2_000, 1_000);
    assert_eq!(a.get_position(), (10_000, 35_000));
    for f in a.textures.iter() {
        assert_eq!(f.x, 10_000);
        assert_eq!(f.y, 35_000);
    }
}
