use ubiland::gui::{Score, Topbar};
use ubiland::texture::Texture;

fn zero_glyph() -> Texture {
    Texture::new(0, 20_000, 28_000)
}

fn label(id: u64) -> Texture {
    Texture::new(id, 32_000, 32_000)
}

fn digit_ids(s: &Score) -> Vec<u64> {
    s.textures.iter().map(|t| t.tex_id).collect()
}

#[test]
fn score_counts_single_digits() {
    let mut s = Score::new(zero_glyph());
    assert_eq!(s.value, 0);
    assert_eq!(digit_ids(&s), vec![0]);
    for expect in 1..=9u64 {
        s.increment();
        assert_eq!(s.value as u64, expect);
        assert_eq!(digit_ids(&s), vec![expect]);
    }
}

#[test]
fn score_rolls_over_to_ten() {
    let mut s = Score::new(zero_glyph());
    s.set_position(5_000, 7_000);
    for _ in 0..10 {
        s.increment();
    }
    assert_eq!(s.value, 10);
    // Least significant digit first in storage.
    assert_eq!(digit_ids(&s), vec![0, 1]);
    // The leading one took the anchor; the zero moved one glyph right.
    assert_eq!(s.textures[1].x, 5_000);
    assert_eq!(s.textures[0].x, 5_000 + 20_000);
    assert_eq!(s.textures[0].y, 7_000);
    s.increment();
    s.increment();
    assert_eq!(s.value, 12);
    assert_eq!(digit_ids(&s), vec![2, 1]);
}

#[test]
fn score_rolls_over_to_hundred() {
    let mut s = Score::new(zero_glyph());
    for _ in 0..100 {
        s.increment();
    }
    assert_eq!(s.value, 100);
    assert_eq!(digit_ids(&s), vec![0, 0, 1]);
    for _ in 0..23 {
        s.increment();
    }
    assert_eq!(s.value, 123);
    assert_eq!(digit_ids(&s), vec![3, 2, 1]);
}

#[test]
fn score_reset_keeps_anchor() {
    let mut s = Score::new(zero_glyph());
    s.set_position(-10_000, 4_000);
    for _ in 0..57 {
        s.increment();
    }
    assert_eq!(s.value, 57);
    s.reset();
    assert_eq!(s.value, 0);
    assert_eq!(digit_ids(&s), vec![0]);
    assert_eq!(s.textures[0].x, -10_000);
    assert_eq!(s.textures[0].y, 4_000);
}

#[test]
fn topbar_counts_and_resets() {
    let mut t = Topbar::new(
        label(10),
        label(11),
        label(12),
        label(13),
        zero_glyph(),
        zero_glyph(),
        zero_glyph(),
    );
    assert_eq!(t.fish_score.value, 0);
    t.increment_fish_count();
    t.increment_fish_count();
    t.increment_enemy_count();
    t.increment_distance();
    assert_eq!(t.fish_score.value, 2);
    assert_eq!(t.enemy_score.value, 1);
    assert_eq!(t.distance.value, 1);
    t.reset();
    assert_eq!(t.fish_score.value, 0);
    assert_eq!(t.enemy_score.value, 0);
    assert_eq!(t.distance.value, 0);
}
