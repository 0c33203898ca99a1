use ubiland::collision::{intersect, overlap_x};
use ubiland::texture::{Collide, Rect, Texture};

fn rect(x: i64, y: i64, w: i64, h: i64) -> Rect {
    Rect { x, y, w, h }
}

#[test]
fn overlap_x_basic() {
    let a = rect(0, 0, 100_000, 50_000);
    let b = rect(90_000, 500_000, 100_000, 50_000);
    // Vertical separation is irrelevant to the horizontal test.
    assert!(overlap_x(a, b));
    let c = rect(200_000, 0, 100_000, 50_000);
    assert!(!overlap_x(a, c));
}

#[test]
fn overlap_x_symmetry_samples() {
    let samples = [
        (rect(0, 0, 100_000, 50_000), rect(90_000, 0, 100_000, 50_000)),
        (rect(-50_000, 10, 30_000, 10), rect(-20_000, -10, 30_000, 10)),
        (rect(0, 0, 0, 0), rect(0, 0, 0, 0)),
        (rect(7, 7, 14, 2), rect(700, 7, 14, 2)),
    ];
    for (a, b) in samples.iter() {
        assert_eq!(overlap_x(*a, *b), overlap_x(*b, *a));
        assert_eq!(intersect(a, b), intersect(b, a));
    }
}

#[test]
fn touching_edges_do_not_collide() {
    // a.right == b.left exactly.
    let a = rect(0, 0, 100_000, 50_000);
    let b = rect(100_000, 0, 100_000, 50_000);
    assert!(!overlap_x(a, b));
    assert!(!intersect(&a, &b));
    assert!(!intersect(&b, &a));
    // a.top == b.bottom exactly, horizontal spans overlapping.
    let c = rect(0, 50_000, 100_000, 50_000);
    assert!(!intersect(&a, &c));
    assert!(!intersect(&c, &a));
    // One unit of penetration is a collision.
    let d = rect(99_999, 0, 100_000, 50_000);
    assert!(overlap_x(a, d));
    assert!(intersect(&a, &d));
}

#[test]
fn intersect_requires_both_axes() {
    let a = rect(0, 0, 100_000, 50_000);
    let b = rect(50_000, 200_000, 100_000, 50_000);
    assert!(overlap_x(a, b));
    assert!(!intersect(&a, &b));
}

#[test]
fn directional_collisions() {
    let mut p = Texture::new(0, 40_000, 40_000);
    p.set_position(0, 0);
    // Just under the player, spanning its bottom edge.
    let mut below = Texture::new(1, 40_000, 40_000);
    below.set_position(0, -30_000);
    assert!(p.collide_bottom(&below));
    assert!(below.collide_top(&p));
    assert!(!p.collide_left(&below));
    // To the left of the player, spanning its left edge.
    let mut left = Texture::new(2, 40_000, 40_000);
    left.set_position(-30_000, 0);
    assert!(p.collide_left(&left));
    assert!(left.collide_right(&p));
    assert!(!p.collide_bottom(&left));
}
