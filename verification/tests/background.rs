use ubiland::background::Background;
use ubiland::shape::{LEFT, RIGHT, SCREEN_WIDTH};
use ubiland::texture::{AnimatedTexture, Texture};

fn anim2() -> AnimatedTexture {
    let v = vec![Texture::new(0, 30_000, 20_000), Texture::new(1, 30_000, 20_000)];
    AnimatedTexture::new(v, 300)
}

fn fresh_background() -> Background {
    Background::new(
        Texture::new(10, 300_000, 100_000),
        Texture::new(10, 300_000, 100_000),
        Texture::new(11, 200_000, 150_000),
        vec![anim2(), anim2(), anim2(), anim2(), anim2()],
    )
}

#[test]
fn clouds_drift_left_and_first_bank_wraps() {
    let mut b = fresh_background();
    let x0 = b.background_clouds[0].x;
    b.update(16);
    assert_eq!(b.background_clouds[0].x, x0 - 15);
    // Push the first bank past the left edge: it must wrap to the right.
    let c = &mut b.background_clouds[0];
    c.set_x(LEFT - c.width);
    b.update(16);
    assert_eq!(b.background_clouds[0].x, SCREEN_WIDTH - 3_000 - 15);
}

#[test]
fn second_bank_or_rainbow_wraps() {
    let mut b = fresh_background();
    let c = &mut b.background_clouds[1];
    c.set_x(LEFT - c.width);
    let rainbow_x = b.background_clouds[2].x;
    b.update(16);
    // Either the bank itself or the rainbow went back to the right edge.
    let bank_wrapped = b.background_clouds[1].x == SCREEN_WIDTH - 3_000 - 15;
    let rainbow_wrapped = b.background_clouds[2].x == SCREEN_WIDTH - 3_000 - 15;
    let rainbow_drifted = b.background_clouds[2].x == rainbow_x - 15;
    assert!((bank_wrapped && rainbow_drifted) || rainbow_wrapped);
}

#[test]
fn birds_drift_right_and_wrap() {
    let mut b = fresh_background();
    let x0 = b.birds[0].x;
    b.update(16);
    assert_eq!(b.birds[0].x, x0 + 12);
    let bd = &mut b.birds[3];
    bd.set_x(RIGHT + 9_990);
    b.update(16);
    assert_eq!(b.birds[3].x, LEFT - 10_000);
}
