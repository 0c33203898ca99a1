//! The background decoration layer: a gradient sky behind drifting cloud
//! banks and looping birds. It updates every frame, whatever screen is
//! active. Clouds drift left and wrap to the right edge — the second bank
//! is sometimes swapped for the rainbow, by a one-in-four draw — while
//! birds drift right and wrap to the left edge. The gradient itself is
//! pure render-layer work and lives with the renderer.

use vstd::prelude::*;

use crate::COORD_LIMIT;
use crate::MAX_DT;
use crate::clamp_coord;
use crate::rng::{fresh_rng, random_in_range};
use crate::shape::{BOTTOM, LEFT, RIGHT, SCREEN_WIDTH};
use crate::texture::{AnimatedTexture, Texture};

verus! {

pub struct Background {
    pub background_clouds: Vec<Texture>,
    pub birds: Vec<AnimatedTexture>,
    pub rand: rand::rngs::ThreadRng,
}

/// Where a cloud bank ends up after one frame: wrapped to the right edge
/// if its right side has left the screen, then drifted left.
pub open spec fn spec_cloud_x(c: Texture, wrapped: bool) -> int {
    let x0 = if wrapped {
        (SCREEN_WIDTH - 3_000) as int
    } else {
        c.x as int
    };
    clamp_coord(x0 - 15)
}

/// Where a bird ends up after one frame: drifted right, and wrapped to
/// the left edge once past the right one.
pub open spec fn spec_bird_x(b: AnimatedTexture) -> int {
    let x1 = clamp_coord(b.x + 12);
    if x1 >= RIGHT + 10_000 {
        (LEFT - 10_000) as int
    } else {
        x1
    }
}

/// One frame of the decoration layer, as a relation between the states
/// before and after: the first cloud bank wraps on its own once off
/// screen; when the second bank is off screen, either it or the rainbow
/// wraps, by a random draw; all clouds drift left; each bird's animation
/// clock consumes `dt` and the bird drifts right, wrapping once past the
/// right edge.
pub open spec fn spec_background_step(pre: Background, post: Background, dt: int) -> bool {
    &&& post.background_clouds.len() == 3
    &&& post.birds.len() == 5
    &&& post.background_clouds[0].x as int == spec_cloud_x(
        pre.background_clouds[0],
        2 * pre.background_clouds[0].x + pre.background_clouds[0].width < 2 * LEFT,
    )
    &&& (2 * pre.background_clouds[1].x + pre.background_clouds[1].width < 2 * LEFT) ==> (
    post.background_clouds[1].x as int == spec_cloud_x(pre.background_clouds[1], true)
        && post.background_clouds[2].x as int == spec_cloud_x(pre.background_clouds[2], false)) || (
    post.background_clouds[1].x as int == spec_cloud_x(pre.background_clouds[1], false)
        && post.background_clouds[2].x as int == spec_cloud_x(pre.background_clouds[2], true))
    &&& !(2 * pre.background_clouds[1].x + pre.background_clouds[1].width < 2 * LEFT)
        ==> post.background_clouds[1].x as int == spec_cloud_x(pre.background_clouds[1], false)
        && post.background_clouds[2].x as int == spec_cloud_x(pre.background_clouds[2], false)
    &&& forall|i: int|
        0 <= i < 5 ==> (#[trigger] post.birds[i]).x as int == spec_bird_x(pre.birds[i])
    &&& forall|i: int|
        0 <= i < 5 ==> (#[trigger] post.birds[i]).mode == pre.birds[i].mode
            && post.birds[i].time_per_frame == pre.birds[i].time_per_frame
            && post.birds[i].frame_count == pre.birds[i].frame_count && (!pre.birds[i].animation_done
            ==> post.birds[i].total_elapsed@ == pre.birds[i].total_elapsed@ + dt) && (
        pre.birds[i].animation_done ==> post.birds[i].animation_done && post.birds[i].current_frame
            == pre.birds[i].current_frame)
}

impl Background {
    pub open spec fn wf(&self) -> bool {
        &&& self.background_clouds.len() == 3
        &&& forall|i: int|
            0 <= i < self.background_clouds.len() ==> (#[trigger] self.background_clouds[i]).wf()
        &&& self.birds.len() == 5
        &&& forall|i: int| 0 <= i < self.birds.len() ==> (#[trigger] self.birds[i]).wf()
    }

    /// Builds the layer: two cloud banks and the rainbow along the bottom
    /// edge, five birds scattered over the sky.
    pub fn new(cloud1: Texture, cloud2: Texture, rainbow: Texture, birds: Vec<AnimatedTexture>) -> (
        b: Background)
        requires
            cloud1.wf(),
            cloud2.wf(),
            rainbow.wf(),
            birds.len() == 5,
            forall|i: int| 0 <= i < birds.len() ==> (#[trigger] birds[i]).wf(),
        ensures
            b.wf(),
            b.background_clouds.len() == 3,
            b.background_clouds[0] == (Texture {
                x: 0,
                y: (BOTTOM + cloud1.height / 2) as i64,
                ..cloud1
            }),
            b.background_clouds[1] == (Texture {
                x: (SCREEN_WIDTH - 3_000) as i64,
                y: (BOTTOM + cloud2.height / 2) as i64,
                ..cloud2
            }),
            b.background_clouds[2] == (Texture {
                x: (SCREEN_WIDTH - 3_000) as i64,
                y: (BOTTOM + rainbow.height / 2) as i64,
                ..rainbow
            }),
            b.birds.len() == 5,
            b.birds[0].x == 0 && b.birds[0].y == 0,
            b.birds[1].x == 100_000 && b.birds[1].y == -250_000,
            b.birds[2].x == -300_000 && b.birds[2].y == -100_000,
            b.birds[3].x == 200_000 && b.birds[3].y == 170_000,
            b.birds[4].x == -150_000 && b.birds[4].y == 100_000,
    {
        let mut c1 = cloud1;
        let h1 = c1.height;
        c1.set_position(0, BOTTOM + h1 / 2);
        let mut c2 = cloud2;
        let h2 = c2.height;
        c2.set_position(SCREEN_WIDTH - 3_000, BOTTOM + h2 / 2);
        let mut c3 = rainbow;
        let h3 = c3.height;
        c3.set_position(SCREEN_WIDTH - 3_000, BOTTOM + h3 / 2);

        let mut clouds: Vec<Texture> = Vec::new();
        clouds.push(c1);
        clouds.push(c2);
        clouds.push(c3);

        let mut birds = birds;
        let bd = &mut birds[0];
        bd.set_position(0, 0);
        let bd = &mut birds[1];
        bd.set_position(100_000, -250_000);
        let bd = &mut birds[2];
        bd.set_position(-300_000, -100_000);
        let bd = &mut birds[3];
        bd.set_position(200_000, 170_000);
        let bd = &mut birds[4];
        bd.set_position(-150_000, 100_000);

        Background { background_clouds: clouds, birds, rand: fresh_rng() }
    }

    /// One frame of the decoration layer. The first cloud bank wraps on
    /// its own; when the second bank has left the screen, a one-in-four
    /// draw sends the rainbow instead of the bank back to the right edge.
    /// All clouds then drift left. Each bird animates, drifts right and
    /// wraps to the left edge once off screen.
    pub fn update(&mut self, dt: i64)
        requires
            old(self).wf(),
            0 <= dt <= MAX_DT,
        ensures
            final(self).wf(),
            spec_background_step(*old(self), *final(self), dt as int),
    {
        if 2 * self.background_clouds[0].x + self.background_clouds[0].width < 2 * LEFT {
            proof {
                assert(self.background_clouds[0].wf());
            }
            let c = &mut self.background_clouds[0];
            c.set_x(SCREEN_WIDTH - 3_000);
        }
        if 2 * self.background_clouds[1].x + self.background_clouds[1].width < 2 * LEFT {
            let r = random_in_range(&mut self.rand, 0, 4);
            if r == 3 {
                proof {
                    assert(self.background_clouds[2].wf());
                }
                let c = &mut self.background_clouds[2];
                c.set_x(SCREEN_WIDTH - 3_000);
            } else {
                proof {
                    assert(self.background_clouds[1].wf());
                }
                let c = &mut self.background_clouds[1];
                c.set_x(SCREEN_WIDTH - 3_000);
            }
        }

        let ghost pre = *self;
        let mut i: usize = 0;
        while i < 3
            invariant
                pre.wf(),
                0 <= i <= 3,
                self.background_clouds.len() == 3,
                *self == (Background {
                    background_clouds: self.background_clouds,
                    ..pre
                }),
                forall|j: int|
                    0 <= j < i ==> (#[trigger] self.background_clouds[j]) == (Texture {
                        x: clamp_coord(pre.background_clouds[j].x - 15) as i64,
                        ..pre.background_clouds[j]
                    }),
                forall|j: int|
                    i <= j < 3 ==> self.background_clouds[j] == pre.background_clouds[j],
            decreases 3 - i,
        {
            proof {
                assert(pre.background_clouds[i as int].wf());
            }
            let c = &mut self.background_clouds[i];
            c.translate(-15, 0);
            i = i + 1;
        }

        let ghost mid = *self;
        let mut k: usize = 0;
        while k < 5
            invariant
                mid.wf(),
                0 <= dt <= MAX_DT,
                0 <= k <= 5,
                self.birds.len() == 5,
                *self == (Background { birds: self.birds, ..mid }),
                forall|j: int|
                    0 <= j < k ==> (#[trigger] self.birds[j]).x as int == spec_bird_x(
                        mid.birds[j],
                    ) && self.birds[j].wf() && self.birds[j].mode == mid.birds[j].mode
                        && self.birds[j].time_per_frame == mid.birds[j].time_per_frame
                        && self.birds[j].frame_count == mid.birds[j].frame_count && (
                    !mid.birds[j].animation_done ==> self.birds[j].total_elapsed@
                        == mid.birds[j].total_elapsed@ + dt) && (mid.birds[j].animation_done
                        ==> self.birds[j].animation_done && self.birds[j].current_frame
                        == mid.birds[j].current_frame),
                forall|j: int| k <= j < 5 ==> self.birds[j] == mid.birds[j],
            decreases 5 - k,
        {
            proof {
                assert(mid.birds[k as int].wf());
            }
            {
                let b = &mut self.birds[k];
                b.update(dt);
            }
            {
                let b = &mut self.birds[k];
                b.translate(12, 0);
            }
            if self.birds[k].x >= RIGHT + 10_000 {
                let b = &mut self.birds[k];
                b.set_x(LEFT - 10_000);
            }
            k = k + 1;
        }
    }
}

} // verus!
