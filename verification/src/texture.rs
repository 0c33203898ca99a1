//! Sprites and frame-based animation.
//!
//! A [`Texture`] is one renderable quad: a center position, a size, a handle
//! naming the image the render layer should use, an optional clip rectangle
//! in per-mille texture space, and mirror flags. An [`AnimatedTexture`] is an
//! ordered sequence of such sprites played back on a timer.
//!
//! Distances are milli-units, times are milliseconds.

use vstd::prelude::*;
use vstd::arithmetic::div_mod::{
    lemma_add_mod_noop, lemma_fundamental_div_mod_converse, lemma_div_is_ordered,
};

use crate::clamp_coord;
use crate::clamp_i64;
use crate::COORD_LIMIT;
use crate::MAX_DT;
use crate::shape::Direction;

verus! {

/// Axis-aligned box: center `(x, y)`, full width `w` and full height `h`,
/// all in milli-units.
#[derive(Debug, PartialEq, Eq, Structural, Clone, Copy)]
pub struct Rect {
    pub x: i64,
    pub y: i64,
    pub w: i64,
    pub h: i64,
}

/// All coordinates of the box are small enough that doubling them, or adding
/// an extent to a doubled center, cannot overflow a 64-bit computation.
pub open spec fn rect_wf(r: Rect) -> bool {
    &&& -COORD_LIMIT <= r.x <= COORD_LIMIT
    &&& -COORD_LIMIT <= r.y <= COORD_LIMIT
    &&& 0 <= r.w <= COORD_LIMIT
    &&& 0 <= r.h <= COORD_LIMIT
}

/// The bottom edge of `a` lies within the vertical span of `b` while the
/// center of `a` lies within the horizontal span of `b`: `a` is resting on
/// or stomping `b` from above. All comparisons are non-strict, doubled to
/// avoid halving the extents.
pub open spec fn spec_collide_bottom(a: Rect, b: Rect) -> bool {
    &&& 2 * a.y - a.h >= 2 * b.y - b.h
    &&& 2 * a.y - a.h <= 2 * b.y + b.h
    &&& 2 * a.x >= 2 * b.x - b.w
    &&& 2 * a.x <= 2 * b.x + b.w
}

/// The left edge of `a` lies within the horizontal span of `b` while the
/// center of `a` lies within the vertical span of `b`: `a` is touching `b`
/// on `a`'s left side.
pub open spec fn spec_collide_left(a: Rect, b: Rect) -> bool {
    &&& 2 * a.x - a.w >= 2 * b.x - b.w
    &&& 2 * a.x - a.w <= 2 * b.x + b.w
    &&& 2 * a.y <= 2 * b.y + b.h
    &&& 2 * a.y >= 2 * b.y - b.h
}

/// Directional collision queries layered over the axis-aligned boxes of two
/// values of the same shape-carrying type.
pub trait Collide {
    /// The box the collision queries test.
    spec fn aabb(&self) -> Rect;

    /// The box is within the coordinate range, so the doubled comparisons
    /// cannot overflow.
    spec fn collide_wf(&self) -> bool;

    /// Bottom edge of `self` against the span of `other`: the stomp test.
    fn collide_bottom(&self, other: &Self) -> (r: bool)
        requires
            self.collide_wf(),
            other.collide_wf(),
        ensures
            r == spec_collide_bottom(self.aabb(), other.aabb()),
    ;

    /// `other` rests on `self`.
    fn collide_top(&self, other: &Self) -> (r: bool)
        requires
            self.collide_wf(),
            other.collide_wf(),
        ensures
            r == spec_collide_bottom(other.aabb(), self.aabb()),
    ;

    /// Left edge of `self` against the span of `other`: the side-hit test.
    fn collide_left(&self, other: &Self) -> (r: bool)
        requires
            self.collide_wf(),
            other.collide_wf(),
        ensures
            r == spec_collide_left(self.aabb(), other.aabb()),
    ;

    /// `other` touches `self` on `other`'s left side.
    fn collide_right(&self, other: &Self) -> (r: bool)
        requires
            self.collide_wf(),
            other.collide_wf(),
        ensures
            r == spec_collide_left(other.aabb(), self.aabb()),
    ;
}

/// One renderable sprite. `tex_id` names the image for the render layer and
/// carries no geometry; the clip rectangle is in per-mille texture space
/// (the whole image is `0, 0, 1000, 1000`).
#[derive(Debug, PartialEq, Eq, Structural, Clone, Copy)]
pub struct Texture {
    pub width: i64,
    pub height: i64,
    pub x: i64,
    pub y: i64,
    pub tex_id: u64,
    pub clipped: bool,
    pub clip_rect: Rect,
    pub mirrored_h: bool,
    pub mirrored_v: bool,
}

impl Texture {
    /// Position and size are in the coordinate range and the clip rectangle
    /// stays inside the image.
    pub open spec fn wf(&self) -> bool {
        &&& -COORD_LIMIT <= self.x <= COORD_LIMIT
        &&& -COORD_LIMIT <= self.y <= COORD_LIMIT
        &&& 0 <= self.width <= COORD_LIMIT
        &&& 0 <= self.height <= COORD_LIMIT
        &&& 0 <= self.clip_rect.x
        &&& 0 <= self.clip_rect.y
        &&& 0 <= self.clip_rect.w
        &&& 0 <= self.clip_rect.h
        &&& self.clip_rect.x + self.clip_rect.w <= 1000
        &&& self.clip_rect.y + self.clip_rect.h <= 1000
    }

    /// A fresh sprite for the image `tex_id` with the given intrinsic size,
    /// centered at the origin, unclipped and unmirrored.
    pub fn new(tex_id: u64, width: i64, height: i64) -> (t: Texture)
        requires
            0 <= width <= COORD_LIMIT,
            0 <= height <= COORD_LIMIT,
        ensures
            t == (Texture {
                width,
                height,
                x: 0,
                y: 0,
                tex_id,
                clipped: false,
                clip_rect: Rect { x: 0, y: 0, w: 1000, h: 1000 },
                mirrored_h: false,
                mirrored_v: false,
            }),
            t.wf(),
    {
        Texture {
            width,
            height,
            x: 0,
            y: 0,
            tex_id,
            clipped: false,
            clip_rect: Rect { x: 0, y: 0, w: 1000, h: 1000 },
            mirrored_h: false,
            mirrored_v: false,
        }
    }

    pub fn get_dimensions(&self) -> (d: (i64, i64))
        ensures
            d == (self.width, self.height),
    {
        (self.width, self.height)
    }

    pub fn get_position(&self) -> (p: (i64, i64))
        ensures
            p == (self.x, self.y),
    {
        (self.x, self.y)
    }

    /// The box used by every collision test.
    pub open spec fn aabb_spec(&self) -> Rect {
        Rect { x: self.x, y: self.y, w: self.width, h: self.height }
    }

    /// Multiplies both extents by `factor` per-mille; the position, being
    /// the geometric center, is unchanged.
    pub fn scale(&mut self, factor: i64)
        requires
            old(self).wf(),
            0 <= factor <= 1_000_000,
        ensures
            *final(self) == (Texture {
                width: clamp_coord(old(self).width * factor / 1000) as i64,
                height: clamp_coord(old(self).height * factor / 1000) as i64,
                ..*old(self)
            }),
            final(self).wf(),
    {
        let w = self.width;
        let h = self.height;
        proof {
            assert(0 <= w * factor <= 1_000_000_000_000_000_000 && 0 <= h * factor
                <= 1_000_000_000_000_000_000) by (nonlinear_arith)
                requires
                    0 <= w <= 1_000_000_000_000,
                    0 <= h <= 1_000_000_000_000,
                    0 <= factor <= 1_000_000,
            ;
        }
        self.width = clamp_i64(w * factor / 1000);
        self.height = clamp_i64(h * factor / 1000);
    }

    /// Moves the center by `(dx, dy)`.
    pub fn translate(&mut self, dx: i64, dy: i64)
        requires
            old(self).wf(),
            -COORD_LIMIT <= dx <= COORD_LIMIT,
            -COORD_LIMIT <= dy <= COORD_LIMIT,
        ensures
            *final(self) == (Texture {
                x: clamp_coord(old(self).x + dx) as i64,
                y: clamp_coord(old(self).y + dy) as i64,
                ..*old(self)
            }),
            final(self).wf(),
    {
        self.x = clamp_i64(self.x + dx);
        self.y = clamp_i64(self.y + dy);
    }

    /// Places the center at `(x, y)`.
    pub fn set_position(&mut self, x: i64, y: i64)
        ensures
            *final(self) == (Texture {
                x: clamp_coord(x as int) as i64,
                y: clamp_coord(y as int) as i64,
                ..*old(self)
            }),
    {
        self.x = clamp_i64(x);
        self.y = clamp_i64(y);
    }

    pub fn set_x(&mut self, x: i64)
        ensures
            *final(self) == (Texture { x: clamp_coord(x as int) as i64, ..*old(self) }),
    {
        self.x = clamp_i64(x);
    }

    pub fn set_y(&mut self, y: i64)
        ensures
            *final(self) == (Texture { y: clamp_coord(y as int) as i64, ..*old(self) }),
    {
        self.y = clamp_i64(y);
    }

    /// Flips the texture coordinates along the given axis. Flipping twice
    /// along the same axis restores the original orientation.
    pub fn mirror(&mut self, dir: Direction)
        ensures
            *final(self) == spec_mirrored(*old(self), dir),
    {
        match dir {
            Direction::Horizontal => {
                self.mirrored_h = !self.mirrored_h;
            }
            Direction::Vertical => {
                self.mirrored_v = !self.mirrored_v;
            }
        }
    }

    /// Restricts drawing to the sub-rectangle `(x, y, w, h)` of the image,
    /// in per-mille texture space.
    pub fn clip(&mut self, x: i64, y: i64, w: i64, h: i64)
        requires
            0 <= x,
            0 <= y,
            0 <= w,
            0 <= h,
            x + w <= 1000,
            y + h <= 1000,
        ensures
            *final(self) == (Texture {
                clipped: true,
                clip_rect: Rect { x, y, w, h },
                ..*old(self)
            }),
    {
        self.clipped = true;
        self.clip_rect = Rect { x, y, w, h };
    }
}

/// The sprite after one mirror flip along `dir`.
pub open spec fn spec_mirrored(t: Texture, dir: Direction) -> Texture {
    match dir {
        Direction::Horizontal => Texture { mirrored_h: !t.mirrored_h, ..t },
        Direction::Vertical => Texture { mirrored_v: !t.mirrored_v, ..t },
    }
}

/// Mirroring is an involution: flipping twice along the same axis is the
/// identity, so a mirror invoked once per direction change never drifts.
pub proof fn lemma_mirror_twice_identity(t: Texture, dir: Direction)
    ensures
        spec_mirrored(spec_mirrored(t, dir), dir) == t,
{
}

impl Collide for Texture {
    open spec fn aabb(&self) -> Rect {
        self.aabb_spec()
    }

    open spec fn collide_wf(&self) -> bool {
        self.wf()
    }

    fn collide_bottom(&self, other: &Self) -> (r: bool) {
        2 * self.y - self.height >= 2 * other.y - other.height
            && 2 * self.y - self.height <= 2 * other.y + other.height
            && 2 * self.x >= 2 * other.x - other.width
            && 2 * self.x <= 2 * other.x + other.width
    }

    fn collide_top(&self, other: &Self) -> (r: bool) {
        other.collide_bottom(self)
    }

    fn collide_left(&self, other: &Self) -> (r: bool) {
        2 * self.x - self.width >= 2 * other.x - other.width
            && 2 * self.x - self.width <= 2 * other.x + other.width
            && 2 * self.y <= 2 * other.y + other.height
            && 2 * self.y >= 2 * other.y - other.height
    }

    fn collide_right(&self, other: &Self) -> (r: bool) {
        other.collide_left(self)
    }
}

impl Collide for AnimatedTexture {
    open spec fn aabb(&self) -> Rect {
        Rect { x: self.x, y: self.y, w: self.width, h: self.height }
    }

    open spec fn collide_wf(&self) -> bool {
        self.wf()
    }

    fn collide_bottom(&self, other: &Self) -> (r: bool) {
        2 * self.y - self.height >= 2 * other.y - other.height
            && 2 * self.y - self.height <= 2 * other.y + other.height
            && 2 * self.x >= 2 * other.x - other.width
            && 2 * self.x <= 2 * other.x + other.width
    }

    fn collide_top(&self, other: &Self) -> (r: bool) {
        other.collide_bottom(self)
    }

    fn collide_left(&self, other: &Self) -> (r: bool) {
        2 * self.x - self.width >= 2 * other.x - other.width
            && 2 * self.x - self.width <= 2 * other.x + other.width
            && 2 * self.y <= 2 * other.y + other.height
            && 2 * self.y >= 2 * other.y - other.height
    }

    fn collide_right(&self, other: &Self) -> (r: bool) {
        other.collide_left(self)
    }
}

/// How an animation behaves when its last frame has been shown: start over,
/// or stop on it for good.
#[derive(Debug, PartialEq, Eq, Structural, Clone, Copy)]
pub enum AnimationMode {
    Loop,
    Once,
}

/// An ordered sequence of frames played on a timer. The whole cycle lasts
/// `speed` milliseconds, so each frame is shown for `speed / frame_count`
/// milliseconds. `total_elapsed` is the ghost sum of every delta the
/// animation clock has consumed; the current frame is a pure function of it.
pub struct AnimatedTexture {
    pub width: i64,
    pub height: i64,
    pub x: i64,
    pub y: i64,
    pub textures: Vec<Texture>,
    pub speed: i64,
    pub mode: AnimationMode,
    pub animation_timer: i64,
    pub time_per_frame: i64,
    pub animation_done: bool,
    pub current_frame: usize,
    pub frame_count: usize,
    pub total_elapsed: Ghost<int>,
}

impl AnimatedTexture {
    /// Every frame shares the animation's position and size; the timer keeps
    /// the remainder of the consumed time modulo the frame duration; and the
    /// current frame index is determined by the consumed time:
    /// `floor(total / time_per_frame) mod frame_count` while looping, the
    /// same value saturated at the last frame when playing once.
    pub open spec fn wf(&self) -> bool {
        &&& -COORD_LIMIT <= self.x <= COORD_LIMIT
        &&& -COORD_LIMIT <= self.y <= COORD_LIMIT
        &&& 0 <= self.width <= COORD_LIMIT
        &&& 0 <= self.height <= COORD_LIMIT
        &&& self.frame_count == self.textures.len()
        &&& 1 <= self.frame_count <= 1000
        &&& 1 <= self.time_per_frame
        &&& 1 <= self.speed <= COORD_LIMIT
        &&& self.time_per_frame == self.speed as int / self.frame_count as int
        &&& self.current_frame < self.frame_count
        &&& 0 <= self.total_elapsed@
        &&& forall|i: int|
            0 <= i < self.textures.len() ==> (#[trigger] self.textures[i]).wf()
        &&& forall|i: int|
            0 <= i < self.textures.len() ==> (#[trigger] self.textures[i]).x == self.x
                && self.textures[i].y == self.y && self.textures[i].width == self.width
                && self.textures[i].height == self.height
        &&& match self.mode {
            AnimationMode::Loop => {
                &&& !self.animation_done
                &&& self.current_frame
                    == (self.total_elapsed@ / self.time_per_frame as int) % (
                self.frame_count as int)
                &&& self.animation_timer == self.total_elapsed@ % (self.time_per_frame as int)
            },
            AnimationMode::Once => {
                if !self.animation_done {
                    &&& self.current_frame == self.total_elapsed@ / self.time_per_frame as int
                    &&& self.animation_timer == self.total_elapsed@ % (self.time_per_frame as int)
                } else {
                    &&& self.current_frame == self.frame_count - 1
                    &&& 0 <= self.animation_timer
                }
            },
        }
    }

    /// Builds a looping animation from its frames; the cycle lasts `speed`
    /// milliseconds. The frames must agree on position and size, as frames
    /// of one animation do.
    pub fn new(frames: Vec<Texture>, speed: i64) -> (a: AnimatedTexture)
        requires
            1 <= frames.len() <= 1000,
            frames.len() <= speed <= COORD_LIMIT,
            forall|i: int| 0 <= i < frames.len() ==> (#[trigger] frames[i]).wf(),
            forall|i: int|
                0 <= i < frames.len() ==> (#[trigger] frames[i]).x == frames[0].x
                    && frames[i].y == frames[0].y && frames[i].width == frames[0].width
                    && frames[i].height == frames[0].height,
        ensures
            a.wf(),
            a.textures == frames,
            a.speed == speed,
            a.mode == AnimationMode::Loop,
            a.animation_timer == 0,
            a.time_per_frame == speed as int / frames.len() as int,
            !a.animation_done,
            a.current_frame == 0,
            a.frame_count == frames.len(),
            a.total_elapsed@ == 0,
            a.x == frames[0].x,
            a.y == frames[0].y,
            a.width == frames[0].width,
            a.height == frames[0].height,
    {
        let frame_count = frames.len();
        let time_per_frame = speed / frame_count as i64;
        let a = AnimatedTexture {
            width: frames[0].width,
            height: frames[0].height,
            x: frames[0].x,
            y: frames[0].y,
            textures: frames,
            speed,
            mode: AnimationMode::Loop,
            animation_timer: 0,
            time_per_frame,
            animation_done: false,
            current_frame: 0,
            frame_count,
            total_elapsed: Ghost(0),
        };
        proof {
            vstd::arithmetic::div_mod::lemma_div_non_zero(speed as int, frame_count as int);
            lemma_zero_time_state(a.time_per_frame as int, a.frame_count as int);
        }
        a
    }

    /// Chooses the playback mode. The mode is part of construction: it is
    /// fixed before the animation has consumed any time.
    pub fn set_mode(&mut self, mode: AnimationMode)
        requires
            old(self).wf(),
            old(self).total_elapsed@ == 0,
            !old(self).animation_done,
        ensures
            *final(self) == (AnimatedTexture { mode, ..*old(self) }),
            final(self).wf(),
    {
        proof {
            lemma_zero_time_state(self.time_per_frame as int, self.frame_count as int);
        }
        self.mode = mode;
    }

    pub fn get_dimensions(&self) -> (d: (i64, i64))
        ensures
            d == (self.width, self.height),
    {
        (self.width, self.height)
    }

    pub fn get_position(&self) -> (p: (i64, i64))
        ensures
            p == (self.x, self.y),
    {
        (self.x, self.y)
    }

    /// The frame playback relation: `post` is `pre` after its animation
    /// clock consumed `dt` more milliseconds. Everything geometric is
    /// untouched; the current frame follows the consumed total.
    pub open spec fn advanced(pre: AnimatedTexture, post: AnimatedTexture, dt: int) -> bool {
        let total = pre.total_elapsed@ + dt;
        let tpf = pre.time_per_frame as int;
        let n = pre.frame_count as int;
        &&& post == (AnimatedTexture {
            animation_timer: post.animation_timer,
            animation_done: post.animation_done,
            current_frame: post.current_frame,
            total_elapsed: post.total_elapsed,
            ..pre
        })
        &&& match pre.mode {
            AnimationMode::Loop => {
                &&& post.total_elapsed@ == total
                &&& !post.animation_done
                &&& post.current_frame == (total / tpf) % n
                &&& post.animation_timer == total % tpf
            },
            AnimationMode::Once => {
                &&& post.total_elapsed@ == total
                &&& if total / tpf < n {
                    &&& !post.animation_done
                    &&& post.current_frame == total / tpf
                    &&& post.animation_timer == total % tpf
                } else {
                    &&& post.animation_done
                    &&& post.current_frame == n - 1
                }
            },
        }
    }

    /// Consumes `dt` milliseconds of animation time, advancing the current
    /// frame once per elapsed frame duration: around the cycle while
    /// looping, and up to the last frame when playing once, where the
    /// animation finishes.
    pub fn run_animation(&mut self, dt: i64)
        requires
            old(self).wf(),
            !old(self).animation_done,
            0 <= dt <= MAX_DT,
        ensures
            final(self).wf(),
            AnimatedTexture::advanced(*old(self), *final(self), dt as int),
    {
        let ghost total: int = self.total_elapsed@ + dt;
        let ghost tpf: int = self.time_per_frame as int;
        let ghost n: int = self.frame_count as int;
        self.animation_timer = self.animation_timer + dt;
        self.total_elapsed = Ghost(self.total_elapsed@ + dt);
        match self.mode {
            AnimationMode::Loop => {
                proof {
                    lemma_mod_sub_is_mod(self.total_elapsed@ - dt, tpf);
                }
                while self.animation_timer >= self.time_per_frame
                    invariant
                        self.wf_frames_only(),
                        0 <= self.animation_timer,
                        self.current_frame < self.frame_count,
                        total - self.animation_timer >= 0,
                        (total - self.animation_timer) % tpf == 0,
                        self.current_frame == ((total - self.animation_timer) / tpf) % n,
                        tpf == self.time_per_frame as int,
                        n == self.frame_count as int,
                        total == self.total_elapsed@,
                        *self == (AnimatedTexture {
                            animation_timer: self.animation_timer,
                            current_frame: self.current_frame,
                            total_elapsed: self.total_elapsed,
                            ..*old(self)
                        }),
                    decreases self.animation_timer,
                {
                    let ghost consumed: int = total - self.animation_timer;
                    self.animation_timer = self.animation_timer - self.time_per_frame;
                    self.current_frame = (self.current_frame + 1) % self.frame_count;
                    proof {
                        lemma_step_mod_frame(consumed, tpf, n);
                    }
                }
                proof {
                    lemma_exit_div(total, self.animation_timer as int, tpf);
                }
            },
            AnimationMode::Once => {
                proof {
                    lemma_mod_sub_is_mod(self.total_elapsed@ - dt, tpf);
                }
                while !self.animation_done && self.animation_timer >= self.time_per_frame
                    invariant
                        self.wf_frames_only(),
                        0 <= self.animation_timer,
                        total - self.animation_timer >= 0,
                        (total - self.animation_timer) % tpf == 0,
                        !self.animation_done ==> self.current_frame == (total
                            - self.animation_timer) / tpf && self.current_frame
                            < self.frame_count,
                        self.animation_done ==> self.current_frame == self.frame_count - 1 && (
                        total - self.animation_timer) / tpf == n,
                        tpf == self.time_per_frame as int,
                        n == self.frame_count as int,
                        total == self.total_elapsed@,
                        *self == (AnimatedTexture {
                            animation_timer: self.animation_timer,
                            animation_done: self.animation_done,
                            current_frame: self.current_frame,
                            total_elapsed: self.total_elapsed,
                            ..*old(self)
                        }),
                    decreases self.animation_timer,
                {
                    let ghost consumed: int = total - self.animation_timer;
                    self.animation_timer = self.animation_timer - self.time_per_frame;
                    self.current_frame = self.current_frame + 1;
                    proof {
                        lemma_step_div(consumed, tpf);
                    }
                    if self.current_frame == self.frame_count {
                        self.animation_done = true;
                        self.current_frame = self.current_frame - 1;
                    }
                }
                proof {
                    if !self.animation_done {
                        lemma_exit_div(total, self.animation_timer as int, tpf);
                    } else {
                        lemma_div_is_ordered(total - self.animation_timer, total, tpf);
                    }
                }
            },
        }
    }

    /// Moves every frame, and so the whole animation, by `(dx, dy)`.
    pub fn translate(&mut self, dx: i64, dy: i64)
        requires
            old(self).wf(),
            -COORD_LIMIT <= dx <= COORD_LIMIT,
            -COORD_LIMIT <= dy <= COORD_LIMIT,
        ensures
            final(self).wf(),
            *final(self) == (AnimatedTexture {
                x: clamp_coord(old(self).x + dx) as i64,
                y: clamp_coord(old(self).y + dy) as i64,
                textures: final(self).textures,
                ..*old(self)
            }),
            final(self).textures.len() == old(self).textures.len(),
            forall|j: int|
                0 <= j < old(self).textures.len() ==> final(self).textures[j] == (Texture {
                    x: clamp_coord(old(self).textures[j].x + dx) as i64,
                    y: clamp_coord(old(self).textures[j].y + dy) as i64,
                    ..old(self).textures[j]
                }),
    {
        let ghost pre = *self;
        let n = self.textures.len();
        let mut i: usize = 0;
        while i < n
            invariant
                pre.wf(),
                pre == *old(self),
                -COORD_LIMIT <= dx <= COORD_LIMIT,
                -COORD_LIMIT <= dy <= COORD_LIMIT,
                0 <= i <= n,
                self.textures.len() == n,
                pre.textures.len() == n,
                *self == (AnimatedTexture { textures: self.textures, ..pre }),
                forall|j: int|
                    0 <= j < i ==> self.textures[j] == (Texture {
                        x: clamp_coord(pre.textures[j].x + dx) as i64,
                        y: clamp_coord(pre.textures[j].y + dy) as i64,
                        ..pre.textures[j]
                    }),
                forall|j: int| i <= j < n ==> self.textures[j] == pre.textures[j],
            decreases n - i,
        {
            let mut t = self.textures[i];
            proof {
                assert(self.textures[i as int] == pre.textures[i as int]);
                assert(pre.textures[i as int].wf());
            }
            t.translate(dx, dy);
            self.textures[i] = t;
            i = i + 1;
        }
        let cx = self.x;
        let cy = self.y;
        self.x = clamp_i64(cx + dx);
        self.y = clamp_i64(cy + dy);
    }

    /// Places every frame, and so the whole animation, at `(x, y)`.
    #[verifier::loop_isolation(false)]
    pub fn set_position(&mut self, x: i64, y: i64)
        requires
            old(self).wf(),
        ensures
            final(self).wf(),
            *final(self) == (AnimatedTexture {
                x: clamp_coord(x as int) as i64,
                y: clamp_coord(y as int) as i64,
                textures: final(self).textures,
                ..*old(self)
            }),
            final(self).textures.len() == old(self).textures.len(),
            forall|j: int|
                0 <= j < old(self).textures.len() ==> final(self).textures[j] == (Texture {
                    x: clamp_coord(x as int) as i64,
                    y: clamp_coord(y as int) as i64,
                    ..old(self).textures[j]
                }),
    {
        let n = self.textures.len();
        let mut i: usize = 0;
        while i < n
            invariant
                old(self).wf(),
                0 <= i <= n,
                self.textures.len() == n,
                *self == (AnimatedTexture { textures: self.textures, ..*old(self) }),
                self.x == old(self).x,
                self.y == old(self).y,
                self.width == old(self).width,
                self.height == old(self).height,
                forall|j: int|
                    0 <= j < i ==> self.textures[j] == (Texture {
                        x: clamp_coord(x as int) as i64,
                        y: clamp_coord(y as int) as i64,
                        ..old(self).textures[j]
                    }),
                forall|j: int| i <= j < n ==> self.textures[j] == old(self).textures[j],
            decreases n - i,
        {
            let mut t = self.textures[i];
            proof {
                assert(self.textures[i as int] == old(self).textures[i as int]);
                assert(old(self).textures[i as int].wf());
            }
            t.set_position(x, y);
            self.textures[i] = t;
            i = i + 1;
        }
        self.x = clamp_i64(x);
        self.y = clamp_i64(y);
    }

    /// Places every frame, and so the whole animation, at horizontal `x`.
    #[verifier::loop_isolation(false)]
    pub fn set_x(&mut self, x: i64)
        requires
            old(self).wf(),
        ensures
            final(self).wf(),
            *final(self) == (AnimatedTexture {
                x: clamp_coord(x as int) as i64,
                textures: final(self).textures,
                ..*old(self)
            }),
            final(self).textures.len() == old(self).textures.len(),
            forall|j: int|
                0 <= j < old(self).textures.len() ==> final(self).textures[j] == (Texture {
                    x: clamp_coord(x as int) as i64,
                    ..old(self).textures[j]
                }),
    {
        let n = self.textures.len();
        let mut i: usize = 0;
        while i < n
            invariant
                old(self).wf(),
                0 <= i <= n,
                self.textures.len() == n,
                *self == (AnimatedTexture { textures: self.textures, ..*old(self) }),
                self.x == old(self).x,
                self.y == old(self).y,
                self.width == old(self).width,
                self.height == old(self).height,
                forall|j: int|
                    0 <= j < i ==> self.textures[j] == (Texture {
                        x: clamp_coord(x as int) as i64,
                        ..old(self).textures[j]
                    }),
                forall|j: int| i <= j < n ==> self.textures[j] == old(self).textures[j],
            decreases n - i,
        {
            let mut t = self.textures[i];
            proof {
                assert(self.textures[i as int] == old(self).textures[i as int]);
                assert(old(self).textures[i as int].wf());
            }
            t.set_x(x);
            self.textures[i] = t;
            i = i + 1;
        }
        self.x = clamp_i64(x);
    }

    /// Places every frame, and so the whole animation, at vertical `y`.
    #[verifier::loop_isolation(false)]
    pub fn set_y(&mut self, y: i64)
        requires
            old(self).wf(),
        ensures
            final(self).wf(),
            *final(self) == (AnimatedTexture {
                y: clamp_coord(y as int) as i64,
                textures: final(self).textures,
                ..*old(self)
            }),
            final(self).textures.len() == old(self).textures.len(),
            forall|j: int|
                0 <= j < old(self).textures.len() ==> final(self).textures[j] == (Texture {
                    y: clamp_coord(y as int) as i64,
                    ..old(self).textures[j]
                }),
    {
        let n = self.textures.len();
        let mut i: usize = 0;
        while i < n
            invariant
                old(self).wf(),
                0 <= i <= n,
                self.textures.len() == n,
                *self == (AnimatedTexture { textures: self.textures, ..*old(self) }),
                self.x == old(self).x,
                self.y == old(self).y,
                self.width == old(self).width,
                self.height == old(self).height,
                forall|j: int|
                    0 <= j < i ==> self.textures[j] == (Texture {
                        y: clamp_coord(y as int) as i64,
                        ..old(self).textures[j]
                    }),
                forall|j: int| i <= j < n ==> self.textures[j] == old(self).textures[j],
            decreases n - i,
        {
            let mut t = self.textures[i];
            proof {
                assert(self.textures[i as int] == old(self).textures[i as int]);
                assert(old(self).textures[i as int].wf());
            }
            t.set_y(y);
            self.textures[i] = t;
            i = i + 1;
        }
        self.y = clamp_i64(y);
    }

    /// Scales every frame by `factor` per-mille around its center.
    #[verifier::loop_isolation(false)]
    pub fn scale(&mut self, factor: i64)
        requires
            old(self).wf(),
            0 <= factor <= 1_000_000,
        ensures
            final(self).wf(),
            *final(self) == (AnimatedTexture {
                width: clamp_coord(old(self).width * factor / 1000) as i64,
                height: clamp_coord(old(self).height * factor / 1000) as i64,
                textures: final(self).textures,
                ..*old(self)
            }),
            final(self).textures.len() == old(self).textures.len(),
            forall|j: int|
                0 <= j < old(self).textures.len() ==> final(self).textures[j] == (Texture {
                    width: clamp_coord(old(self).textures[j].width * factor / 1000) as i64,
                    height: clamp_coord(old(self).textures[j].height * factor / 1000) as i64,
                    ..old(self).textures[j]
                }),
    {
        let n = self.textures.len();
        let mut i: usize = 0;
        while i < n
            invariant
                old(self).wf(),
                0 <= i <= n,
                self.textures.len() == n,
                *self == (AnimatedTexture { textures: self.textures, ..*old(self) }),
                self.x == old(self).x,
                self.y == old(self).y,
                self.width == old(self).width,
                self.height == old(self).height,
                forall|j: int|
                    0 <= j < i ==> self.textures[j] == (Texture {
                        width: clamp_coord(old(self).textures[j].width * factor / 1000) as i64,
                        height: clamp_coord(old(self).textures[j].height * factor / 1000) as i64,
                        ..old(self).textures[j]
                    }),
                forall|j: int| i <= j < n ==> self.textures[j] == old(self).textures[j],
            decreases n - i,
        {
            let mut t = self.textures[i];
            proof {
                assert(self.textures[i as int] == old(self).textures[i as int]);
                assert(old(self).textures[i as int].wf());
            }
            t.scale(factor);
            self.textures[i] = t;
            i = i + 1;
        }
        let w = self.width;
        let h = self.height;
        proof {
            assert(0 <= w * factor <= 1_000_000_000_000_000_000 && 0 <= h * factor
                <= 1_000_000_000_000_000_000) by (nonlinear_arith)
                requires
                    0 <= w <= 1_000_000_000_000,
                    0 <= h <= 1_000_000_000_000,
                    0 <= factor <= 1_000_000,
            ;
        }
        self.width = clamp_i64(w * factor / 1000);
        self.height = clamp_i64(h * factor / 1000);
    }

    /// Flips the texture coordinates of every frame along `dir`. Flipping
    /// twice along the same axis restores the original orientation.
    #[verifier::loop_isolation(false)]
    pub fn mirror(&mut self, dir: Direction)
        requires
            old(self).wf(),
        ensures
            final(self).wf(),
            *final(self) == (AnimatedTexture { textures: final(self).textures, ..*old(self) }),
            final(self).textures.len() == old(self).textures.len(),
            forall|j: int|
                0 <= j < old(self).textures.len() ==> final(self).textures[j] == spec_mirrored(
                    old(self).textures[j],
                    dir,
                ),
    {
        let n = self.textures.len();
        let mut i: usize = 0;
        while i < n
            invariant
                old(self).wf(),
                0 <= i <= n,
                self.textures.len() == n,
                *self == (AnimatedTexture { textures: self.textures, ..*old(self) }),
                self.x == old(self).x,
                self.y == old(self).y,
                self.width == old(self).width,
                self.height == old(self).height,
                forall|j: int|
                    0 <= j < i ==> self.textures[j] == spec_mirrored(old(self).textures[j], dir),
                forall|j: int| i <= j < n ==> self.textures[j] == old(self).textures[j],
            decreases n - i,
        {
            let mut t = self.textures[i];
            proof {
                assert(self.textures[i as int] == old(self).textures[i as int]);
                assert(old(self).textures[i as int].wf());
            }
            t.mirror(dir);
            self.textures[i] = t;
            i = i + 1;
        }
    }

    /// Clips every frame to the sub-rectangle `(x, y, w, h)` of its image,
    /// in per-mille texture space.
    #[verifier::loop_isolation(false)]
    pub fn clip(&mut self, x: i64, y: i64, w: i64, h: i64)
        requires
            old(self).wf(),
            0 <= x,
            0 <= y,
            0 <= w,
            0 <= h,
            x + w <= 1000,
            y + h <= 1000,
        ensures
            final(self).wf(),
            *final(self) == (AnimatedTexture { textures: final(self).textures, ..*old(self) }),
            final(self).textures.len() == old(self).textures.len(),
            forall|j: int|
                0 <= j < old(self).textures.len() ==> final(self).textures[j] == (Texture {
                    clipped: true,
                    clip_rect: Rect { x, y, w, h },
                    ..old(self).textures[j]
                }),
    {
        let n = self.textures.len();
        let mut i: usize = 0;
        while i < n
            invariant
                old(self).wf(),
                0 <= i <= n,
                self.textures.len() == n,
                *self == (AnimatedTexture { textures: self.textures, ..*old(self) }),
                self.x == old(self).x,
                self.y == old(self).y,
                self.width == old(self).width,
                self.height == old(self).height,
                forall|j: int|
                    0 <= j < i ==> self.textures[j] == (Texture {
                        clipped: true,
                        clip_rect: Rect { x, y, w, h },
                        ..old(self).textures[j]
                    }),
                forall|j: int| i <= j < n ==> self.textures[j] == old(self).textures[j],
            decreases n - i,
        {
            let mut t = self.textures[i];
            proof {
                assert(self.textures[i as int] == old(self).textures[i as int]);
                assert(old(self).textures[i as int].wf());
            }
            t.clip(x, y, w, h);
            self.textures[i] = t;
            i = i + 1;
        }
    }

    /// A deep copy: every field, every frame.
    #[verifier::loop_isolation(false)]
    pub fn duplicate(&self) -> (r: AnimatedTexture)
        ensures
            r.textures@ == self.textures@,
            r == (AnimatedTexture { textures: r.textures, ..*self }),
    {
        let n = self.textures.len();
        let mut frames: Vec<Texture> = Vec::new();
        let mut i: usize = 0;
        while i < n
            invariant
                0 <= i <= n,
                frames.len() == i,
                forall|j: int| 0 <= j < i ==> frames[j] == self.textures[j],
            decreases n - i,
        {
            frames.push(self.textures[i]);
            i = i + 1;
        }
        proof {
            assert(frames@ =~= self.textures@);
        }
        AnimatedTexture {
            width: self.width,
            height: self.height,
            x: self.x,
            y: self.y,
            textures: frames,
            speed: self.speed,
            mode: self.mode,
            animation_timer: self.animation_timer,
            time_per_frame: self.time_per_frame,
            animation_done: self.animation_done,
            current_frame: self.current_frame,
            frame_count: self.frame_count,
            total_elapsed: Ghost(self.total_elapsed@),
        }
    }

    /// The part of well-formedness that the playback loop does not touch.
    pub open spec fn wf_frames_only(&self) -> bool {
        &&& -COORD_LIMIT <= self.x <= COORD_LIMIT
        &&& -COORD_LIMIT <= self.y <= COORD_LIMIT
        &&& 0 <= self.width <= COORD_LIMIT
        &&& 0 <= self.height <= COORD_LIMIT
        &&& self.frame_count == self.textures.len()
        &&& 1 <= self.frame_count <= 1000
        &&& 1 <= self.time_per_frame
        &&& 1 <= self.speed <= COORD_LIMIT
        &&& self.time_per_frame == self.speed as int / self.frame_count as int
        &&& forall|i: int|
            0 <= i < self.textures.len() ==> (#[trigger] self.textures[i]).wf()
        &&& forall|i: int|
            0 <= i < self.textures.len() ==> (#[trigger] self.textures[i]).x == self.x
                && self.textures[i].y == self.y && self.textures[i].width == self.width
                && self.textures[i].height == self.height
    }

    /// One playback step: consumes `dt` unless the animation has finished,
    /// in which case nothing changes at all.
    pub fn update(&mut self, dt: i64)
        requires
            old(self).wf(),
            0 <= dt <= MAX_DT,
        ensures
            final(self).wf(),
            old(self).animation_done ==> *final(self) == *old(self),
            !old(self).animation_done ==> AnimatedTexture::advanced(
                *old(self),
                *final(self),
                dt as int,
            ),
    {
        if !self.animation_done {
            self.run_animation(dt);
        }
    }
}

/// Before any time is consumed, the derived frame index and remainder are
/// both zero, whatever the mode.
proof fn lemma_zero_time_state(tpf: int, n: int)
    requires
        0 < tpf,
        0 < n,
    ensures
        0int / tpf == 0,
        0int % tpf == 0,
        (0int / tpf) % n == 0,
{
    vstd::arithmetic::div_mod::lemma_div_of0(tpf);
    vstd::arithmetic::div_mod::lemma_small_mod(0nat, tpf as nat);
    vstd::arithmetic::div_mod::lemma_small_mod(0nat, n as nat);
}

/// Subtracting what was already reduced leaves the same remainder class:
/// helper for entering the playback loop.
proof fn lemma_mod_sub_is_mod(t: int, m: int)
    requires
        0 <= t,
        0 < m,
    ensures
        (t - t % m) % m == 0,
        t % m >= 0,
        t - t % m >= 0,
        (t - t % m) / m == t / m,
{
    vstd::arithmetic::div_mod::lemma_fundamental_div_mod(t, m);
    vstd::arithmetic::div_mod::lemma_mod_pos_bound(t, m);
    vstd::arithmetic::div_mod::lemma_div_pos_is_pos(t, m);
    let q = t / m;
    assert(t - t % m == q * m + 0 && q * m >= 0) by (nonlinear_arith)
        requires
            t == m * q + t % m,
            q >= 0,
            m > 0,
    ;
    lemma_fundamental_div_mod_converse(t - t % m, m, q, 0);
}

/// At the end of a reduction: if the timer is a remainder below the frame
/// duration, the quotient of the consumed part is the quotient of the whole.
proof fn lemma_exit_div(total: int, timer: int, tpf: int)
    requires
        0 < tpf,
        0 <= timer < tpf,
        0 <= total - timer,
        (total - timer) % tpf == 0,
    ensures
        (total - timer) / tpf == total / tpf,
        total % tpf == timer,
{
    let c = total - timer;
    vstd::arithmetic::div_mod::lemma_fundamental_div_mod(c, tpf);
    let q = c / tpf;
    assert(total == q * tpf + timer) by (nonlinear_arith)
        requires
            c == tpf * q + c % tpf,
            c % tpf == 0,
            total == c + timer,
    ;
    lemma_fundamental_div_mod_converse(total, tpf, q, timer);
}

/// Consuming one more frame duration advances the frame index by one,
/// modulo the cycle length.
proof fn lemma_step_mod_frame(consumed: int, tpf: int, n: int)
    requires
        0 < tpf,
        0 < n,
        0 <= consumed,
        consumed % tpf == 0,
    ensures
        (consumed + tpf) % tpf == 0,
        (consumed + tpf) / tpf == consumed / tpf + 1,
        ((consumed + tpf) / tpf) % n == ((consumed / tpf) % n + 1) % n,
{
    lemma_step_div(consumed, tpf);
    vstd::arithmetic::div_mod::lemma_div_pos_is_pos(consumed, tpf);
    let q = consumed / tpf;
    if n == 1 {
        vstd::arithmetic::div_mod::lemma_mod_pos_bound(q, n);
        vstd::arithmetic::div_mod::lemma_mod_pos_bound(q + 1, n);
        vstd::arithmetic::div_mod::lemma_mod_pos_bound(q % n + 1, n);
    } else {
        vstd::arithmetic::div_mod::lemma_small_mod(1nat, n as nat);
        lemma_add_mod_noop(q, 1, n);
        vstd::arithmetic::div_mod::lemma_mod_twice(q, n);
    }
}

/// Consuming one more frame duration increments the whole-frame count.
proof fn lemma_step_div(consumed: int, tpf: int)
    requires
        0 < tpf,
        0 <= consumed,
        consumed % tpf == 0,
    ensures
        (consumed + tpf) % tpf == 0,
        (consumed + tpf) / tpf == consumed / tpf + 1,
{
    vstd::arithmetic::div_mod::lemma_fundamental_div_mod(consumed, tpf);
    let q = consumed / tpf;
    assert(consumed + tpf == (q + 1) * tpf + 0) by (nonlinear_arith)
        requires
            consumed == tpf * q + consumed % tpf,
            consumed % tpf == 0,
    ;
    lemma_fundamental_div_mod_converse(consumed + tpf, tpf, q + 1, 0);
}

/// While looping, the frame on show is exactly the consumed time divided by
/// the frame duration, modulo the frame count: the timing invariant of the
/// animation engine.
pub proof fn lemma_loop_frame_from_total(a: AnimatedTexture)
    requires
        a.wf(),
        a.mode == AnimationMode::Loop,
    ensures
        a.current_frame == (a.total_elapsed@ / a.time_per_frame as int) % (a.frame_count as int),
{
}

/// Two looping animations with the same frame duration and frame count show
/// the same frame whenever they have consumed the same total time — however
/// differently that total was split across updates.
pub proof fn lemma_loop_frame_split_independent(a: AnimatedTexture, b: AnimatedTexture)
    requires
        a.wf(),
        b.wf(),
        a.mode == AnimationMode::Loop,
        b.mode == AnimationMode::Loop,
        a.time_per_frame == b.time_per_frame,
        a.frame_count == b.frame_count,
        a.total_elapsed@ == b.total_elapsed@,
    ensures
        a.current_frame == b.current_frame,
        a.animation_timer == b.animation_timer,
{
}

/// A play-once animation never shows a frame past the last one.
pub proof fn lemma_once_never_past_last(a: AnimatedTexture)
    requires
        a.wf(),
    ensures
        a.current_frame < a.frame_count,
{
}

} // verus!
