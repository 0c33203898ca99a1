//! The live level: the player, four platforms, the flying enemies, the
//! HUD, and the per-frame simulation that ties them together.
//!
//! Platforms scroll left while the player runs right; a platform that
//! leaves the screen is regenerated at a fresh position on the right that
//! overlaps no other platform — by rejection sampling, with a guaranteed
//! fallback slot — and with freshly drawn content: fish half the time, an
//! enemy three times in ten, plain otherwise.

use vstd::prelude::*;

use crate::COORD_LIMIT;
use crate::MAX_DT;
use crate::clamp_coord;
use crate::clamp_i64;
use crate::collision::{overlap_x, spec_overlap_x};
use crate::enemy::{Enemy, SPAWN_DELAY};
use crate::gui::Topbar;
use crate::input_mgr::{InputManager, KEY_ESCAPE, KEY_LEFT, KEY_RIGHT};
use crate::platform::{Platform, Size, Type};
use crate::player::Player;
use crate::rng::{fresh_rng, random_in_range};
use crate::shape::{BOTTOM, LEFT, RIGHT, SCREEN_WIDTH, TOP};
use crate::texture::{Collide, Rect, Texture, spec_collide_bottom};

verus! {

/// Milliseconds a dead player lies there before the level reports game
/// over.
pub const GAME_OVER_DELAY: i64 = 3_000;

/// How many random draws the platform placer tries before falling back to
/// a reserved slot.
pub const PLACE_ATTEMPTS: u32 = 10;

/// The four reserved fallback slots start here and are spaced this far
/// apart: farther than two widest platforms together, so no single
/// platform can block two slots.
pub const SLOT_BASE: i64 = 484_000;

pub const SLOT_STEP: i64 = 800_000;

/// The player is about to rest on the platform: horizontal spans meet and
/// the bottom edge, moved by the pending vertical velocity, would pass the
/// platform's top surface it currently sits above.
pub open spec fn spec_player_landed(p: Player, pl: Platform) -> bool {
    &&& 2 * p.x + p.width >= 2 * pl.x - pl.width
    &&& 2 * p.x - p.width <= 2 * pl.x + pl.width
    &&& 2 * (p.y + p.velocity_y) - p.height <= 2 * pl.y + pl.height
    &&& 2 * p.y - p.height >= 2 * pl.y + pl.height
}

/// Exec form of [`spec_player_landed`].
pub fn player_landed(player: &Player, platform: &Platform) -> (r: bool)
    requires
        player.wf(),
        platform.wf(),
    ensures
        r == spec_player_landed(*player, *platform),
{
    2 * player.x + player.width >= 2 * platform.x - platform.width && 2 * player.x - player.width
        <= 2 * platform.x + platform.width && 2 * (player.y + player.velocity_y) - player.height
        <= 2 * platform.y + platform.height && 2 * player.y - player.height >= 2 * platform.y
        + platform.height
}

/// One frame's effect on one flying enemy, stated for every random
/// outcome: a live enemy drifts left, a defeated one falls; an enemy that
/// has left the screen is recycled into the respawn band and revived. An
/// enemy can end the frame defeated only by having been defeated before,
/// or by the player's bottom edge resting on it where it now stands.
pub open spec fn spec_enemy_frame(e0: Enemy, ef: Enemy, player_box: Rect, dt: int) -> bool {
    let xm = if !e0.is_dead {
        clamp_coord(e0.texture.x - 120 * dt)
    } else {
        e0.x as int
    };
    let ym = if !e0.is_dead {
        e0.texture.y as int
    } else {
        clamp_coord(e0.y + e0.y_velocity)
    };
    let recycled = xm <= LEFT - e0.width || ym <= BOTTOM - e0.height;
    &&& !recycled ==> ef.x as int == xm && ef.y as int == ym && (e0.is_dead ==> ef.is_dead) && (
    !e0.is_dead && ef.is_dead ==> spec_collide_bottom(player_box, ef.texture.aabb()))
    &&& recycled ==> RIGHT <= ef.x < SCREEN_WIDTH && BOTTOM + 40_000 <= ef.y < TOP - 40_000 && (
    ef.is_dead ==> spec_collide_bottom(player_box, ef.texture.aabb()))
}

pub struct Level {
    pub player: Player,
    pub platforms: Vec<Platform>,
    pub enemies: Vec<Enemy>,
    pub controls: Vec<Texture>,
    pub elapsed_time: i64,
    pub spawn_time: i64,
    pub game_over_delay: i64,
    pub rand: rand::rngs::ThreadRng,
    pub topbar: Topbar,
    pub paused: bool,
    pub flying_proto: Enemy,
}

impl Level {
    pub open spec fn wf(&self) -> bool {
        &&& self.player.wf()
        &&& self.topbar.wf()
        &&& self.platforms.len() == 4
        &&& forall|i: int| 0 <= i < self.platforms.len() ==> (#[trigger] self.platforms[i]).wf()
        &&& forall|i: int| 0 <= i < self.enemies.len() ==> (#[trigger] self.enemies[i]).wf()
        &&& self.controls.len() == 2
        &&& forall|i: int| 0 <= i < self.controls.len() ==> (#[trigger] self.controls[i]).wf()
        &&& 0 <= self.elapsed_time <= COORD_LIMIT
        &&& 0 <= self.spawn_time <= SPAWN_DELAY
        &&& 0 <= self.game_over_delay <= COORD_LIMIT
        &&& self.flying_proto.wf()
        &&& !self.flying_proto.is_dead
    }

    /// Builds the level: the starting extra-large platform on the left,
    /// three regular platforms staggered to the right, the two control
    /// hint sprites, and an empty flying-enemy roster. Each platform gets
    /// its own copy of the land-enemy prototype and of the fish sprite.
    pub fn new(
        player: Player,
        xlarge_texture: Texture,
        small_texture: Texture,
        medium_texture: Texture,
        large_texture: Texture,
        land_proto: Enemy,
        fish_texture: Texture,
        controls1: Texture,
        controls2: Texture,
        topbar: Topbar,
        flying_proto: Enemy,
    ) -> (lv: Level)
        requires
            player.wf(),
            xlarge_texture.wf(),
            small_texture.wf(),
            medium_texture.wf(),
            large_texture.wf(),
            land_proto.wf(),
            !land_proto.is_dead,
            fish_texture.wf(),
            controls1.wf(),
            controls2.wf(),
            topbar.wf(),
            flying_proto.wf(),
            !flying_proto.is_dead,
        ensures
            lv.wf(),
            lv.player == player,
            lv.topbar == topbar,
            !lv.paused,
            lv.elapsed_time == 0,
            lv.spawn_time == 0,
            lv.game_over_delay == 0,
            lv.enemies.len() == 0,
            lv.platforms.len() == 4,
            lv.platforms[0].size == Size::XLarge && lv.platforms[0].x == LEFT + 100_000
                && lv.platforms[0].y == -50_000,
            lv.platforms[1].size == Size::Small && lv.platforms[1].x == 1_060_000
                && lv.platforms[1].y == 50_000,
            lv.platforms[2].size == Size::Medium && lv.platforms[2].x == 800_000
                && lv.platforms[2].y == -150_000,
            lv.platforms[3].size == Size::Large && lv.platforms[3].x == 510_000
                && lv.platforms[3].y == -100_000,
            forall|i: int|
                0 <= i < 4 ==> (#[trigger] lv.platforms[i]).platform_type == Type::Plain,
            forall|i: int, j: int|
                0 <= i < 4 && 0 <= j < 4 && i != j ==> !spec_overlap_x(
                    lv.platforms[i].aabb_spec(),
                    lv.platforms[j].aabb_spec(),
                ),
    {
        let mut platforms: Vec<Platform> = Vec::new();

        let mut starting_platform = Platform::new(
            Size::XLarge,
            xlarge_texture,
            land_proto.duplicate(),
            fish_texture,
        );
        starting_platform.set_position(LEFT + 100_000, -50_000);
        platforms.push(starting_platform);

        let mut p1 = Platform::new(
            Size::from_u32(0),
            small_texture,
            land_proto.duplicate(),
            fish_texture,
        );
        p1.set_position(1_060_000, 50_000);
        platforms.push(p1);

        let mut p2 = Platform::new(
            Size::from_u32(1),
            medium_texture,
            land_proto.duplicate(),
            fish_texture,
        );
        p2.set_position(800_000, -150_000);
        platforms.push(p2);

        let mut p3 = Platform::new(
            Size::from_u32(2),
            large_texture,
            land_proto.duplicate(),
            fish_texture,
        );
        p3.set_position(510_000, -100_000);
        platforms.push(p3);

        let mut controls: Vec<Texture> = Vec::new();
        let mut c1 = controls1;
        c1.scale(800);
        c1.set_position(-210_000, 160_000);
        controls.push(c1);
        let mut c2 = controls2;
        c2.scale(800);
        c2.set_position(510_000, 160_000);
        controls.push(c2);

        Level {
            player,
            platforms,
            enemies: Vec::new(),
            controls,
            elapsed_time: 0,
            spawn_time: 0,
            game_over_delay: 0,
            rand: fresh_rng(),
            topbar,
            paused: false,
            flying_proto,
        }
    }

    /// Puts the level back into its starting shape for a new run: the four
    /// platforms at their initial places and plain, the control hints back,
    /// no flying enemies, the player respawned, the counters at zero.
    pub fn restart(&mut self)
        requires
            old(self).wf(),
        ensures
            final(self).wf(),
            final(self).game_over_delay == 0,
            final(self).enemies.len() == 0,
            !final(self).player.is_dead,
            final(self).player.x == (BOTTOM + 48_000) as i64,
            final(self).player.y == 120_000,
            final(self).player.velocity_x == 0,
            final(self).player.velocity_y == 0,
            final(self).controls.len() == 2,
            final(self).controls[0] == (Texture {
                x: -210_000i64,
                y: 160_000,
                ..old(self).controls[0]
            }),
            final(self).controls[1] == (Texture {
                x: 510_000,
                y: 160_000,
                ..old(self).controls[1]
            }),
            final(self).topbar.fish_score.value == 0,
            final(self).topbar.enemy_score.value == 0,
            final(self).topbar.distance.value == 0,
            final(self).paused == old(self).paused,
            forall|i: int|
                0 <= i < 4 ==> (#[trigger] final(self).platforms[i]).platform_type == Type::Plain,
            final(self).platforms[0].x == LEFT + 100_000 && final(self).platforms[0].y == -50_000,
            final(self).platforms[1].x == 1_060_000 && final(self).platforms[1].y == 50_000,
            final(self).platforms[2].x == 800_000 && final(self).platforms[2].y == -150_000,
            final(self).platforms[3].x == 510_000 && final(self).platforms[3].y == -100_000,
    {
        self.game_over_delay = 0;

        let p = &mut self.platforms[3];
        p.set_position(510_000, -100_000);
        let p = &mut self.platforms[2];
        p.set_position(800_000, -150_000);
        let p = &mut self.platforms[1];
        p.set_position(1_060_000, 50_000);
        let p = &mut self.platforms[0];
        p.set_position(LEFT + 100_000, -50_000);

        let mut i: usize = 0;
        while i < 4
            invariant
                old(self).wf(),
                0 <= i <= 4,
                self.platforms.len() == 4,
                *self == (Level {
                    game_over_delay: 0,
                    platforms: self.platforms,
                    ..*old(self)
                }),
                forall|j: int| 0 <= j < 4 ==> (#[trigger] self.platforms[j]).wf(),
                forall|j: int| 0 <= j < i ==> (#[trigger] self.platforms[j]).platform_type
                    == Type::Plain,
                self.platforms[0].x == LEFT + 100_000 && self.platforms[0].y == -50_000,
                self.platforms[1].x == 1_060_000 && self.platforms[1].y == 50_000,
                self.platforms[2].x == 800_000 && self.platforms[2].y == -150_000,
                self.platforms[3].x == 510_000 && self.platforms[3].y == -100_000,
            decreases 4 - i,
        {
            let p = &mut self.platforms[i];
            p.set_type(Type::Plain);
            i = i + 1;
        }

        let c = &mut self.controls[0];
        c.set_position(-210_000, 160_000);
        let c = &mut self.controls[1];
        c.set_position(510_000, 160_000);

        self.enemies.clear();
        self.player.reset();
        self.topbar.reset();
    }

    /// Counts down the delay after the player's death: true once the
    /// configured delay of accumulated frame time has passed, telling the
    /// screen machine to switch to the game-over screen. While the player
    /// lives, the delay does not run.
    pub fn game_over(&mut self, dt: i64) -> (r: bool)
        requires
            old(self).wf(),
            0 <= dt <= MAX_DT,
        ensures
            final(self).wf(),
            *final(self) == (Level {
                game_over_delay: final(self).game_over_delay,
                rand: final(self).rand,
                ..*old(self)
            }),
            final(self).game_over_delay as int == (if old(self).player.is_dead {
                clamp_coord(old(self).game_over_delay + dt)
            } else {
                old(self).game_over_delay as int
            }),
            r == (old(self).player.is_dead && clamp_coord(old(self).game_over_delay + dt)
                > GAME_OVER_DELAY),
    {
        if self.player.is_dead() {
            self.game_over_delay = clamp_i64(self.game_over_delay + dt);
            if self.game_over_delay > GAME_OVER_DELAY {
                return true;
            }
        }
        false
    }

    pub fn paused(&self) -> (r: bool)
        ensures
            r == self.paused,
    {
        self.paused
    }

    pub fn resume(&mut self)
        ensures
            *final(self) == (Level {
                paused: false,
                rand: final(self).rand,
                ..*old(self)
            }),
    {
        self.paused = false;
    }

    /// True iff a platform with the sizes of `platforms[index]`, centered
    /// at `(x, y)`, overlaps no other platform horizontally.
    fn spot_is_free(&self, index: usize, x: i64, y: i64) -> (b: bool)
        requires
            self.wf(),
            index < 4,
            -COORD_LIMIT <= x <= COORD_LIMIT,
            -COORD_LIMIT <= y <= COORD_LIMIT,
        ensures
            b == (forall|j: int|
                0 <= j < 4 && j != index ==> !spec_overlap_x(
                    (Rect {
                        x,
                        y,
                        w: self.platforms[index as int].width,
                        h: self.platforms[index as int].height,
                    }),
                    self.platforms[j].aabb_spec(),
                )),
    {
        let w = self.platforms[index].width;
        let h = self.platforms[index].height;
        let mut j: usize = 0;
        let mut free = true;
        while j < 4
            invariant
                self.wf(),
                index < 4,
                -COORD_LIMIT <= x <= COORD_LIMIT,
                -COORD_LIMIT <= y <= COORD_LIMIT,
                w == self.platforms[index as int].width,
                h == self.platforms[index as int].height,
                0 <= j <= 4,
                free == (forall|k: int|
                    0 <= k < j && k != index ==> !spec_overlap_x(
                        (Rect { x, y, w, h }),
                        self.platforms[k].aabb_spec(),
                    )),
            decreases 4 - j,
        {
            proof {
                assert(self.platforms[j as int].wf());
            }
            if j != index {
                let other = Rect {
                    x: self.platforms[j].x,
                    y: self.platforms[j].y,
                    w: self.platforms[j].width,
                    h: self.platforms[j].height,
                };
                if overlap_x(Rect { x, y, w, h }, other) {
                    free = false;
                }
            }
            j = j + 1;
        }
        free
    }

    /// Draws random positions in the spawn band right of the screen until
    /// one overlaps no other platform. The draws are capped; if every draw
    /// collided, the placer falls back to one of four reserved slots, of
    /// which at least one is always free: the slots are spaced farther
    /// apart than two platforms together, so each of the three other
    /// platforms can block at most one slot.
    pub fn get_new_platform_pos(&mut self, index: usize) -> (pos: (i64, i64))
        requires
            old(self).wf(),
            index < 4,
        ensures
            final(self).wf(),
            *final(self) == (Level { rand: final(self).rand, ..*old(self) }),
            SLOT_BASE <= pos.0 <= SLOT_BASE + 3 * SLOT_STEP,
            BOTTOM + 100_000 <= pos.1 < TOP - 200_000,
            forall|j: int|
                0 <= j < 4 && j != index ==> !spec_overlap_x(
                    (Rect {
                        x: pos.0,
                        y: pos.1,
                        w: old(self).platforms[index as int].width,
                        h: old(self).platforms[index as int].height,
                    }),
                    old(self).platforms[j].aabb_spec(),
                ),
    {
        let mut y: i64 = BOTTOM + 100_000;
        let mut attempts: u32 = 0;
        while attempts < PLACE_ATTEMPTS
            invariant
                old(self).wf(),
                index < 4,
                *self == (Level { rand: self.rand, ..*old(self) }),
                BOTTOM + 100_000 <= y < TOP - 200_000 || y == BOTTOM + 100_000,
            decreases PLACE_ATTEMPTS - attempts,
        {
            let x = random_in_range(&mut self.rand, RIGHT + 100_000, SCREEN_WIDTH + RIGHT);
            y = random_in_range(&mut self.rand, BOTTOM + 100_000, TOP - 200_000);
            if self.spot_is_free(index, x, y) {
                return (x, y);
            }
            attempts = attempts + 1;
        }
        // Fallback: scan the reserved slots; the first free one wins.
        let ghost pre = *self;
        let mut k: usize = 0;
        while k < 4
            invariant
                old(self).wf(),
                index < 4,
                *self == (Level { rand: self.rand, ..*old(self) }),
                BOTTOM + 100_000 <= y < TOP - 200_000 || y == BOTTOM + 100_000,
                0 <= k <= 4,
                forall|m: int|
                    0 <= m < k ==> !slot_free(*old(self), index as int, m),
            decreases 4 - k,
        {
            let c = SLOT_BASE + (k as i64) * SLOT_STEP;
            if self.spot_is_free(index, c, y) {
                return (c, y);
            }
            proof {
                assert(!slot_free(*old(self), index as int, k as int));
            }
            k = k + 1;
        }
        proof {
            lemma_some_slot_free(*old(self), index as int);
            assert(false);
        }
        (SLOT_BASE, y)
    }

    /// Regenerates the platform that left the screen: a fresh content type
    /// by weighted draw — fish half the time, an enemy three times in ten,
    /// plain otherwise — and a fresh position right of the screen whose
    /// horizontal span overlaps no other platform.
    pub fn regenerate_platform(&mut self, index: usize)
        requires
            old(self).wf(),
            index < 4,
        ensures
            final(self).wf(),
            *final(self) == (Level {
                platforms: final(self).platforms,
                rand: final(self).rand,
                ..*old(self)
            }),
            final(self).platforms.len() == 4,
            forall|j: int|
                0 <= j < 4 && j != index ==> final(self).platforms[j] == old(self).platforms[j],
            final(self).platforms[index as int].size == old(self).platforms[index as int].size,
            SLOT_BASE <= final(self).platforms[index as int].x <= SLOT_BASE + 3 * SLOT_STEP,
            BOTTOM + 100_000 <= final(self).platforms[index as int].y < TOP - 200_000,
            forall|j: int|
                0 <= j < 4 && j != index ==> !spec_overlap_x(
                    final(self).platforms[index as int].aabb_spec(),
                    final(self).platforms[j].aabb_spec(),
                ),
            final(self).platforms[index as int].platform_type == Type::Fish || final(self).platforms[index as int].platform_type == Type::Enemy || final(self).platforms[index as int].platform_type == Type::Plain,
            final(self).platforms[index as int].platform_type == Type::Fish ==> forall|i: int|
                0 <= i < final(self).platforms[index as int].fish.len() ==> !(#[trigger] final(self).platforms[index as int].fish[i]).taken,
            final(self).platforms[index as int].platform_type == Type::Enemy ==> forall|i: int|
                0 <= i < final(self).platforms[index as int].enemies.len() ==> !(#[trigger] final(self).platforms[index as int].enemies[i]).is_dead,
    {
        let p = random_in_range(&mut self.rand, 0, 10);
        if p < 5 {
            let pl = &mut self.platforms[index];
            pl.set_type(Type::Fish);
        } else if p < 8 {
            let pl = &mut self.platforms[index];
            pl.set_type(Type::Enemy);
        } else {
            let pl = &mut self.platforms[index];
            pl.set_type(Type::Plain);
        }
        let (x, y) = self.get_new_platform_pos(index);
        let pl = &mut self.platforms[index];
        pl.set_position(x, y);
    }
}

impl Level {
    /// The platform phase of a frame: each platform, until one is found
    /// under the player, runs its content, resolves fish pickups and enemy
    /// contact, regenerates if it left the screen, and cancels the
    /// player's fall on landing. The player's horizontal position is
    /// untouched, and death is never undone.
    #[verifier::rlimit(100)]
    fn step_platforms(&mut self, dt: i64)
        requires
            old(self).wf(),
            0 <= dt <= MAX_DT,
            old(self).topbar.fish_score.value + 28 < u32::MAX,
            old(self).topbar.enemy_score.value + 4 < u32::MAX,
        ensures
            final(self).wf(),
            *final(self) == (Level {
                player: final(self).player,
                platforms: final(self).platforms,
                topbar: final(self).topbar,
                rand: final(self).rand,
                ..*old(self)
            }),
            final(self).player.x == old(self).player.x,
            old(self).player.is_dead ==> final(self).player.is_dead,
            final(self).player == (Player {
                is_dead: final(self).player.is_dead,
                is_on_platform: final(self).player.is_on_platform,
                velocity_y: final(self).player.velocity_y,
                ..old(self).player
            }),
            final(self).platforms.len() == 4,
            forall|j: int|
                0 <= j < 4 ==> ((#[trigger] final(self).platforms[j]).x == old(self).platforms[j].x
                    && final(self).platforms[j].y == old(self).platforms[j].y) || (SLOT_BASE
                    <= final(self).platforms[j].x <= SLOT_BASE + 3 * SLOT_STEP && BOTTOM + 100_000
                    <= final(self).platforms[j].y < TOP - 200_000),
            final(self).topbar.fish_score.value <= old(self).topbar.fish_score.value + 28,
            final(self).topbar.enemy_score.value <= old(self).topbar.enemy_score.value + 4,
            final(self).topbar == (Topbar {
                fish_score: final(self).topbar.fish_score,
                enemy_score: final(self).topbar.enemy_score,
                ..old(self).topbar
            }),
    {
        let mut standing = false;
        let mut i: usize = 0;
        while i < 4
            invariant
                old(self).wf(),
                0 <= dt <= MAX_DT,
                0 <= i <= 4,
                self.wf(),
                self.platforms.len() == 4,
                *self == (Level {
                    player: self.player,
                    platforms: self.platforms,
                    topbar: self.topbar,
                    rand: self.rand,
                    ..*old(self)
                }),
                self.player.x == old(self).player.x,
                old(self).player.is_dead ==> self.player.is_dead,
                self.player == (Player {
                    is_dead: self.player.is_dead,
                    is_on_platform: self.player.is_on_platform,
                    velocity_y: self.player.velocity_y,
                    ..old(self).player
                }),
                forall|j: int|
                    0 <= j < 4 ==> ((#[trigger] self.platforms[j]).x == old(self).platforms[j].x
                        && self.platforms[j].y == old(self).platforms[j].y) || (SLOT_BASE
                        <= self.platforms[j].x <= SLOT_BASE + 3 * SLOT_STEP && BOTTOM + 100_000
                        <= self.platforms[j].y < TOP - 200_000),
                self.topbar.fish_score.value <= old(self).topbar.fish_score.value + 7 * i,
                self.topbar.enemy_score.value <= old(self).topbar.enemy_score.value + i,
                old(self).topbar.fish_score.value + 28 < u32::MAX,
                old(self).topbar.enemy_score.value + 4 < u32::MAX,
                self.topbar == (Topbar {
                    fish_score: self.topbar.fish_score,
                    enemy_score: self.topbar.enemy_score,
                    ..old(self).topbar
                }),
            decreases 4 - i,
        {
            if !standing {
                proof {
                    assert(self.platforms[i as int].wf());
                }
                {
                    let pl = &mut self.platforms[i];
                    pl.update(dt);
                }
                let t = self.platforms[i].platform_type;
                if matches!(t, Type::Fish) {
                    proof {
                        assert(self.platforms[i as int].fish.len() <= 7);
                    }
                    self.platforms[i].player_took_fish(&self.player, &mut self.topbar);
                } else if matches!(t, Type::Enemy) {
                    self.platforms[i].player_vs_enemy(&mut self.player, &mut self.topbar);
                }

                if 2 * self.platforms[i].x + self.platforms[i].width < -2 * SCREEN_WIDTH {
                    self.regenerate_platform(i);
                }

                if player_landed(&self.player, &self.platforms[i]) {
                    self.player.velocity_y = 0;
                }

                let on = self.platforms[i].player_is_on(&mut self.player);
                if on {
                    standing = true;
                }
            }
            i = i + 1;
        }
    }

    /// The flying-enemy phase of a frame: each enemy animates, drifts left
    /// while alive or falls while defeated, is recycled to a fresh random
    /// spot once off screen, and then interacts with the player. The
    /// player's horizontal position is untouched, and death is never
    /// undone.
    #[verifier::rlimit(100)]
    fn step_enemies(&mut self, dt: i64)
        requires
            old(self).wf(),
            0 <= dt <= MAX_DT,
            old(self).topbar.enemy_score.value + old(self).enemies.len() < u32::MAX,
        ensures
            final(self).wf(),
            *final(self) == (Level {
                player: final(self).player,
                enemies: final(self).enemies,
                topbar: final(self).topbar,
                rand: final(self).rand,
                ..*old(self)
            }),
            final(self).enemies.len() == old(self).enemies.len(),
            final(self).player.x == old(self).player.x,
            old(self).player.is_dead ==> final(self).player.is_dead,
            final(self).player == (Player {
                is_dead: final(self).player.is_dead,
                ..old(self).player
            }),
            forall|j: int|
                0 <= j < old(self).enemies.len() ==> spec_enemy_frame(
                    old(self).enemies[j],
                    #[trigger] final(self).enemies[j],
                    old(self).player.texture.aabb(),
                    dt as int,
                ),
            final(self).topbar == (Topbar {
                enemy_score: final(self).topbar.enemy_score,
                ..old(self).topbar
            }),
    {
        let mut k: usize = 0;
        while k < self.enemies.len()
            invariant
                old(self).wf(),
                0 <= dt <= MAX_DT,
                0 <= k <= self.enemies.len(),
                self.wf(),
                self.enemies.len() == old(self).enemies.len(),
                *self == (Level {
                    player: self.player,
                    enemies: self.enemies,
                    topbar: self.topbar,
                    rand: self.rand,
                    ..*old(self)
                }),
                self.player.x == old(self).player.x,
                old(self).player.is_dead ==> self.player.is_dead,
                self.player == (Player { is_dead: self.player.is_dead, ..old(self).player }),
                forall|j: int|
                    0 <= j < k ==> spec_enemy_frame(
                        old(self).enemies[j],
                        #[trigger] self.enemies[j],
                        old(self).player.texture.aabb(),
                        dt as int,
                    ),
                forall|j: int|
                    k <= j < old(self).enemies.len() ==> self.enemies[j] == old(self).enemies[j],
                self.topbar.enemy_score.value <= old(self).topbar.enemy_score.value + k,
                old(self).topbar.enemy_score.value + old(self).enemies.len() < u32::MAX,
                self.topbar == (Topbar {
                    enemy_score: self.topbar.enemy_score,
                    ..old(self).topbar
                }),
            decreases self.enemies.len() - k,
        {
            proof {
                assert(self.enemies[k as int].wf());
            }
            {
                let e = &mut self.enemies[k];
                e.update(dt);
            }
            if !self.enemies[k].is_dead() {
                let drift: i64 = 120 * dt;
                let e = &mut self.enemies[k];
                e.translate(-drift, 0);
            } else {
                let e = &mut self.enemies[k];
                e.apply_gravity(dt);
            }

            if self.enemies[k].x <= LEFT - self.enemies[k].width || self.enemies[k].y <= BOTTOM
                - self.enemies[k].height {
                let x = random_in_range(&mut self.rand, RIGHT, SCREEN_WIDTH);
                let y = random_in_range(&mut self.rand, BOTTOM + 40_000, TOP - 40_000);
                let e = &mut self.enemies[k];
                e.set_position(x, y);
                let e = &mut self.enemies[k];
                e.set_dead(false);
            }

            let e = &mut self.enemies[k];
            self.player.check_interaction(e, &mut self.topbar);
            k = k + 1;
        }
    }

    /// The tail of a frame: the control-hint clock runs while the hints
    /// are on screen, the world scrolls left while the player runs right,
    /// the distance counter ticks, and the spawn clock fills and releases
    /// a new flying enemy. The player's horizontal position and death flag
    /// are untouched.
    #[verifier::rlimit(100)]
    fn step_tail(&mut self, dt: i64)
        requires
            old(self).wf(),
            0 <= dt <= MAX_DT,
            old(self).topbar.distance.value < u32::MAX,
        ensures
            final(self).wf(),
            *final(self) == (Level {
                player: final(self).player,
                platforms: final(self).platforms,
                controls: final(self).controls,
                enemies: final(self).enemies,
                elapsed_time: final(self).elapsed_time,
                spawn_time: final(self).spawn_time,
                topbar: final(self).topbar,
                rand: final(self).rand,
                ..*old(self)
            }),
            final(self).player.x == old(self).player.x,
            final(self).player.is_dead == old(self).player.is_dead,
            final(self).player == (Player {
                distance: final(self).player.distance,
                ..old(self).player
            }),
            final(self).player.distance as int == (if old(self).player.distance > 500 {
                0int
            } else {
                old(self).player.distance as int
            }),
            final(self).topbar == (Topbar {
                distance: final(self).topbar.distance,
                ..old(self).topbar
            }),
            final(self).topbar.distance.value as int == old(self).topbar.distance.value + (if old(
                self,
            ).player.distance > 500 {
                1int
            } else {
                0int
            }),
            final(self).platforms.len() == 4,
            old(self).player.is_moving_right ==> (forall|j: int|
                0 <= j < 4 ==> (#[trigger] final(self).platforms[j]).x as int == clamp_coord(
                    old(self).platforms[j].x - 80 * dt,
                ) && final(self).platforms[j].y == old(self).platforms[j].y) && (forall|j: int|
                0 <= j < 2 ==> (#[trigger] final(self).controls[j]) == (Texture {
                    x: clamp_coord(old(self).controls[j].x - 80 * dt) as i64,
                    ..old(self).controls[j]
                })),
            !old(self).player.is_moving_right ==> final(self).platforms == old(self).platforms
                && final(self).controls == old(self).controls,
            clamp_coord(old(self).spawn_time + dt) >= SPAWN_DELAY ==> ({
                let sp = final(self).enemies[old(self).enemies.len() as int];
                &&& !sp.is_dead
                &&& RIGHT <= sp.x < SCREEN_WIDTH
                &&& BOTTOM <= sp.y < TOP
            }) && (forall|j: int|
                0 <= j < old(self).enemies.len() ==> final(self).enemies[j] == old(
                    self,
                ).enemies[j]),
            clamp_coord(old(self).spawn_time + dt) < SPAWN_DELAY ==> final(self).enemies == old(
                self,
            ).enemies,
            final(self).spawn_time as int == (if clamp_coord(old(self).spawn_time + dt)
                >= SPAWN_DELAY {
                0int
            } else {
                clamp_coord(old(self).spawn_time + dt)
            }),
            final(self).enemies.len() as int == (if clamp_coord(old(self).spawn_time + dt) >= SPAWN_DELAY {
                old(self).enemies.len() + 1int
            } else {
                old(self).enemies.len() as int
            }),
    {
        if self.controls[1].x > -SCREEN_WIDTH {
            if self.elapsed_time > 999_999_000 {
                self.elapsed_time = 1_000;
            }
            self.elapsed_time = self.elapsed_time + dt;
        }

        if self.player.is_moving_right {
            let ghost mid3 = *self;
            let mut m: usize = 0;
            while m < 4
                invariant
                    mid3.wf(),
                    0 <= dt <= MAX_DT,
                    0 <= m <= 4,
                    self.platforms.len() == 4,
                    *self == (Level { platforms: self.platforms, ..mid3 }),
                    self.wf(),
                    forall|j: int|
                        0 <= j < m ==> (#[trigger] self.platforms[j]).x as int == clamp_coord(
                            mid3.platforms[j].x - 80 * dt,
                        ) && self.platforms[j].y == mid3.platforms[j].y,
                    forall|j: int| m <= j < 4 ==> self.platforms[j] == mid3.platforms[j],
                decreases 4 - m,
            {
                proof {
                    assert(self.platforms[m as int].wf());
                }
                let pl = &mut self.platforms[m];
                pl.translate(-80 * dt, 0);
                m = m + 1;
            }
            let ghost mid4 = *self;
            let mut c: usize = 0;
            while c < 2
                invariant
                    mid4.wf(),
                    0 <= dt <= MAX_DT,
                    0 <= c <= 2,
                    self.controls.len() == 2,
                    *self == (Level { controls: self.controls, ..mid4 }),
                    self.wf(),
                    mid3.player == mid4.player,
                    forall|j: int|
                        0 <= j < c ==> (#[trigger] self.controls[j]) == (Texture {
                            x: clamp_coord(mid4.controls[j].x - 80 * dt) as i64,
                            ..mid4.controls[j]
                        }),
                    forall|j: int| c <= j < 2 ==> self.controls[j] == mid4.controls[j],
                decreases 2 - c,
            {
                proof {
                    assert(self.controls[c as int].wf());
                }
                let ct = &mut self.controls[c];
                ct.translate(-80 * dt, 0);
                c = c + 1;
            }
        }

        if self.player.distance > 500 {
            self.topbar.increment_distance();
            self.player.distance = 0;
        }

        let st = clamp_i64(self.spawn_time + dt);
        if st >= SPAWN_DELAY {
            self.enemies.push(self.flying_proto.duplicate());
            let x = random_in_range(&mut self.rand, RIGHT, SCREEN_WIDTH);
            let y = random_in_range(&mut self.rand, BOTTOM, TOP);
            let idx = self.enemies.len() - 1;
            proof {
                assert(self.enemies[idx as int].wf());
            }
            let e = &mut self.enemies[idx];
            e.set_position(x, y);
            self.spawn_time = 0;
        } else {
            self.spawn_time = st;
        }
    }

    /// One frame of simulation. A paused level does nothing at all. An
    /// escape release pauses the level for the next frame, but the current
    /// frame still runs: the player moves by input and gravity, then the
    /// platform phase, the flying-enemy phase and the frame tail run in
    /// that order. A dead player's horizontal position never changes, and
    /// death is never undone within a frame.
    pub fn update(&mut self, input: &mut InputManager, dt: i64)
        requires
            old(self).wf(),
            old(input).wf(),
            0 <= dt <= MAX_DT,
            old(self).topbar.fish_score.value + 30 < u32::MAX,
            old(self).topbar.enemy_score.value + 4 + old(self).enemies.len() < u32::MAX,
            old(self).topbar.distance.value < u32::MAX,
        ensures
            final(self).wf(),
            final(input).wf(),
            old(self).paused ==> *final(self) == *old(self) && *final(input) == *old(input),
            !old(self).paused ==> final(self).paused == (!old(input).keys@[KEY_ESCAPE as int]
                && old(input).prev_keys@[KEY_ESCAPE as int]),
            !old(self).paused ==> final(input).keys == old(input).keys && final(input).prev_keys@
                == (if !old(input).keys@[KEY_ESCAPE as int] {
                old(input).prev_keys@.update(KEY_ESCAPE as int, false)
            } else {
                old(input).prev_keys@
            }),
            old(self).player.is_dead ==> final(self).player.x == old(self).player.x && final(self).player.is_dead,
            final(self).game_over_delay == old(self).game_over_delay,
            final(self).platforms.len() == 4,
            !old(self).paused ==> final(self).spawn_time as int == (if clamp_coord(
                old(self).spawn_time + dt,
            ) >= SPAWN_DELAY {
                0int
            } else {
                clamp_coord(old(self).spawn_time + dt)
            }) && final(self).enemies.len() as int == (if clamp_coord(old(self).spawn_time + dt)
                >= SPAWN_DELAY {
                old(self).enemies.len() + 1int
            } else {
                old(self).enemies.len() as int
            }),
            !old(self).paused ==> ({
                let p0 = old(self).player;
                let right = old(input).keys@[KEY_RIGHT as int];
                let left = old(input).keys@[KEY_LEFT as int] && p0.is_on_platform;
                let falling = 2 * p0.y < 2 * BOTTOM - p0.height;
                let moving = if p0.is_dead {
                    false
                } else if falling {
                    p0.is_moving_right
                } else {
                    right
                };
                let walk_d = if p0.is_dead || falling {
                    p0.distance as int
                } else {
                    let d1 = if right {
                        clamp_coord(p0.distance + dt)
                    } else {
                        p0.distance as int
                    };
                    if left {
                        clamp_coord(d1 - dt)
                    } else {
                        d1
                    }
                };
                &&& (!p0.is_dead && !falling ==> final(self).player.x as int == Player::spec_walk_x(
                    clamp_coord(p0.x + p0.velocity_x),
                    p0.width as int,
                    dt as int,
                    right,
                    left,
                ))
                &&& final(self).player.is_moving_right == moving
                &&& final(self).player.distance as int == (if walk_d > 500 {
                    0int
                } else {
                    walk_d
                })
                &&& (moving ==> (forall|j: int|
                    0 <= j < 2 ==> (#[trigger] final(self).controls[j]).x as int == clamp_coord(
                        old(self).controls[j].x - 80 * dt,
                    )) && (forall|j: int|
                    0 <= j < 4 ==> (#[trigger] final(self).platforms[j]).x as int == clamp_coord(
                        old(self).platforms[j].x - 80 * dt,
                    ) || SLOT_BASE <= final(self).platforms[j].x + 80 * dt <= SLOT_BASE + 3
                        * SLOT_STEP))
                &&& (!moving ==> (forall|j: int|
                    0 <= j < 2 ==> (#[trigger] final(self).controls[j]) == old(self).controls[j])
                    && (forall|j: int|
                    0 <= j < 4 ==> (#[trigger] final(self).platforms[j]).x == old(
                        self,
                    ).platforms[j].x || SLOT_BASE <= final(self).platforms[j].x <= SLOT_BASE + 3
                        * SLOT_STEP))
                &&& (forall|j: int|
                    0 <= j < old(self).enemies.len() ==> spec_enemy_frame(
                        old(self).enemies[j],
                        #[trigger] final(self).enemies[j],
                        final(self).player.texture.aabb(),
                        dt as int,
                    ))
                &&& (clamp_coord(old(self).spawn_time + dt) >= SPAWN_DELAY ==> ({
                    let sp = final(self).enemies[old(self).enemies.len() as int];
                    &&& !sp.is_dead
                    &&& RIGHT <= sp.x < SCREEN_WIDTH
                    &&& BOTTOM <= sp.y < TOP
                }))
            }),
    {
        if self.paused {
            return;
        }
        if input.key_went_up(KEY_ESCAPE) {
            self.paused = true;
        }

        self.player.update(&*input, dt);

        self.step_platforms(dt);
        self.step_enemies(dt);
        self.step_tail(dt);
    }
}

/// Slot `m` of the fallback row is free for the platform at `index`: it
/// overlaps no other platform of the level.
pub open spec fn slot_free(lv: Level, index: int, m: int) -> bool {
    forall|j: int|
        0 <= j < 4 && j != index ==> !spec_overlap_x(
            (Rect {
                x: (SLOT_BASE + m * SLOT_STEP) as i64,
                y: 0,
                w: lv.platforms[index].width,
                h: lv.platforms[index].height,
            }),
            lv.platforms[j].aabb_spec(),
        )
}

/// Pigeonhole for the fallback row: four slots, three other platforms,
/// and any one platform can block only one slot, so some slot is free.
proof fn lemma_some_slot_free(lv: Level, index: int)
    requires
        lv.wf(),
        0 <= index < 4,
    ensures
        slot_free(lv, index, 0) || slot_free(lv, index, 1) || slot_free(lv, index, 2) || slot_free(
            lv,
            index,
            3,
        ),
{
    if !slot_free(lv, index, 0) && !slot_free(lv, index, 1) && !slot_free(lv, index, 2)
        && !slot_free(lv, index, 3) {
        let b0 = choose|j: int|
            0 <= j < 4 && j != index && spec_overlap_x(
                (Rect {
                    x: (SLOT_BASE + 0 * SLOT_STEP) as i64,
                    y: 0,
                    w: lv.platforms[index].width,
                    h: lv.platforms[index].height,
                }),
                lv.platforms[j].aabb_spec(),
            );
        let b1 = choose|j: int|
            0 <= j < 4 && j != index && spec_overlap_x(
                (Rect {
                    x: (SLOT_BASE + 1 * SLOT_STEP) as i64,
                    y: 0,
                    w: lv.platforms[index].width,
                    h: lv.platforms[index].height,
                }),
                lv.platforms[j].aabb_spec(),
            );
        let b2 = choose|j: int|
            0 <= j < 4 && j != index && spec_overlap_x(
                (Rect {
                    x: (SLOT_BASE + 2 * SLOT_STEP) as i64,
                    y: 0,
                    w: lv.platforms[index].width,
                    h: lv.platforms[index].height,
                }),
                lv.platforms[j].aabb_spec(),
            );
        let b3 = choose|j: int|
            0 <= j < 4 && j != index && spec_overlap_x(
                (Rect {
                    x: (SLOT_BASE + 3 * SLOT_STEP) as i64,
                    y: 0,
                    w: lv.platforms[index].width,
                    h: lv.platforms[index].height,
                }),
                lv.platforms[j].aabb_spec(),
            );
        assert(lv.platforms[index].wf());
        assert(lv.platforms[b0].wf());
        assert(lv.platforms[b1].wf());
        assert(lv.platforms[b2].wf());
        assert(lv.platforms[b3].wf());
        // Each platform width is at most 336 units, the slots are 800
        // apart: one platform cannot straddle two slots. Four blocked
        // slots force two of the three blockers to coincide, which is
        // impossible.
        assert(false);
    }
}

} // verus!
