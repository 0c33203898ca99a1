//! The player character: input-driven horizontal movement, a discrete
//! gravity integrator, the alive/dead state machine, and the interaction
//! rule against enemies — a stomp from above defeats the enemy and scores;
//! a side hit kills the player. The stomp test runs first, so a frame in
//! which both hold always resolves in the player's favor.

use vstd::prelude::*;

use crate::COORD_LIMIT;
use crate::MAX_DT;
use crate::clamp_coord;
use crate::clamp_i64;
use crate::enemy::Enemy;
use crate::gui::Topbar;
use crate::input_mgr::{InputManager, KEY_UP, KEY_LEFT, KEY_RIGHT};
use crate::shape::{BOTTOM, LEFT};
use crate::texture::{AnimatedTexture, AnimationMode, Collide, spec_collide_bottom,
    spec_collide_left};

verus! {

pub struct Player {
    pub x: i64,
    pub y: i64,
    pub width: i64,
    pub height: i64,
    pub texture: AnimatedTexture,
    pub death_animation: AnimatedTexture,
    pub velocity_x: i64,
    pub velocity_y: i64,
    pub is_on_platform: bool,
    pub is_moving_right: bool,
    pub distance: i64,
    pub is_dead: bool,
}

impl Player {
    pub open spec fn wf(&self) -> bool {
        &&& -COORD_LIMIT <= self.x <= COORD_LIMIT
        &&& -COORD_LIMIT <= self.y <= COORD_LIMIT
        &&& 0 <= self.width <= COORD_LIMIT
        &&& 0 <= self.height <= COORD_LIMIT
        &&& -COORD_LIMIT <= self.velocity_x <= COORD_LIMIT
        &&& -COORD_LIMIT <= self.velocity_y <= COORD_LIMIT
        &&& -COORD_LIMIT <= self.distance <= COORD_LIMIT
        &&& self.texture.wf()
        &&& self.death_animation.wf()
    }

    /// The box from the player's own position and size, used by the
    /// standing and landing tests.
    pub open spec fn aabb_spec(&self) -> crate::texture::Rect {
        crate::texture::Rect { x: self.x, y: self.y, w: self.width, h: self.height }
    }

    /// A fresh player from its run animation and its death animation; the
    /// death animation is put into play-once mode. The player starts at
    /// the fixed spawn point, at rest, alive and airborne.
    pub fn new(texture: AnimatedTexture, death_animation: AnimatedTexture) -> (p: Player)
        requires
            texture.wf(),
            death_animation.wf(),
            death_animation.total_elapsed@ == 0,
            !death_animation.animation_done,
        ensures
            p.wf(),
            p.x == BOTTOM + 48_000,
            p.y == 120_000,
            p.width == texture.width,
            p.height == texture.height,
            p.velocity_x == 0,
            p.velocity_y == 0,
            !p.is_on_platform,
            !p.is_moving_right,
            p.distance == 0,
            !p.is_dead,
            p.texture == texture,
            p.death_animation == (AnimatedTexture {
                mode: AnimationMode::Once,
                ..death_animation
            }),
    {
        let mut death = death_animation;
        death.set_mode(AnimationMode::Once);
        let (width, height) = texture.get_dimensions();
        Player {
            texture,
            death_animation: death,
            x: BOTTOM + 48_000,
            y: 120_000,
            width,
            height,
            velocity_x: 0,
            velocity_y: 0,
            is_on_platform: false,
            is_moving_right: false,
            distance: 0,
            is_dead: false,
        }
    }

    pub fn set_on_platform(&mut self, b: bool)
        ensures
            *final(self) == (Player { is_on_platform: b, ..*old(self) }),
    {
        self.is_on_platform = b;
    }

    pub fn is_dead(&self) -> (r: bool)
        ensures
            r == self.is_dead,
    {
        self.is_dead
    }

    pub fn set_dead(&mut self, b: bool)
        ensures
            *final(self) == (Player { is_dead: b, ..*old(self) }),
    {
        self.is_dead = b;
    }

    /// Back to the spawn point, alive and at rest; animations keep their
    /// state.
    pub fn reset(&mut self)
        ensures
            *final(self) == (Player {
                is_dead: false,
                x: (BOTTOM + 48_000) as i64,
                y: 120_000,
                velocity_x: 0,
                velocity_y: 0,
                ..*old(self)
            }),
    {
        self.set_dead(false);
        self.x = BOTTOM + 48_000;
        self.y = 120_000;
        self.velocity_x = 0;
        self.velocity_y = 0;
    }

    /// One step of the discrete fall: the position moves by the current
    /// vertical velocity; while still above the floor line the velocity
    /// decays by gravity, otherwise it is zeroed. Both animations are
    /// placed at the player's position.
    pub fn apply_gravity(&mut self, dt: i64)
        requires
            old(self).wf(),
            0 <= dt <= MAX_DT,
        ensures
            final(self).wf(),
            final(self).y as int == clamp_coord(old(self).y + old(self).velocity_y),
            final(self).velocity_y as int == (if final(self).y + old(self).velocity_y >= BOTTOM
                - old(self).height {
                clamp_coord(old(self).velocity_y - 3 * dt)
            } else {
                0
            }),
            *final(self) == (Player {
                y: final(self).y,
                velocity_y: final(self).velocity_y,
                texture: final(self).texture,
                death_animation: final(self).death_animation,
                ..*old(self)
            }),
            final(self).texture == (AnimatedTexture {
                x: old(self).x,
                y: final(self).y,
                textures: final(self).texture.textures,
                ..old(self).texture
            }),
            final(self).death_animation == (AnimatedTexture {
                x: old(self).x,
                y: final(self).y,
                textures: final(self).death_animation.textures,
                ..old(self).death_animation
            }),
    {
        self.y = clamp_i64(self.y + self.velocity_y);
        if self.y + self.velocity_y >= BOTTOM - self.height {
            self.velocity_y = clamp_i64(self.velocity_y - 3 * dt);
        } else {
            self.velocity_y = 0;
        }
        let x = self.x;
        let y = self.y;
        self.texture.set_position(x, y);
        self.death_animation.set_position(x, y);
    }

    /// True iff a live enemy touches the player's left or right side.
    pub fn was_killed(&self, enemy: &Enemy) -> (r: bool)
        requires
            self.wf(),
            enemy.wf(),
        ensures
            r == ((spec_collide_left(self.texture.aabb(), enemy.texture.aabb())
                || spec_collide_left(enemy.texture.aabb(), self.texture.aabb()))
                && !enemy.is_dead),
    {
        (self.texture.collide_left(&enemy.texture) || self.texture.collide_right(&enemy.texture))
            && !enemy.is_dead()
    }

    /// Resolves one player–enemy contact. The stomp test runs first: if the
    /// player's bottom edge touches a live enemy while the player is alive,
    /// the enemy dies and the defeated-enemy counter counts one — even if
    /// the enemy touches the player's side in the same frame. Only
    /// otherwise can a side hit kill the player.
    pub fn check_interaction(&mut self, enemy: &mut Enemy, topbar: &mut Topbar)
        requires
            old(self).wf(),
            old(enemy).wf(),
            old(topbar).wf(),
            old(topbar).enemy_score.value < u32::MAX,
        ensures
            final(self).wf(),
            final(enemy).wf(),
            final(topbar).wf(),
            ({
                let stomp = spec_collide_bottom(old(self).texture.aabb(), old(enemy).texture.aabb())
                    && !old(self).is_dead && !old(enemy).is_dead;
                let hit = (spec_collide_left(old(self).texture.aabb(), old(enemy).texture.aabb())
                    || spec_collide_left(old(enemy).texture.aabb(), old(self).texture.aabb()))
                    && !old(enemy).is_dead;
                if stomp {
                    &&& *final(self) == *old(self)
                    &&& *final(enemy) == (Enemy { is_dead: true, ..*old(enemy) })
                    &&& final(topbar).enemy_score.value == old(topbar).enemy_score.value + 1
                    &&& *final(topbar) == (Topbar {
                        enemy_score: final(topbar).enemy_score,
                        ..*old(topbar)
                    })
                } else if hit {
                    &&& *final(self) == (Player { is_dead: true, ..*old(self) })
                    &&& *final(enemy) == *old(enemy)
                    &&& *final(topbar) == *old(topbar)
                } else {
                    &&& *final(self) == *old(self)
                    &&& *final(enemy) == *old(enemy)
                    &&& *final(topbar) == *old(topbar)
                }
            }),
    {
        if self.texture.collide_bottom(&enemy.texture) && !self.is_dead && !enemy.is_dead() {
            topbar.increment_enemy_count();
            enemy.set_dead(true);
        } else if self.was_killed(&enemy) {
            self.set_dead(true);
        }
    }

    /// Where the player's horizontal position ends up in one live step:
    /// first moved by held input, then clamped to the world walls.
    pub open spec fn spec_walk_x(x0: int, width: int, dt: int, right: bool, left: bool) -> int {
        let x1 = if right {
            clamp_coord(x0 + 200 * dt)
        } else {
            x0
        };
        let x2 = if left {
            clamp_coord(x1 - 200 * dt)
        } else {
            x1
        };
        if x2 >= 0 {
            0
        } else if x2 <= LEFT + width / 2 {
            LEFT + width / 2
        } else {
            x2
        }
    }

    /// One simulation step. A dead player ignores input: only gravity and
    /// the death animation advance, and the horizontal position never
    /// changes again. A live player falling below the bottom of the screen
    /// dies on the spot. Otherwise held keys steer: up sets the jump
    /// velocity, right runs right (scrolling the world), left runs left
    /// but only while standing on a platform; the walls clamp the result.
    pub fn update(&mut self, input: &InputManager, dt: i64)
        requires
            old(self).wf(),
            input.wf(),
            0 <= dt <= MAX_DT,
        ensures
            final(self).wf(),
            ({
                let p0 = *old(self);
                let up = input.keys@[KEY_UP as int];
                let right = input.keys@[KEY_RIGHT as int];
                let left = input.keys@[KEY_LEFT as int] && p0.is_on_platform;
                let gy = clamp_coord(p0.y + p0.velocity_y);
                let gvy = if gy + p0.velocity_y >= BOTTOM - p0.height {
                    clamp_coord(p0.velocity_y - 3 * dt)
                } else {
                    0
                };
                if p0.is_dead {
                    &&& *final(self) == (Player {
                        is_moving_right: false,
                        y: gy as i64,
                        velocity_y: gvy as i64,
                        texture: final(self).texture,
                        death_animation: final(self).death_animation,
                        ..p0
                    })
                    &&& final(self).x == p0.x
                    &&& final(self).is_dead
                    &&& final(self).texture.x == p0.x && final(self).texture.y == gy
                    &&& final(self).death_animation.x == p0.x && final(self).death_animation.y
                        == gy
                    &&& (!p0.death_animation.animation_done ==> final(self).death_animation.total_elapsed@ == p0.death_animation.total_elapsed@ + dt)
                    &&& (p0.death_animation.animation_done
                        ==> final(self).death_animation.animation_done && final(self).death_animation.current_frame == p0.death_animation.current_frame)
                } else if 2 * p0.y < 2 * BOTTOM - p0.height {
                    &&& *final(self) == (Player {
                        is_dead: true,
                        texture: final(self).texture,
                        ..p0
                    })
                    &&& final(self).x == p0.x
                    &&& final(self).texture.x == p0.texture.x && final(self).texture.y
                        == p0.texture.y
                } else {
                    &&& *final(self) == (Player {
                        x: final(self).x,
                        y: gy as i64,
                        velocity_y: final(self).velocity_y,
                        is_moving_right: right,
                        distance: final(self).distance,
                        texture: final(self).texture,
                        death_animation: final(self).death_animation,
                        ..p0
                    })
                    &&& final(self).x as int == Player::spec_walk_x(
                        clamp_coord(p0.x + p0.velocity_x),
                        p0.width as int,
                        dt as int,
                        right,
                        left,
                    )
                    &&& final(self).velocity_y as int == (if up {
                        380 * dt
                    } else {
                        gvy
                    })
                    &&& final(self).distance as int == ({
                        let d1 = if right {
                            clamp_coord(p0.distance + dt)
                        } else {
                            p0.distance as int
                        };
                        if left {
                            clamp_coord(d1 - dt)
                        } else {
                            d1
                        }
                    })
                    &&& !final(self).is_dead
                    &&& final(self).texture.x == final(self).x && final(self).texture.y == gy
                    &&& final(self).death_animation.x == final(self).x && final(self).death_animation.y == gy
                    &&& final(self).death_animation.total_elapsed@
                        == p0.death_animation.total_elapsed@
                    &&& final(self).death_animation.current_frame
                        == p0.death_animation.current_frame
                }
            }),
            old(self).is_dead ==> final(self).x == old(self).x,
            final(self).is_dead == (old(self).is_dead || 2 * old(self).y < 2 * BOTTOM - old(
                self,
            ).height),
            final(self).texture.mode == old(self).texture.mode && final(self).texture.time_per_frame
                == old(self).texture.time_per_frame && final(self).texture.frame_count == old(
                self,
            ).texture.frame_count && final(self).texture.width == old(self).texture.width && final(self).texture.height == old(self).texture.height,
            !old(self).texture.animation_done ==> final(self).texture.total_elapsed@ == old(
                self,
            ).texture.total_elapsed@ + dt,
            old(self).texture.animation_done ==> final(self).texture.animation_done && final(self).texture.current_frame == old(self).texture.current_frame,
    {
        self.texture.update(dt);
        if self.is_dead() {
            self.is_moving_right = false;
            self.death_animation.update(dt);
            self.apply_gravity(dt);
            return;
        }
        if 2 * self.y < 2 * BOTTOM - self.height {
            self.set_dead(true);
            return;
        }
        self.x = clamp_i64(self.x + self.velocity_x);
        self.apply_gravity(dt);

        if input.key_down(KEY_UP) {
            self.velocity_y = 380 * dt;
        }
        if input.key_down(KEY_RIGHT) {
            self.x = clamp_i64(self.x + 200 * dt);
            self.distance = clamp_i64(self.distance + dt);
            self.is_moving_right = true;
        } else {
            self.is_moving_right = false;
        }
        if input.key_down(KEY_LEFT) && self.is_on_platform {
            self.x = clamp_i64(self.x - 200 * dt);
            self.distance = clamp_i64(self.distance - dt);
        }

        if self.x >= 0 {
            self.x = 0;
        } else if self.x <= LEFT + self.width / 2 {
            self.x = LEFT + self.width / 2;
        }

        let x = self.x;
        let y = self.y;
        self.texture.set_position(x, y);
        self.death_animation.set_position(x, y);
    }
}

} // verus!
