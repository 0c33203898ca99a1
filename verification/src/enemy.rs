//! Enemies: land patrollers and flying drifters.
//!
//! An enemy carries its live animation and its death animation (played
//! once), a position that both animations follow, and a vertical velocity
//! used while a defeated enemy falls. Enemies are never destroyed: the
//! level recycles a dead or off-screen enemy to a fresh random position.

use vstd::prelude::*;

use crate::COORD_LIMIT;
use crate::MAX_DT;
use crate::clamp_coord;
use crate::clamp_i64;
use crate::shape::BOTTOM;
use crate::texture::{AnimatedTexture, AnimationMode};

verus! {

/// Milliseconds between two flying-enemy spawns.
pub const SPAWN_DELAY: i64 = 30_000;

#[derive(Debug, PartialEq, Eq, Structural, Clone, Copy)]
pub enum Species {
    Land,
    Flying,
}

pub struct Enemy {
    pub x: i64,
    pub y: i64,
    pub width: i64,
    pub height: i64,
    pub texture: AnimatedTexture,
    pub speed: i64,
    pub is_dead: bool,
    pub death_animation: AnimatedTexture,
    pub y_velocity: i64,
}

impl Enemy {
    pub open spec fn wf(&self) -> bool {
        &&& -COORD_LIMIT <= self.x <= COORD_LIMIT
        &&& -COORD_LIMIT <= self.y <= COORD_LIMIT
        &&& 0 <= self.width <= COORD_LIMIT
        &&& 0 <= self.height <= COORD_LIMIT
        &&& -COORD_LIMIT <= self.y_velocity <= COORD_LIMIT
        &&& self.texture.wf()
        &&& self.death_animation.wf()
    }

    /// A fresh enemy of the given species from its two animations; the
    /// death animation is put into play-once mode. Size comes from the live
    /// animation; the position starts at the origin and the level places it.
    pub fn new(species: Species, texture: AnimatedTexture, death_animation: AnimatedTexture) -> (e:
        Enemy)
        requires
            texture.wf(),
            death_animation.wf(),
            death_animation.total_elapsed@ == 0,
            !death_animation.animation_done,
        ensures
            e.wf(),
            e.x == 0,
            e.y == 0,
            e.width == texture.width,
            e.height == texture.height,
            e.speed == 200,
            !e.is_dead,
            e.y_velocity == 0,
            e.texture == texture,
            e.death_animation == (AnimatedTexture {
                mode: AnimationMode::Once,
                ..death_animation
            }),
    {
        let mut death = death_animation;
        death.set_mode(AnimationMode::Once);
        let (width, height) = texture.get_dimensions();
        Enemy {
            x: 0,
            y: 0,
            width,
            height,
            speed: 200,
            texture,
            is_dead: false,
            death_animation: death,
            y_velocity: 0,
        }
    }

    /// Places the enemy, and both its animations, at `(x, y)`.
    pub fn set_position(&mut self, x: i64, y: i64)
        requires
            old(self).wf(),
        ensures
            final(self).wf(),
            *final(self) == (Enemy {
                x: clamp_coord(x as int) as i64,
                y: clamp_coord(y as int) as i64,
                texture: final(self).texture,
                death_animation: final(self).death_animation,
                ..*old(self)
            }),
            final(self).texture == (AnimatedTexture {
                x: clamp_coord(x as int) as i64,
                y: clamp_coord(y as int) as i64,
                textures: final(self).texture.textures,
                ..old(self).texture
            }),
            final(self).death_animation == (AnimatedTexture {
                x: clamp_coord(x as int) as i64,
                y: clamp_coord(y as int) as i64,
                textures: final(self).death_animation.textures,
                ..old(self).death_animation
            }),
    {
        self.texture.set_position(x, y);
        self.death_animation.set_position(x, y);
        self.x = clamp_i64(x);
        self.y = clamp_i64(y);
    }

    /// Places the enemy, and both its animations, at horizontal `x`.
    pub fn set_x(&mut self, x: i64)
        requires
            old(self).wf(),
        ensures
            final(self).wf(),
            *final(self) == (Enemy {
                x: clamp_coord(x as int) as i64,
                texture: final(self).texture,
                death_animation: final(self).death_animation,
                ..*old(self)
            }),
            final(self).texture == (AnimatedTexture {
                x: clamp_coord(x as int) as i64,
                textures: final(self).texture.textures,
                ..old(self).texture
            }),
            final(self).death_animation == (AnimatedTexture {
                x: clamp_coord(x as int) as i64,
                textures: final(self).death_animation.textures,
                ..old(self).death_animation
            }),
    {
        self.texture.set_x(x);
        self.death_animation.set_x(x);
        self.x = clamp_i64(x);
    }

    pub fn is_dead(&self) -> (r: bool)
        ensures
            r == self.is_dead,
    {
        self.is_dead
    }

    pub fn set_dead(&mut self, b: bool)
        ensures
            *final(self) == (Enemy { is_dead: b, ..*old(self) }),
    {
        self.is_dead = b;
    }

    /// Moves a live enemy by `(dx, dy)`; a dead one stays where it fell.
    pub fn translate(&mut self, dx: i64, dy: i64)
        requires
            old(self).wf(),
            -COORD_LIMIT <= dx <= COORD_LIMIT,
            -COORD_LIMIT <= dy <= COORD_LIMIT,
        ensures
            final(self).wf(),
            old(self).is_dead ==> *final(self) == *old(self),
            !old(self).is_dead ==> *final(self) == (Enemy {
                x: clamp_coord(old(self).texture.x + dx) as i64,
                y: clamp_coord(old(self).texture.y + dy) as i64,
                texture: final(self).texture,
                death_animation: final(self).death_animation,
                ..*old(self)
            }),
            !old(self).is_dead ==> final(self).texture == (AnimatedTexture {
                x: clamp_coord(old(self).texture.x + dx) as i64,
                y: clamp_coord(old(self).texture.y + dy) as i64,
                textures: final(self).texture.textures,
                ..old(self).texture
            }),
            !old(self).is_dead ==> final(self).death_animation == (AnimatedTexture {
                x: clamp_coord(old(self).death_animation.x + dx) as i64,
                y: clamp_coord(old(self).death_animation.y + dy) as i64,
                textures: final(self).death_animation.textures,
                ..old(self).death_animation
            }),
            !old(self).is_dead ==> final(self).texture.textures.len() == old(
                self,
            ).texture.textures.len() && (forall|j: int|
                0 <= j < old(self).texture.textures.len() ==> final(self).texture.textures[j]
                    == (crate::texture::Texture {
                    x: clamp_coord(old(self).texture.textures[j].x + dx) as i64,
                    y: clamp_coord(old(self).texture.textures[j].y + dy) as i64,
                    ..old(self).texture.textures[j]
                })),
    {
        if !self.is_dead {
            self.texture.translate(dx, dy);
            self.death_animation.translate(dx, dy);
            self.x = self.texture.x;
            self.y = self.texture.y;
        }
    }

    /// One step of the discrete fall: the position moves by the current
    /// vertical velocity; while still above the floor line the velocity
    /// decays by gravity, otherwise it is zeroed. Both animations follow.
    pub fn apply_gravity(&mut self, dt: i64)
        requires
            old(self).wf(),
            0 <= dt <= MAX_DT,
        ensures
            final(self).wf(),
            final(self).y as int == clamp_coord(old(self).y + old(self).y_velocity),
            final(self).y_velocity as int == (if final(self).y + old(self).y_velocity >= BOTTOM
                - old(self).height {
                clamp_coord(old(self).y_velocity - 3 * dt)
            } else {
                0
            }),
            *final(self) == (Enemy {
                y: final(self).y,
                y_velocity: final(self).y_velocity,
                texture: final(self).texture,
                death_animation: final(self).death_animation,
                ..*old(self)
            }),
            final(self).texture == (AnimatedTexture {
                x: old(self).x,
                y: final(self).y,
                textures: final(self).texture.textures,
                ..old(self).texture
            }),
            final(self).death_animation == (AnimatedTexture {
                x: old(self).x,
                y: final(self).y,
                textures: final(self).death_animation.textures,
                ..old(self).death_animation
            }),
    {
        self.y = clamp_i64(self.y + self.y_velocity);
        if self.y + self.y_velocity >= BOTTOM - self.height {
            self.y_velocity = clamp_i64(self.y_velocity - 3 * dt);
        } else {
            self.y_velocity = 0;
        }
        let x = self.x;
        let y = self.y;
        self.texture.set_position(x, y);
        self.death_animation.set_position(x, y);
    }

    /// Flips the live animation's texture coordinates, as when the enemy
    /// reverses its patrol direction. Flipping twice along the same axis
    /// restores the original orientation.
    pub fn mirror(&mut self, dir: crate::shape::Direction)
        requires
            old(self).wf(),
        ensures
            final(self).wf(),
            *final(self) == (Enemy { texture: final(self).texture, ..*old(self) }),
            final(self).texture == (AnimatedTexture {
                textures: final(self).texture.textures,
                ..old(self).texture
            }),
            final(self).texture.textures.len() == old(self).texture.textures.len(),
            forall|j: int|
                0 <= j < old(self).texture.textures.len() ==> final(self).texture.textures[j]
                    == crate::texture::spec_mirrored(old(self).texture.textures[j], dir),
    {
        self.texture.mirror(dir);
    }

    /// Advances the live animation while alive, the death animation once
    /// dead. Geometry is untouched.
    pub fn update(&mut self, dt: i64)
        requires
            old(self).wf(),
            0 <= dt <= MAX_DT,
        ensures
            final(self).wf(),
            *final(self) == (Enemy {
                texture: final(self).texture,
                death_animation: final(self).death_animation,
                ..*old(self)
            }),
            !old(self).is_dead ==> final(self).death_animation == old(self).death_animation && (old(
                self,
            ).texture.animation_done ==> final(self).texture == old(self).texture) && (!old(
                self,
            ).texture.animation_done ==> AnimatedTexture::advanced(
                old(self).texture,
                final(self).texture,
                dt as int,
            )),
            old(self).is_dead ==> final(self).texture == old(self).texture && (old(
                self,
            ).death_animation.animation_done ==> final(self).death_animation == old(
                self,
            ).death_animation) && (!old(self).death_animation.animation_done
                ==> AnimatedTexture::advanced(
                old(self).death_animation,
                final(self).death_animation,
                dt as int,
            )),
    {
        if !self.is_dead {
            self.texture.update(dt);
        } else {
            self.death_animation.update(dt);
        }
    }

    /// A deep copy: used when the level spawns a new enemy from its
    /// prototype.
    pub fn duplicate(&self) -> (r: Enemy)
        ensures
            r.x == self.x,
            r.y == self.y,
            r.width == self.width,
            r.height == self.height,
            r.speed == self.speed,
            r.is_dead == self.is_dead,
            r.y_velocity == self.y_velocity,
            r.texture.textures@ == self.texture.textures@,
            r.texture == (AnimatedTexture { textures: r.texture.textures, ..self.texture }),
            r.death_animation.textures@ == self.death_animation.textures@,
            r.death_animation == (AnimatedTexture {
                textures: r.death_animation.textures,
                ..self.death_animation
            }),
    {
        Enemy {
            x: self.x,
            y: self.y,
            width: self.width,
            height: self.height,
            speed: self.speed,
            is_dead: self.is_dead,
            y_velocity: self.y_velocity,
            texture: self.texture.duplicate(),
            death_animation: self.death_animation.duplicate(),
        }
    }
}

} // verus!
