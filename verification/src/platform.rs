//! Platforms and the fish pickups that sit on them.
//!
//! A platform is a static sprite in one of four size classes, carrying a
//! content type: plain, fish to collect, or a patrolling enemy. Its child
//! entities always sit at fixed offsets from the platform position.

use vstd::prelude::*;

use crate::COORD_LIMIT;
use crate::MAX_DT;
use crate::clamp_coord;
use crate::clamp_i64;
use crate::collision::{spec_intersect, spec_overlap_x, intersect, overlap_x};
use crate::enemy::Enemy;
use crate::gui::Topbar;
use crate::player::Player;
use crate::shape::Direction;
use crate::texture::{AnimatedTexture, Collide, Rect, Texture};

verus! {

/// Positions handed to [`Platform::set_position`] stay this far inside the
/// coordinate range, so the child offsets never clamp.
pub const PLACE_LIMIT: i64 = 999_000_000_000;

#[derive(Debug, PartialEq, Eq, Structural, Clone, Copy)]
pub enum Size {
    Small,
    Medium,
    Large,
    XLarge,
}

impl Size {
    /// The three regular sizes by index, as the level builder counts them.
    pub fn from_u32(value: u32) -> (s: Size)
        requires
            value < 3,
        ensures
            s == (if value == 0 {
                Size::Small
            } else if value == 1 {
                Size::Medium
            } else {
                Size::Large
            }),
    {
        match value {
            0 => Size::Small,
            1 => Size::Medium,
            _ => Size::Large,
        }
    }
}

/// What lives on a platform.
#[derive(Debug, PartialEq, Eq, Structural, Clone, Copy)]
pub enum Type {
    Enemy,
    Fish,
    Plain,
}

/// Width of each size class, in milli-units.
pub open spec fn spec_size_width(s: Size) -> int {
    match s {
        Size::Small => 96_000,
        Size::Medium => 144_000,
        Size::Large => 240_000,
        Size::XLarge => 336_000,
    }
}

/// How many fish a platform of the given class carries when its content is
/// fish.
pub open spec fn spec_fish_count(s: Size) -> int {
    match s {
        Size::Small => 0,
        Size::Medium => 3,
        Size::Large => 5,
        Size::XLarge => 7,
    }
}

/// A collectible pickup: a sprite plus a taken flag; a taken fish stays in
/// the list and is simply not drawn nor collectible again.
#[derive(Debug, PartialEq, Eq, Structural, Clone, Copy)]
pub struct Fish {
    pub texture: Texture,
    pub x: i64,
    pub y: i64,
    pub taken: bool,
}

impl Fish {
    pub open spec fn wf(&self) -> bool {
        &&& -COORD_LIMIT <= self.x <= COORD_LIMIT
        &&& -COORD_LIMIT <= self.y <= COORD_LIMIT
        &&& self.texture.wf()
    }

    pub fn new(texture: Texture) -> (f: Fish)
        requires
            texture.wf(),
        ensures
            f.wf(),
            f == (Fish { texture, x: 0, y: 0, taken: false }),
    {
        Fish { texture, x: 0, y: 0, taken: false }
    }

    pub fn set_position(&mut self, x: i64, y: i64)
        requires
            old(self).wf(),
        ensures
            final(self).wf(),
            *final(self) == (Fish {
                x: clamp_coord(x as int) as i64,
                y: clamp_coord(y as int) as i64,
                texture: (Texture {
                    x: clamp_coord(x as int) as i64,
                    y: clamp_coord(y as int) as i64,
                    ..old(self).texture
                }),
                ..*old(self)
            }),
    {
        self.texture.set_position(x, y);
        self.x = clamp_i64(x);
        self.y = clamp_i64(y);
    }

    pub fn translate(&mut self, dx: i64, dy: i64)
        requires
            old(self).wf(),
            -COORD_LIMIT <= dx <= COORD_LIMIT,
            -COORD_LIMIT <= dy <= COORD_LIMIT,
        ensures
            final(self).wf(),
            *final(self) == (Fish {
                x: clamp_coord(old(self).texture.x + dx) as i64,
                y: clamp_coord(old(self).texture.y + dy) as i64,
                texture: (Texture {
                    x: clamp_coord(old(self).texture.x + dx) as i64,
                    y: clamp_coord(old(self).texture.y + dy) as i64,
                    ..old(self).texture
                }),
                ..*old(self)
            }),
    {
        self.texture.translate(dx, dy);
        self.x = self.texture.x;
        self.y = self.texture.y;
    }

    pub fn set_x(&mut self, x: i64)
        requires
            old(self).wf(),
        ensures
            final(self).wf(),
            *final(self) == (Fish {
                x: clamp_coord(x as int) as i64,
                texture: (Texture { x: clamp_coord(x as int) as i64, ..old(self).texture }),
                ..*old(self)
            }),
    {
        self.texture.set_x(x);
        self.x = clamp_i64(x);
    }
}

pub struct Platform {
    pub width: i64,
    pub height: i64,
    pub x: i64,
    pub y: i64,
    pub size: Size,
    pub texture: Texture,
    pub enemies: Vec<Enemy>,
    pub enemy_speed: i64,
    pub fish: Vec<Fish>,
    pub elapsed_time: i64,
    pub platform_type: Type,
}

impl Platform {
    pub open spec fn wf(&self) -> bool {
        &&& -COORD_LIMIT <= self.x <= COORD_LIMIT
        &&& -COORD_LIMIT <= self.y <= COORD_LIMIT
        &&& self.x == self.texture.x
        &&& self.y == self.texture.y
        &&& self.width == spec_size_width(self.size)
        &&& self.height == 96_000
        &&& (self.enemy_speed == 150 || self.enemy_speed == -150)
        &&& 0 <= self.elapsed_time <= COORD_LIMIT
        &&& self.texture.wf()
        &&& (self.size == Size::Small ==> self.enemies.len() == 0 && self.fish.len() == 0)
        &&& (self.size != Size::Small ==> self.enemies.len() == 1 && self.fish.len()
            == spec_fish_count(self.size))
        &&& forall|i: int| 0 <= i < self.enemies.len() ==> (#[trigger] self.enemies[i]).wf()
        &&& forall|i: int| 0 <= i < self.fish.len() ==> (#[trigger] self.fish[i]).wf()
    }

    /// The box used for overlap tests against other platforms and for the
    /// standing test.
    pub open spec fn aabb_spec(&self) -> Rect {
        Rect { x: self.x, y: self.y, w: self.width, h: self.height }
    }

    /// Builds a platform of the given class at the origin, plain until the
    /// level assigns it a content type. A platform that is not small owns
    /// one patrolling enemy and a row of fish built from the given pickup
    /// sprite; a small platform carries no children.
    pub fn new(size: Size, texture: Texture, enemy: Enemy, fish_texture: Texture) -> (p: Platform)
        requires
            texture.wf(),
            enemy.wf(),
            !enemy.is_dead,
            fish_texture.wf(),
        ensures
            p.wf(),
            p.x == 0,
            p.y == 0,
            p.size == size,
            p.width == spec_size_width(size),
            p.height == 96_000,
            p.platform_type == Type::Plain,
            p.enemy_speed == 150,
            p.elapsed_time == 0,
            p.texture == (Texture { x: 0, y: 0, ..texture }),
            size != Size::Small ==> !p.enemies[0].is_dead,
            forall|i: int| 0 <= i < p.fish.len() ==> !(#[trigger] p.fish[i]).taken,
    {
        let width: i64 = match size {
            Size::Small => 96_000,
            Size::Medium => 144_000,
            Size::Large => 240_000,
            Size::XLarge => 336_000,
        };

        let mut texture = texture;
        texture.set_position(0, 0);

        let mut enemies: Vec<Enemy> = Vec::new();
        let mut fish: Vec<Fish> = Vec::new();

        if !matches!(size, Size::Small) {
            let n: i64 = width / 48_000;

            let mut e = enemy;
            e.set_position(0, 24_000);
            enemies.push(e);

            let mut i: i64 = -(n / 2);
            while i <= n / 2
                invariant
                    -(n / 2) <= i <= n / 2 + 1,
                    1 <= n <= 7,
                    fish_texture.wf(),
                    fish.len() == i + n / 2,
                    forall|j: int| 0 <= j < fish.len() ==> (#[trigger] fish[j]).wf(),
                    forall|j: int| 0 <= j < fish.len() ==> !(#[trigger] fish[j]).taken,
                decreases n / 2 - i + 1,
            {
                let mut f = Fish::new(fish_texture);
                f.set_position(i * 48_000, 36_000);
                fish.push(f);
                i = i + 1;
            }
        }

        Platform {
            width,
            height: 96_000,
            x: 0,
            y: 0,
            size,
            texture,
            enemies,
            enemy_speed: 150,
            fish,
            elapsed_time: 0,
            platform_type: Type::Plain,
        }
    }

    /// Assigns the content type, reviving its content: fish become
    /// collectible again, the enemy comes back to life.
    pub fn set_type(&mut self, t: Type)
        requires
            old(self).wf(),
        ensures
            final(self).wf(),
            final(self).platform_type == t,
            *final(self) == (Platform {
                platform_type: t,
                enemies: final(self).enemies,
                fish: final(self).fish,
                ..*old(self)
            }),
            final(self).enemies.len() == old(self).enemies.len(),
            final(self).fish.len() == old(self).fish.len(),
            t == Type::Fish ==> (forall|i: int|
                0 <= i < old(self).fish.len() ==> final(self).fish[i] == (Fish {
                    taken: false,
                    ..old(self).fish[i]
                })) && final(self).enemies == old(self).enemies,
            t == Type::Enemy ==> (forall|i: int|
                0 <= i < old(self).enemies.len() ==> final(self).enemies[i] == (Enemy {
                    is_dead: false,
                    ..old(self).enemies[i]
                })) && final(self).fish == old(self).fish,
            t == Type::Plain ==> final(self).enemies == old(self).enemies && final(self).fish
                == old(self).fish,
    {
        self.platform_type = t;
        match t {
            Type::Fish => {
                let n = self.fish.len();
                let mut i: usize = 0;
                while i < n
                    invariant
                        0 <= i <= n,
                        self.fish.len() == n,
                        *self == (Platform { platform_type: t, fish: self.fish, ..*old(self) }),
                        forall|j: int|
                            0 <= j < i ==> self.fish[j] == (Fish {
                                taken: false,
                                ..old(self).fish[j]
                            }),
                        forall|j: int| i <= j < n ==> self.fish[j] == old(self).fish[j],
                    decreases n - i,
                {
                    let mut f = self.fish[i];
                    f.taken = false;
                    self.fish[i] = f;
                    i = i + 1;
                }
            },
            Type::Enemy => {
                let n = self.enemies.len();
                let mut i: usize = 0;
                while i < n
                    invariant
                        0 <= i <= n,
                        self.enemies.len() == n,
                        *self == (Platform {
                            platform_type: t,
                            enemies: self.enemies,
                            ..*old(self)
                        }),
                        forall|j: int|
                            0 <= j < i ==> self.enemies[j] == (Enemy {
                                is_dead: false,
                                ..old(self).enemies[j]
                            }),
                        forall|j: int| i <= j < n ==> self.enemies[j] == old(self).enemies[j],
                    decreases n - i,
                {
                    let e = &mut self.enemies[i];
                    e.set_dead(false);
                    i = i + 1;
                }
            },
            Type::Plain => {},
        }
    }

    /// Places the platform and re-derives every child position from it:
    /// fish spread along the top at one fish per half grid step, the
    /// patrolling enemy stands centered above the surface.
    pub fn set_position(&mut self, x: i64, y: i64)
        requires
            old(self).wf(),
            -PLACE_LIMIT <= x <= PLACE_LIMIT,
            -PLACE_LIMIT <= y <= PLACE_LIMIT,
        ensures
            final(self).wf(),
            final(self).x == x,
            final(self).y == y,
            *final(self) == (Platform {
                x,
                y,
                texture: (Texture { x, y, ..old(self).texture }),
                enemies: final(self).enemies,
                fish: final(self).fish,
                ..*old(self)
            }),
            final(self).enemies.len() == old(self).enemies.len(),
            final(self).fish.len() == old(self).fish.len(),
            forall|i: int|
                0 <= i < old(self).enemies.len() ==> final(self).enemies[i] == (Enemy {
                    x,
                    y: (y + 78_000) as i64,
                    texture: final(self).enemies[i].texture,
                    death_animation: final(self).enemies[i].death_animation,
                    ..old(self).enemies[i]
                }),
            forall|i: int|
                0 <= i < old(self).fish.len() ==> (#[trigger] final(self).fish[i]).x as int == x
                    + spec_fish_offset(i, spec_size_width(old(self).size) / 48_000) && final(self).fish[i].y == y + 84_000 && final(self).fish[i].taken == old(self).fish[i].taken,
    {
        self.texture.set_position(x, y);
        self.x = clamp_i64(x);
        self.y = clamp_i64(y);
        if matches!(self.size, Size::Small) {
            return;
        }
        let n: usize = (self.width / 48_000) as usize;
        let ghost pre = *self;
        let mut i: usize = n / 2;
        while i < self.fish.len()
            invariant
                old(self).wf(),
                pre == (Platform { x, y, texture: pre.texture, ..*old(self) }),
                pre.fish == old(self).fish,
                pre.enemies == old(self).enemies,
                self.x == x,
                self.y == y,
                -PLACE_LIMIT <= x <= PLACE_LIMIT,
                -PLACE_LIMIT <= y <= PLACE_LIMIT,
                n == spec_size_width(old(self).size) / 48_000,
                3 <= n <= 7,
                n / 2 <= i <= self.fish.len(),
                self.fish.len() == old(self).fish.len(),
                n < self.fish.len() + 1,
                *self == (Platform { fish: self.fish, ..pre }),
                forall|j: int|
                    n / 2 <= j < i ==> (#[trigger] self.fish[j]).x as int == x + (j - n / 2)
                        * 48_000 && self.fish[j].y == y + 84_000 && self.fish[j].taken == old(self).fish[j].taken && self.fish[j].wf(),
                forall|j: int|
                    (0 <= j < n / 2 || i <= j < self.fish.len()) ==> self.fish[j] == old(self).fish[j],
            decreases self.fish.len() - i,
        {
            proof {
                assert(old(self).fish[i as int].wf());
                assert((i - n / 2) * 48_000 <= 7 * 48_000 && 0 <= (i - n / 2) * 48_000)
                    by (nonlinear_arith)
                    requires
                        0 <= i - n / 2 <= 7,
                ;
            }
            let xi = self.x + ((i - n / 2) as i64) * 48_000;
            let yi = self.y + 84_000;
            let f = &mut self.fish[i];
            f.set_position(xi, yi);
            i = i + 1;
        }
        let half: usize = n / 2;
        let mut k: usize = 0;
        while k <= half
            invariant
                old(self).wf(),
                pre == (Platform { x, y, texture: pre.texture, ..*old(self) }),
                pre.fish == old(self).fish,
                pre.enemies == old(self).enemies,
                self.x == x,
                self.y == y,
                -PLACE_LIMIT <= x <= PLACE_LIMIT,
                -PLACE_LIMIT <= y <= PLACE_LIMIT,
                n == spec_size_width(old(self).size) / 48_000,
                3 <= n <= 7,
                half == n / 2,
                0 <= k <= half + 1,
                half < self.fish.len(),
                self.fish.len() == old(self).fish.len(),
                *self == (Platform { fish: self.fish, ..pre }),
                forall|j: int|
                    0 <= j < k ==> (#[trigger] self.fish[j]).x as int == x + j * (-48_000)
                        && self.fish[j].y == y + 84_000 && self.fish[j].taken == old(self).fish[j].taken && self.fish[j].wf(),
                forall|j: int|
                    k <= j <= half ==> (#[trigger] self.fish[j]).taken == old(self).fish[j].taken
                        && self.fish[j].wf(),
                forall|j: int|
                    half < j < self.fish.len() ==> (#[trigger] self.fish[j]).x as int == x + (j - n
                        / 2) * 48_000 && self.fish[j].y == y + 84_000 && self.fish[j].taken == old(self).fish[j].taken && self.fish[j].wf(),
            decreases half - k + 1,
        {
            proof {
                assert(0 <= k * 48_000 <= 7 * 48_000) by (nonlinear_arith)
                    requires
                        0 <= k <= 7,
                ;
            }
            let xk = self.x - (k as i64) * 48_000;
            let yk = self.y + 84_000;
            let f = &mut self.fish[k];
            f.set_position(xk, yk);
            k = k + 1;
        }
        let ex = self.x;
        let ey = self.y + 78_000;
        let mut m: usize = 0;
        while m < self.enemies.len()
            invariant
                old(self).wf(),
                pre == (Platform { x, y, texture: pre.texture, ..*old(self) }),
                pre.enemies == old(self).enemies,
                self.x == x,
                self.y == y,
                ex == x,
                ey == y + 78_000,
                -PLACE_LIMIT <= x <= PLACE_LIMIT,
                -PLACE_LIMIT <= y <= PLACE_LIMIT,
                0 <= m <= self.enemies.len(),
                self.enemies.len() == old(self).enemies.len(),
                self.fish.len() == old(self).fish.len(),
                *self == (Platform { fish: self.fish, enemies: self.enemies, ..pre }),
                forall|j: int|
                    0 <= j <= n / 2 ==> (#[trigger] self.fish[j]).x as int == x + j * (-48_000)
                        && self.fish[j].y == y + 84_000 && self.fish[j].taken == old(self).fish[j].taken && self.fish[j].wf(),
                forall|j: int|
                    n / 2 < j < self.fish.len() ==> (#[trigger] self.fish[j]).x as int == x + (j - n
                        / 2) * 48_000 && self.fish[j].y == y + 84_000 && self.fish[j].taken == old(self).fish[j].taken && self.fish[j].wf(),
                forall|j: int|
                    0 <= j < m ==> (#[trigger] self.enemies[j]) == (Enemy {
                        x,
                        y: (y + 78_000) as i64,
                        texture: self.enemies[j].texture,
                        death_animation: self.enemies[j].death_animation,
                        ..old(self).enemies[j]
                    }) && self.enemies[j].wf(),
                forall|j: int| m <= j < self.enemies.len() ==> self.enemies[j] == old(self).enemies[j],
            decreases self.enemies.len() - m,
        {
            proof {
                assert(old(self).enemies[m as int].wf());
            }
            let e = &mut self.enemies[m];
            e.set_position(ex, ey);
            m = m + 1;
        }
    }

    /// Collects every untaken fish the player touches, counting each on
    /// the top bar.
    pub fn player_took_fish(&mut self, player: &Player, topbar: &mut Topbar)
        requires
            old(self).wf(),
            player.wf(),
            old(topbar).wf(),
            old(topbar).fish_score.value + old(self).fish.len() < u32::MAX,
        ensures
            final(self).wf(),
            final(topbar).wf(),
            *final(self) == (Platform { fish: final(self).fish, ..*old(self) }),
            final(self).fish.len() == old(self).fish.len(),
            forall|i: int|
                0 <= i < old(self).fish.len() ==> final(self).fish[i] == (Fish {
                    taken: old(self).fish[i].taken || spec_intersect(
                        old(self).fish[i].texture.aabb_spec(),
                        player.texture.aabb(),
                    ),
                    ..old(self).fish[i]
                }),
            final(topbar).fish_score.value == old(topbar).fish_score.value + spec_newly_taken(
                old(self).fish@,
                player.texture.aabb(),
            ),
            final(topbar).fish_score.value <= old(topbar).fish_score.value + old(self).fish.len(),
            *final(topbar) == (Topbar { fish_score: final(topbar).fish_score, ..*old(topbar) }),
    {
        let n = self.fish.len();
        let mut i: usize = 0;
        while i < n
            invariant
                old(self).wf(),
                player.wf(),
                old(topbar).wf(),
                old(topbar).fish_score.value + n < u32::MAX,
                0 <= i <= n,
                self.fish.len() == n,
                n == old(self).fish.len(),
                *self == (Platform { fish: self.fish, ..*old(self) }),
                topbar.wf(),
                forall|j: int|
                    0 <= j < i ==> self.fish[j] == (Fish {
                        taken: old(self).fish[j].taken || spec_intersect(
                            old(self).fish[j].texture.aabb_spec(),
                            player.texture.aabb(),
                        ),
                        ..old(self).fish[j]
                    }),
                forall|j: int| i <= j < n ==> self.fish[j] == old(self).fish[j],
                topbar.fish_score.value == old(topbar).fish_score.value + spec_newly_taken(
                    old(self).fish@.take(i as int),
                    player.texture.aabb(),
                ),
                *topbar == (Topbar { fish_score: topbar.fish_score, ..*old(topbar) }),
            decreases n - i,
        {
            proof {
                assert(self.fish[i as int] == old(self).fish[i as int]);
                assert(old(self).fish[i as int].wf());
                assert(spec_newly_taken(old(self).fish@.take(i as int), player.texture.aabb())
                    <= i) by {
                    lemma_newly_taken_bound(
                        old(self).fish@.take(i as int),
                        player.texture.aabb(),
                    );
                }
                assert(old(self).fish@.take(i + 1).drop_last() =~= old(self).fish@.take(i as int));
                assert(old(self).fish@.take(i + 1).last() == old(self).fish[i as int]);
            }
            let frect = Rect {
                x: self.fish[i].texture.x,
                y: self.fish[i].texture.y,
                w: self.fish[i].texture.width,
                h: self.fish[i].texture.height,
            };
            let prect = Rect {
                x: player.texture.x,
                y: player.texture.y,
                w: player.texture.width,
                h: player.texture.height,
            };
            let hit = intersect(&frect, &prect);
            if hit && !self.fish[i].taken {
                topbar.increment_fish_count();
                let f = &mut self.fish[i];
                f.taken = true;
            }
            i = i + 1;
        }
        proof {
            assert(old(self).fish@.take(n as int) =~= old(self).fish@);
            lemma_newly_taken_bound(old(self).fish@, player.texture.aabb());
        }
    }

    /// Lets the player interact with the platform's enemy, if it has one.
    pub fn player_vs_enemy(&mut self, player: &mut Player, topbar: &mut Topbar)
        requires
            old(self).wf(),
            old(player).wf(),
            old(topbar).wf(),
            old(topbar).enemy_score.value < u32::MAX,
        ensures
            final(self).wf(),
            final(player).wf(),
            final(topbar).wf(),
            *final(self) == (Platform { enemies: final(self).enemies, ..*old(self) }),
            final(self).enemies.len() == old(self).enemies.len(),
            old(self).enemies.len() == 0 ==> *final(self) == *old(self) && *final(player) == *old(
                player,
            ) && *final(topbar) == *old(topbar),
            old(self).enemies.len() == 1 ==> ({
                let p0 = *old(player);
                let e0 = old(self).enemies[0];
                let stomp = crate::texture::spec_collide_bottom(
                    p0.texture.aabb(),
                    e0.texture.aabb(),
                ) && !p0.is_dead && !e0.is_dead;
                let hit = (crate::texture::spec_collide_left(p0.texture.aabb(), e0.texture.aabb())
                    || crate::texture::spec_collide_left(e0.texture.aabb(), p0.texture.aabb()))
                    && !e0.is_dead;
                if stomp {
                    &&& *final(player) == p0
                    &&& final(self).enemies[0] == (Enemy { is_dead: true, ..e0 })
                    &&& final(topbar).enemy_score.value == old(topbar).enemy_score.value + 1
                    &&& *final(topbar) == (Topbar {
                        enemy_score: final(topbar).enemy_score,
                        ..*old(topbar)
                    })
                } else if hit {
                    &&& *final(player) == (Player { is_dead: true, ..p0 })
                    &&& final(self).enemies[0] == e0
                    &&& *final(topbar) == *old(topbar)
                } else {
                    &&& *final(player) == p0
                    &&& final(self).enemies[0] == e0
                    &&& *final(topbar) == *old(topbar)
                }
            }),
    {
        let n = self.enemies.len();
        let mut i: usize = 0;
        while i < n
            invariant
                old(self).wf(),
                old(player).wf(),
                old(topbar).wf(),
                old(topbar).enemy_score.value < u32::MAX,
                n == old(self).enemies.len(),
                n <= 1,
                0 <= i <= n,
                self.enemies.len() == n,
                *self == (Platform { enemies: self.enemies, ..*old(self) }),
                player.wf(),
                topbar.wf(),
                i == 0 ==> *player == *old(player) && *topbar == *old(topbar) && self.enemies
                    == old(self).enemies,
                n == 1 && i == 1 ==> ({
                    let p0 = *old(player);
                    let e0 = old(self).enemies[0];
                    let stomp = crate::texture::spec_collide_bottom(
                        p0.texture.aabb(),
                        e0.texture.aabb(),
                    ) && !p0.is_dead && !e0.is_dead;
                    let hit = (crate::texture::spec_collide_left(
                        p0.texture.aabb(),
                        e0.texture.aabb(),
                    ) || crate::texture::spec_collide_left(e0.texture.aabb(), p0.texture.aabb()))
                        && !e0.is_dead;
                    if stomp {
                        &&& *player == p0
                        &&& self.enemies[0] == (Enemy { is_dead: true, ..e0 })
                        &&& topbar.enemy_score.value == old(topbar).enemy_score.value + 1
                        &&& *topbar == (Topbar {
                            enemy_score: topbar.enemy_score,
                            ..*old(topbar)
                        })
                    } else if hit {
                        &&& *player == (Player { is_dead: true, ..p0 })
                        &&& self.enemies[0] == e0
                        &&& *topbar == *old(topbar)
                    } else {
                        &&& *player == p0
                        &&& self.enemies[0] == e0
                        &&& *topbar == *old(topbar)
                    }
                }),
            decreases n - i,
        {
            proof {
                assert(self.enemies[i as int] == old(self).enemies[i as int]);
                assert(old(self).enemies[i as int].wf());
            }
            let e = &mut self.enemies[i];
            player.check_interaction(e, topbar);
            i = i + 1;
        }
    }

    /// Tests whether the player stands over this platform horizontally, and
    /// records the answer on the player.
    pub fn player_is_on(&self, player: &mut Player) -> (b: bool)
        requires
            self.wf(),
            old(player).wf(),
        ensures
            b == spec_overlap_x(old(player).aabb_spec(), self.aabb_spec()),
            *final(player) == (Player { is_on_platform: b, ..*old(player) }),
            final(player).wf(),
    {
        let b = overlap_x(
            Rect { x: player.x, y: player.y, w: player.width, h: player.height },
            Rect { x: self.x, y: self.y, w: self.width, h: self.height },
        );
        player.set_on_platform(b);
        b
    }

    /// Scrolls the platform and all its children horizontally (and the
    /// platform itself vertically too, as the world moves).
    pub fn translate(&mut self, dx: i64, dy: i64)
        requires
            old(self).wf(),
            -COORD_LIMIT <= dx <= COORD_LIMIT,
            -COORD_LIMIT <= dy <= COORD_LIMIT,
        ensures
            final(self).wf(),
            final(self).x as int == clamp_coord(old(self).texture.x + dx),
            final(self).y as int == clamp_coord(old(self).texture.y + dy),
            *final(self) == (Platform {
                x: final(self).x,
                y: final(self).y,
                texture: (Texture {
                    x: final(self).x,
                    y: final(self).y,
                    ..old(self).texture
                }),
                enemies: final(self).enemies,
                fish: final(self).fish,
                ..*old(self)
            }),
            final(self).enemies.len() == old(self).enemies.len(),
            final(self).fish.len() == old(self).fish.len(),
            forall|i: int|
                0 <= i < old(self).fish.len() ==> final(self).fish[i] == (Fish {
                    x: clamp_coord(old(self).fish[i].x + dx) as i64,
                    texture: (Texture {
                        x: clamp_coord(old(self).fish[i].x + dx) as i64,
                        ..old(self).fish[i].texture
                    }),
                    ..old(self).fish[i]
                }),
            forall|i: int|
                0 <= i < old(self).enemies.len() ==> final(self).enemies[i] == (Enemy {
                    x: clamp_coord(old(self).enemies[i].x + dx) as i64,
                    texture: final(self).enemies[i].texture,
                    death_animation: final(self).enemies[i].death_animation,
                    ..old(self).enemies[i]
                }) && final(self).enemies[i].texture == (AnimatedTexture {
                    x: clamp_coord(old(self).enemies[i].x + dx) as i64,
                    textures: final(self).enemies[i].texture.textures,
                    ..old(self).enemies[i].texture
                }),
    {
        self.texture.translate(dx, dy);
        self.x = self.texture.x;
        self.y = self.texture.y;
        let n = self.fish.len();
        let mut i: usize = 0;
        while i < n
            invariant
                old(self).wf(),
                -COORD_LIMIT <= dx <= COORD_LIMIT,
                0 <= i <= n,
                self.fish.len() == n,
                n == old(self).fish.len(),
                self.x as int == clamp_coord(old(self).texture.x + dx),
                self.y as int == clamp_coord(old(self).texture.y + dy),
                *self == (Platform {
                    x: self.x,
                    y: self.y,
                    texture: (Texture { x: self.x, y: self.y, ..old(self).texture }),
                    fish: self.fish,
                    ..*old(self)
                }),
                forall|j: int|
                    0 <= j < i ==> self.fish[j] == (Fish {
                        x: clamp_coord(old(self).fish[j].x + dx) as i64,
                        texture: (Texture {
                            x: clamp_coord(old(self).fish[j].x + dx) as i64,
                            ..old(self).fish[j].texture
                        }),
                        ..old(self).fish[j]
                    }),
                forall|j: int| i <= j < n ==> self.fish[j] == old(self).fish[j],
            decreases n - i,
        {
            proof {
                assert(old(self).fish[i as int].wf());
            }
            let x0 = self.fish[i].x;
            let f = &mut self.fish[i];
            f.set_x(x0 + dx);
            i = i + 1;
        }
        let m = self.enemies.len();
        let mut k: usize = 0;
        while k < m
            invariant
                old(self).wf(),
                -COORD_LIMIT <= dx <= COORD_LIMIT,
                0 <= k <= m,
                self.enemies.len() == m,
                m == old(self).enemies.len(),
                self.x as int == clamp_coord(old(self).texture.x + dx),
                self.y as int == clamp_coord(old(self).texture.y + dy),
                self.fish.len() == n,
                *self == (Platform {
                    x: self.x,
                    y: self.y,
                    texture: (Texture { x: self.x, y: self.y, ..old(self).texture }),
                    fish: self.fish,
                    enemies: self.enemies,
                    ..*old(self)
                }),
                forall|j: int|
                    0 <= j < n ==> self.fish[j] == (Fish {
                        x: clamp_coord(old(self).fish[j].x + dx) as i64,
                        texture: (Texture {
                            x: clamp_coord(old(self).fish[j].x + dx) as i64,
                            ..old(self).fish[j].texture
                        }),
                        ..old(self).fish[j]
                    }),
                forall|j: int|
                    0 <= j < k ==> self.enemies[j] == (Enemy {
                        x: clamp_coord(old(self).enemies[j].x + dx) as i64,
                        texture: self.enemies[j].texture,
                        death_animation: self.enemies[j].death_animation,
                        ..old(self).enemies[j]
                    }) && self.enemies[j].texture == (AnimatedTexture {
                        x: clamp_coord(old(self).enemies[j].x + dx) as i64,
                        textures: self.enemies[j].texture.textures,
                        ..old(self).enemies[j].texture
                    }) && self.enemies[j].wf(),
                forall|j: int| k <= j < m ==> self.enemies[j] == old(self).enemies[j],
            decreases m - k,
        {
            proof {
                assert(old(self).enemies[k as int].wf());
            }
            let x0 = self.enemies[k].x;
            let e = &mut self.enemies[k];
            e.set_x(x0 + dx);
            k = k + 1;
        }
    }
}

impl Platform {
    /// One simulation step for the platform's content. With an enemy on
    /// it, the enemy's animation runs and it patrols: when it reaches
    /// either edge of the platform the patrol speed flips sign and the
    /// sprite mirrors, then a live enemy moves by the patrol speed. With
    /// fish on it, only the decorative bob clock advances, wrapping before
    /// it can grow without bound. A plain platform does nothing.
    pub fn update(&mut self, dt: i64)
        requires
            old(self).wf(),
            0 <= dt <= MAX_DT,
        ensures
            final(self).wf(),
            final(self).x == old(self).x && final(self).y == old(self).y,
            final(self).platform_type == old(self).platform_type,
            final(self).fish == old(self).fish,
            old(self).platform_type == Type::Plain ==> *final(self) == *old(self),
            old(self).platform_type == Type::Fish ==> *final(self) == (Platform {
                elapsed_time: ((if old(self).elapsed_time > 999_000 {
                    1_000int
                } else {
                    old(self).elapsed_time as int
                }) + dt) as i64,
                ..*old(self)
            }),
            old(self).platform_type == Type::Enemy && old(self).enemies.len() == 0 ==> *final(self)
                == *old(self),
            old(self).platform_type == Type::Enemy && old(self).enemies.len() == 1 ==> ({
                let e0 = old(self).enemies[0];
                let cond = 2 * e0.x + 64_000 >= 2 * old(self).x + old(self).width || 2 * e0.x
                    - 64_000 <= 2 * old(self).x - old(self).width;
                let spd = if cond {
                    -old(self).enemy_speed as int
                } else {
                    old(self).enemy_speed as int
                };
                &&& final(self).enemy_speed as int == spd
                &&& *final(self) == (Platform {
                    enemy_speed: spd as i64,
                    enemies: final(self).enemies,
                    ..*old(self)
                })
                &&& final(self).enemies.len() == 1
                &&& final(self).enemies[0].is_dead == e0.is_dead
                &&& final(self).enemies[0].y_velocity == e0.y_velocity
                &&& (!e0.is_dead ==> final(self).enemies[0].x as int == clamp_coord(
                    e0.texture.x + spd * dt,
                ) && final(self).enemies[0].y == e0.texture.y)
                &&& (e0.is_dead ==> final(self).enemies[0].x == e0.x && final(self).enemies[0].y
                    == e0.y)
                &&& final(self).enemies[0].texture.textures.len() == e0.texture.textures.len()
                &&& (forall|j: int|
                    0 <= j < e0.texture.textures.len() ==> (#[trigger] final(self).enemies[0].texture.textures[j]).mirrored_h == (if cond {
                        !e0.texture.textures[j].mirrored_h
                    } else {
                        e0.texture.textures[j].mirrored_h
                    }))
                &&& (!e0.is_dead && !e0.texture.animation_done ==> final(self).enemies[0].texture.total_elapsed@ == e0.texture.total_elapsed@ + dt)
            }),
    {
        match self.platform_type {
            Type::Enemy => {
                let n = self.enemies.len();
                let mut i: usize = 0;
                while i < n
                    invariant
                        old(self).wf(),
                        0 <= dt <= MAX_DT,
                        n == old(self).enemies.len(),
                        n <= 1,
                        0 <= i <= n,
                        self.enemies.len() == n,
                        *self == (Platform {
                            enemy_speed: self.enemy_speed,
                            enemies: self.enemies,
                            ..*old(self)
                        }),
                        self.enemy_speed == 150 || self.enemy_speed == -150,
                        i == 0 ==> self.enemies == old(self).enemies && self.enemy_speed == old(self).enemy_speed,
                        forall|j: int| 0 <= j < n ==> (#[trigger] self.enemies[j]).wf(),
                        n == 1 && i == 1 ==> ({
                            let e0 = old(self).enemies[0];
                            let cond = 2 * e0.x + 64_000 >= 2 * old(self).x + old(self).width || 2
                                * e0.x - 64_000 <= 2 * old(self).x - old(self).width;
                            let spd = if cond {
                                -old(self).enemy_speed as int
                            } else {
                                old(self).enemy_speed as int
                            };
                            &&& self.enemy_speed as int == spd
                            &&& self.enemies[0].is_dead == e0.is_dead
                            &&& self.enemies[0].y_velocity == e0.y_velocity
                            &&& (!e0.is_dead ==> self.enemies[0].x as int == clamp_coord(
                                e0.texture.x + spd * dt,
                            ) && self.enemies[0].y == e0.texture.y)
                            &&& (e0.is_dead ==> self.enemies[0].x == e0.x && self.enemies[0].y
                                == e0.y)
                            &&& self.enemies[0].texture.textures.len()
                                == e0.texture.textures.len()
                            &&& (forall|j: int|
                                0 <= j < e0.texture.textures.len() ==> (#[trigger] self.enemies[0].texture.textures[j]).mirrored_h
                                    == (if cond {
                                    !e0.texture.textures[j].mirrored_h
                                } else {
                                    e0.texture.textures[j].mirrored_h
                                }))
                            &&& (!e0.is_dead && !e0.texture.animation_done ==> self.enemies[0].texture.total_elapsed@
                                == e0.texture.total_elapsed@ + dt)
                        }),
                    decreases n - i,
                {
                    proof {
                        assert(self.enemies[i as int] == old(self).enemies[i as int]);
                        assert(old(self).enemies[i as int].wf());
                    }
                    {
                        let e = &mut self.enemies[i];
                        e.update(dt);
                    }
                    let ex = self.enemies[i].x;
                    let flip = 2 * ex + 64_000 >= 2 * self.x + self.width || 2 * ex - 64_000 <= 2
                        * self.x - self.width;
                    if flip {
                        self.enemy_speed = -self.enemy_speed;
                        let e = &mut self.enemies[i];
                        e.mirror(Direction::Horizontal);
                    }
                    let spd = self.enemy_speed;
                    let e = &mut self.enemies[i];
                    e.translate(spd * dt, 0);
                    i = i + 1;
                }
            },
            Type::Fish => {
                if self.elapsed_time > 999_000 {
                    self.elapsed_time = 1_000;
                }
                self.elapsed_time = self.elapsed_time + dt;
            },
            Type::Plain => {},
        }
    }
}

/// The horizontal offset of fish `i` from the platform center, in a row of
/// `n` grid steps: the first half of the list fans out to the left, the
/// rest to the right.
pub open spec fn spec_fish_offset(i: int, n: int) -> int {
    if i <= n / 2 {
        i * (-48_000)
    } else {
        (i - n / 2) * 48_000
    }
}

/// How many fish in the row are untaken and touch the box `p`: what one
/// collection pass takes.
pub open spec fn spec_newly_taken(s: Seq<Fish>, p: Rect) -> int
    decreases s.len(),
{
    if s.len() == 0 {
        0
    } else {
        spec_newly_taken(s.drop_last(), p) + if !s.last().taken && spec_intersect(
            s.last().texture.aabb_spec(),
            p,
        ) {
            1int
        } else {
            0int
        }
    }
}

/// A collection pass takes at most one fish per list entry.
proof fn lemma_newly_taken_bound(s: Seq<Fish>, p: Rect)
    ensures
        0 <= spec_newly_taken(s, p) <= s.len(),
    decreases s.len(),
{
    if s.len() > 0 {
        lemma_newly_taken_bound(s.drop_last(), p);
    }
}

} // verus!
