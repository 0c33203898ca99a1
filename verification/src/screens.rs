//! The menu screens around the game: title, store, pause and game-over.
//!
//! Each screen owns its sprites and a menu cursor index moved by
//! edge-triggered up/down input and clamped to its option count; the
//! confirm handling lives in the screen manager. The floating decorations
//! each screen shows are positioned here; their gentle bobbing is a
//! draw-time effect of the render layer.

use vstd::prelude::*;

use crate::COORD_LIMIT;
use crate::MAX_DT;
use crate::input_mgr::{InputManager, KEY_DOWN, KEY_UP, KEY_ESCAPE};
use crate::platform::{Platform, Size};
use crate::shape::SCREEN_WIDTH;
use crate::texture::{AnimatedTexture, Texture};

verus! {

/// Which screen is active; exactly one is, every frame.
#[derive(Debug, PartialEq, Eq, Structural, Clone, Copy)]
pub enum Screen {
    Start,
    Play,
    GameOver,
    Pause,
    Store,
}

/// The cursor index after one frame of up/down menu input: down moves
/// toward `max`, up toward zero, each only on a consumed release edge, and
/// down is handled first.
pub open spec fn spec_menu_step(choice: int, max: int, up_edge: bool, down_edge: bool) -> int {
    let c1 = if down_edge && choice < max {
        choice + 1
    } else {
        choice
    };
    if up_edge && c1 > 0 {
        c1 - 1
    } else {
        c1
    }
}

/// Where the cursor sprite's vertical position ends up after one frame of
/// up/down menu input: one glyph row down per taken down-step, one up per
/// taken up-step, mirroring the choice index.
pub open spec fn spec_cursor_y(y0: int, choice: int, max: int, up_edge: bool, down_edge: bool) -> int {
    let down_move = down_edge && choice < max;
    let c1 = if down_move {
        choice + 1
    } else {
        choice
    };
    let y1 = if down_move {
        crate::clamp_coord(y0 - 40_000)
    } else {
        y0
    };
    if up_edge && c1 > 0 {
        crate::clamp_coord(y1 + 40_000)
    } else {
        y1
    }
}

/// What the up/down transition flags of the input become after one frame
/// of menu handling: both edges are consumed.
pub open spec fn spec_menu_input(pre: InputManager) -> Seq<bool> {
    let after_down = if !pre.keys@[KEY_DOWN as int] {
        pre.prev_keys@.update(KEY_DOWN as int, false)
    } else {
        pre.prev_keys@
    };
    if !pre.keys@[KEY_UP as int] {
        after_down.update(KEY_UP as int, false)
    } else {
        after_down
    }
}

/// The title screen: logo, menu and cursor, two decorative platforms and
/// the loafing player sprite.
pub struct StartScreen {
    pub logo: Texture,
    pub cursor: Texture,
    pub menu: Texture,
    pub platform: Platform,
    pub platform2: Platform,
    pub ubi: AnimatedTexture,
    pub started: bool,
    pub menu_choice: i8,
    pub elapsed_time: i64,
}

impl StartScreen {
    pub open spec fn wf(&self) -> bool {
        &&& self.logo.wf()
        &&& self.cursor.wf()
        &&& self.menu.wf()
        &&& self.platform.wf()
        &&& self.platform2.wf()
        &&& self.ubi.wf()
        &&& 0 <= self.menu_choice <= 2
        &&& 0 <= self.elapsed_time <= COORD_LIMIT
    }

    /// Lays the title screen out: the logo scaled up beside the menu, the
    /// cursor on the first entry, a medium and a large platform as scenery
    /// and the player sprite loafing on one of them.
    pub fn new(
        logo: Texture,
        cursor: Texture,
        menu: Texture,
        platform: Platform,
        platform2: Platform,
        ubi: AnimatedTexture,
    ) -> (s: StartScreen)
        requires
            logo.wf(),
            cursor.wf(),
            menu.wf(),
            platform.wf(),
            platform.size == Size::Medium,
            platform2.wf(),
            platform2.size == Size::Large,
            ubi.wf(),
        ensures
            s.wf(),
            !s.started,
            s.menu_choice == 0,
            s.elapsed_time == 0,
            s.platform.x == -170_000 && s.platform.y == -60_000,
            s.platform2.x == -350_000 && s.platform2.y == -200_000,
            ({
                let lw = crate::clamp_coord(logo.width * 1_200 / 1_000);
                s.logo == (Texture {
                    width: lw as i64,
                    height: crate::clamp_coord(logo.height * 1_200 / 1_000) as i64,
                    x: (SCREEN_WIDTH / 3 - lw / 2 + 50_000) as i64,
                    y: 70_000,
                    ..logo
                })
            }),
            s.cursor == (Texture {
                x: (SCREEN_WIDTH / 3 - cursor.width / 2 + 5_000) as i64,
                y: -45_000i64,
                ..cursor
            }),
            s.menu == (Texture { x: 160_000, y: -85_000i64, ..menu }),
            s.ubi.x == -180_000,
            s.ubi.y as int == -12_000 + ubi.height / 2,
    {
        let mut logo = logo;
        logo.scale(1_200);
        let lw = logo.width;
        logo.set_position(SCREEN_WIDTH / 3 - lw / 2 + 50_000, 70_000);

        let mut menu = menu;
        menu.set_position(160_000, -85_000);

        let mut cursor = cursor;
        let cw = cursor.width;
        cursor.set_position(SCREEN_WIDTH / 3 - cw / 2 + 5_000, -45_000);

        let mut platform = platform;
        platform.set_position(-170_000, -60_000);

        let mut platform2 = platform2;
        platform2.set_position(-350_000, -200_000);

        let mut ubi = ubi;
        let h = ubi.height / 2;
        ubi.set_position(-180_000, -12_000 + h);

        StartScreen {
            logo,
            started: false,
            cursor,
            platform,
            platform2,
            ubi,
            menu,
            menu_choice: 0,
            elapsed_time: 0,
        }
    }

    /// One frame of the title screen: the loafing sprite animates, the
    /// decoration clock ticks, and the menu cursor follows consumed
    /// up/down edges, clamped to the three entries.
    pub fn update(&mut self, input: &mut InputManager, dt: i64)
        requires
            old(self).wf(),
            old(input).wf(),
            0 <= dt <= MAX_DT,
        ensures
            final(self).wf(),
            final(input).wf(),
            final(self).menu_choice as int == spec_menu_step(
                old(self).menu_choice as int,
                2,
                !old(input).keys@[KEY_UP as int] && old(input).prev_keys@[KEY_UP as int],
                !old(input).keys@[KEY_DOWN as int] && old(input).prev_keys@[KEY_DOWN as int],
            ),
            final(self).cursor == (Texture {
                y: spec_cursor_y(
                    old(self).cursor.y as int,
                    old(self).menu_choice as int,
                    2,
                    !old(input).keys@[KEY_UP as int] && old(input).prev_keys@[KEY_UP as int],
                    !old(input).keys@[KEY_DOWN as int] && old(input).prev_keys@[KEY_DOWN as int],
                ) as i64,
                ..old(self).cursor
            }),
            final(input).keys == old(input).keys,
            final(input).prev_keys@ == spec_menu_input(*old(input)),
            final(self).started == old(self).started,
            final(self).platform == old(self).platform,
            final(self).platform2 == old(self).platform2,
            final(self).menu == old(self).menu,
    {
        self.ubi.update(dt);

        if self.elapsed_time > 999_000 {
            self.elapsed_time = 1_000;
        }
        self.elapsed_time = self.elapsed_time + dt;

        if input.key_went_up(KEY_DOWN) && self.menu_choice < 2 {
            self.menu_choice = self.menu_choice + 1;
            self.cursor.translate(0, -40_000);
        }
        if input.key_went_up(KEY_UP) && self.menu_choice > 0 {
            self.menu_choice = self.menu_choice - 1;
            self.cursor.translate(0, 40_000);
        }
    }
}

/// The store screen: a panel and a banner, left with a cancel input.
pub struct Store {
    pub panel: Texture,
    pub coming_soon: Texture,
    pub elapsed_time: i64,
    pub exited: bool,
}

impl Store {
    pub open spec fn wf(&self) -> bool {
        &&& self.panel.wf()
        &&& self.coming_soon.wf()
        &&& 0 <= self.elapsed_time <= COORD_LIMIT
    }

    pub fn new(panel: Texture, coming_soon: Texture) -> (s: Store)
        requires
            panel.wf(),
            coming_soon.wf(),
        ensures
            s.wf(),
            !s.exited,
            s.elapsed_time == 0,
            s.panel == panel,
            s.coming_soon == coming_soon,
    {
        Store { panel, coming_soon, elapsed_time: 0, exited: false }
    }

    /// Reads and consumes the exit latch set by a cancel input.
    pub fn exited(&mut self) -> (r: bool)
        ensures
            r == old(self).exited,
            *final(self) == (Store { exited: false, ..*old(self) }),
    {
        let temp = self.exited;
        self.exited = false;
        temp
    }

    /// One frame of the store screen: an escape release latches the exit
    /// flag; the decoration clock ticks.
    pub fn update(&mut self, input: &mut InputManager, dt: i64)
        requires
            old(self).wf(),
            old(input).wf(),
            0 <= dt <= MAX_DT,
        ensures
            final(self).wf(),
            final(input).wf(),
            final(self).exited == (old(self).exited || (!old(input).keys@[KEY_ESCAPE as int]
                && old(input).prev_keys@[KEY_ESCAPE as int])),
            final(input).keys == old(input).keys,
            final(input).prev_keys@ == (if !old(input).keys@[KEY_ESCAPE as int] {
                old(input).prev_keys@.update(KEY_ESCAPE as int, false)
            } else {
                old(input).prev_keys@
            }),
            final(self).panel == old(self).panel,
            final(self).coming_soon == old(self).coming_soon,
    {
        if input.key_went_up(KEY_ESCAPE) {
            self.exited = true;
        }

        if self.elapsed_time > 999_000 {
            self.elapsed_time = 1_000;
        }
        self.elapsed_time = self.elapsed_time + dt;
    }
}

/// The pause screen: panel, title, menu and cursor over four entries.
pub struct Pause {
    pub menu: Texture,
    pub cursor: Texture,
    pub panel: Texture,
    pub menu_choice: i8,
    pub title: Texture,
    pub elapsed_time: i64,
}

impl Pause {
    pub open spec fn wf(&self) -> bool {
        &&& self.menu.wf()
        &&& self.cursor.wf()
        &&& self.panel.wf()
        &&& self.title.wf()
        &&& 0 <= self.menu_choice <= 3
        &&& 0 <= self.elapsed_time <= COORD_LIMIT
    }

    pub fn new(menu: Texture, cursor: Texture, panel: Texture, title: Texture) -> (s: Pause)
        requires
            menu.wf(),
            cursor.wf(),
            panel.wf(),
            title.wf(),
        ensures
            s.wf(),
            s.menu_choice == 0,
            s.elapsed_time == 0,
    {
        let mut menu = menu;
        menu.set_position(0, -50_000);

        let mut cursor = cursor;
        cursor.scale(1_300);
        cursor.set_position(0, 10_000);

        let mut title = title;
        title.set_position(0, 80_000);

        Pause { menu, cursor, panel, menu_choice: 0, title, elapsed_time: 0 }
    }

    /// One frame of the pause screen: the decoration clock ticks and the
    /// menu cursor follows consumed up/down edges over the four entries.
    pub fn update(&mut self, input: &mut InputManager, dt: i64)
        requires
            old(self).wf(),
            old(input).wf(),
            0 <= dt <= MAX_DT,
        ensures
            final(self).wf(),
            final(input).wf(),
            final(self).menu_choice as int == spec_menu_step(
                old(self).menu_choice as int,
                3,
                !old(input).keys@[KEY_UP as int] && old(input).prev_keys@[KEY_UP as int],
                !old(input).keys@[KEY_DOWN as int] && old(input).prev_keys@[KEY_DOWN as int],
            ),
            final(self).cursor == (Texture {
                y: spec_cursor_y(
                    old(self).cursor.y as int,
                    old(self).menu_choice as int,
                    3,
                    !old(input).keys@[KEY_UP as int] && old(input).prev_keys@[KEY_UP as int],
                    !old(input).keys@[KEY_DOWN as int] && old(input).prev_keys@[KEY_DOWN as int],
                ) as i64,
                ..old(self).cursor
            }),
            final(input).keys == old(input).keys,
            final(input).prev_keys@ == spec_menu_input(*old(input)),
    {
        if self.elapsed_time > 999_000 {
            self.elapsed_time = 1_000;
        }
        self.elapsed_time = self.elapsed_time + dt;

        if input.key_went_up(KEY_DOWN) && self.menu_choice < 3 {
            self.menu_choice = self.menu_choice + 1;
            self.cursor.translate(0, -40_000);
        }
        if input.key_went_up(KEY_UP) && self.menu_choice > 0 {
            self.menu_choice = self.menu_choice - 1;
            self.cursor.translate(0, 40_000);
        }
    }
}

/// The game-over screen: panel, banner, menu and cursor over three
/// entries.
pub struct GameOver {
    pub texture: Texture,
    pub menu: Texture,
    pub cursor: Texture,
    pub menu_choice: i8,
    pub elapsed_time: i64,
    pub panel: Texture,
}

impl GameOver {
    pub open spec fn wf(&self) -> bool {
        &&& self.texture.wf()
        &&& self.menu.wf()
        &&& self.cursor.wf()
        &&& self.panel.wf()
        &&& 0 <= self.menu_choice <= 2
        &&& 0 <= self.elapsed_time <= COORD_LIMIT
    }

    pub fn new(texture: Texture, menu: Texture, cursor: Texture, panel: Texture) -> (s: GameOver)
        requires
            texture.wf(),
            menu.wf(),
            cursor.wf(),
            panel.wf(),
        ensures
            s.wf(),
            s.menu_choice == 0,
            s.elapsed_time == 0,
    {
        let mut texture = texture;
        texture.set_y(80_000);

        let mut menu = menu;
        menu.set_position(0, -50_000);

        let mut cursor = cursor;
        cursor.set_position(0, -10_000);

        GameOver { texture, menu, cursor, menu_choice: 0, elapsed_time: 0, panel }
    }

    /// One frame of the game-over screen: the decoration clock ticks and
    /// the menu cursor follows consumed up/down edges over the three
    /// entries.
    pub fn update(&mut self, input: &mut InputManager, dt: i64)
        requires
            old(self).wf(),
            old(input).wf(),
            0 <= dt <= MAX_DT,
        ensures
            final(self).wf(),
            final(input).wf(),
            final(self).menu_choice as int == spec_menu_step(
                old(self).menu_choice as int,
                2,
                !old(input).keys@[KEY_UP as int] && old(input).prev_keys@[KEY_UP as int],
                !old(input).keys@[KEY_DOWN as int] && old(input).prev_keys@[KEY_DOWN as int],
            ),
            final(self).cursor == (Texture {
                y: spec_cursor_y(
                    old(self).cursor.y as int,
                    old(self).menu_choice as int,
                    2,
                    !old(input).keys@[KEY_UP as int] && old(input).prev_keys@[KEY_UP as int],
                    !old(input).keys@[KEY_DOWN as int] && old(input).prev_keys@[KEY_DOWN as int],
                ) as i64,
                ..old(self).cursor
            }),
            final(input).keys == old(input).keys,
            final(input).prev_keys@ == spec_menu_input(*old(input)),
    {
        if self.elapsed_time > 999_000 {
            self.elapsed_time = 1_000;
        }
        self.elapsed_time = self.elapsed_time + dt;

        if input.key_went_up(KEY_DOWN) && self.menu_choice < 2 {
            self.menu_choice = self.menu_choice + 1;
            self.cursor.translate(0, -40_000);
        }
        if input.key_went_up(KEY_UP) && self.menu_choice > 0 {
            self.menu_choice = self.menu_choice - 1;
            self.cursor.translate(0, 40_000);
        }
    }
}

} // verus!
