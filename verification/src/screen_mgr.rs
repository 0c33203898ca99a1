//! The top-level screen state machine.
//!
//! Exactly one screen is active per frame: the title screen, the store,
//! the live level, the pause menu or the game-over menu. Menu cursor plus
//! a confirm release drive the transitions; the level reports pause and
//! game over itself. The background decoration layer updates every frame,
//! whatever screen is active.

use vstd::prelude::*;

use crate::MAX_DT;
use crate::background::{Background, spec_background_step};
use crate::game::{Level, GAME_OVER_DELAY};
use crate::input_mgr::{InputManager, KEY_RETURN, KEY_UP, KEY_DOWN, KEY_ESCAPE};
use crate::platform::Type;
use crate::screens::{GameOver, Pause, Screen, StartScreen, Store, spec_menu_input, spec_menu_step};
use crate::shape::{BOTTOM, LEFT};

verus! {

/// A released confirm key whose transition flag is pending: what drives a
/// menu selection.
pub open spec fn spec_confirm_edge(pre_in: InputManager) -> bool {
    !pre_in.keys@[KEY_RETURN as int] && pre_in.prev_keys@[KEY_RETURN as int]
}

/// A released cancel key whose transition flag is pending.
pub open spec fn spec_cancel_edge(pre_in: InputManager) -> bool {
    !pre_in.keys@[KEY_ESCAPE as int] && pre_in.prev_keys@[KEY_ESCAPE as int]
}

/// A released up (or down) key whose transition flag is pending: what
/// moves a menu cursor.
pub open spec fn spec_up_edge(pre_in: InputManager) -> bool {
    !pre_in.keys@[KEY_UP as int] && pre_in.prev_keys@[KEY_UP as int]
}

pub open spec fn spec_down_edge(pre_in: InputManager) -> bool {
    !pre_in.keys@[KEY_DOWN as int] && pre_in.prev_keys@[KEY_DOWN as int]
}

/// What the transition flags become after one frame on a menu screen: the
/// up and down edges are consumed by the cursor, then the confirm edge by
/// the selection.
pub open spec fn spec_menu_confirm_input(pre_in: InputManager) -> Seq<bool> {
    let m = spec_menu_input(pre_in);
    if !pre_in.keys@[KEY_RETURN as int] {
        m.update(KEY_RETURN as int, false)
    } else {
        m
    }
}

pub struct ScreenMgr {
    pub level: Level,
    pub start: StartScreen,
    pub game_over: GameOver,
    pub pause: Pause,
    pub store: Store,
    pub input: InputManager,
    pub current_screen: Screen,
    pub background: Background,
    pub exit: bool,
}

impl ScreenMgr {
    pub open spec fn wf(&self) -> bool {
        &&& self.level.wf()
        &&& self.start.wf()
        &&& self.game_over.wf()
        &&& self.pause.wf()
        &&& self.store.wf()
        &&& self.input.wf()
        &&& self.background.wf()
    }

    /// Gathers the pre-built screens around a fresh input manager; the
    /// title screen is active first.
    pub fn new(
        level: Level,
        start: StartScreen,
        game_over: GameOver,
        pause: Pause,
        store: Store,
        background: Background,
    ) -> (m: ScreenMgr)
        requires
            level.wf(),
            start.wf(),
            game_over.wf(),
            pause.wf(),
            store.wf(),
            background.wf(),
        ensures
            m.wf(),
            m.current_screen == Screen::Start,
            !m.exit,
            m.level == level,
            m.start == start,
            m.game_over == game_over,
            m.pause == pause,
            m.store == store,
            forall|k: int| 0 <= k < crate::input_mgr::KEY_COUNT ==> !m.input.keys@[k],
            forall|k: int| 0 <= k < crate::input_mgr::KEY_COUNT ==> !m.input.prev_keys@[k],
    {
        ScreenMgr {
            level,
            start,
            game_over,
            pause,
            store,
            input: InputManager::new(),
            current_screen: Screen::Start,
            background,
            exit: false,
        }
    }

    pub fn exited(&self) -> (r: bool)
        ensures
            r == self.exit,
    {
        self.exit
    }

    /// One frame: the background always updates; then exactly the active
    /// screen runs and decides the next screen. On the title screen the
    /// highlighted entry with a confirm release starts the game, opens the
    /// store or exits. The store returns to the title on cancel. The level
    /// hands over to the pause menu or, after the death delay, to the
    /// game-over menu. The game-over menu restarts the level, returns to
    /// the title, or exits. The pause menu resumes — with the level state
    /// exactly as it was, only unpaused — restarts, returns to the title,
    /// or exits.
    #[verifier::rlimit(100)]
    pub fn update(&mut self, dt: i64)
        requires
            old(self).wf(),
            0 <= dt <= MAX_DT,
            old(self).level.topbar.fish_score.value + 30 < u32::MAX,
            old(self).level.topbar.enemy_score.value + 4 + old(self).level.enemies.len()
                < u32::MAX,
            old(self).level.topbar.distance.value < u32::MAX,
        ensures
            final(self).wf(),
            spec_background_step(old(self).background, final(self).background, dt as int),
            final(self).input.keys == old(self).input.keys,
            ({
                let pre = *old(self);
                let fin = *final(self);
                let confirm = spec_confirm_edge(pre.input);
                match pre.current_screen {
                    Screen::Start => {
                        let mc = spec_menu_step(
                            pre.start.menu_choice as int,
                            2,
                            spec_up_edge(pre.input),
                            spec_down_edge(pre.input),
                        );
                        &&& fin.current_screen == (if mc == 0 && confirm {
                            Screen::Play
                        } else if mc == 1 && confirm {
                            Screen::Store
                        } else {
                            Screen::Start
                        })
                        &&& fin.exit == (pre.exit || (mc == 2 && confirm))
                        &&& fin.level == pre.level
                        &&& fin.start.menu_choice == mc
                        &&& fin.game_over == pre.game_over
                        &&& fin.pause == pre.pause
                        &&& fin.store == pre.store
                        &&& fin.input.prev_keys@ == spec_menu_confirm_input(pre.input)
                    },
                    Screen::Store => {
                        let out = pre.store.exited || spec_cancel_edge(pre.input);
                        &&& fin.current_screen == (if out {
                            Screen::Start
                        } else {
                            Screen::Store
                        })
                        &&& !fin.store.exited
                        &&& fin.level == pre.level
                        &&& fin.exit == pre.exit
                        &&& fin.start == pre.start
                        &&& fin.game_over == pre.game_over
                        &&& fin.pause == pre.pause
                        &&& fin.input.prev_keys@ == (if !pre.input.keys@[KEY_ESCAPE as int] {
                            pre.input.prev_keys@.update(KEY_ESCAPE as int, false)
                        } else {
                            pre.input.prev_keys@
                        })
                    },
                    Screen::Play => {
                        &&& (fin.current_screen == Screen::Play || fin.current_screen
                            == Screen::GameOver || fin.current_screen == Screen::Pause)
                        &&& (fin.current_screen == Screen::Pause <==> fin.level.paused)
                        &&& (fin.current_screen == Screen::GameOver ==> fin.level.player.is_dead
                            && fin.level.game_over_delay > GAME_OVER_DELAY)
                        &&& (pre.level.player.is_dead ==> fin.level.player.x
                            == pre.level.player.x)
                        &&& (!pre.level.paused ==> fin.level.paused == spec_cancel_edge(
                            pre.input,
                        ))
                        &&& (pre.level.paused ==> fin.level == (Level {
                            game_over_delay: fin.level.game_over_delay,
                            rand: fin.level.rand,
                            ..pre.level
                        }))
                        &&& fin.exit == pre.exit
                        &&& fin.start == pre.start
                        &&& fin.game_over == pre.game_over
                        &&& fin.pause == pre.pause
                        &&& fin.store == pre.store
                        &&& (!pre.level.paused ==> fin.input.prev_keys@ == (if !pre.input.keys@[KEY_ESCAPE as int] {
                            pre.input.prev_keys@.update(KEY_ESCAPE as int, false)
                        } else {
                            pre.input.prev_keys@
                        }))
                        &&& (pre.level.paused ==> fin.input == pre.input)
                    },
                    Screen::GameOver => {
                        let mc = spec_menu_step(
                            pre.game_over.menu_choice as int,
                            2,
                            spec_up_edge(pre.input),
                            spec_down_edge(pre.input),
                        );
                        &&& fin.current_screen == (if mc == 0 && confirm {
                            Screen::Play
                        } else if mc == 1 && confirm {
                            Screen::Start
                        } else {
                            Screen::GameOver
                        })
                        &&& fin.exit == (pre.exit || (mc == 2 && confirm))
                        &&& (mc == 0 && confirm ==> !fin.level.player.is_dead
                            && fin.level.game_over_delay == 0 && fin.level.enemies.len() == 0
                            && fin.level.topbar.fish_score.value == 0
                            && fin.level.topbar.enemy_score.value == 0
                            && fin.level.topbar.distance.value == 0)
                        &&& (mc == 0 && confirm ==> (forall|j: int|
                            0 <= j < 4 ==> (#[trigger] fin.level.platforms[j]).platform_type
                                == Type::Plain) && fin.level.platforms[0].x == LEFT + 100_000
                            && fin.level.platforms[1].x == 1_060_000 && fin.level.platforms[2].x
                            == 800_000 && fin.level.platforms[3].x == 510_000
                            && fin.level.player.x == (BOTTOM + 48_000) as i64
                            && fin.level.player.y == 120_000 && fin.level.player.velocity_x == 0
                            && fin.level.player.velocity_y == 0)
                        &&& (!(mc == 0 && confirm) ==> fin.level == pre.level)
                        &&& fin.start == pre.start
                        &&& fin.pause == pre.pause
                        &&& fin.store == pre.store
                        &&& fin.input.prev_keys@ == spec_menu_confirm_input(pre.input)
                    },
                    Screen::Pause => {
                        let mc = spec_menu_step(
                            pre.pause.menu_choice as int,
                            3,
                            spec_up_edge(pre.input),
                            spec_down_edge(pre.input),
                        );
                        &&& fin.current_screen == (if (mc == 0 || mc == 1) && confirm {
                            Screen::Play
                        } else if mc == 2 && confirm {
                            Screen::Start
                        } else {
                            Screen::Pause
                        })
                        &&& fin.exit == (pre.exit || (mc == 3 && confirm))
                        &&& (mc == 0 && confirm ==> fin.level == (Level {
                            paused: false,
                            rand: fin.level.rand,
                            ..pre.level
                        }))
                        &&& (confirm && (mc == 0 || mc == 2) ==> !fin.level.paused)
                        &&& (!confirm ==> fin.level == pre.level)
                        &&& fin.start == pre.start
                        &&& fin.game_over == pre.game_over
                        &&& fin.store == pre.store
                        &&& fin.input.prev_keys@ == spec_menu_confirm_input(pre.input)
                    },
                }
            }),
    {
        self.background.update(dt);
        match self.current_screen {
            Screen::Start => {
                self.start.update(&mut self.input, dt);
                if self.start.menu_choice == 0 && self.input.key_went_up(KEY_RETURN) {
                    self.current_screen = Screen::Play;
                } else if self.start.menu_choice == 1 && self.input.key_went_up(KEY_RETURN) {
                    self.current_screen = Screen::Store;
                } else if self.start.menu_choice == 2 && self.input.key_went_up(KEY_RETURN) {
                    self.exit = true;
                }
            },
            Screen::Store => {
                self.store.update(&mut self.input, dt);
                if self.store.exited() {
                    self.current_screen = Screen::Start;
                }
            },
            Screen::Play => {
                self.level.update(&mut self.input, dt);
                if self.level.game_over(dt) {
                    self.current_screen = Screen::GameOver;
                }
                if self.level.paused() {
                    self.current_screen = Screen::Pause;
                }
            },
            Screen::GameOver => {
                self.game_over.update(&mut self.input, dt);
                if self.game_over.menu_choice == 0 && self.input.key_went_up(KEY_RETURN) {
                    self.current_screen = Screen::Play;
                    self.level.restart();
                } else if self.game_over.menu_choice == 1 && self.input.key_went_up(KEY_RETURN) {
                    self.current_screen = Screen::Start;
                } else if self.game_over.menu_choice == 2 && self.input.key_went_up(KEY_RETURN) {
                    self.exit = true;
                }
            },
            Screen::Pause => {
                self.pause.update(&mut self.input, dt);
                if self.pause.menu_choice == 0 && self.input.key_went_up(KEY_RETURN) {
                    self.current_screen = Screen::Play;
                    self.level.resume();
                } else if self.pause.menu_choice == 1 && self.input.key_went_up(KEY_RETURN) {
                    self.current_screen = Screen::Play;
                    self.level.restart();
                    self.level.resume();
                } else if self.pause.menu_choice == 2 && self.input.key_went_up(KEY_RETURN) {
                    self.current_screen = Screen::Start;
                    self.level.resume();
                } else if self.pause.menu_choice == 3 && self.input.key_went_up(KEY_RETURN) {
                    self.exit = true;
                }
            },
        }
    }
}

} // verus!
