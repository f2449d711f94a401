//! The game: the start menu, the run, and the pause after a run is over.

use vstd::prelude::*;
use crate::engine::{
    lemma_lines_after_texts, lemma_with_texts_twice, Canvas, LineView, MoveKeys, TextView,
};
use crate::level::{can_build, Level, LevelView};
use crate::startmenu::{instructions, title, StartMenu, StartMenuView};

verus! {

/// The time between two steps of the game: a fiftieth of a second.
pub const FRAME_UPDATE: i64 = 20;

/// How long the game rests after a run is over.
pub const GAMEOVER_TIME: i64 = 1_000;

#[derive(Clone, Copy, Debug, PartialEq, Eq, Structural)]
pub enum GameMode {
    StartMenu,
    StartToLevel,
    Level,
    ToGameOver,
    GameOver,
}

pub struct Game {
    mode: GameMode,
    level: Level,
    menu: StartMenu,
    last_update_time: i64,
    gameover_timestamp: i64,
}

pub struct GameView {
    pub mode: GameMode,
    pub level: LevelView,
    pub menu: StartMenuView,
    pub last_update_time: int,
    pub gameover_timestamp: int,
}

impl View for Game {
    type V = GameView;

    closed spec fn view(&self) -> GameView {
        GameView {
            mode: self.mode,
            level: self.level@,
            menu: self.menu@,
            last_update_time: self.last_update_time as int,
            gameover_timestamp: self.gameover_timestamp as int,
        }
    }
}

impl GameView {
    /// What holds of a game as it is built, whatever map the roll comes up
    /// with.
    pub open spec fn begun(
        self,
        camera_drop: int,
        map_width: int,
        map_length: int,
        time: int,
    ) -> bool {
        &&& self.mode == GameMode::StartMenu
        &&& self.level.begun(camera_drop, map_width, map_length, time)
        &&& self.menu == (StartMenuView { level_start: false })
        &&& self.last_update_time == time
        &&& self.gameover_timestamp == 0
    }

    /// A call at `current_time` comes too soon after the last step, and is
    /// skipped.
    pub open spec fn skips(self, current_time: int) -> bool {
        current_time - self.last_update_time < FRAME_UPDATE
    }

    /// What a step does in the mode the game is in. In the menu, the key
    /// to accelerate asks for a run. A run that was asked for begins. In a
    /// run, the level is updated, and the run ends when the craft has
    /// crashed or has reached the finish line. When a run has ended, the
    /// time is taken, and when the game has rested since then, the next
    /// run begins.
    pub open spec fn acted(self, current_time: int, keys: MoveKeys) -> GameView {
        match self.mode {
            GameMode::StartMenu => {
                let menu = self.menu.step(keys);
                GameView {
                    menu,
                    mode: if menu.level_start {
                        GameMode::StartToLevel
                    } else {
                        GameMode::StartMenu
                    },
                    ..self
                }
            },
            GameMode::StartToLevel => GameView {
                level: self.level.reset(current_time),
                mode: GameMode::Level,
                ..self
            },
            GameMode::Level => {
                let level = self.level.updated(current_time, keys);
                GameView {
                    level,
                    mode: if level.game_over() {
                        GameMode::ToGameOver
                    } else {
                        GameMode::Level
                    },
                    ..self
                }
            },
            GameMode::ToGameOver => GameView {
                gameover_timestamp: current_time,
                mode: GameMode::GameOver,
                ..self
            },
            GameMode::GameOver => if current_time - self.gameover_timestamp > GAMEOVER_TIME {
                GameView { mode: GameMode::Level, level: self.level.reset(current_time), ..self }
            } else {
                self
            },
        }
    }

    /// The game after a call at `current_time`: nothing changes where the
    /// call is skipped; otherwise the game takes a step, and the time of
    /// the step is kept.
    pub open spec fn step(self, current_time: int, keys: MoveKeys) -> GameView {
        if self.skips(current_time) {
            self
        } else {
            GameView { last_update_time: current_time, ..self.acted(current_time, keys) }
        }
    }

    /// The call at `current_time` stays within the limits of the machine.
    pub open spec fn can_step(self, current_time: int, keys: MoveKeys) -> bool {
        self.skips(current_time) || match self.mode {
            GameMode::StartToLevel => self.level.can_reset(current_time),
            GameMode::Level => self.level.can_update(current_time, keys),
            GameMode::GameOver => current_time - self.gameover_timestamp > GAMEOVER_TIME
                ==> self.level.can_reset(current_time),
            _ => true,
        }
    }

    /// The lines of the frame.
    pub open spec fn lines(self, width: int, height: int) -> Seq<LineView> {
        self.level.lines(width, height)
    }

    /// The texts of the frame: in the menu, the title and the keys come
    /// before those of the level.
    pub open spec fn texts(self, width: int, height: int) -> Seq<TextView> {
        if self.mode == GameMode::StartMenu {
            seq![title(width, height)] + instructions(width, height) + self.level.texts(
                width,
                height,
            )
        } else {
            self.level.texts(width, height)
        }
    }
}

/// A call that comes exactly one period after the last step is not
/// skipped, and one that comes any sooner is.
pub proof fn lemma_skip_boundary(game: GameView, current_time: int)
    ensures
        current_time - game.last_update_time == FRAME_UPDATE ==> !game.skips(current_time),
        current_time - game.last_update_time < FRAME_UPDATE ==> game.skips(current_time),
{
}

/// A skipped call does not count as a step: whether a later call is
/// skipped depends on the time since the last step alone.
pub proof fn lemma_skipped_call_keeps_time(
    game: GameView,
    first: int,
    second: int,
    keys: MoveKeys,
)
    requires
        game.skips(first),
    ensures
        game.step(first, keys).skips(second) == game.skips(second),
        second - game.last_update_time >= FRAME_UPDATE ==> !game.step(first, keys).skips(second),
{
}

impl Game {
    pub fn new(camera_drop: i32, map_width: i32, map_length: i32, time: i64) -> (game: Game)
        requires
            can_build(camera_drop as int, map_width as int, map_length as int, time as int),
        ensures
            game@.begun(camera_drop as int, map_width as int, map_length as int, time as int),
    {
        Game {
            mode: GameMode::StartMenu,
            level: Level::new(camera_drop, map_width, map_length, time),
            menu: StartMenu::new(),
            last_update_time: time,
            gameover_timestamp: 0,
        }
    }

    /// Whether the call at `current_time` stays within the limits of the
    /// machine: where it does not, `run` cannot be called.
    pub fn can_run(&self, current_time: i64, active_keys: &MoveKeys) -> (fits: bool)
        ensures
            fits == self@.can_step(current_time as int, *active_keys),
    {
        if self.skip_frame(current_time) {
            return true;
        }
        match self.mode {
            GameMode::StartToLevel => self.level.can_reset(current_time),
            GameMode::Level => self.level.can_update(current_time, active_keys),
            GameMode::GameOver => !self.gameover_rest_is_over(current_time)
                || self.level.can_reset(current_time),
            _ => true,
        }
    }

    pub fn run(&mut self, current_time: i64, active_keys: &MoveKeys)
        requires
            old(self)@.can_step(current_time as int, *active_keys),
        ensures
            final(self)@ == old(self)@.step(current_time as int, *active_keys),
    {
        if self.skip_frame(current_time) {
            return ;
        }
        match self.mode {
            GameMode::StartMenu => self.run_start_menu(active_keys),
            GameMode::StartToLevel => self.init_level(current_time),
            GameMode::Level => self.run_game(current_time, active_keys),
            GameMode::ToGameOver => self.init_gameover(current_time),
            GameMode::GameOver => self.run_gameover(current_time),
        }
        self.last_update_time = current_time;
    }

    /// Draws the frame: the menu while it is shown, and the level.
    pub fn draw(&self, canvas: &mut Canvas)
        ensures
            final(canvas)@ == old(canvas)@.with_lines(
                self@.lines(old(canvas)@.width, old(canvas)@.height),
            ).with_texts(self@.texts(old(canvas)@.width, old(canvas)@.height)),
    {
        let ghost c0 = canvas@;
        match self.mode {
            GameMode::StartMenu => {
                self.menu.draw(canvas);
                self.level.draw(canvas);
                proof {
                    let menu = seq![title(c0.width, c0.height)] + instructions(c0.width, c0.height);
                    let lines = self@.level.lines(c0.width, c0.height);
                    let texts = self@.level.texts(c0.width, c0.height);
                    lemma_lines_after_texts(c0, menu, lines);
                    lemma_with_texts_twice(c0.with_lines(lines), menu, texts);
                }
            },
            GameMode::StartToLevel => self.level.draw(canvas),
            GameMode::Level => self.level.draw(canvas),
            GameMode::ToGameOver => self.level.draw(canvas),
            GameMode::GameOver => self.level.draw(canvas),
        }
    }

    /// Whether a call at `current_time` comes too soon after the last
    /// step.
    pub fn skip_frame(&self, current_time: i64) -> (skip: bool)
        ensures
            skip == self@.skips(current_time as int),
    {
        if current_time as i128 - self.last_update_time as i128 >= FRAME_UPDATE as i128 {
            return false;
        }
        true
    }

    fn gameover_rest_is_over(&self, current_time: i64) -> (over: bool)
        ensures
            over == (current_time - self@.gameover_timestamp > GAMEOVER_TIME),
    {
        current_time as i128 - self.gameover_timestamp as i128 > GAMEOVER_TIME as i128
    }

    fn run_start_menu(&mut self, active_keys: &MoveKeys)
        requires
            old(self)@.mode == GameMode::StartMenu,
        ensures
            forall|time: int| final(self)@ == #[trigger] old(self)@.acted(time, *active_keys),
    {
        self.menu.update(active_keys);
        if self.menu.request_level_start() {
            self.mode = GameMode::StartToLevel;
        }
    }

    fn init_level(&mut self, current_time: i64)
        requires
            old(self)@.mode == GameMode::StartToLevel,
            old(self)@.level.can_reset(current_time as int),
        ensures
            forall|keys: MoveKeys| final(self)@ == #[trigger] old(self)@.acted(current_time as int, keys),
    {
        self.level.reset(current_time);
        self.mode = GameMode::Level;
    }

    fn run_game(&mut self, current_time: i64, active_keys: &MoveKeys)
        requires
            old(self)@.mode == GameMode::Level,
            old(self)@.level.can_update(current_time as int, *active_keys),
        ensures
            final(self)@ == old(self)@.acted(current_time as int, *active_keys),
    {
        self.level.update(current_time, active_keys);
        if self.level.check_game_over() {
            self.mode = GameMode::ToGameOver;
        }
    }

    fn init_gameover(&mut self, current_time: i64)
        requires
            old(self)@.mode == GameMode::ToGameOver,
        ensures
            forall|keys: MoveKeys| final(self)@ == #[trigger] old(self)@.acted(current_time as int, keys),
    {
        self.gameover_timestamp = current_time;
        self.mode = GameMode::GameOver;
    }

    fn run_gameover(&mut self, current_time: i64)
        requires
            old(self)@.mode == GameMode::GameOver,
            current_time - old(self)@.gameover_timestamp > GAMEOVER_TIME ==> old(
                self,
            )@.level.can_reset(current_time as int),
        ensures
            forall|keys: MoveKeys| final(self)@ == #[trigger] old(self)@.acted(current_time as int, keys),
    {
        if self.gameover_rest_is_over(current_time) {
            self.mode = GameMode::Level;
            self.level.reset(current_time);
        }
    }

    pub fn get_mode(&self) -> (mode: GameMode)
        ensures
            mode == self@.mode,
    {
        self.mode
    }

    pub fn get_level(&self) -> (level: &Level)
        ensures
            level@ == self@.level,
    {
        &self.level
    }
}

} // verus!
