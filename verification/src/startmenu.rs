//! The start menu: the title and the keys, shown until a run is asked for.

use vstd::prelude::*;
use crate::engine::{
    draw_text, lemma_with_texts_twice, text_at, text_instructions, text_title, Canvas, Color,
    MoveKeys, PointScreen, PointScreenView, TextParameters, TextView,
};

verus! {

pub const TITLE_X: i32 = -120_000;

pub const TITLE_Y: i32 = 210_000;

pub const INSTRUCTIONS_X: i32 = -80_000;

pub const INSTRUCTIONS_Y1: i32 = 180_000;

pub const INSTRUCTIONS_Y_STEP: i32 = -20_000;

pub struct StartMenu {
    level_start: bool,
}

pub struct StartMenuView {
    pub level_start: bool,
}

impl View for StartMenu {
    type V = StartMenuView;

    closed spec fn view(&self) -> StartMenuView {
        StartMenuView { level_start: self.level_start }
    }
}

/// The three lines that name the keys, from the top, on a window of the
/// given size.
pub open spec fn instructions(width: int, height: int) -> Seq<TextView> {
    let params = TextParameters { color: Color::White, font_size: 20_000 };
    let x = INSTRUCTIONS_X as int;
    let y = INSTRUCTIONS_Y1 as int;
    let step = INSTRUCTIONS_Y_STEP as int;
    seq![
        text_at(" [W] : Accelerate"@, PointScreenView { x, y }, params, width, height),
        text_at("[A|D]: Left|Right"@, PointScreenView { x, y: y + step }, params, width, height),
        text_at(" [S] : Decelerate"@, PointScreenView { x, y: y + 2 * step }, params, width, height),
    ]
}

/// The title on a window of the given size.
pub open spec fn title(width: int, height: int) -> TextView {
    text_at(
        "Phoenix"@,
        PointScreenView { x: TITLE_X as int, y: TITLE_Y as int },
        TextParameters { color: Color::Red, font_size: 80_000 },
        width,
        height,
    )
}

impl StartMenuView {
    /// The menu after an update: the key to accelerate asks for a run, and
    /// what was asked for stays asked for.
    pub open spec fn step(self, keys: MoveKeys) -> StartMenuView {
        StartMenuView { level_start: self.level_start || keys.up }
    }
}

impl StartMenu {
    pub fn new() -> (menu: StartMenu)
        ensures
            !menu@.level_start,
    {
        StartMenu { level_start: false }
    }

    /// Draws the title, then the keys.
    pub fn draw(&self, canvas: &mut Canvas)
        ensures
            final(canvas)@ == old(canvas)@.with_texts(
                seq![title(old(canvas)@.width, old(canvas)@.height)] + instructions(
                    old(canvas)@.width,
                    old(canvas)@.height,
                ),
            ),
    {
        let ghost c0 = canvas@;
        draw_text(canvas, "Phoenix", PointScreen { x: TITLE_X, y: TITLE_Y }, text_title());
        self.draw_instructions(canvas);
        proof {
            lemma_with_texts_twice(
                c0,
                seq![title(c0.width, c0.height)],
                instructions(c0.width, c0.height),
            );
        }
    }

    pub fn update(&mut self, active_keys: &MoveKeys)
        ensures
            final(self)@ == old(self)@.step(*active_keys),
    {
        if active_keys.up {
            self.level_start = true;
        }
    }

    pub fn request_level_start(&self) -> (requested: bool)
        ensures
            requested == self@.level_start,
    {
        self.level_start
    }

    fn draw_instructions(&self, canvas: &mut Canvas)
        ensures
            final(canvas)@ == old(canvas)@.with_texts(
                instructions(old(canvas)@.width, old(canvas)@.height),
            ),
    {
        let ghost c0 = canvas@;
        draw_text(
            canvas,
            " [W] : Accelerate",
            PointScreen { x: INSTRUCTIONS_X, y: INSTRUCTIONS_Y1 },
            text_instructions(),
        );
        draw_text(
            canvas,
            "[A|D]: Left|Right",
            PointScreen { x: INSTRUCTIONS_X, y: INSTRUCTIONS_Y1 + INSTRUCTIONS_Y_STEP },
            text_instructions(),
        );
        draw_text(
            canvas,
            " [S] : Decelerate",
            PointScreen { x: INSTRUCTIONS_X, y: INSTRUCTIONS_Y1 + 2 * INSTRUCTIONS_Y_STEP },
            text_instructions(),
        );
        assert(canvas@.texts =~= c0.texts + instructions(c0.width, c0.height));
    }
}

} // verus!
