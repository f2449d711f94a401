//! What the game needs from its surroundings: the canvas that a frame is
//! drawn on, the keys that steer the craft, and the source of random
//! numbers.

use vstd::prelude::*;
use vstd::string::StringExecFns;

verus! {

#[derive(Clone, Copy, Debug, PartialEq, Eq, Structural)]
pub enum Color {
    Black,
    White,
    Red,
    Gray,
    Yellow,
}

pub const BACKGROUND_COLOR: Color = Color::Black;

/// How a line is drawn. The width is in thousandths of a pixel.
#[derive(Clone, Copy, Debug, PartialEq, Eq, Structural)]
pub struct DrawParameters {
    pub color: Color,
    pub line_width: u32,
}

/// How a text is drawn. The font size is in thousandths of a pixel.
#[derive(Clone, Copy, Debug, PartialEq, Eq, Structural)]
pub struct TextParameters {
    pub color: Color,
    pub font_size: u32,
}

pub fn default_line() -> (params: DrawParameters)
    ensures
        params == (DrawParameters { color: Color::White, line_width: 1_000 }),
{
    DrawParameters { color: Color::White, line_width: 1_000 }
}

pub fn phoenix_line() -> (params: DrawParameters)
    ensures
        params == (DrawParameters { color: Color::Red, line_width: 2_000 }),
{
    DrawParameters { color: Color::Red, line_width: 2_000 }
}

pub fn grid_line() -> (params: DrawParameters)
    ensures
        params == (DrawParameters { color: Color::Gray, line_width: 250 }),
{
    DrawParameters { color: Color::Gray, line_width: 250 }
}

pub fn hud_line() -> (params: DrawParameters)
    ensures
        params == (DrawParameters { color: Color::Yellow, line_width: 2_000 }),
{
    DrawParameters { color: Color::Yellow, line_width: 2_000 }
}

pub fn text_default() -> (params: TextParameters)
    ensures
        params == (TextParameters { color: Color::Yellow, font_size: 20_000 }),
{
    TextParameters { color: Color::Yellow, font_size: 20_000 }
}

pub fn text_title() -> (params: TextParameters)
    ensures
        params == (TextParameters { color: Color::Red, font_size: 80_000 }),
{
    TextParameters { color: Color::Red, font_size: 80_000 }
}

pub fn text_instructions() -> (params: TextParameters)
    ensures
        params == (TextParameters { color: Color::White, font_size: 20_000 }),
{
    TextParameters { color: Color::White, font_size: 20_000 }
}

/// A point of the screen, relative to its middle: `x` to the right, `y` up.
#[derive(Clone, Copy, Debug, PartialEq, Eq)]
pub struct PointScreen {
    pub x: i32,
    pub y: i32,
}

pub struct PointScreenView {
    pub x: int,
    pub y: int,
}

impl View for PointScreen {
    type V = PointScreenView;

    open spec fn view(&self) -> PointScreenView {
        PointScreenView { x: self.x as int, y: self.y as int }
    }
}

/// A line of the frame, in window coordinates: from the top left corner,
/// `x` to the right, `y` down.
#[derive(Clone, Copy, Debug, PartialEq, Eq)]
pub struct Line {
    pub x1: i64,
    pub y1: i64,
    pub x2: i64,
    pub y2: i64,
    pub params: DrawParameters,
}

pub struct LineView {
    pub x1: int,
    pub y1: int,
    pub x2: int,
    pub y2: int,
    pub params: DrawParameters,
}

impl View for Line {
    type V = LineView;

    open spec fn view(&self) -> LineView {
        LineView {
            x1: self.x1 as int,
            y1: self.y1 as int,
            x2: self.x2 as int,
            y2: self.y2 as int,
            params: self.params,
        }
    }
}

/// A text of the frame, anchored at a point in window coordinates.
#[derive(Debug, PartialEq, Eq)]
pub struct Text {
    pub message: String,
    pub x: i64,
    pub y: i64,
    pub params: TextParameters,
}

pub struct TextView {
    pub message: Seq<char>,
    pub x: int,
    pub y: int,
    pub params: TextParameters,
}

impl View for Text {
    type V = TextView;

    open spec fn view(&self) -> TextView {
        TextView {
            message: self.message@,
            x: self.x as int,
            y: self.y as int,
            params: self.params,
        }
    }
}

/// The keys that are held down.
#[derive(Clone, Copy, Debug, PartialEq, Eq, Structural)]
pub struct MoveKeys {
    pub up: bool,
    pub down: bool,
    pub left: bool,
    pub right: bool,
}

/// The window coordinate of a screen coordinate `x`, in a window `width`
/// wide.
pub open spec fn window_x(x: int, width: int) -> int {
    x + width / 2
}

/// The window coordinate of a screen coordinate `y`, in a window `height`
/// high.
pub open spec fn window_y(y: int, height: int) -> int {
    -y + height / 2
}

/// The line between two screen points, in a window of the given size.
pub open spec fn line_between(
    p1: PointScreenView,
    p2: PointScreenView,
    params: DrawParameters,
    width: int,
    height: int,
) -> LineView {
    LineView {
        x1: window_x(p1.x, width),
        y1: window_y(p1.y, height),
        x2: window_x(p2.x, width),
        y2: window_y(p2.y, height),
        params,
    }
}

/// A text anchored at a screen point, in a window of the given size.
pub open spec fn text_at(
    message: Seq<char>,
    p: PointScreenView,
    params: TextParameters,
    width: int,
    height: int,
) -> TextView {
    TextView { message, x: window_x(p.x, width), y: window_y(p.y, height), params }
}

/// The frame under construction, on a window of a fixed size: the lines
/// drawn so far and, apart from them, the texts, each in the order drawn.
pub struct Canvas {
    width: u32,
    height: u32,
    lines: Vec<Line>,
    texts: Vec<Text>,
}

pub struct CanvasView {
    pub width: int,
    pub height: int,
    pub lines: Seq<LineView>,
    pub texts: Seq<TextView>,
}

impl View for Canvas {
    type V = CanvasView;

    closed spec fn view(&self) -> CanvasView {
        CanvasView {
            width: self.width as int,
            height: self.height as int,
            lines: self.lines@.map_values(|l: Line| l@),
            texts: self.texts@.map_values(|t: Text| t@),
        }
    }
}

impl CanvasView {
    /// The canvas with more lines drawn.
    pub open spec fn with_lines(self, more: Seq<LineView>) -> CanvasView {
        CanvasView { lines: self.lines + more, ..self }
    }

    /// The canvas with more texts drawn.
    pub open spec fn with_texts(self, more: Seq<TextView>) -> CanvasView {
        CanvasView { texts: self.texts + more, ..self }
    }
}

/// Drawing some lines and then more is drawing them all in that order.
pub proof fn lemma_with_lines_twice(canvas: CanvasView, first: Seq<LineView>, second: Seq<LineView>)
    ensures
        canvas.with_lines(first).with_lines(second) == canvas.with_lines(first + second),
{
    assert((canvas.lines + first) + second =~= canvas.lines + (first + second));
}

/// Drawing no lines leaves the canvas as it is.
pub proof fn lemma_with_no_lines(canvas: CanvasView)
    ensures
        canvas.with_lines(Seq::empty()) == canvas,
{
    assert(canvas.lines + Seq::<LineView>::empty() =~= canvas.lines);
}

/// Drawing some texts and then more is drawing them all in that order.
pub proof fn lemma_with_texts_twice(canvas: CanvasView, first: Seq<TextView>, second: Seq<TextView>)
    ensures
        canvas.with_texts(first).with_texts(second) == canvas.with_texts(first + second),
{
    assert((canvas.texts + first) + second =~= canvas.texts + (first + second));
}

/// Lines and texts are kept apart: which of them is drawn first makes no
/// difference.
pub proof fn lemma_lines_after_texts(canvas: CanvasView, texts: Seq<TextView>, lines: Seq<LineView>)
    ensures
        canvas.with_texts(texts).with_lines(lines) == canvas.with_lines(lines).with_texts(texts),
{
}

/// Drawing no texts leaves the canvas as it is.
pub proof fn lemma_with_no_texts(canvas: CanvasView)
    ensures
        canvas.with_texts(Seq::empty()) == canvas,
{
    assert(canvas.texts + Seq::<TextView>::empty() =~= canvas.texts);
}

impl Canvas {
    /// An empty canvas for a window of the given size.
    pub fn new(width: u32, height: u32) -> (canvas: Canvas)
        ensures
            canvas@ == (CanvasView {
                width: width as int,
                height: height as int,
                lines: Seq::empty(),
                texts: Seq::empty(),
            }),
    {
        let canvas = Canvas { width, height, lines: Vec::new(), texts: Vec::new() };
        assert(canvas@.lines =~= Seq::empty());
        assert(canvas@.texts =~= Seq::empty());
        canvas
    }

    pub fn get_lines(&self) -> (lines: &Vec<Line>)
        ensures
            lines@.map_values(|l: Line| l@) == self@.lines,
    {
        &self.lines
    }

    pub fn get_texts(&self) -> (texts: &Vec<Text>)
        ensures
            texts@.map_values(|t: Text| t@) == self@.texts,
    {
        &self.texts
    }
}

pub fn get_screen_width(canvas: &Canvas) -> (width: u32)
    ensures
        width == canvas@.width,
{
    canvas.width
}

pub fn get_screen_height(canvas: &Canvas) -> (height: u32)
    ensures
        height == canvas@.height,
{
    canvas.height
}

/// Wipes the canvas for the next frame.
pub fn clear_background(canvas: &mut Canvas)
    ensures
        final(canvas)@ == (CanvasView {
            lines: Seq::empty(),
            texts: Seq::empty(),
            ..old(canvas)@
        }),
{
    canvas.lines.clear();
    canvas.texts.clear();
    assert(canvas@.lines =~= Seq::empty());
    assert(canvas@.texts =~= Seq::empty());
}

/// Turns a screen point into window coordinates.
pub fn transform(canvas: &Canvas, p: PointScreen) -> (at: (i64, i64))
    ensures
        at.0 == window_x(p@.x, canvas@.width),
        at.1 == window_y(p@.y, canvas@.height),
{
    (p.x as i64 + (canvas.width / 2) as i64, -(p.y as i64) + (canvas.height / 2) as i64)
}

pub fn draw_line_personalized(
    canvas: &mut Canvas,
    p1: PointScreen,
    p2: PointScreen,
    draw_params: DrawParameters,
)
    ensures
        final(canvas)@ == old(canvas)@.with_lines(
            seq![line_between(p1@, p2@, draw_params, old(canvas)@.width, old(canvas)@.height)],
        ),
{
    let pt1 = transform(canvas, p1);
    let pt2 = transform(canvas, p2);
    let line = Line { x1: pt1.0, y1: pt1.1, x2: pt2.0, y2: pt2.1, params: draw_params };
    canvas.lines.push(line);
    assert(canvas@.lines =~= old(canvas)@.lines + seq![line@]);
}

pub fn draw_line(canvas: &mut Canvas, p1: PointScreen, p2: PointScreen)
    ensures
        final(canvas)@ == old(canvas)@.with_lines(
            seq![
                line_between(
                    p1@,
                    p2@,
                    DrawParameters { color: Color::White, line_width: 1_000 },
                    old(canvas)@.width,
                    old(canvas)@.height,
                ),
            ],
        ),
{
    draw_line_personalized(canvas, p1, p2, default_line());
}

pub fn draw_text(canvas: &mut Canvas, message: &str, p: PointScreen, params: TextParameters)
    ensures
        final(canvas)@ == old(canvas)@.with_texts(
            seq![text_at(message@, p@, params, old(canvas)@.width, old(canvas)@.height)],
        ),
{
    let pt = transform(canvas, p);
    let text = Text { message: String::from_str(message), x: pt.0, y: pt.1, params };
    canvas.texts.push(text);
    assert(canvas@.texts =~= old(canvas)@.texts + seq![text@]);
}

/// Calls `macroquad::rand::gen_range`, which scales the generator's next
/// number into the span between its two arguments. Whatever the generator
/// gives, the result lies between them, either end included.
#[verifier::external_body]
pub fn gen_range(low: i32, high: i32) -> (r: i32)
    ensures
        low <= high ==> low <= r <= high,
        high <= low ==> high <= r <= low,
{
    macroquad::rand::gen_range(low, high)
}

} // verus!
