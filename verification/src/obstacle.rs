//! Obstacles: boxes that stand on the ground.

use vstd::prelude::*;
use crate::engine::{
    default_line, lemma_with_lines_twice, lemma_with_no_lines, Canvas, Color, DrawParameters,
    LineView,
};
use crate::projection::{Point3D, Projection, ProjectionView};
use crate::rectangle::{Rectangle, RectangleView};

verus! {

/// A box: its footprint on the ground and how high it rises above it.
#[derive(Clone, Copy, Debug)]
pub struct Obstacle {
    base: Rectangle,
    height: i32,
}

pub struct ObstacleView {
    pub base: RectangleView,
    pub height: int,
}

impl View for Obstacle {
    type V = ObstacleView;

    closed spec fn view(&self) -> ObstacleView {
        ObstacleView { base: self.base@, height: self.height as int }
    }
}

impl ObstacleView {
    /// The upright edge at corner `i` of the box standing on the level
    /// `y_level`, as the camera draws it.
    pub open spec fn upright(
        self,
        i: int,
        y_level: int,
        camera: ProjectionView,
        params: DrawParameters,
        width: int,
        height: int,
    ) -> Seq<LineView> {
        camera.line(
            self.base.corners(y_level)[i],
            self.base.corners(y_level + self.height)[i],
            params,
            width,
            height,
        )
    }

    /// The upright edges at the first `n` corners, in the order of the
    /// corners.
    pub open spec fn uprights(
        self,
        n: int,
        y_level: int,
        camera: ProjectionView,
        params: DrawParameters,
        width: int,
        height: int,
    ) -> Seq<LineView>
        decreases n,
    {
        if n <= 0 {
            Seq::empty()
        } else {
            self.uprights(n - 1, y_level, camera, params, width, height) + self.upright(
                n - 1,
                y_level,
                camera,
                params,
                width,
                height,
            )
        }
    }

    /// The box standing on the level `y_level` as the camera draws it: the
    /// outline of the bottom, that of the top, then the upright edges. A
    /// box with no corner of its footprint in view is left out.
    pub open spec fn wireframe(
        self,
        y_level: int,
        camera: ProjectionView,
        params: DrawParameters,
        width: int,
        height: int,
    ) -> Seq<LineView> {
        if self.base.in_view(camera) {
            self.base.outline(y_level, camera, params, width, height) + self.base.outline(
                y_level + self.height,
                camera,
                params,
                width,
                height,
            ) + self.uprights(4, y_level, camera, params, width, height)
        } else {
            Seq::empty()
        }
    }
}

impl Obstacle {
    pub fn new(center: (i32, i32), size: (u32, u32), height: i32) -> (obstacle: Obstacle)
        ensures
            obstacle@ == (ObstacleView {
                base: RectangleView {
                    center: (center.0 as int, center.1 as int),
                    size: (size.0 as int, size.1 as int),
                },
                height: height as int,
            }),
    {
        Obstacle { base: Rectangle::new(center, size), height }
    }

    /// Draws the box standing on the level `y_level`.
    pub fn draw(&self, projection: &Projection, y_level: i32, canvas: &mut Canvas)
        ensures
            final(canvas)@ == old(canvas)@.with_lines(
                self@.wireframe(
                    y_level as int,
                    projection@,
                    DrawParameters { color: Color::White, line_width: 1_000 },
                    old(canvas)@.width,
                    old(canvas)@.height,
                ),
            ),
    {
        let ghost c0 = canvas@;
        let ghost params = DrawParameters { color: Color::White, line_width: 1_000 };
        if !self.base.is_rectangle_in_view_range(projection) {
            proof {
                lemma_with_no_lines(c0);
            }
            return ;
        }
        let y_low: i64 = y_level as i64;
        let y_high: i64 = y_level as i64 + self.height as i64;

        self.base.draw(y_low, projection, canvas);
        self.base.draw(y_high, projection, canvas);
        self.draw_uprights(projection, y_level, canvas);
        proof {
            let bottom = self@.base.outline(y_low as int, projection@, params, c0.width, c0.height);
            let top = self@.base.outline(y_high as int, projection@, params, c0.width, c0.height);
            let edges = self@.uprights(4, y_level as int, projection@, params, c0.width, c0.height);
            lemma_with_lines_twice(c0, bottom, top);
            lemma_with_lines_twice(c0, bottom + top, edges);
        }
    }

    fn draw_uprights(&self, projection: &Projection, y_level: i32, canvas: &mut Canvas)
        ensures
            final(canvas)@ == old(canvas)@.with_lines(
                self@.uprights(
                    4,
                    y_level as int,
                    projection@,
                    DrawParameters { color: Color::White, line_width: 1_000 },
                    old(canvas)@.width,
                    old(canvas)@.height,
                ),
            ),
    {
        let ghost c0 = canvas@;
        let ghost params = DrawParameters { color: Color::White, line_width: 1_000 };
        let y_low: i64 = y_level as i64;
        let y_high: i64 = y_level as i64 + self.height as i64;
        let corners_low = self.base.get_corners(y_low);
        let corners_high = self.base.get_corners(y_high);
        assert(forall|i: int|
            0 <= i < 4 ==> corners_low@.map_values(|p: Point3D| p@)[i] == (
            #[trigger] corners_low@[i])@);
        assert(forall|i: int|
            0 <= i < 4 ==> corners_high@.map_values(|p: Point3D| p@)[i] == (
            #[trigger] corners_high@[i])@);
        proof {
            lemma_with_no_lines(c0);
        }

        for i in 0..4
            invariant
                forall|j: int|
                    0 <= j < 4 ==> (#[trigger] corners_low@[j])@ == self@.base.corners(
                        y_level as int,
                    )[j],
                forall|j: int|
                    0 <= j < 4 ==> (#[trigger] corners_high@[j])@ == self@.base.corners(
                        y_level + self@.height,
                    )[j],
                params == (DrawParameters { color: Color::White, line_width: 1_000 }),
                canvas@ == c0.with_lines(
                    self@.uprights(i as int, y_level as int, projection@, params, c0.width, c0.height),
                ),
        {
            projection.draw_line(canvas, &corners_low[i], &corners_high[i], default_line());
            proof {
                lemma_with_lines_twice(
                    c0,
                    self@.uprights(i as int, y_level as int, projection@, params, c0.width, c0.height),
                    self@.upright(i as int, y_level as int, projection@, params, c0.width, c0.height),
                );
            }
        }
    }

    pub fn get_base(&self) -> (base: &Rectangle)
        ensures
            base@ == self@.base,
    {
        &self.base
    }

    pub fn get_height(&self) -> (height: i32)
        ensures
            height == self@.height,
    {
        self.height
    }

    pub fn check_collision(&self, other: &Rectangle) -> (hit: bool)
        ensures
            hit == self@.base.collides(other@),
    {
        self.base.collision(other)
    }

    pub fn check_collision_obst(&self, other: &Obstacle) -> (hit: bool)
        ensures
            hit == self@.base.collides(other@.base),
    {
        self.base.collision(&other.base)
    }
}

} // verus!
