//! Axis-aligned rectangles on the ground plane.

use vstd::prelude::*;
use crate::engine::{
    default_line, lemma_with_lines_twice, Canvas, Color, DrawParameters, LineView,
};
use crate::fixed::fits_i32;
use crate::projection::{Point3D, Point3DView, Projection, ProjectionView};

verus! {

/// A rectangle on the ground: its centre `(x, z)` and its full width and
/// depth.
#[derive(Clone, Copy, Debug)]
pub struct Rectangle {
    center: (i32, i32),
    size: (u32, u32),
}

pub struct RectangleView {
    pub center: (int, int),
    pub size: (int, int),
}

impl View for Rectangle {
    type V = RectangleView;

    closed spec fn view(&self) -> RectangleView {
        RectangleView {
            center: (self.center.0 as int, self.center.1 as int),
            size: (self.size.0 as int, self.size.1 as int),
        }
    }
}

/// How far apart two coordinates are.
pub open spec fn distance(a: int, b: int) -> int {
    if a >= b {
        a - b
    } else {
        b - a
    }
}

impl RectangleView {
    /// Neither side is negative.
    pub open spec fn wf(self) -> bool {
        self.size.0 >= 0 && self.size.1 >= 0
    }

    /// The two rectangles overlap or touch: on each axis the centres are
    /// no farther apart than half the sum of the extents.
    pub open spec fn collides(self, other: RectangleView) -> bool {
        &&& 2 * distance(self.center.0, other.center.0) <= self.size.0 + other.size.0
        &&& 2 * distance(self.center.1, other.center.1) <= self.size.1 + other.size.1
    }

    pub open spec fn left(self) -> int {
        self.center.0 - self.size.0 / 2
    }

    pub open spec fn right(self) -> int {
        self.center.0 + self.size.0 / 2
    }

    pub open spec fn near(self) -> int {
        self.center.1 - self.size.1 / 2
    }

    pub open spec fn far(self) -> int {
        self.center.1 + self.size.1 / 2
    }

    /// The four corners at height `y`: far left, far right, near right,
    /// near left.
    pub open spec fn corners(self, y: int) -> Seq<Point3DView> {
        seq![
            Point3DView { x: self.left(), y, z: self.far() },
            Point3DView { x: self.right(), y, z: self.far() },
            Point3DView { x: self.right(), y, z: self.near() },
            Point3DView { x: self.left(), y, z: self.near() },
        ]
    }

    /// The camera sees one of the corners.
    pub open spec fn in_view(self, camera: ProjectionView) -> bool {
        camera.sees(self.far()) || camera.sees(self.near())
    }

    /// The rectangle with its centre moved by `(dx, dz)`.
    pub open spec fn moved(self, dx: int, dz: int) -> RectangleView {
        RectangleView { center: (self.center.0 + dx, self.center.1 + dz), ..self }
    }

    /// The four sides at height `y` as the camera draws them, from the far
    /// side clockwise.
    pub open spec fn outline(
        self,
        y: int,
        camera: ProjectionView,
        params: DrawParameters,
        width: int,
        height: int,
    ) -> Seq<LineView> {
        let c = self.corners(y);
        camera.line(c[0], c[1], params, width, height) + camera.line(
            c[1],
            c[2],
            params,
            width,
            height,
        ) + camera.line(c[2], c[3], params, width, height) + camera.line(
            c[3],
            c[0],
            params,
            width,
            height,
        )
    }
}

/// Whether two rectangles collide does not depend on which is asked.
pub proof fn lemma_collision_symmetric(a: RectangleView, b: RectangleView)
    ensures
        a.collides(b) == b.collides(a),
{
}

/// Two rectangles with the same centre collide.
pub proof fn lemma_collision_same_center(a: RectangleView, b: RectangleView)
    requires
        a.wf(),
        b.wf(),
        a.center == b.center,
    ensures
        a.collides(b),
{
}

impl Rectangle {
    pub fn new(center: (i32, i32), size: (u32, u32)) -> (rectangle: Rectangle)
        ensures
            rectangle@ == (RectangleView {
                center: (center.0 as int, center.1 as int),
                size: (size.0 as int, size.1 as int),
            }),
    {
        Rectangle { center, size }
    }

    /// The view of a rectangle is well formed, and its centre is a pair of
    /// 32-bit coordinates.
    pub proof fn lemma_view(&self)
        ensures
            self@.wf(),
            fits_i32(self@.center.0),
            fits_i32(self@.center.1),
            self@.size.0 <= u32::MAX,
            self@.size.1 <= u32::MAX,
    {
    }

    pub fn collision(&self, other: &Rectangle) -> (hit: bool)
        ensures
            hit == self@.collides(other@),
    {
        let dx: i64 = if self.center.0 >= other.center.0 {
            self.center.0 as i64 - other.center.0 as i64
        } else {
            other.center.0 as i64 - self.center.0 as i64
        };
        let hh: i64 = self.size.0 as i64 + other.size.0 as i64;

        let dy: i64 = if self.center.1 >= other.center.1 {
            self.center.1 as i64 - other.center.1 as i64
        } else {
            other.center.1 as i64 - self.center.1 as i64
        };
        let vv: i64 = self.size.1 as i64 + other.size.1 as i64;
        if 2 * dy <= vv && 2 * dx <= hh {
            return true;
        }
        return false;
    }

    pub fn get_corners(&self, y: i64) -> (corners: [Point3D; 4])
        ensures
            corners@.map_values(|p: Point3D| p@) == self@.corners(y as int),
    {
        let x_left: i64 = self.center.0 as i64 - (self.size.0 / 2) as i64;
        let x_righ: i64 = self.center.0 as i64 + (self.size.0 / 2) as i64;
        let z_near: i64 = self.center.1 as i64 - (self.size.1 / 2) as i64;
        let z_far: i64 = self.center.1 as i64 + (self.size.1 / 2) as i64;

        let p1 = Point3D::new(x_left, y, z_far);
        let p2 = Point3D::new(x_righ, y, z_far);
        let p3 = Point3D::new(x_righ, y, z_near);
        let p4 = Point3D::new(x_left, y, z_near);

        let corners = [p1, p2, p3, p4];
        assert(corners@.map_values(|p: Point3D| p@) =~= self@.corners(y as int));
        corners
    }

    fn get_corners_xz(&self) -> (corners: [(i64, i64); 4])
        ensures
            forall|i: int|
                0 <= i < 4 ==> (#[trigger] corners@[i]).0 == self@.corners(0)[i].x
                    && corners@[i].1 == self@.corners(0)[i].z,
    {
        let corners = self.get_corners(0);
        assert(forall|i: int|
            0 <= i < 4 ==> corners@.map_values(|p: Point3D| p@)[i] == (#[trigger] corners@[i])@);
        let p1 = (corners[0].x, corners[0].z);
        let p2 = (corners[1].x, corners[1].z);
        let p3 = (corners[2].x, corners[2].z);
        let p4 = (corners[3].x, corners[3].z);
        return [p1, p2, p3, p4];
    }

    /// Draws the four sides at height `y`.
    pub fn draw(&self, y: i64, projection: &Projection, canvas: &mut Canvas)
        ensures
            final(canvas)@ == old(canvas)@.with_lines(
                self@.outline(
                    y as int,
                    projection@,
                    DrawParameters { color: Color::White, line_width: 1_000 },
                    old(canvas)@.width,
                    old(canvas)@.height,
                ),
            ),
    {
        let corners = self.get_corners(y);
        assert(forall|i: int|
            0 <= i < 4 ==> corners@.map_values(|p: Point3D| p@)[i] == (#[trigger] corners@[i])@);
        let ghost c0 = canvas@;
        let ghost params = DrawParameters { color: Color::White, line_width: 1_000 };
        let ghost c = self@.corners(y as int);

        projection.draw_line(canvas, &corners[0], &corners[1], default_line());
        projection.draw_line(canvas, &corners[1], &corners[2], default_line());
        projection.draw_line(canvas, &corners[2], &corners[3], default_line());
        projection.draw_line(canvas, &corners[3], &corners[0], default_line());
        proof {
            let far = projection@.line(c[0], c[1], params, c0.width, c0.height);
            let right = projection@.line(c[1], c[2], params, c0.width, c0.height);
            let near = projection@.line(c[2], c[3], params, c0.width, c0.height);
            let left = projection@.line(c[3], c[0], params, c0.width, c0.height);
            lemma_with_lines_twice(c0, far, right);
            lemma_with_lines_twice(c0, far + right, near);
            lemma_with_lines_twice(c0, far + right + near, left);
        }
    }

    pub fn get_center(&self) -> (center: (i32, i32))
        ensures
            center.0 == self@.center.0,
            center.1 == self@.center.1,
    {
        self.center
    }

    pub fn get_size(&self) -> (size: (u32, u32))
        ensures
            size.0 == self@.size.0,
            size.1 == self@.size.1,
    {
        self.size
    }

    /// Moves the rectangle sideways.
    pub fn move_x(&mut self, delta_x: i64)
        requires
            fits_i32(old(self)@.center.0 + delta_x),
        ensures
            final(self)@ == old(self)@.moved(delta_x as int, 0),
        no_unwind
    {
        self.center.0 = (self.center.0 as i64 + delta_x) as i32;
    }

    /// Moves the rectangle along the forward axis.
    pub fn move_y(&mut self, delta_y: i64)
        requires
            fits_i32(old(self)@.center.1 + delta_y),
        ensures
            final(self)@ == old(self)@.moved(0, delta_y as int),
        no_unwind
    {
        self.center.1 = (self.center.1 as i64 + delta_y) as i32;
    }

    pub fn is_rectangle_in_view_range(&self, projection: &Projection) -> (in_view: bool)
        ensures
            in_view == self@.in_view(projection@),
    {
        let mut in_view: bool = false;
        let corners = self.get_corners_xz();
        for i in 0..4
            invariant
                in_view == (exists|j: int| 0 <= j < i && projection@.sees(#[trigger] corners@[j].1 as int)),
        {
            if projection.is_point_in_view_zone(&corners[i]) {
                in_view = true;
            }
        }
        assert(corners@[0].1 == self@.far() && corners@[1].1 == self@.far());
        assert(corners@[2].1 == self@.near() && corners@[3].1 == self@.near());
        in_view
    }
}

} // verus!
