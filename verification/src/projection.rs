//! The perspective projection from world points to screen points.

use vstd::prelude::*;
use crate::engine::{
    draw_line_personalized, draw_text, lemma_with_no_lines, lemma_with_no_texts, line_between,
    text_at, Canvas, DrawParameters, LineView, PointScreen, PointScreenView, TextParameters,
    TextView,
};
use crate::fixed::{fits_i32, lemma_quotient_bounded, quotient, UNIT};

verus! {

/// A point of the world: `x` to the right, `y` up, `z` forward.
#[derive(Clone, Copy, Debug, PartialEq, Eq)]
pub struct Point3D {
    pub x: i64,
    pub y: i64,
    pub z: i64,
}

pub struct Point3DView {
    pub x: int,
    pub y: int,
    pub z: int,
}

impl View for Point3D {
    type V = Point3DView;

    open spec fn view(&self) -> Point3DView {
        Point3DView { x: self.x as int, y: self.y as int, z: self.z as int }
    }
}

impl Point3D {
    pub fn new(x: i64, y: i64, z: i64) -> (point: Point3D)
        ensures
            point == (Point3D { x, y, z }),
    {
        Point3D { x, y, z }
    }
}

/// The type `vector2d::Vector2D`, which images on the screen are handed
/// out in. Nothing is known of a vector but what `components` says.
#[verifier::external_type_specification]
#[verifier::external_body]
#[verifier::reject_recursive_types(T)]
pub struct ExVector2D<T>(vector2d::Vector2D<T>);

/// The two components that a `vector2d::Vector2D` holds in its fields `x`
/// and `y`, in that order.
pub uninterp spec fn components(v: vector2d::Vector2D<i32>) -> (i32, i32);

/// The screen point that a vector stands for.
pub open spec fn vector_view(v: vector2d::Vector2D<i32>) -> PointScreenView {
    PointScreenView { x: components(v).0 as int, y: components(v).1 as int }
}

/// Calls `vector2d::Vector2D::new`, which stores its two arguments as the
/// components of the vector it returns.
#[verifier::external_body]
fn screen_vector(x: i32, y: i32) -> (v: vector2d::Vector2D<i32>)
    ensures
        components(v) == (x, y),
{
    vector2d::Vector2D::new(x, y)
}

/// Reads the fields `x` and `y` of a `vector2d::Vector2D`: the screen
/// point it returns has the components of the vector.
#[verifier::external_body]
fn screen_point(v: vector2d::Vector2D<i32>) -> (p: PointScreen)
    ensures
        p@ == vector_view(v),
{
    PointScreen { x: v.x, y: v.y }
}

/// The field-of-view distance at the lowest speed.
pub const FOV_MIN: i64 = 400_000;

/// The field-of-view distance at the highest speed.
pub const FOV_MAX: i64 = 200_000;

/// The camera height at which the first field-of-view distance is half of
/// `Z_MAX`.
pub const HORIZON_DELTA: i64 = 10_000;

/// How far ahead the camera sees.
pub const Z_MAX: u32 = 4_000_000;

/// The camera: it looks down the forward axis from `(offset_x, offset_z)`
/// and sees as far as `draw_distance`. `fov_distance` sets how fast
/// distant things shrink.
pub struct Projection {
    fov_distance: i64,
    offset_x: i32,
    offset_z: i32,
    draw_distance: u32,
}

pub struct ProjectionView {
    pub fov_distance: int,
    pub offset_x: int,
    pub offset_z: int,
    pub draw_distance: int,
}

impl View for Projection {
    type V = ProjectionView;

    closed spec fn view(&self) -> ProjectionView {
        ProjectionView {
            fov_distance: self.fov_distance as int,
            offset_x: self.offset_x as int,
            offset_z: self.offset_z as int,
            draw_distance: self.draw_distance as int,
        }
    }
}

impl ProjectionView {
    /// The camera at the origin, for a ground `camera_height` below it: the
    /// field-of-view distance is `Z_MAX` scaled by `HORIZON_DELTA /
    /// (HORIZON_DELTA + camera_height)`, rounded toward zero.
    pub open spec fn initial(camera_height: int) -> ProjectionView {
        ProjectionView {
            fov_distance: quotient(Z_MAX * HORIZON_DELTA, HORIZON_DELTA + camera_height),
            offset_x: 0,
            offset_z: 0,
            draw_distance: Z_MAX as int,
        }
    }

    /// The field-of-view distance for a fraction of the full speed, in
    /// thousandths: `FOV_MIN` at 0, `FOV_MAX` at 1000, linear in between
    /// and beyond.
    pub open spec fn fov_for(fov_pu: int) -> int {
        FOV_MIN + fov_pu * (FOV_MAX - FOV_MIN) / (UNIT as int)
    }

    /// The nearest and the farthest `z` that the camera sees.
    pub open spec fn view_zone(self) -> (int, int) {
        (self.offset_z, self.offset_z + self.draw_distance)
    }

    pub open spec fn sees(self, z: int) -> bool {
        self.view_zone().0 <= z <= self.view_zone().1
    }

    /// The divisor of the perspective: how far the point lies in front of
    /// the camera, plus the field-of-view distance.
    pub open spec fn depth(self, p: Point3DView) -> int {
        p.z - self.offset_z + self.fov_distance
    }

    /// Where the point falls on the screen: its offset from the camera
    /// scaled by `fov_distance / depth`, rounded toward zero. A point in
    /// the camera's plane, where the divisor is zero, has no image, nor has
    /// one whose image lies outside the 32-bit range.
    pub open spec fn image(self, p: Point3DView) -> Option<PointScreenView> {
        let x = quotient((p.x - self.offset_x) * self.fov_distance, self.depth(p));
        let y = quotient(p.y * self.fov_distance, self.depth(p));
        if self.depth(p) != 0 && fits_i32(x) && fits_i32(y) {
            Some(PointScreenView { x, y })
        } else {
            None
        }
    }

    /// The text at the image of a point, or nothing where it has no image.
    pub open spec fn text(
        self,
        message: Seq<char>,
        anchor: Point3DView,
        params: TextParameters,
        width: int,
        height: int,
    ) -> Seq<TextView> {
        match self.image(anchor) {
            Some(p) => seq![text_at(message, p, params, width, height)],
            None => Seq::empty(),
        }
    }

    /// The line between the images of two points, or nothing where one of
    /// them has no image.
    pub open spec fn line(
        self,
        from: Point3DView,
        to: Point3DView,
        params: DrawParameters,
        width: int,
        height: int,
    ) -> Seq<LineView> {
        match (self.image(from), self.image(to)) {
            (Some(p1), Some(p2)) => seq![line_between(p1, p2, params, width, height)],
            _ => Seq::empty(),
        }
    }
}

/// For a speed between none and all of the full speed, the field-of-view
/// distance lies between `FOV_MAX` and `FOV_MIN`.
pub proof fn lemma_fov_within_bounds(fov_pu: int)
    requires
        0 <= fov_pu <= UNIT,
    ensures
        FOV_MAX <= ProjectionView::fov_for(fov_pu) <= FOV_MIN,
{
}

/// What the camera sees lies in front of it: with a positive
/// field-of-view distance, a point in the view zone is not in the camera's
/// plane nor behind it.
pub proof fn lemma_seen_is_in_front(camera: ProjectionView, p: Point3DView)
    requires
        camera.fov_distance > 0,
        camera.sees(p.z),
    ensures
        camera.depth(p) > 0,
{
}

/// What stands right in front of the camera is drawn on the middle line of
/// the screen.
pub proof fn lemma_straight_ahead_is_in_the_middle(camera: ProjectionView, p: Point3DView)
    requires
        p.x == camera.offset_x,
        camera.image(p).is_some(),
    ensures
        camera.image(p).unwrap().x == 0,
{
    assert((p.x - camera.offset_x) * camera.fov_distance == 0) by (nonlinear_arith)
        requires
            p.x == camera.offset_x,
    ;
    assert(0int / camera.depth(p) == 0) by (nonlinear_arith)
        requires
            camera.depth(p) != 0,
    ;
}

/// The product of a 64-bit number, or the difference of one and a 32-bit
/// number, with a 64-bit number is a 128-bit number.
proof fn lemma_product_fits(a: int, b: int)
    requires
        -0x8000_0000_8000_0000 <= a <= 0x8000_0000_8000_0000,
        -0x8000_0000_0000_0000 <= b <= 0x8000_0000_0000_0000,
    ensures
        -0x4000_0000_4000_0000_0000_0000_0000_0000 <= a * b
            <= 0x4000_0000_4000_0000_0000_0000_0000_0000,
{
    assert(-0x4000_0000_4000_0000_0000_0000_0000_0000 <= a * b
        <= 0x4000_0000_4000_0000_0000_0000_0000_0000) by (nonlinear_arith)
        requires
            -0x8000_0000_8000_0000 <= a <= 0x8000_0000_8000_0000,
            -0x8000_0000_0000_0000 <= b <= 0x8000_0000_0000_0000,
    ;
}

impl Projection {
    pub fn new(camera_height: i32) -> (projection: Projection)
        requires
            camera_height != -HORIZON_DELTA,
        ensures
            projection@ == ProjectionView::initial(camera_height as int),
    {
        assert(Z_MAX * HORIZON_DELTA == 40_000_000_000);
        let scaled: i64 = Z_MAX as i64 * HORIZON_DELTA;
        let below: i64 = HORIZON_DELTA + camera_height as i64;
        proof {
            lemma_quotient_bounded(scaled as int, below as int);
        }
        let fov_distance: i64 = scaled / below;
        Projection { fov_distance, offset_x: 0, offset_z: 0, draw_distance: Z_MAX }
    }

    /// The camera stands at 32-bit coordinates and sees no farther than
    /// 32 bits.
    pub proof fn lemma_view(&self)
        ensures
            fits_i32(self@.offset_x),
            fits_i32(self@.offset_z),
            0 <= self@.draw_distance <= u32::MAX,
    {
    }

    pub fn set_offset(&mut self, x: i32, z: i32)
        ensures
            final(self)@ == (ProjectionView { offset_x: x as int, offset_z: z as int, ..old(self)@ }),
    {
        self.offset_x = x;
        self.offset_z = z;
    }

    pub fn get_offset(&self) -> (offset: (i32, i32))
        ensures
            offset.0 == self@.offset_x,
            offset.1 == self@.offset_z,
    {
        (self.offset_x, self.offset_z)
    }

    pub fn get_fov(&self) -> (fov: i64)
        ensures
            fov == self@.fov_distance,
    {
        self.fov_distance
    }

    pub fn set_fov(&mut self, fov_pu: i32)
        ensures
            final(self)@ == (ProjectionView {
                fov_distance: ProjectionView::fov_for(fov_pu as int),
                ..old(self)@
            }),
    {
        let per_thousandth: i64 = (FOV_MAX - FOV_MIN) / 1_000;
        assert(per_thousandth == -200);
        assert(fov_pu * (FOV_MAX - FOV_MIN) == (fov_pu * per_thousandth) * 1_000);
        self.fov_distance = FOV_MIN + fov_pu as i64 * per_thousandth;
    }

    /// The projection of `base` moved to `offset`: what stands there is
    /// drawn in the middle of the screen.
    pub fn make_compensated_projection(base: &Projection, offset: (i32, i32)) -> (projection:
        Projection)
        ensures
            projection@ == (ProjectionView {
                offset_x: offset.0 as int,
                offset_z: offset.1 as int,
                ..base@
            }),
    {
        Projection {
            fov_distance: base.get_fov(),
            offset_x: offset.0,
            offset_z: offset.1,
            draw_distance: base.draw_distance,
        }
    }

    pub fn is_point_in_view_zone(&self, point_xz: &(i64, i64)) -> (seen: bool)
        ensures
            seen == self@.sees(point_xz.1 as int),
    {
        self.is_z_in_range(point_xz.1)
    }

    pub fn get_view_zone_z_range(&self) -> (range: (i64, i64))
        ensures
            range.0 == self@.view_zone().0,
            range.1 == self@.view_zone().1,
    {
        (self.offset_z as i64, self.offset_z as i64 + self.draw_distance as i64)
    }

    fn is_z_in_range(&self, z: i64) -> (seen: bool)
        ensures
            seen == self@.sees(z as int),
    {
        let range = self.get_view_zone_z_range();
        (range.0 <= z) && (z <= range.1)
    }

    /// Draws the line between the images of two points, where both have
    /// one.
    pub fn draw_line(
        &self,
        canvas: &mut Canvas,
        from: &Point3D,
        to: &Point3D,
        draw_params: DrawParameters,
    )
        ensures
            final(canvas)@ == old(canvas)@.with_lines(
                self@.line(from@, to@, draw_params, old(canvas)@.width, old(canvas)@.height),
            ),
    {
        match (self.to_screen(from), self.to_screen(to)) {
            (Some(v1), Some(v2)) => {
                draw_line_personalized(canvas, screen_point(v1), screen_point(v2), draw_params);
            },
            _ => {
                proof {
                    lemma_with_no_lines(canvas@);
                }
            },
        }
    }

    /// Draws a text at the image of a point, where it has one.
    pub fn draw_text(
        &self,
        canvas: &mut Canvas,
        message: &str,
        anchor: &Point3D,
        params: TextParameters,
    )
        ensures
            final(canvas)@ == old(canvas)@.with_texts(
                self@.text(message@, anchor@, params, old(canvas)@.width, old(canvas)@.height),
            ),
    {
        match self.to_screen(anchor) {
            Some(v) => {
                draw_text(canvas, message, screen_point(v), params);
            },
            None => {
                proof {
                    lemma_with_no_texts(canvas@);
                }
            },
        }
    }

    pub fn to_screen(&self, point: &Point3D) -> (image: Option<vector2d::Vector2D<i32>>)
        ensures
            match image {
                Some(v) => self@.image(point@) == Some(vector_view(v)),
                None => self@.image(point@).is_none(),
            },
    {
        let fov: i128 = self.fov_distance as i128;
        let depth: i128 = point.z as i128 - self.offset_z as i128 + fov;
        if depth == 0 {
            return None;
        }
        let dx: i128 = point.x as i128 - self.offset_x as i128;
        let dy: i128 = point.y as i128;
        proof {
            lemma_product_fits(dx as int, fov as int);
            lemma_product_fits(dy as int, fov as int);
            lemma_quotient_bounded(dx * fov, depth as int);
            lemma_quotient_bounded(dy * fov, depth as int);
        }
        let x: i128 = dx * fov / depth;
        let y: i128 = dy * fov / depth;
        if -0x8000_0000 <= x && x <= 0x7fff_ffff && -0x8000_0000 <= y && y <= 0x7fff_ffff {
            Some(screen_vector(x as i32, y as i32))
        } else {
            None
        }
    }
}

} // verus!
