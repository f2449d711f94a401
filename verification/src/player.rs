//! The craft: how the keys move it, and how it is drawn.

use vstd::prelude::*;
use crate::engine::{
    default_line, lemma_with_lines_twice, phoenix_line, Canvas, Color, DrawParameters, LineView,
    MoveKeys,
};
use crate::fixed::{fits_i32, quotient, UNIT};
use crate::projection::{Point3D, Point3DView, Projection, ProjectionView};
use crate::rectangle::{Rectangle, RectangleView};
use crate::PLAYER_WIDTH;

verus! {

pub const PLAYER_DEPTH: u32 = 10_000;

/// Where a run starts along the forward axis.
pub const PLAYER_Z: i32 = 25_000;

/// How high the craft floats above the ground: 15 units and 0.35 of its
/// width.
pub const FLOAT_HEIGHT: i64 = 23_750;

pub const INITAL_FWD_SPEED: i32 = 200;

/// The speed gained or lost in a second of acceleration.
pub const FWD_ACELERATION: i32 = 1_000;

pub const MIN_SPEED: i32 = 200;

pub const MAX_SPEED: i32 = 2_000;

/// The cosine, and the sine, of the 45 degrees by which the craft banks,
/// in thousandths.
pub const TILT: i64 = 707;

/// The bank of the craft.
#[derive(Clone, Copy, Debug, PartialEq, Eq, Structural)]
pub enum RollPosition {
    Level,
    Left,
    Right,
}

pub struct Player {
    shape: Rectangle,
    y: i64,
    last_update_time: i64,
    fwd_speed: i32,
    roll_position: RollPosition,
}

pub struct PlayerView {
    pub shape: RectangleView,
    pub y: int,
    pub last_update_time: int,
    pub fwd_speed: int,
    pub roll_position: RollPosition,
}

impl View for Player {
    type V = PlayerView;

    closed spec fn view(&self) -> PlayerView {
        PlayerView {
            shape: self.shape@,
            y: self.y as int,
            last_update_time: self.last_update_time as int,
            fwd_speed: self.fwd_speed as int,
            roll_position: self.roll_position,
        }
    }
}

/// A speed held to the range from `MIN_SPEED` to `MAX_SPEED`.
pub open spec fn clamp_speed(speed: int) -> int {
    if speed < MIN_SPEED {
        MIN_SPEED as int
    } else if speed > MAX_SPEED {
        MAX_SPEED as int
    } else {
        speed
    }
}

/// The direction in which the keys steer: -1 to the left, 1 to the right,
/// 0 where both or neither of the two keys are held.
pub open spec fn steering(keys: MoveKeys) -> int {
    if keys.left && !keys.right {
        -1
    } else if !keys.left && keys.right {
        1
    } else {
        0
    }
}

/// The bank that goes with the direction in which the keys steer.
pub open spec fn roll_for(keys: MoveKeys) -> RollPosition {
    if keys.left && !keys.right {
        RollPosition::Left
    } else if !keys.left && keys.right {
        RollPosition::Right
    } else {
        RollPosition::Level
    }
}

/// The cosine and the sine of the angle of a bank, in thousandths.
pub open spec fn roll_direction(roll: RollPosition) -> (int, int) {
    match roll {
        RollPosition::Level => (UNIT as int, 0),
        RollPosition::Left => (TILT as int, -TILT),
        RollPosition::Right => (TILT as int, TILT as int),
    }
}

/// The three sides of a triangle as the camera draws them.
pub open spec fn triangle_lines(
    corners: Seq<Point3DView>,
    camera: ProjectionView,
    params: DrawParameters,
    width: int,
    height: int,
) -> Seq<LineView> {
    camera.line(corners[0], corners[1], params, width, height) + camera.line(
        corners[1],
        corners[2],
        params,
        width,
        height,
    ) + camera.line(corners[2], corners[0], params, width, height)
}

impl PlayerView {
    /// The speed is within its bounds.
    pub open spec fn wf(self) -> bool {
        MIN_SPEED <= self.fwd_speed <= MAX_SPEED
    }

    /// The craft at the start of a run begun at `time`, over a ground at
    /// the height `map_y`.
    pub open spec fn initial(map_y: int, time: int) -> PlayerView {
        PlayerView {
            shape: RectangleView {
                center: (0, PLAYER_Z as int),
                size: (PLAYER_WIDTH as int, PLAYER_DEPTH as int),
            },
            y: map_y + FLOAT_HEIGHT,
            last_update_time: time,
            fwd_speed: INITAL_FWD_SPEED as int,
            roll_position: RollPosition::Level,
        }
    }

    /// The speed as a fraction of the way from `MIN_SPEED` to `MAX_SPEED`,
    /// in thousandths, rounded toward zero.
    pub open spec fn speed_pu(self) -> int {
        quotient((self.fwd_speed - MIN_SPEED) * UNIT, (MAX_SPEED - MIN_SPEED) as int)
    }

    /// The speed after `delta_t` milliseconds under the keys: each of the
    /// two keys adds or takes away the same amount, and the result is held
    /// within the bounds.
    pub open spec fn speed_after(self, delta_t: int, keys: MoveKeys) -> int {
        let delta_v = delta_t * FWD_ACELERATION / (UNIT as int);
        let gained = if keys.up {
            delta_v
        } else {
            0
        };
        let lost = if keys.down {
            delta_v
        } else {
            0
        };
        clamp_speed(self.fwd_speed + gained - lost)
    }

    /// The craft after an update at `current_time`. Where time has gone
    /// forward since the last update, the speed follows the keys, the craft
    /// moves sideways and forward at the new speed, and banks the way it is
    /// steered. Otherwise only the time of the last update changes.
    pub open spec fn step(self, current_time: int, keys: MoveKeys) -> PlayerView {
        let delta_t = current_time - self.last_update_time;
        if delta_t > 0 {
            let speed = self.speed_after(delta_t, keys);
            PlayerView {
                shape: self.shape.moved(steering(keys) * (delta_t * speed), speed * delta_t),
                fwd_speed: speed,
                roll_position: roll_for(keys),
                last_update_time: current_time,
                ..self
            }
        } else {
            PlayerView { last_update_time: current_time, ..self }
        }
    }

    /// The update at `current_time` leaves the craft at 32-bit coordinates.
    pub open spec fn can_step(self, current_time: int, keys: MoveKeys) -> bool {
        let next = self.step(current_time, keys);
        fits_i32(next.shape.center.0) && fits_i32(next.shape.center.1)
    }

    /// The nose and the two wing tips of the craft, the right one first.
    pub open spec fn triangle(self) -> Seq<Point3DView> {
        let x = self.shape.center.0;
        let z = self.shape.center.1;
        let half = PLAYER_WIDTH / 2;
        let along = quotient(half * roll_direction(self.roll_position).0, UNIT as int);
        let up = quotient(roll_direction(self.roll_position).1 * half, UNIT as int);
        seq![
            Point3DView { x, y: self.y, z: z + PLAYER_DEPTH / 2 },
            Point3DView { x: x + along, y: self.y - up, z: z - PLAYER_DEPTH / 2 },
            Point3DView { x: x - along, y: self.y + up, z: z - PLAYER_DEPTH / 2 },
        ]
    }

    /// The corners of the craft's shadow: those of the craft, dropped to
    /// the ground.
    pub open spec fn shadow(self) -> Seq<Point3DView> {
        let t = self.triangle();
        let ground = self.y - FLOAT_HEIGHT;
        seq![
            Point3DView { y: ground, ..t[0] },
            Point3DView { y: ground, ..t[1] },
            Point3DView { y: ground, ..t[2] },
        ]
    }

    /// The craft and its shadow as drawn by a camera that has been moved
    /// over the craft.
    pub open spec fn picture(self, camera: ProjectionView, width: int, height: int) -> Seq<
        LineView,
    > {
        let local = ProjectionView {
            offset_x: self.shape.center.0,
            offset_z: self.shape.center.1,
            ..camera
        };
        triangle_lines(
            self.triangle(),
            local,
            DrawParameters { color: Color::Red, line_width: 2_000 },
            width,
            height,
        ) + triangle_lines(
            self.shadow(),
            local,
            DrawParameters { color: Color::White, line_width: 1_000 },
            width,
            height,
        )
    }
}

/// Time that has not gone forward moves nothing: only the time of the
/// last update changes.
pub proof fn lemma_idle_without_time(p: PlayerView, current_time: int, keys: MoveKeys)
    requires
        current_time <= p.last_update_time,
    ensures
        p.step(current_time, keys) == (PlayerView { last_update_time: current_time, ..p }),
{
}

/// An update keeps the speed within its bounds.
pub proof fn lemma_speed_stays_bounded(p: PlayerView, current_time: int, keys: MoveKeys)
    requires
        p.wf(),
    ensures
        p.step(current_time, keys).wf(),
{
}

/// With neither of the two speed keys held, and with both, the craft
/// keeps its speed and advances by that speed times the time gone by.
pub proof fn lemma_coasting(p: PlayerView, current_time: int, keys: MoveKeys)
    requires
        p.wf(),
        current_time > p.last_update_time,
        keys.up == keys.down,
    ensures
        p.step(current_time, keys).fwd_speed == p.fwd_speed,
        p.step(current_time, keys).shape.center.1 == p.shape.center.1 + p.fwd_speed * (current_time
            - p.last_update_time),
{
}

/// A new craft that is left alone advances at the initial speed, and
/// stays on the middle line.
pub proof fn lemma_first_frame(map_y: int, time: int, current_time: int)
    requires
        current_time > time,
    ensures
        PlayerView::initial(map_y, time).step(
            current_time,
            MoveKeys { up: false, down: false, left: false, right: false },
        ).shape.center == (0int, PLAYER_Z + INITAL_FWD_SPEED * (current_time - time)),
{
    let p = PlayerView::initial(map_y, time);
    let keys = MoveKeys { up: false, down: false, left: false, right: false };
    lemma_coasting(p, current_time, keys);
}

/// A craft below its top speed gets farther with the key to accelerate
/// held than without it.
pub proof fn lemma_accelerating_gets_farther(p: PlayerView, current_time: int, keys: MoveKeys)
    requires
        p.wf(),
        current_time > p.last_update_time,
        p.fwd_speed < MAX_SPEED,
        keys.up,
        !keys.down,
    ensures
        p.step(current_time, keys).shape.center.1 > p.step(
            current_time,
            MoveKeys { up: false, ..keys },
        ).shape.center.1,
{
    let delta_t = current_time - p.last_update_time;
    let fast = p.speed_after(delta_t, keys);
    let slow = p.speed_after(delta_t, MoveKeys { up: false, ..keys });
    assert(delta_t * FWD_ACELERATION / (UNIT as int) == delta_t);
    assert(slow == p.fwd_speed);
    assert(fast > slow);
    assert(fast * delta_t > slow * delta_t) by (nonlinear_arith)
        requires
            fast > slow,
            delta_t > 0,
    ;
}

/// The craft moves to the left with only the left key held, to the right
/// with only the right key held, and not at all sideways with both or
/// neither.
pub proof fn lemma_steering(p: PlayerView, current_time: int, keys: MoveKeys)
    requires
        p.wf(),
        current_time > p.last_update_time,
    ensures
        keys.left && !keys.right ==> p.step(current_time, keys).shape.center.0 < p.shape.center.0,
        !keys.left && keys.right ==> p.step(current_time, keys).shape.center.0 > p.shape.center.0,
        keys.left == keys.right ==> p.step(current_time, keys).shape.center.0 == p.shape.center.0,
{
    let delta_t = current_time - p.last_update_time;
    let speed = p.speed_after(delta_t, keys);
    assert(delta_t * speed > 0) by (nonlinear_arith)
        requires
            delta_t > 0,
            speed >= MIN_SPEED,
    ;
}

impl Player {
    #[verifier::type_invariant]
    spec fn inv(self) -> bool {
        &&& MIN_SPEED <= self.fwd_speed <= MAX_SPEED
        &&& i32::MIN + FLOAT_HEIGHT <= self.y <= i32::MAX + FLOAT_HEIGHT
    }

    pub fn new(map_y: i32, time: i64) -> (player: Player)
        ensures
            player@ == PlayerView::initial(map_y as int, time as int),
            player@.wf(),
    {
        Player {
            shape: Rectangle::new((0, PLAYER_Z), (PLAYER_WIDTH, PLAYER_DEPTH)),
            y: map_y as i64 + FLOAT_HEIGHT,
            last_update_time: time,
            fwd_speed: INITAL_FWD_SPEED,
            roll_position: RollPosition::Level,
        }
    }

    pub fn get_speed_pu(&self) -> (pu: i32)
        ensures
            pu == self@.speed_pu(),
            0 <= pu <= UNIT,
            self@.wf(),
    {
        proof {
            use_type_invariant(self);
        }
        let above: i32 = (self.fwd_speed - MIN_SPEED) * UNIT;
        above / (MAX_SPEED - MIN_SPEED)
    }

    pub fn get_y(&self) -> (y: i64)
        ensures
            y == self@.y,
    {
        self.y
    }

    /// Draws the craft and its shadow in the middle of the screen.
    pub fn draw(&self, projection: &Projection, canvas: &mut Canvas)
        ensures
            final(canvas)@ == old(canvas)@.with_lines(
                self@.picture(projection@, old(canvas)@.width, old(canvas)@.height),
            ),
    {
        let ghost c0 = canvas@;
        let compensated_projection = Projection::make_compensated_projection(
            projection,
            self.shape.get_center(),
        );
        self.draw_body(&compensated_projection, canvas);
        self.draw_shadow(&compensated_projection, canvas);
        proof {
            lemma_with_lines_twice(
                c0,
                triangle_lines(
                    self@.triangle(),
                    compensated_projection@,
                    DrawParameters { color: Color::Red, line_width: 2_000 },
                    c0.width,
                    c0.height,
                ),
                triangle_lines(
                    self@.shadow(),
                    compensated_projection@,
                    DrawParameters { color: Color::White, line_width: 1_000 },
                    c0.width,
                    c0.height,
                ),
            );
        }
    }

    fn roll_angle(&self) -> (angle: (i64, i64))
        ensures
            angle.0 == roll_direction(self@.roll_position).0,
            angle.1 == roll_direction(self@.roll_position).1,
    {
        match self.roll_position {
            RollPosition::Level => (UNIT as i64, 0),
            RollPosition::Left => (TILT, -TILT),
            RollPosition::Right => (TILT, TILT),
        }
    }

    fn get_triangle_corners(&self) -> (corners: [Point3D; 3])
        ensures
            corners@.map_values(|p: Point3D| p@) == self@.triangle(),
    {
        proof {
            use_type_invariant(self);
        }
        let pos = self.get_position();
        let def: i64 = (PLAYER_WIDTH / 2) as i64;
        let ang = self.roll_angle();
        assert(def == 12_500 && 0 <= ang.0 <= UNIT && -TILT <= ang.1 <= TILT);
        let along: i64 = def * ang.0 / UNIT as i64;
        let up: i64 = ang.1 * def / UNIT as i64;
        let p1 = Point3D::new(pos.0 as i64, self.y, pos.1 as i64 + (PLAYER_DEPTH / 2) as i64);
        let p2 = Point3D::new(
            pos.0 as i64 + along,
            self.y - up,
            pos.1 as i64 - (PLAYER_DEPTH / 2) as i64,
        );
        let p3 = Point3D::new(
            pos.0 as i64 - along,
            self.y + up,
            pos.1 as i64 - (PLAYER_DEPTH / 2) as i64,
        );
        let corners = [p1, p2, p3];
        assert(corners@.map_values(|p: Point3D| p@) =~= self@.triangle());
        corners
    }

    fn draw_body(&self, projection: &Projection, canvas: &mut Canvas)
        ensures
            final(canvas)@ == old(canvas)@.with_lines(
                triangle_lines(
                    self@.triangle(),
                    projection@,
                    DrawParameters { color: Color::Red, line_width: 2_000 },
                    old(canvas)@.width,
                    old(canvas)@.height,
                ),
            ),
    {
        let corners = self.get_triangle_corners();
        self.draw_triangle(corners, projection, phoenix_line(), canvas);
    }

    fn project_shadow(&self, corners: [Point3D; 3], y_projection: i64) -> (shadow: [Point3D; 3])
        ensures
            forall|i: int|
                0 <= i < 3 ==> #[trigger] shadow@[i] == (Point3D { y: y_projection, ..corners@[i] }),
    {
        [
            Point3D::new(corners[0].x, y_projection, corners[0].z),
            Point3D::new(corners[1].x, y_projection, corners[1].z),
            Point3D::new(corners[2].x, y_projection, corners[2].z),
        ]
    }

    fn draw_shadow(&self, projection: &Projection, canvas: &mut Canvas)
        ensures
            final(canvas)@ == old(canvas)@.with_lines(
                triangle_lines(
                    self@.shadow(),
                    projection@,
                    DrawParameters { color: Color::White, line_width: 1_000 },
                    old(canvas)@.width,
                    old(canvas)@.height,
                ),
            ),
    {
        proof {
            use_type_invariant(self);
        }
        let corners = self.get_triangle_corners();
        let shadow_y: i64 = self.get_y() - FLOAT_HEIGHT;
        let shadow_corners = self.project_shadow(corners, shadow_y);
        assert(forall|i: int|
            0 <= i < 3 ==> corners@.map_values(|p: Point3D| p@)[i] == (#[trigger] corners@[i])@);
        assert(shadow_corners@.map_values(|p: Point3D| p@) =~= self@.shadow());
        self.draw_triangle(shadow_corners, projection, default_line(), canvas);
    }

    fn draw_triangle(
        &self,
        corners: [Point3D; 3],
        projection: &Projection,
        line: DrawParameters,
        canvas: &mut Canvas,
    )
        ensures
            final(canvas)@ == old(canvas)@.with_lines(
                triangle_lines(
                    corners@.map_values(|p: Point3D| p@),
                    projection@,
                    line,
                    old(canvas)@.width,
                    old(canvas)@.height,
                ),
            ),
    {
        let ghost c0 = canvas@;
        let ghost c = corners@.map_values(|p: Point3D| p@);
        projection.draw_line(canvas, &corners[0], &corners[1], line);
        projection.draw_line(canvas, &corners[1], &corners[2], line);
        projection.draw_line(canvas, &corners[2], &corners[0], line);
        proof {
            let first = projection@.line(c[0], c[1], line, c0.width, c0.height);
            let second = projection@.line(c[1], c[2], line, c0.width, c0.height);
            let third = projection@.line(c[2], c[0], line, c0.width, c0.height);
            lemma_with_lines_twice(c0, first, second);
            lemma_with_lines_twice(c0, first + second, third);
        }
    }

    /// Whether the update at `current_time` leaves the craft at 32-bit
    /// coordinates: where it does not, `update` cannot be called.
    pub fn can_update(&self, current_time: i64, active_keys: &MoveKeys) -> (fits: bool)
        ensures
            fits == self@.can_step(current_time as int, *active_keys),
    {
        proof {
            use_type_invariant(self);
            self.shape.lemma_view();
        }
        let delta_t = self.time_since_last_update(current_time);
        if delta_t <= 0 {
            return true;
        }
        let delta_v: i128 = delta_t * FWD_ACELERATION as i128 / UNIT as i128;
        let mut speed: i128 = self.fwd_speed as i128;
        if active_keys.up {
            speed += delta_v;
        }
        if active_keys.down {
            speed -= delta_v;
        }
        if speed < MIN_SPEED as i128 {
            speed = MIN_SPEED as i128;
        }
        if speed > MAX_SPEED as i128 {
            speed = MAX_SPEED as i128;
        }
        assert(0 <= delta_t * speed <= u64::MAX * MAX_SPEED) by (nonlinear_arith)
            requires
                0 < delta_t <= u64::MAX,
                MIN_SPEED <= speed <= MAX_SPEED,
        ;
        assert(speed * delta_t == delta_t * speed) by (nonlinear_arith);
        let move_dist: i128 = delta_t * speed;
        let position = self.get_position();
        let mut x: i128 = position.0 as i128;
        if active_keys.left && !active_keys.right {
            x -= move_dist;
        }
        if !active_keys.left && active_keys.right {
            x += move_dist;
        }
        let z: i128 = position.1 as i128 + move_dist;
        i32::MIN as i128 <= x && x <= i32::MAX as i128 && z <= i32::MAX as i128
    }

    /// Moves the craft by the time that has gone by since the last update.
    pub fn update(&mut self, current_time: i64, active_keys: &MoveKeys)
        requires
            old(self)@.can_step(current_time as int, *active_keys),
        ensures
            final(self)@ == old(self)@.step(current_time as int, *active_keys),
            final(self)@.wf(),
    {
        proof {
            use_type_invariant(&*self);
        }
        let delta_t = self.time_since_last_update(current_time);
        if delta_t > 0 {
            self.update_fwd_speed(active_keys, delta_t);
            self.update_size_position(active_keys, delta_t);
            self.update_roll_position(active_keys);
            self.update_forward_position(delta_t);
        }
        self.last_update_time = current_time;
    }

    fn update_fwd_speed(&mut self, active_keys: &MoveKeys, delta_t: i128)
        requires
            0 < delta_t <= u64::MAX,
        ensures
            final(self)@ == (PlayerView {
                fwd_speed: old(self)@.speed_after(delta_t as int, *active_keys),
                ..old(self)@
            }),
            final(self)@.wf(),
    {
        proof {
            use_type_invariant(&*self);
        }
        let delta_v: i128 = delta_t * FWD_ACELERATION as i128 / UNIT as i128;
        let mut speed: i128 = self.fwd_speed as i128;
        if active_keys.up {
            speed += delta_v;
        }
        if active_keys.down {
            speed -= delta_v;
        }
        if speed < MIN_SPEED as i128 {
            speed = MIN_SPEED as i128;
        }
        if speed > MAX_SPEED as i128 {
            speed = MAX_SPEED as i128;
        }
        self.fwd_speed = speed as i32;
    }

    fn update_size_position(&mut self, active_keys: &MoveKeys, delta_t: i128)
        requires
            0 < delta_t <= u64::MAX,
            fits_i32(
                old(self)@.shape.center.0 + steering(*active_keys) * (delta_t * old(
                    self,
                )@.fwd_speed),
            ),
        ensures
            final(self)@ == (PlayerView {
                shape: old(self)@.shape.moved(
                    steering(*active_keys) * (delta_t * old(self)@.fwd_speed),
                    0,
                ),
                ..old(self)@
            }),
    {
        proof {
            use_type_invariant(&*self);
            self.shape.lemma_view();
            assert(0 <= delta_t * self.fwd_speed <= u64::MAX * MAX_SPEED) by (nonlinear_arith)
                requires
                    0 < delta_t <= u64::MAX,
                    MIN_SPEED <= self.fwd_speed <= MAX_SPEED,
            ;
        }
        let move_dist: i128 = delta_t * self.fwd_speed as i128;
        if active_keys.left && !active_keys.right {
            self.shape.move_x((-move_dist) as i64);
        }
        if !active_keys.left && active_keys.right {
            self.shape.move_x(move_dist as i64);
        }
        assert(self@.shape =~= old(self)@.shape.moved(
            steering(*active_keys) * (delta_t * old(self)@.fwd_speed),
            0,
        ));
    }

    fn update_roll_position(&mut self, active_keys: &MoveKeys)
        ensures
            final(self)@ == (PlayerView { roll_position: roll_for(*active_keys), ..old(self)@ }),
    {
        proof {
            use_type_invariant(&*self);
        }
        let mut roll = RollPosition::Level;
        if active_keys.left && !active_keys.right {
            roll = RollPosition::Left;
        }
        if !active_keys.left && active_keys.right {
            roll = RollPosition::Right;
        }
        self.roll_position = roll;
    }

    fn time_since_last_update(&self, current_time: i64) -> (delta_t: i128)
        ensures
            delta_t == current_time - self@.last_update_time,
    {
        current_time as i128 - self.last_update_time as i128
    }

    fn update_forward_position(&mut self, delta_t: i128)
        requires
            0 < delta_t <= u64::MAX,
            fits_i32(old(self)@.shape.center.1 + old(self)@.fwd_speed * delta_t),
        ensures
            final(self)@ == (PlayerView {
                shape: old(self)@.shape.moved(0, old(self)@.fwd_speed * delta_t),
                ..old(self)@
            }),
    {
        proof {
            use_type_invariant(&*self);
            self.shape.lemma_view();
            assert(0 <= self.fwd_speed * delta_t <= u64::MAX * MAX_SPEED) by (nonlinear_arith)
                requires
                    0 < delta_t <= u64::MAX,
                    MIN_SPEED <= self.fwd_speed <= MAX_SPEED,
            ;
        }
        self.shape.move_y((self.fwd_speed as i128 * delta_t) as i64);
    }

    pub fn get_position(&self) -> (position: (i32, i32))
        ensures
            position.0 == self@.shape.center.0,
            position.1 == self@.shape.center.1,
    {
        self.shape.get_center()
    }

    pub fn get_shape(&self) -> (shape: &Rectangle)
        ensures
            shape@ == self@.shape,
    {
        &self.shape
    }
}

} // verus!
