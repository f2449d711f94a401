//! The map: the corridor with its fences, its end wall and its scattered
//! obstacles, and the best run so far.

use vstd::prelude::*;
use vstd::string::StringExecFns;
use crate::engine::{
    gen_range, grid_line, hud_line, lemma_with_lines_twice, lemma_with_no_lines,
    lemma_with_no_texts, text_default, Canvas, Color, DrawParameters, LineView, TextParameters,
    TextView,
};
use crate::fixed::{
    append_decimal_thousandths, append_decimal_whole, decimal_thousandths, decimal_whole,
    fits_i32, quotient, remainder, rounded_quotient, UNIT,
};
use crate::obstacle::{Obstacle, ObstacleView};
use crate::projection::{Point3D, Point3DView, Projection, ProjectionView};
use crate::rectangle::{lemma_collision_symmetric, Rectangle, RectangleView};

verus! {

/// The side of a tile of the ground grid, and the length of a fence post.
pub const TILE_SIZE: u32 = 100_000;

pub const FENCE_WIDTH: u32 = 40_000;

pub const FENCE_HEIGHT: i32 = 100_000;

/// How deep the wall behind the finish line is.
pub const ENDGOAL_DEPTH: u32 = 40_000;

pub const OBSTACLE_SIDE_MIN: i32 = 50_000;

pub const OBSTACLE_SIDE_MAX: i32 = 150_000;

pub const OBSTACLE_HEIGHT_MIN: i32 = 100_000;

/// The area of an obstacle with sides half way between the least and the
/// greatest.
pub const AVERAGE_OBSTACLE_AREA: i64 = 10_000_000_000;

/// The share of the map that the scattered obstacles are meant to cover,
/// in thousandths.
pub const AREA_RATIO: i32 = 100;

/// The height of the pole that marks the best run.
pub const POLE_HEIGHT: i64 = 200_000;

/// What is on record before any run has ended.
pub const NO_RECORD: i32 = -1_000;

/// A point of the ground.
#[derive(Clone, Copy, Debug, PartialEq, Eq)]
pub struct MapPoint {
    x: i32,
    z: i32,
}

impl MapPoint {
    pub closed spec fn x(&self) -> int {
        self.x as int
    }

    pub closed spec fn z(&self) -> int {
        self.z as int
    }

    pub fn new(x: i32, z: i32) -> (point: MapPoint)
        ensures
            point.x() == x,
            point.z() == z,
    {
        MapPoint { x, z }
    }
}

/// The measures that a map is built with. They can be trusted to fit.
struct Dimensions {
    camera_height: i32,
    map_width: i32,
    map_length: i32,
    tile_size: u32,
}

impl Dimensions {
    #[verifier::type_invariant]
    spec fn inv(self) -> bool {
        &&& dimensions_fit(self.camera_height as int, self.map_width as int, self.map_length as int)
        &&& self.tile_size == TILE_SIZE
    }
}

pub struct GameMap {
    dimensions: Dimensions,
    obstacles: Vec<Obstacle>,
    best_distance_z: i32,
    best_time: i64,
    finish_line_z: i32,
}

pub struct GameMapView {
    pub camera_height: int,
    pub map_width: int,
    pub map_length: int,
    pub obstacles: Seq<ObstacleView>,
    pub tile_size: int,
    pub best_distance_z: int,
    pub best_time: int,
    pub finish_line_z: int,
}

impl View for GameMap {
    type V = GameMapView;

    closed spec fn view(&self) -> GameMapView {
        GameMapView {
            camera_height: self.dimensions.camera_height as int,
            map_width: self.dimensions.map_width as int,
            map_length: self.dimensions.map_length as int,
            obstacles: self.obstacles@.map_values(|o: Obstacle| o@),
            tile_size: self.dimensions.tile_size as int,
            best_distance_z: self.best_distance_z as int,
            best_time: self.best_time as int,
            finish_line_z: self.finish_line_z as int,
        }
    }
}

/// A map can be built with these measures: it is not narrower than
/// nothing, and the coordinates that its construction derives from them
/// are 32-bit.
pub open spec fn dimensions_fit(camera_height: int, map_width: int, map_length: int) -> bool {
    &&& 0 <= map_width
    &&& fits_i32(2 * camera_height)
    &&& fits_i32(map_length + ENDGOAL_DEPTH / 2)
}

/// `v` lies between `a` and `b`, whichever of the two is the greater.
pub open spec fn between(v: int, a: int, b: int) -> bool {
    (a <= v <= b) || (b <= v <= a)
}

/// Where the fence on the right stands; the one on the left stands as far
/// to the other side.
pub open spec fn fence_x(map_width: int) -> int {
    (map_width + FENCE_WIDTH) / 2
}

/// The number of posts in a fence: one for each tile whose middle lies
/// before the end of the map.
pub open spec fn fence_count(map_length: int) -> nat {
    if map_length <= TILE_SIZE / 2 {
        0
    } else {
        ((map_length - TILE_SIZE / 2 - 1) / (TILE_SIZE as int) + 1) as nat
    }
}

pub open spec fn fence_post(x: int, k: int) -> ObstacleView {
    ObstacleView {
        base: RectangleView {
            center: (x, TILE_SIZE / 2 + k * TILE_SIZE),
            size: (FENCE_WIDTH as int, TILE_SIZE as int),
        },
        height: FENCE_HEIGHT as int,
    }
}

/// A fence along the map at `x`: posts one tile long, one after the other
/// from the start.
pub open spec fn fence(x: int, map_length: int) -> Seq<ObstacleView> {
    Seq::new(fence_count(map_length), |k: int| fence_post(x, k))
}

/// The wall across the map, right behind the finish line.
pub open spec fn endgoal(map_width: int, map_length: int) -> ObstacleView {
    ObstacleView {
        base: RectangleView {
            center: (0, map_length + ENDGOAL_DEPTH / 2),
            size: (map_width, ENDGOAL_DEPTH as int),
        },
        height: FENCE_HEIGHT as int,
    }
}

/// What bounds the map: the fence on the right, the fence on the left, and
/// the wall at the end.
pub open spec fn boundary(map_width: int, map_length: int) -> Seq<ObstacleView> {
    fence(fence_x(map_width), map_length) + fence(-fence_x(map_width), map_length)
        + seq![endgoal(map_width, map_length)]
}

/// The number of obstacles to try to place: the area to cover, which is
/// `area_ratio` thousandths of the map, in average obstacles, rounded.
pub open spec fn n_tries(map_width: int, map_length: int, area_ratio: int) -> int {
    rounded_quotient(map_width * map_length * area_ratio, UNIT * AVERAGE_OBSTACLE_AREA)
}

/// One of the obstacles collides with the rectangle.
pub open spec fn collides_any(obstacles: Seq<ObstacleView>, r: RectangleView) -> bool {
    exists|i: int| 0 <= i < obstacles.len() && (#[trigger] obstacles[i]).base.collides(r)
}

/// The obstacle at `i` collides with no other of the obstacles.
pub open spec fn stands_apart(obstacles: Seq<ObstacleView>, i: int) -> bool {
    forall|j: int|
        0 <= j < obstacles.len() && j != i ==> !obstacles[i].base.collides(
            (#[trigger] obstacles[j]).base,
        )
}

impl GameMapView {
    /// The rectangle has hit an obstacle.
    pub open spec fn crashed(self, r: RectangleView) -> bool {
        collides_any(self.obstacles, r)
    }

    /// The centre of the rectangle has reached the finish line.
    pub open spec fn won(self, r: RectangleView) -> bool {
        r.center.1 >= self.finish_line_z
    }

    pub open spec fn game_over(self, r: RectangleView) -> bool {
        self.crashed(r) || self.won(r)
    }

    /// The map with one more obstacle.
    pub open spec fn with_obstacle(self, obstacle: ObstacleView) -> GameMapView {
        GameMapView { obstacles: self.obstacles.push(obstacle), ..self }
    }

    /// The map after the attempt to place a candidate: it is added where
    /// it collides with no obstacle, and dropped otherwise.
    pub open spec fn placed(self, candidate: ObstacleView) -> GameMapView {
        if collides_any(self.obstacles, candidate.base) {
            self
        } else {
            self.with_obstacle(candidate)
        }
    }

    /// An obstacle that the roll may come up with: its sides and its
    /// height are within their bounds, it lies within the width of the
    /// map, and between five times its depth from the start and half its
    /// depth from the end.
    pub open spec fn is_candidate(self, o: ObstacleView) -> bool {
        let x_max = quotient(self.map_width - o.base.size.0, 2);
        &&& OBSTACLE_SIDE_MIN <= o.base.size.0 <= OBSTACLE_SIDE_MAX
        &&& OBSTACLE_SIDE_MIN <= o.base.size.1 <= OBSTACLE_SIDE_MAX
        &&& between(o.height, OBSTACLE_HEIGHT_MIN as int, 2 * self.camera_height)
        &&& between(o.base.center.0, -x_max, x_max)
        &&& between(o.base.center.1, 5 * o.base.size.1, self.map_length - o.base.size.1 / 2)
    }

    /// The map after the attempts to place some candidates, one after the
    /// other.
    pub open spec fn placed_all(self, candidates: Seq<ObstacleView>) -> GameMapView
        decreases candidates.len(),
    {
        if candidates.len() == 0 {
            self
        } else {
            self.placed_all(candidates.drop_last()).placed(candidates.last())
        }
    }

    /// What a roll of `n` tries may come up with: as many candidates as
    /// there are tries, none where `n` is negative, each of them one that
    /// the roll may come up with on this map.
    pub open spec fn is_roll(self, candidates: Seq<ObstacleView>, n: int) -> bool {
        &&& candidates.len() == (if n > 0 {
            n
        } else {
            0
        })
        &&& forall|k: int|
            0 <= k < candidates.len() ==> self.is_candidate(#[trigger] candidates[k])
    }

    /// Each obstacle from the index `from` on is one that the roll may
    /// come up with, and collides with no other obstacle of the map.
    pub open spec fn rolled_from(self, from: int) -> bool {
        forall|i: int|
            from <= i < self.obstacles.len() ==> self.is_candidate(#[trigger] self.obstacles[i])
                && stands_apart(self.obstacles, i)
    }

    /// What holds of a map as it is built, whatever the roll comes up
    /// with: no run is on record, the finish line is at the end, the
    /// fences and the end wall come first, and after them at most as many
    /// obstacles as were tried, each one within its bounds and apart from
    /// every other obstacle.
    pub open spec fn built(self, camera_height: int, map_width: int, map_length: int) -> bool {
        let bounds = boundary(map_width, map_length);
        &&& self.camera_height == camera_height
        &&& self.map_width == map_width
        &&& self.map_length == map_length
        &&& self.tile_size == TILE_SIZE
        &&& self.best_distance_z == NO_RECORD
        &&& self.best_time == NO_RECORD
        &&& self.finish_line_z == map_length
        &&& bounds.is_prefix_of(self.obstacles)
        &&& self.obstacles.len() - bounds.len() <= n_tries(map_width, map_length, AREA_RATIO as int)
            || self.obstacles.len() == bounds.len()
        &&& self.rolled_from(bounds.len() as int)
    }

    /// The map with a distance entered in the record: the farthest so far
    /// stays.
    pub open spec fn with_distance(self, best_dist: int) -> GameMapView {
        GameMapView {
            best_distance_z: if best_dist > self.best_distance_z {
                best_dist
            } else {
                self.best_distance_z
            },
            ..self
        }
    }

    /// The map with the time of a won run entered in the record: the
    /// first one is taken as it is, and after that the shortest stays.
    pub open spec fn with_time(self, time_interval: int) -> GameMapView {
        GameMapView {
            best_time: if self.best_time < 0 || time_interval < self.best_time {
                time_interval
            } else {
                self.best_time
            },
            ..self
        }
    }

    /// The map after a run that took `delta_t` and left the craft at
    /// `shape`: the time counts where the run was won, the distance
    /// always.
    pub open spec fn after_run(self, delta_t: int, shape: RectangleView) -> GameMapView {
        let timed = if self.won(shape) {
            self.with_time(delta_t)
        } else {
            self
        };
        timed.with_distance(shape.center.1)
    }

    /// The map after some runs, each given by the time it took and by
    /// where it left the craft.
    pub open spec fn after_runs(self, runs: Seq<(int, RectangleView)>) -> GameMapView
        decreases runs.len(),
    {
        if runs.len() == 0 {
            self
        } else {
            self.after_runs(runs.drop_last()).after_run(runs.last().0, runs.last().1)
        }
    }

    /// A line across the map on the ground at `z`, as the camera draws it.
    pub open spec fn ground_line(
        self,
        z: int,
        camera: ProjectionView,
        params: DrawParameters,
        width: int,
        height: int,
    ) -> Seq<LineView> {
        let x = quotient(self.map_width, 2);
        camera.line(
            Point3DView { x, y: -self.camera_height, z },
            Point3DView { x: -x, y: -self.camera_height, z },
            params,
            width,
            height,
        )
    }

    /// How far the nearest `z` in view lies beyond a line of the grid.
    pub open spec fn grid_offset(self, camera: ProjectionView) -> int {
        remainder(camera.view_zone().0, self.tile_size)
    }

    /// The number of steps of one tile that fit in the view.
    pub open spec fn grid_steps(self, camera: ProjectionView) -> int {
        (camera.draw_distance + self.tile_size - 1) / self.tile_size
    }

    /// What is drawn for step `k` through the view: the line of the grid
    /// at or just before the step, where the step is not beyond the end of
    /// the map and the line lies on the map.
    pub open spec fn grid_step(self, k: int, camera: ProjectionView, width: int, height: int) -> Seq<
        LineView,
    > {
        let z = camera.view_zone().0 + k * self.tile_size;
        let line_z = z - self.grid_offset(camera);
        if z <= self.map_length && 0 <= line_z <= self.map_length {
            self.ground_line(
                line_z,
                camera,
                DrawParameters { color: Color::Gray, line_width: 250 },
                width,
                height,
            )
        } else {
            Seq::empty()
        }
    }

    /// What is drawn for the first `n` steps through the view.
    pub open spec fn grid(self, n: int, camera: ProjectionView, width: int, height: int) -> Seq<
        LineView,
    >
        decreases n,
    {
        if n <= 0 {
            Seq::empty()
        } else {
            self.grid(n - 1, camera, width, height) + self.grid_step(n - 1, camera, width, height)
        }
    }

    /// The first `n` obstacles, standing on the ground, as the camera
    /// draws them.
    pub open spec fn obstacle_lines(
        self,
        n: int,
        camera: ProjectionView,
        width: int,
        height: int,
    ) -> Seq<LineView>
        decreases n,
    {
        if n <= 0 {
            Seq::empty()
        } else {
            self.obstacle_lines(n - 1, camera, width, height) + self.obstacles[n - 1].wireframe(
                -self.camera_height,
                camera,
                DrawParameters { color: Color::White, line_width: 1_000 },
                width,
                height,
            )
        }
    }

    /// The point at `height` above the ground over the right end of the
    /// line that marks the best run.
    pub open spec fn pole(self, height: int) -> Point3DView {
        Point3DView {
            x: quotient(self.map_width, 2),
            y: height - self.camera_height,
            z: self.best_distance_z,
        }
    }

    /// The mark of the best run, where the camera sees that far: a line
    /// across the map and a pole at its right end.
    pub open spec fn marker_lines(self, camera: ProjectionView, width: int, height: int) -> Seq<
        LineView,
    > {
        let params = DrawParameters { color: Color::Yellow, line_width: 2_000 };
        if camera.sees(self.best_distance_z) {
            self.ground_line(self.best_distance_z, camera, params, width, height) + camera.line(
                self.pole(0),
                self.pole(POLE_HEIGHT as int),
                params,
                width,
                height,
            )
        } else {
            Seq::empty()
        }
    }

    /// What the mark of the best run says: the best time in seconds once a
    /// run has been won, and the best distance in units until then.
    pub open spec fn best_line_message(self) -> Seq<char> {
        if self.best_time > 0 {
            "best time: "@ + decimal_thousandths(self.best_time as nat)
        } else {
            "best distance: "@ + decimal_whole(self.best_distance_z)
        }
    }

    /// The text at the top of the pole, where the camera sees that far.
    pub open spec fn marker_texts(self, camera: ProjectionView, width: int, height: int) -> Seq<
        TextView,
    > {
        if camera.sees(self.best_distance_z) {
            camera.text(
                self.best_line_message(),
                self.pole(POLE_HEIGHT as int),
                TextParameters { color: Color::Yellow, font_size: 20_000 },
                width,
                height,
            )
        } else {
            Seq::empty()
        }
    }

    /// The lines of the map as the camera draws it: the grid, the
    /// obstacles in their order, and the mark of the best run.
    pub open spec fn lines(self, camera: ProjectionView, width: int, height: int) -> Seq<LineView> {
        self.grid(self.grid_steps(camera), camera, width, height) + self.obstacle_lines(
            self.obstacles.len() as int,
            camera,
            width,
            height,
        ) + self.marker_lines(camera, width, height)
    }
}

/// A craft at or beyond the finish line ends the run, whatever stands on
/// the map.
pub proof fn lemma_finish_line_ends_run(map: GameMapView, shape: RectangleView)
    requires
        shape.center.1 >= map.finish_line_z,
    ensures
        map.won(shape),
        map.game_over(shape),
{
}

/// A craft that collides with an obstacle of the map ends the run.
pub proof fn lemma_crash_ends_run(map: GameMapView, shape: RectangleView, i: int)
    requires
        0 <= i < map.obstacles.len(),
        map.obstacles[i].base.collides(shape),
    ensures
        map.crashed(shape),
        map.game_over(shape),
{
}

/// On a map as it is built, a craft that collides with a post of either
/// fence ends the run.
pub proof fn lemma_fence_ends_run(
    map: GameMapView,
    camera_height: int,
    map_width: int,
    map_length: int,
    shape: RectangleView,
    k: int,
)
    requires
        map.built(camera_height, map_width, map_length),
        0 <= k < fence_count(map_length),
        fence_post(fence_x(map_width), k).base.collides(shape) || fence_post(
            -fence_x(map_width),
            k,
        ).base.collides(shape),
    ensures
        map.crashed(shape),
        map.game_over(shape),
{
    let right = fence(fence_x(map_width), map_length);
    let left = fence(-fence_x(map_width), map_length);
    let bounds = boundary(map_width, map_length);
    let n = fence_count(map_length) as int;
    assert(bounds[k] == right[k]);
    assert(bounds[n + k] == left[k]);
    assert(map.obstacles[k] == bounds[k]);
    assert(map.obstacles[n + k] == bounds[n + k]);
    if fence_post(fence_x(map_width), k).base.collides(shape) {
        lemma_crash_ends_run(map, shape, k);
    } else {
        lemma_crash_ends_run(map, shape, n + k);
    }
}

/// Runs change nothing of a map but its records.
pub proof fn lemma_runs_keep_the_map(map: GameMapView, runs: Seq<(int, RectangleView)>)
    ensures
        map.after_runs(runs) == (GameMapView {
            best_distance_z: map.after_runs(runs).best_distance_z,
            best_time: map.after_runs(runs).best_time,
            ..map
        }),
    decreases runs.len(),
{
    if runs.len() > 0 {
        lemma_runs_keep_the_map(map, runs.drop_last());
    }
}

/// The distance on record after some runs is the farthest of the one that
/// was on record before and those at which the runs left the craft.
pub proof fn lemma_best_distance_is_farthest(map: GameMapView, runs: Seq<(int, RectangleView)>)
    ensures
        map.after_runs(runs).best_distance_z >= map.best_distance_z,
        forall|i: int|
            0 <= i < runs.len() ==> map.after_runs(runs).best_distance_z >= (
            #[trigger] runs[i]).1.center.1,
        map.after_runs(runs).best_distance_z == map.best_distance_z || exists|i: int|
            0 <= i < runs.len() && map.after_runs(runs).best_distance_z == (
            #[trigger] runs[i]).1.center.1,
    decreases runs.len(),
{
    if runs.len() > 0 {
        let before = runs.drop_last();
        lemma_best_distance_is_farthest(map, before);
        let after = map.after_runs(runs);
        assert forall|i: int| 0 <= i < runs.len() implies after.best_distance_z >= (
        #[trigger] runs[i]).1.center.1 by {
            if i < before.len() {
                assert(before[i] == runs[i]);
            }
        }
        if after.best_distance_z != map.best_distance_z {
            if after.best_distance_z == runs.last().1.center.1 {
                assert(runs[runs.len() - 1] == runs.last());
            } else {
                let i = choose|i: int|
                    0 <= i < before.len() && map.after_runs(before).best_distance_z == (
                    #[trigger] before[i]).1.center.1;
                assert(before[i] == runs[i]);
            }
        }
    }
}

/// The time on record after some runs, none of which took less than no
/// time: it is no longer than that of any run that was won, it is the one
/// that was on record before or that of a run that was won, and runs that
/// were lost leave it as it was.
pub proof fn lemma_best_time_is_shortest(map: GameMapView, runs: Seq<(int, RectangleView)>)
    requires
        forall|i: int| 0 <= i < runs.len() ==> (#[trigger] runs[i]).0 >= 0,
    ensures
        forall|i: int|
            0 <= i < runs.len() && map.won((#[trigger] runs[i]).1) ==> 0 <= map.after_runs(
                runs,
            ).best_time <= runs[i].0,
        map.best_time >= 0 ==> 0 <= map.after_runs(runs).best_time <= map.best_time,
        map.after_runs(runs).best_time == map.best_time || exists|i: int|
            0 <= i < runs.len() && map.won((#[trigger] runs[i]).1) && map.after_runs(
                runs,
            ).best_time == runs[i].0,
        (forall|i: int| 0 <= i < runs.len() ==> !map.won((#[trigger] runs[i]).1))
            ==> map.after_runs(runs).best_time == map.best_time,
    decreases runs.len(),
{
    if runs.len() > 0 {
        let before = runs.drop_last();
        let last = runs.last();
        assert(runs[runs.len() - 1] == last);
        assert forall|i: int| 0 <= i < before.len() implies (#[trigger] before[i]).0 >= 0 by {
            assert(before[i] == runs[i]);
        }
        lemma_best_time_is_shortest(map, before);
        lemma_runs_keep_the_map(map, before);
        let earlier = map.after_runs(before);
        let after = map.after_runs(runs);
        assert(earlier.won(last.1) == map.won(last.1));
        assert forall|i: int| 0 <= i < runs.len() && map.won((#[trigger] runs[i]).1) implies 0
            <= after.best_time <= runs[i].0 by {
            if i < before.len() {
                assert(before[i] == runs[i]);
            }
        }
        if after.best_time != map.best_time {
            if map.won(last.1) && after.best_time == last.0 {
            } else {
                let i = choose|i: int|
                    0 <= i < before.len() && map.won((#[trigger] before[i]).1)
                        && earlier.best_time == before[i].0;
                assert(before[i] == runs[i]);
            }
        }
        if forall|i: int| 0 <= i < runs.len() ==> !map.won((#[trigger] runs[i]).1) {
            assert forall|i: int| 0 <= i < before.len() implies !map.won(
                (#[trigger] before[i]).1,
            ) by {
                assert(before[i] == runs[i]);
            }
        }
    }
}

/// After two runs that were won, the second in less time than the first,
/// the time on record is that of the second, where no shorter time was on
/// record before; and a run that is lost after them leaves it there,
/// however long it took.
pub proof fn lemma_two_wins_then_a_loss(
    map: GameMapView,
    first: (int, RectangleView),
    second: (int, RectangleView),
    third: (int, RectangleView),
)
    requires
        map.best_time < 0 || map.best_time >= second.0,
        first.0 > second.0,
        map.won(first.1),
        map.won(second.1),
        !map.won(third.1),
    ensures
        map.after_runs(seq![first, second]).best_time == second.0,
        map.after_runs(seq![first, second, third]).best_time == second.0,
{
    let one = seq![first];
    let two = seq![first, second];
    let three = seq![first, second, third];
    assert(one.drop_last() =~= Seq::empty());
    assert(two.drop_last() =~= one);
    assert(three.drop_last() =~= two);
    assert(map.after_runs(Seq::empty()) == map);
    assert(map.after_runs(one) == map.after_run(first.0, first.1));
    assert(map.after_runs(two) == map.after_runs(one).after_run(second.0, second.1));
    assert(map.after_runs(three) == map.after_runs(two).after_run(third.0, third.1));
}

/// Where there is anything to try, the map has a length.
proof fn lemma_tries_need_length(map_width: int, map_length: int, area_ratio: int)
    requires
        0 <= map_width,
        0 <= area_ratio,
        n_tries(map_width, map_length, area_ratio) > 0,
    ensures
        map_length > 0,
{
    let covered = map_width * map_length * area_ratio;
    let average = UNIT * AVERAGE_OBSTACLE_AREA;
    assert(average == 10_000_000_000_000);
    if map_length <= 0 {
        assert(covered <= 0) by (nonlinear_arith)
            requires
                0 <= map_width,
                0 <= area_ratio,
                map_length <= 0,
                covered == map_width * map_length * area_ratio,
        ;
        if covered == 0 {
            assert((2 * covered + average) / (2 * average) == 0);
        } else {
            assert((2 * (-covered) + average) / (2 * average) >= 0);
        }
        assert(rounded_quotient(covered, average) <= 0);
    }
}

/// Placing a candidate keeps what was rolled before apart from the rest,
/// and the candidate too, where it is kept.
pub proof fn lemma_placed_keeps_rolled(map: GameMapView, from: int, candidate: ObstacleView)
    requires
        0 <= from <= map.obstacles.len(),
        map.rolled_from(from),
        map.is_candidate(candidate),
    ensures
        map.placed(candidate).rolled_from(from),
{
    let after = map.placed(candidate);
    if !collides_any(map.obstacles, candidate.base) {
        let n = map.obstacles.len() as int;
        assert forall|i: int| from <= i < after.obstacles.len() implies after.is_candidate(
            #[trigger] after.obstacles[i],
        ) && stands_apart(after.obstacles, i) by {
            assert forall|j: int| 0 <= j < after.obstacles.len() && j != i implies !after.obstacles[i].base.collides(
                (#[trigger] after.obstacles[j]).base,
            ) by {
                if i < n && j < n {
                    assert(map.is_candidate(map.obstacles[i]) && stands_apart(map.obstacles, i));
                    assert(!map.obstacles[i].base.collides(map.obstacles[j].base));
                } else if i < n {
                    assert(!map.obstacles[i].base.collides(candidate.base));
                } else {
                    assert(!map.obstacles[j].base.collides(candidate.base));
                    lemma_collision_symmetric(map.obstacles[j].base, candidate.base);
                }
            }
            if i < n {
                assert(map.is_candidate(map.obstacles[i]) && stands_apart(map.obstacles, i));
            }
        }
    }
}

impl GameMap {
    /// Whether a map can be built with these measures: where it cannot,
    /// `new` cannot be called.
    pub fn fits(camera_height: i32, map_width: i32, map_length: i32) -> (fits: bool)
        ensures
            fits == dimensions_fit(camera_height as int, map_width as int, map_length as int),
    {
        0 <= map_width && -0x4000_0000 <= camera_height && camera_height <= 0x3fff_ffff
            && map_length <= i32::MAX - (ENDGOAL_DEPTH / 2) as i32
    }

    pub fn new(camera_height: i32, map_width: i32, map_length: i32) -> (map: GameMap)
        requires
            dimensions_fit(camera_height as int, map_width as int, map_length as int),
        ensures
            map@.built(camera_height as int, map_width as int, map_length as int),
    {
        let tile_size = TILE_SIZE;
        let mut map = GameMap {
            dimensions: Dimensions { camera_height, map_width, map_length, tile_size },
            obstacles: Vec::new(),
            best_distance_z: NO_RECORD,
            best_time: NO_RECORD as i64,
            finish_line_z: map_length,
        };
        assert(map@.obstacles =~= Seq::empty());
        map.add_fences();
        map.add_endgoal();
        let ghost bounds = boundary(map_width as int, map_length as int);
        assert(map@.obstacles =~= bounds);
        map.roll_map(AREA_RATIO);
        map
    }

    pub fn get_obstacles(&self) -> (obstacles: &Vec<Obstacle>)
        ensures
            obstacles@.map_values(|o: Obstacle| o@) == self@.obstacles,
    {
        &self.obstacles
    }

    pub fn get_best_distance_z(&self) -> (best: i32)
        ensures
            best == self@.best_distance_z,
    {
        self.best_distance_z
    }

    pub fn get_best_time(&self) -> (best: i64)
        ensures
            best == self@.best_time,
    {
        self.best_time
    }

    pub fn check_game_over(&self, player_shape: &Rectangle) -> (over: bool)
        ensures
            over == self@.game_over(player_shape@),
    {
        self.check_collision(player_shape) || self.check_game_win(player_shape)
    }

    pub fn check_game_win(&self, player_shape: &Rectangle) -> (won: bool)
        ensures
            won == self@.won(player_shape@),
    {
        player_shape.get_center().1 >= self.finish_line_z
    }

    fn add_fences(&mut self)
        ensures
            final(self)@ == (GameMapView {
                obstacles: old(self)@.obstacles + fence(
                    fence_x(old(self)@.map_width),
                    old(self)@.map_length,
                ) + fence(-fence_x(old(self)@.map_width), old(self)@.map_length),
                ..old(self)@
            }),
    {
        proof {
            use_type_invariant(&self.dimensions);
        }
        let x_fence: i32 = ((self.dimensions.map_width as i64 + FENCE_WIDTH as i64) / 2) as i32;
        self.add_fence(x_fence);
        self.add_fence(-x_fence);
    }

    fn add_fence(&mut self, x: i32)
        ensures
            final(self)@ == (GameMapView {
                obstacles: old(self)@.obstacles + fence(x as int, old(self)@.map_length),
                ..old(self)@
            }),
    {
        proof {
            use_type_invariant(&self.dimensions);
        }
        let ghost posts = fence(x as int, self@.map_length);
        let ghost mut k: int = 0;
        let tile_size: u32 = self.dimensions.tile_size;
        let map_length: i64 = self.dimensions.map_length as i64;
        let mut z: i64 = (tile_size / 2) as i64;
        assert(self@.obstacles =~= old(self)@.obstacles + posts.take(0));
        while z < map_length
            invariant
                tile_size == TILE_SIZE,
                map_length == old(self)@.map_length,
                fits_i32(map_length as int),
                posts == fence(x as int, map_length as int),
                0 <= k <= posts.len(),
                z == TILE_SIZE / 2 + k * TILE_SIZE,
                z >= map_length ==> k == posts.len(),
                self@ == (GameMapView {
                    obstacles: old(self)@.obstacles + posts.take(k),
                    ..old(self)@
                }),
            decreases
                    (if z < map_length {
                        map_length - z
                    } else {
                        0
                    }),
        {
            self.add_obstacle(Obstacle::new((x, z as i32), (FENCE_WIDTH, tile_size), FENCE_HEIGHT));
            z += tile_size as i64;
            proof {
                assert(posts[k] == fence_post(x as int, k));
                assert(posts.take(k + 1) =~= posts.take(k).push(posts[k]));
                assert(self@.obstacles =~= old(self)@.obstacles + posts.take(k + 1));
                k = k + 1;
            }
        }
        assert(posts.take(k) =~= posts);
    }

    /// Adds the wall behind the finish line.
    fn add_endgoal(&mut self)
        ensures
            final(self)@ == old(self)@.with_obstacle(
                endgoal(old(self)@.map_width, old(self)@.map_length),
            ),
    {
        proof {
            use_type_invariant(&self.dimensions);
        }
        let z: i32 = (self.dimensions.map_length as i64 + (ENDGOAL_DEPTH / 2) as i64) as i32;
        self.add_obstacle(
            Obstacle::new((0, z), (self.dimensions.map_width as u32, ENDGOAL_DEPTH), FENCE_HEIGHT),
        );
    }

    pub fn add_obstacle(&mut self, obstacle: Obstacle)
        ensures
            final(self)@ == old(self)@.with_obstacle(obstacle@),
    {
        self.obstacles.push(obstacle);
        assert(self@.obstacles =~= old(self)@.obstacles.push(obstacle@));
    }

    fn check_collision(&self, player_shape: &Rectangle) -> (hit: bool)
        ensures
            hit == self@.crashed(player_shape@),
    {
        for i in 0..self.obstacles.len()
            invariant
                forall|j: int|
                    0 <= j < i ==> !(#[trigger] self@.obstacles[j]).base.collides(player_shape@),
        {
            if self.obstacles[i].check_collision(player_shape) {
                assert(self@.obstacles[i as int].base.collides(player_shape@));
                return true;
            }
        }
        false
    }

    pub fn check_collision_obst(&self, other: &Obstacle) -> (hit: bool)
        ensures
            hit == collides_any(self@.obstacles, other@.base),
    {
        for i in 0..self.obstacles.len()
            invariant
                forall|j: int|
                    0 <= j < i ==> !(#[trigger] self@.obstacles[j]).base.collides(other@.base),
        {
            if self.obstacles[i].check_collision_obst(other) {
                assert(self@.obstacles[i as int].base.collides(other@.base));
                return true;
            }
        }
        false
    }

    /// Tries to place a candidate: it is added where it collides with no
    /// obstacle of the map, and dropped otherwise.
    pub fn place_obstacle(&mut self, candidate: Obstacle) -> (placed: bool)
        ensures
            placed == !collides_any(old(self)@.obstacles, candidate@.base),
            final(self)@ == old(self)@.placed(candidate@),
    {
        if !self.check_collision_obst(&candidate) {
            self.add_obstacle(candidate);
            true
        } else {
            false
        }
    }

    /// Scatters obstacles over the map: as many candidates as `area_ratio`
    /// thousandths of its area call for are rolled, and each is placed
    /// where it collides with nothing. Whatever the roll comes up with, the
    /// map is what placing those candidates in their order makes of it.
    fn roll_map(&mut self, area_ratio: i32)
        requires
            0 <= area_ratio,
        ensures
            exists|candidates: Seq<ObstacleView>| #[trigger]
                old(self)@.is_roll(
                    candidates,
                    n_tries(old(self)@.map_width, old(self)@.map_length, area_ratio as int),
                ) && final(self)@ == old(self)@.placed_all(candidates),
            final(self)@ == (GameMapView { obstacles: final(self)@.obstacles, ..old(self)@ }),
            old(self)@.obstacles.is_prefix_of(final(self)@.obstacles),
            final(self)@.obstacles.len() - old(self)@.obstacles.len() <= n_tries(
                old(self)@.map_width,
                old(self)@.map_length,
                area_ratio as int,
            ) || final(self)@.obstacles.len() == old(self)@.obstacles.len(),
            final(self)@.rolled_from(old(self)@.obstacles.len() as int),
    {
        let n: i64 = self.get_n_tries(area_ratio);
        let ghost start = self@.obstacles.len() as int;
        let ghost mut candidates: Seq<ObstacleView> = Seq::empty();
        let mut i: i64 = 0;
        while i < n
            invariant
                0 <= i,
                i <= n || i == 0,
                candidates.len() == i,
                forall|k: int|
                    0 <= k < candidates.len() ==> old(self)@.is_candidate(#[trigger] candidates[k]),
                self@ == old(self)@.placed_all(candidates),
                n == n_tries(self@.map_width, self@.map_length, area_ratio as int),
                0 <= area_ratio,
                self@ == (GameMapView { obstacles: self@.obstacles, ..old(self)@ }),
                old(self)@.obstacles.is_prefix_of(self@.obstacles),
                start == old(self)@.obstacles.len(),
                self@.obstacles.len() - start <= i,
                self@.rolled_from(start),
            decreases n - i,
        {
            proof {
                use_type_invariant(&self.dimensions);
                lemma_tries_need_length(self@.map_width, self@.map_length, area_ratio as int);
            }
            let ghost before = self@;
            let random_obstacle = self.roll_random_obstacle();
            self.place_obstacle(random_obstacle);
            proof {
                lemma_placed_keeps_rolled(before, start, random_obstacle@);
                let longer = candidates.push(random_obstacle@);
                assert(longer.drop_last() =~= candidates);
                assert(longer.last() == random_obstacle@);
                candidates = longer;
            }
            i += 1;
        }
        assert(old(self)@.is_roll(
            candidates,
            n_tries(old(self)@.map_width, old(self)@.map_length, area_ratio as int),
        ));
    }

    /// The number of obstacles that the roll tries to place to cover
    /// `area_ratio` thousandths of the map.
    pub fn get_n_tries(&self, area_ratio: i32) -> (n: i64)
        ensures
            n == n_tries(self@.map_width, self@.map_length, area_ratio as int),
    {
        let area: i64 = self.map_area();
        proof {
            assert(-0x4000_0000_0000_0000 <= self@.map_width * self@.map_length
                <= 0x4000_0000_0000_0000) by (nonlinear_arith)
                requires
                    -0x8000_0000 <= self@.map_width <= 0x8000_0000,
                    -0x8000_0000 <= self@.map_length <= 0x8000_0000,
            ;
            assert(-0x2000_0000_0000_0000_0000_0000 <= area * area_ratio
                <= 0x2000_0000_0000_0000_0000_0000) by (nonlinear_arith)
                requires
                    -0x4000_0000_0000_0000 <= area <= 0x4000_0000_0000_0000,
                    -0x8000_0000 <= area_ratio <= 0x8000_0000,
            ;
        }
        assert(UNIT * AVERAGE_OBSTACLE_AREA == 10_000_000_000_000);
        let covered: i128 = area as i128 * area_ratio as i128;
        let average: i128 = UNIT as i128 * AVERAGE_OBSTACLE_AREA as i128;
        let n: i128 = if covered >= 0 {
            (2 * covered + average) / (2 * average)
        } else {
            -((2 * (-covered) + average) / (2 * average))
        };
        n as i64
    }

    pub fn map_area(&self) -> (area: i64)
        ensures
            area == self@.map_width * self@.map_length,
    {
        proof {
            assert(-0x4000_0000_0000_0000 <= self@.map_width * self@.map_length
                <= 0x4000_0000_0000_0000) by (nonlinear_arith)
                requires
                    -0x8000_0000 <= self@.map_width <= 0x8000_0000,
                    -0x8000_0000 <= self@.map_length <= 0x8000_0000,
            ;
        }
        self.dimensions.map_width as i64 * self.dimensions.map_length as i64
    }

    fn roll_random_obstacle(&self) -> (obstacle: Obstacle)
        requires
            fits_i32(self@.map_length - OBSTACLE_SIDE_MAX / 2),
        ensures
            self@.is_candidate(obstacle@),
    {
        let height: i32 = self.random_height();
        let size: (u32, u32) = GameMap::random_size();
        let center: (i32, i32) = self.random_map_location(size);
        Obstacle::new(center, size, height)
    }

    fn random_map_location(&self, size: (u32, u32)) -> (center: (i32, i32))
        requires
            size.0 <= OBSTACLE_SIDE_MAX,
            size.1 <= OBSTACLE_SIDE_MAX,
            fits_i32(self@.map_length - OBSTACLE_SIDE_MAX / 2),
        ensures
            between(
                center.0 as int,
                -quotient(self@.map_width - size.0, 2),
                quotient(self@.map_width - size.0, 2),
            ),
            between(center.1 as int, 5 * size.1, self@.map_length - size.1 / 2),
    {
        proof {
            use_type_invariant(&self.dimensions);
        }
        let x_max: i32 = ((self.dimensions.map_width as i64 - size.0 as i64) / 2) as i32;
        let x_min: i32 = -x_max;
        let z_max: i32 = (self.dimensions.map_length as i64 - (size.1 / 2) as i64) as i32;
        let z_min: i32 = (size.1 * 5) as i32;
        let x: i32 = gen_range(x_min, x_max);
        let z: i32 = gen_range(z_min, z_max);
        (x, z)
    }

    fn random_height(&self) -> (height: i32)
        ensures
            between(height as int, OBSTACLE_HEIGHT_MIN as int, 2 * self@.camera_height),
    {
        proof {
            use_type_invariant(&self.dimensions);
        }
        let h_min: i32 = OBSTACLE_HEIGHT_MIN;
        let h_max: i32 = self.dimensions.camera_height * 2;
        gen_range(h_min, h_max)
    }

    fn random_size() -> (size: (u32, u32))
        ensures
            OBSTACLE_SIDE_MIN <= size.0 <= OBSTACLE_SIDE_MAX,
            OBSTACLE_SIDE_MIN <= size.1 <= OBSTACLE_SIDE_MAX,
    {
        let x: i32 = gen_range(OBSTACLE_SIDE_MIN, OBSTACLE_SIDE_MAX);
        let z: i32 = gen_range(OBSTACLE_SIDE_MIN, OBSTACLE_SIDE_MAX);
        (x as u32, z as u32)
    }

    /// Enters the distance of a run in the record.
    pub fn log_endrun_distance(&mut self, best_dist: i32)
        ensures
            final(self)@ == old(self)@.with_distance(best_dist as int),
    {
        if best_dist > self.best_distance_z {
            self.best_distance_z = best_dist;
        }
    }

    /// Enters the time of a won run in the record.
    pub fn log_endrun_time(&mut self, time_interval: i64)
        ensures
            final(self)@ == old(self)@.with_time(time_interval as int),
    {
        if self.best_time < 0 {
            self.best_time = time_interval;
        } else if time_interval < self.best_time {
            self.best_time = time_interval;
        }
    }

    /// Closes a run that took `delta_t` and left the craft at
    /// `player_shape`.
    pub fn reset_run(&mut self, delta_t: i64, player_shape: &Rectangle)
        ensures
            final(self)@ == old(self)@.after_run(delta_t as int, player_shape@),
    {
        if self.check_game_win(player_shape) {
            self.log_endrun_time(delta_t);
        }
        self.log_endrun_distance(player_shape.get_center().1);
    }

    /// Draws the map: the grid, the obstacles, and the mark of the best
    /// run with its text.
    pub fn draw(&self, projection: &Projection, canvas: &mut Canvas)
        ensures
            final(canvas)@ == old(canvas)@.with_lines(
                self@.lines(projection@, old(canvas)@.width, old(canvas)@.height),
            ).with_texts(
                self@.marker_texts(projection@, old(canvas)@.width, old(canvas)@.height),
            ),
    {
        proof {
            use_type_invariant(&self.dimensions);
        }
        let ghost c0 = canvas@;
        let ghost grid = self@.grid(self@.grid_steps(projection@), projection@, c0.width, c0.height);
        self.draw_grid(projection, canvas);
        proof {
            lemma_with_no_lines(canvas@);
        }
        let ghost c1 = canvas@;
        for i in 0..self.obstacles.len()
            invariant
                fits_i32(-self@.camera_height),
                c1 == c0.with_lines(grid),
                canvas@ == c1.with_lines(
                    self@.obstacle_lines(i as int, projection@, c0.width, c0.height),
                ),
        {
            let obstacle = &self.obstacles[i];
            obstacle.draw(projection, -self.dimensions.camera_height, canvas);
            proof {
                lemma_with_lines_twice(
                    c1,
                    self@.obstacle_lines(i as int, projection@, c0.width, c0.height),
                    self@.obstacles[i as int].wireframe(
                        -self@.camera_height,
                        projection@,
                        DrawParameters { color: Color::White, line_width: 1_000 },
                        c0.width,
                        c0.height,
                    ),
                );
            }
        }
        self.draw_best_distance_line(projection, canvas);
        proof {
            let boxes = self@.obstacle_lines(
                self@.obstacles.len() as int,
                projection@,
                c0.width,
                c0.height,
            );
            lemma_with_lines_twice(c0, grid, boxes);
            lemma_with_lines_twice(
                c0,
                grid + boxes,
                self@.marker_lines(projection@, c0.width, c0.height),
            );
        }
    }

    pub fn draw_grid(&self, projection: &Projection, canvas: &mut Canvas)
        ensures
            final(canvas)@ == old(canvas)@.with_lines(
                self@.grid(
                    self@.grid_steps(projection@),
                    projection@,
                    old(canvas)@.width,
                    old(canvas)@.height,
                ),
            ),
    {
        self.draw_horizontal_grid_lines(projection, canvas);
    }

    fn draw_horizontal_grid_lines(&self, projection: &Projection, canvas: &mut Canvas)
        ensures
            final(canvas)@ == old(canvas)@.with_lines(
                self@.grid(
                    self@.grid_steps(projection@),
                    projection@,
                    old(canvas)@.width,
                    old(canvas)@.height,
                ),
            ),
    {
        proof {
            use_type_invariant(&self.dimensions);
            projection.lemma_view();
            lemma_with_no_lines(canvas@);
        }
        let ghost c0 = canvas@;
        let ghost steps = self@.grid_steps(projection@);
        let ghost mut k: int = 0;
        let tile_size: i64 = self.dimensions.tile_size as i64;
        let map_length: i64 = self.dimensions.map_length as i64;
        let range = projection.get_view_zone_z_range();
        let z_offset: i64 = self.z_grid_offset(projection);
        let mut z: i64 = range.0;
        assert(steps == (range.1 - range.0 + 99_999) / 100_000);
        while z < range.1
            invariant
                tile_size == TILE_SIZE,
                self@.tile_size == TILE_SIZE,
                map_length == self@.map_length,
                steps == self@.grid_steps(projection@),
                steps == (range.1 - range.0 + 99_999) / 100_000,
                range.0 == projection@.view_zone().0,
                range.1 == projection@.view_zone().1,
                fits_i32(range.0 as int),
                0 <= range.1 - range.0 <= u32::MAX,
                z_offset == self@.grid_offset(projection@),
                -TILE_SIZE < z_offset < TILE_SIZE,
                0 <= k <= steps,
                z == range.0 + k * TILE_SIZE,
                z >= range.1 ==> k == steps,
                canvas@ == c0.with_lines(self@.grid(k, projection@, c0.width, c0.height)),
            decreases
                    (if z < range.1 {
                        range.1 - z
                    } else {
                        0
                    }),
        {
            let ghost drawn = self@.grid(k, projection@, c0.width, c0.height);
            let ghost more = self@.grid_step(k, projection@, c0.width, c0.height);
            let line_z: i64 = z - z_offset;
            if z <= map_length && 0 <= line_z && line_z <= map_length {
                self.draw_horizontal_line(line_z, projection, grid_line(), canvas);
            } else {
                proof {
                    lemma_with_no_lines(canvas@);
                }
            }
            z += tile_size;
            proof {
                lemma_with_lines_twice(c0, drawn, more);
                k = k + 1;
            }
        }
    }

    fn z_grid_offset(&self, projection: &Projection) -> (offset: i64)
        ensures
            offset == self@.grid_offset(projection@),
            -TILE_SIZE < offset < TILE_SIZE,
    {
        proof {
            use_type_invariant(&self.dimensions);
        }
        let viewport_anchor: i64 = projection.get_view_zone_z_range().0;
        viewport_anchor % self.dimensions.tile_size as i64
    }

    fn draw_horizontal_line(
        &self,
        z: i64,
        projection: &Projection,
        draw_params: DrawParameters,
        canvas: &mut Canvas,
    )
        ensures
            final(canvas)@ == old(canvas)@.with_lines(
                self@.ground_line(
                    z as int,
                    projection@,
                    draw_params,
                    old(canvas)@.width,
                    old(canvas)@.height,
                ),
            ),
    {
        let x: i64 = (self.dimensions.map_width / 2) as i64;
        let left = Point3D::new(x, -(self.dimensions.camera_height as i64), z);
        let right = Point3D::new(-x, -(self.dimensions.camera_height as i64), z);
        projection.draw_line(canvas, &left, &right, draw_params);
    }

    fn draw_best_distance_line(&self, projection: &Projection, canvas: &mut Canvas)
        ensures
            final(canvas)@ == old(canvas)@.with_lines(
                self@.marker_lines(projection@, old(canvas)@.width, old(canvas)@.height),
            ).with_texts(
                self@.marker_texts(projection@, old(canvas)@.width, old(canvas)@.height),
            ),
    {
        let ghost c0 = canvas@;
        let line_location: (i64, i64) = (0, self.best_distance_z as i64);
        let pole_location = MapPoint::new(self.dimensions.map_width / 2, self.best_distance_z);
        if projection.is_point_in_view_zone(&line_location) {
            self.draw_horizontal_line(self.best_distance_z as i64, projection, hud_line(), canvas);
            self.draw_pole(projection, &pole_location, canvas);
            proof {
                let params = DrawParameters { color: Color::Yellow, line_width: 2_000 };
                lemma_with_lines_twice(
                    c0,
                    self@.ground_line(
                        self@.best_distance_z,
                        projection@,
                        params,
                        c0.width,
                        c0.height,
                    ),
                    projection@.line(
                        self@.pole(0),
                        self@.pole(POLE_HEIGHT as int),
                        params,
                        c0.width,
                        c0.height,
                    ),
                );
            }
        } else {
            proof {
                lemma_with_no_lines(c0);
                lemma_with_no_texts(c0);
            }
        }
    }

    fn draw_pole(&self, projection: &Projection, pole_location: &MapPoint, canvas: &mut Canvas)
        requires
            pole_location.x() == quotient(self@.map_width, 2),
            pole_location.z() == self@.best_distance_z,
        ensures
            final(canvas)@ == old(canvas)@.with_lines(
                projection@.line(
                    self@.pole(0),
                    self@.pole(POLE_HEIGHT as int),
                    DrawParameters { color: Color::Yellow, line_width: 2_000 },
                    old(canvas)@.width,
                    old(canvas)@.height,
                ),
            ).with_texts(
                projection@.text(
                    self@.best_line_message(),
                    self@.pole(POLE_HEIGHT as int),
                    TextParameters { color: Color::Yellow, font_size: 20_000 },
                    old(canvas)@.width,
                    old(canvas)@.height,
                ),
            ),
    {
        let pole_height: i32 = POLE_HEIGHT as i32;
        let bot = self.to_3d(pole_location, 0);
        let top = self.to_3d(pole_location, pole_height);
        projection.draw_line(canvas, &bot, &top, hud_line());
        self.draw_best_line_text(projection, &top, canvas);
    }

    fn draw_best_line_text(&self, projection: &Projection, anchor: &Point3D, canvas: &mut Canvas)
        ensures
            final(canvas)@ == old(canvas)@.with_texts(
                projection@.text(
                    self@.best_line_message(),
                    anchor@,
                    TextParameters { color: Color::Yellow, font_size: 20_000 },
                    old(canvas)@.width,
                    old(canvas)@.height,
                ),
            ),
    {
        let message = self.get_best_line_message();
        projection.draw_text(canvas, message.as_str(), anchor, text_default());
    }

    /// What the mark of the best run says.
    pub fn get_best_line_message(&self) -> (message: String)
        ensures
            message@ == self@.best_line_message(),
    {
        if self.best_time > 0 {
            let mut message = String::from_str("best time: ");
            append_decimal_thousandths(&mut message, self.best_time as u64);
            message
        } else {
            let mut message = String::from_str("best distance: ");
            append_decimal_whole(&mut message, self.best_distance_z as i64);
            message
        }
    }

    fn to_3d(&self, point: &MapPoint, height: i32) -> (lifted: Point3D)
        ensures
            lifted@ == (Point3DView {
                x: point.x(),
                y: height - self@.camera_height,
                z: point.z(),
            }),
    {
        Point3D {
            x: point.x as i64,
            y: height as i64 - self.dimensions.camera_height as i64,
            z: point.z as i64,
        }
    }
}

} // verus!
