//! A level: the map, the craft that flies over it, and the camera that
//! follows the craft.

use vstd::prelude::*;
use crate::engine::{
    lemma_lines_after_texts, lemma_with_lines_twice, Canvas, LineView, MoveKeys, TextView,
};
use crate::fixed::{fits_i64, UNIT};
use crate::map::{dimensions_fit, GameMap, GameMapView};
use crate::player::{Player, PlayerView, MAX_SPEED, MIN_SPEED};
use crate::projection::{
    lemma_fov_within_bounds, Projection, ProjectionView, FOV_MAX, FOV_MIN, HORIZON_DELTA,
};

verus! {

/// No key is held.
pub open spec fn no_press() -> MoveKeys {
    MoveKeys { up: false, down: false, left: false, right: false }
}

/// A camera height that a level can be built with.
struct CameraHeight {
    value: i32,
}

impl CameraHeight {
    #[verifier::type_invariant]
    spec fn inv(self) -> bool {
        self.value != -HORIZON_DELTA && self.value > i32::MIN
    }
}

pub struct Level {
    game_map: GameMap,
    phoenix: Player,
    projection: Projection,
    last_reset_timeframe: i64,
    camera_height: CameraHeight,
}

pub struct LevelView {
    pub game_map: GameMapView,
    pub phoenix: PlayerView,
    pub projection: ProjectionView,
    pub last_reset_timeframe: int,
    pub camera_height: int,
}

impl View for Level {
    type V = LevelView;

    closed spec fn view(&self) -> LevelView {
        LevelView {
            game_map: self.game_map@,
            phoenix: self.phoenix@,
            projection: self.projection@,
            last_reset_timeframe: self.last_reset_timeframe as int,
            camera_height: self.camera_height.value as int,
        }
    }
}

/// The camera brought over the craft, with the field of view that goes
/// with the speed of the craft.
pub open spec fn follows(camera: ProjectionView, phoenix: PlayerView) -> ProjectionView {
    ProjectionView {
        offset_x: phoenix.shape.center.0,
        offset_z: phoenix.shape.center.1,
        fov_distance: ProjectionView::fov_for(phoenix.speed_pu()),
        ..camera
    }
}

/// A level can be built with these measures at this time.
pub open spec fn can_build(camera_height: int, map_width: int, map_length: int, time: int) -> bool {
    &&& dimensions_fit(camera_height, map_width, map_length)
    &&& camera_height != -HORIZON_DELTA
    &&& PlayerView::initial(-camera_height, time).can_step(0, no_press())
}

impl LevelView {
    /// What holds of a level as it is built, whatever map the roll comes
    /// up with: the craft has been updated once with no key held, at the
    /// time zero of the run, and the camera follows it.
    pub open spec fn begun(
        self,
        camera_height: int,
        map_width: int,
        map_length: int,
        time: int,
    ) -> bool {
        let phoenix = PlayerView::initial(-camera_height, time).step(0, no_press());
        &&& self.game_map.built(camera_height, map_width, map_length)
        &&& self.phoenix == phoenix
        &&& self.projection == follows(ProjectionView::initial(camera_height), phoenix)
        &&& self.last_reset_timeframe == time
        &&& self.camera_height == camera_height
    }

    /// The level after an update at `current_time`: the craft is updated
    /// at the time since the run began, and the camera follows it.
    pub open spec fn updated(self, current_time: int, keys: MoveKeys) -> LevelView {
        let phoenix = self.phoenix.step(current_time - self.last_reset_timeframe, keys);
        LevelView { phoenix, projection: follows(self.projection, phoenix), ..self }
    }

    /// The update at `current_time` stays within the limits of the
    /// machine.
    pub open spec fn can_update(self, current_time: int, keys: MoveKeys) -> bool {
        &&& fits_i64(current_time - self.last_reset_timeframe)
        &&& self.phoenix.can_step(current_time - self.last_reset_timeframe, keys)
    }

    /// The run is over: the craft has crashed or has reached the finish
    /// line.
    pub open spec fn game_over(self) -> bool {
        self.game_map.game_over(self.phoenix.shape)
    }

    /// The level at the start of the next run, begun at `time`: the run
    /// that ends is entered in the records of the map, and the craft and
    /// the camera are as new.
    pub open spec fn reset(self, time: int) -> LevelView {
        LevelView {
            game_map: self.game_map.after_run(time - self.last_reset_timeframe, self.phoenix.shape),
            phoenix: PlayerView::initial(-self.camera_height, time),
            projection: ProjectionView::initial(self.camera_height),
            last_reset_timeframe: time,
            ..self
        }
    }

    /// The length of the run that ends at `time` is a 64-bit number.
    pub open spec fn can_reset(self, time: int) -> bool {
        fits_i64(time - self.last_reset_timeframe)
    }

    /// The lines of the level: those of the map, then the craft.
    pub open spec fn lines(self, width: int, height: int) -> Seq<LineView> {
        self.game_map.lines(self.projection, width, height) + self.phoenix.picture(
            self.projection,
            width,
            height,
        )
    }

    /// The texts of the level.
    pub open spec fn texts(self, width: int, height: int) -> Seq<TextView> {
        self.game_map.marker_texts(self.projection, width, height)
    }
}

/// The camera that follows a craft has a field-of-view distance between
/// `FOV_MAX` and `FOV_MIN`, so that what it sees lies in front of it.
pub proof fn lemma_following_camera(camera: ProjectionView, phoenix: PlayerView)
    requires
        phoenix.wf(),
    ensures
        FOV_MAX <= follows(camera, phoenix).fov_distance <= FOV_MIN,
        follows(camera, phoenix).offset_x == phoenix.shape.center.0,
        follows(camera, phoenix).offset_z == phoenix.shape.center.1,
{
    let above = (phoenix.fwd_speed - MIN_SPEED) * UNIT;
    assert(0 <= above <= 1_800_000);
    assert(0 <= above / 1_800 <= 1_000);
    lemma_fov_within_bounds(phoenix.speed_pu());
}

impl Level {
    /// Whether a level can be built with these measures at this time:
    /// where it cannot, `new` cannot be called.
    pub fn can_build(camera_height: i32, map_width: i32, map_length: i32, time: i64) -> (fits:
        bool)
        ensures
            fits == can_build(
                camera_height as int,
                map_width as int,
                map_length as int,
                time as int,
            ),
    {
        if !GameMap::fits(camera_height, map_width, map_length) || camera_height as i64
            == -HORIZON_DELTA {
            return false;
        }
        let phoenix = Player::new(-camera_height, time);
        phoenix.can_update(0, &MoveKeys { up: false, down: false, left: false, right: false })
    }

    pub fn new(camera_height: i32, map_width: i32, map_length: i32, time: i64) -> (level: Level)
        requires
            can_build(camera_height as int, map_width as int, map_length as int, time as int),
        ensures
            level@.begun(camera_height as int, map_width as int, map_length as int, time as int),
    {
        let mut ret = Level {
            game_map: GameMap::new(camera_height, map_width, map_length),
            phoenix: Player::new(-camera_height, time),
            projection: Projection::new(camera_height),
            last_reset_timeframe: time,
            camera_height: CameraHeight { value: camera_height },
        };
        ret.update(time, &MoveKeys { up: false, down: false, left: false, right: false });
        ret
    }

    /// Whether the update at `current_time` stays within the limits of the
    /// machine: where it does not, `update` cannot be called.
    pub fn can_update(&self, current_time: i64, active_keys: &MoveKeys) -> (fits: bool)
        ensures
            fits == self@.can_update(current_time as int, *active_keys),
    {
        let since_reset: i128 = current_time as i128 - self.last_reset_timeframe as i128;
        if since_reset < i64::MIN as i128 || since_reset > i64::MAX as i128 {
            return false;
        }
        self.phoenix.can_update(since_reset as i64, active_keys)
    }

    pub fn update(&mut self, current_time: i64, active_keys: &MoveKeys)
        requires
            old(self)@.can_update(current_time as int, *active_keys),
        ensures
            final(self)@ == old(self)@.updated(current_time as int, *active_keys),
    {
        self.phoenix.update(current_time - self.last_reset_timeframe, active_keys);
        let player_pos = self.phoenix.get_position();
        self.projection.set_offset(player_pos.0, player_pos.1);
        let player_speed = self.phoenix.get_speed_pu();
        self.projection.set_fov(player_speed);
    }

    /// Draws the map, then the craft.
    pub fn draw(&self, canvas: &mut Canvas)
        ensures
            final(canvas)@ == old(canvas)@.with_lines(
                self@.lines(old(canvas)@.width, old(canvas)@.height),
            ).with_texts(self@.texts(old(canvas)@.width, old(canvas)@.height)),
    {
        let ghost c0 = canvas@;
        self.game_map.draw(&self.projection, canvas);
        self.phoenix.draw(&self.projection, canvas);
        proof {
            let map_lines = self@.game_map.lines(self@.projection, c0.width, c0.height);
            let texts = self@.texts(c0.width, c0.height);
            let craft = self@.phoenix.picture(self@.projection, c0.width, c0.height);
            lemma_lines_after_texts(c0.with_lines(map_lines), texts, craft);
            lemma_with_lines_twice(c0, map_lines, craft);
        }
    }

    pub fn check_game_over(&self) -> (over: bool)
        ensures
            over == self@.game_over(),
    {
        return self.game_map.check_game_over(self.phoenix.get_shape());
    }

    /// Whether the length of the run that ends at `time` is a 64-bit
    /// number: where it is not, `reset` cannot be called.
    pub fn can_reset(&self, time: i64) -> (fits: bool)
        ensures
            fits == self@.can_reset(time as int),
    {
        let delta_t: i128 = time as i128 - self.last_reset_timeframe as i128;
        i64::MIN as i128 <= delta_t && delta_t <= i64::MAX as i128
    }

    /// Ends the run and begins the next one at `time`.
    pub fn reset(&mut self, time: i64)
        requires
            old(self)@.can_reset(time as int),
        ensures
            final(self)@ == old(self)@.reset(time as int),
    {
        proof {
            use_type_invariant(&self.camera_height);
        }
        let delta_t: i64 = time - self.last_reset_timeframe;
        self.game_map.reset_run(delta_t, self.phoenix.get_shape());
        self.phoenix = Player::new(-self.camera_height.value, time);
        self.projection = Projection::new(self.camera_height.value);
        self.last_reset_timeframe = time;
    }

    pub fn get_map(&self) -> (game_map: &GameMap)
        ensures
            game_map@ == self@.game_map,
    {
        &self.game_map
    }

    pub fn get_player(&self) -> (phoenix: &Player)
        ensures
            phoenix@ == self@.phoenix,
    {
        &self.phoenix
    }

    pub fn get_projection(&self) -> (projection: &Projection)
        ensures
            projection@ == self@.projection,
    {
        &self.projection
    }
}

} // verus!
