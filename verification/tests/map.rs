use phoenix::engine::{grid_line, hud_line, text_default, Canvas};
use phoenix::map::{
    GameMap, MapPoint, ENDGOAL_DEPTH, FENCE_HEIGHT, FENCE_WIDTH, OBSTACLE_HEIGHT_MIN,
    OBSTACLE_SIDE_MAX, OBSTACLE_SIDE_MIN, TILE_SIZE,
};
use phoenix::obstacle::Obstacle;
use phoenix::projection::Projection;
use phoenix::rectangle::Rectangle;

const CAMERA_HEIGHT: i32 = 10_000;

// A map this narrow is too small for the roll to try any obstacle.
const NARROW: i32 = 190_000;

fn between(v: i64, a: i64, b: i64) -> bool {
    (a <= v && v <= b) || (b <= v && v <= a)
}

#[test]
fn map_point_is_built() {
    let point = MapPoint::new(3, -4);
    assert_eq!(point, MapPoint::new(3, -4));
    assert_ne!(point, MapPoint::new(3, 4));
}

#[test]
fn map_begins_with_fences_and_wall() {
    let map = GameMap::new(CAMERA_HEIGHT, NARROW, 250_000);
    let obstacles = map.get_obstacles();
    assert_eq!(obstacles.len(), 5);
    let expected = [
        ((115_000, 50_000), (FENCE_WIDTH, TILE_SIZE)),
        ((115_000, 150_000), (FENCE_WIDTH, TILE_SIZE)),
        ((-115_000, 50_000), (FENCE_WIDTH, TILE_SIZE)),
        ((-115_000, 150_000), (FENCE_WIDTH, TILE_SIZE)),
        ((0, 270_000), (190_000, ENDGOAL_DEPTH)),
    ];
    for i in 0..5 {
        assert_eq!(obstacles[i].get_base().get_center(), expected[i].0);
        assert_eq!(obstacles[i].get_base().get_size(), expected[i].1);
        assert_eq!(obstacles[i].get_height(), FENCE_HEIGHT);
    }
    assert_eq!(map.get_best_distance_z(), -1_000);
    assert_eq!(map.get_best_time(), -1_000);
}

#[test]
fn fence_has_a_post_for_each_tile_that_begins() {
    assert_eq!(GameMap::new(CAMERA_HEIGHT, 0, 50_000).get_obstacles().len(), 1);
    assert_eq!(GameMap::new(CAMERA_HEIGHT, 0, 50_001).get_obstacles().len(), 3);
    assert_eq!(GameMap::new(CAMERA_HEIGHT, 0, 150_000).get_obstacles().len(), 3);
    assert_eq!(GameMap::new(CAMERA_HEIGHT, 0, 150_001).get_obstacles().len(), 5);
    assert_eq!(GameMap::new(CAMERA_HEIGHT, 0, 0).get_obstacles().len(), 1);
    assert_eq!(GameMap::new(CAMERA_HEIGHT, 0, -700_000).get_obstacles().len(), 1);
    let odd = GameMap::new(CAMERA_HEIGHT, 5, 50_001);
    assert_eq!(odd.get_obstacles()[0].get_base().get_center(), (20_002, 50_000));
    assert_eq!(odd.get_obstacles()[1].get_base().get_center(), (-20_002, 50_000));
}

#[test]
fn map_fits_within_the_limits() {
    assert!(GameMap::fits(0, 0, 0));
    assert!(GameMap::fits(CAMERA_HEIGHT, NARROW, 250_000));
    assert!(!GameMap::fits(CAMERA_HEIGHT, -1, 250_000));
    assert!(GameMap::fits(CAMERA_HEIGHT, i32::MAX, i32::MIN));
    assert!(GameMap::fits(0x3fff_ffff, 0, i32::MAX - 20_000));
    assert!(!GameMap::fits(0x4000_0000, 0, 0));
    assert!(!GameMap::fits(0, 0, i32::MAX - 19_999));
    assert!(GameMap::fits(-0x4000_0000, 0, 0));
    assert!(!GameMap::fits(-0x4000_0001, 0, 0));
}

#[test]
fn map_at_the_limits_is_built() {
    let map = GameMap::new(0x3fff_ffff, 0, i32::MIN);
    assert_eq!(map.get_obstacles().len(), 1);
    let map = GameMap::new(-0x4000_0000, i32::MAX, 0);
    assert_eq!(map.get_obstacles().len(), 1);
    assert_eq!(map.get_obstacles()[0].get_base().get_center(), (0, 20_000));
    assert_eq!(map.get_obstacles()[0].get_base().get_size(), (i32::MAX as u32, ENDGOAL_DEPTH));
    let map = GameMap::new(0, 0, i32::MAX - 20_000);
    assert_eq!(map.get_obstacles().len(), 2 * 21_475 + 1);
    assert_eq!(map.get_obstacles()[2 * 21_475].get_base().get_center(), (0, i32::MAX));
}

#[test]
fn roll_tries_nothing_on_less_than_half_an_obstacle() {
    // A tenth of 400 by 124 units is 0.496 of the average obstacle of 100
    // by 100 units.
    let map = GameMap::new(CAMERA_HEIGHT, 400_000, 124_000);
    assert_eq!(map.get_obstacles().len(), 3);
    // A tenth of 400 by 125 units is half of it, which counts as one.
    let map = GameMap::new(CAMERA_HEIGHT, 400_000, 125_000);
    assert!(map.get_obstacles().len() <= 4);
}

#[test]
fn tries_cover_a_share_of_the_map() {
    // A tenth of 1600 by 8000 units, in obstacles of 100 by 100 units.
    let map = GameMap::new(CAMERA_HEIGHT, 1_600_000, 8_000_000);
    assert_eq!(map.map_area(), 12_800_000_000_000);
    assert_eq!(map.get_n_tries(100), 128);
    assert_eq!(map.get_n_tries(1_000), 1_280);
    assert_eq!(map.get_n_tries(0), 0);
    assert_eq!(map.get_n_tries(-100), -128);
    assert_eq!(map.get_n_tries(i32::MAX), 2_748_779_068);
    let map = GameMap::new(CAMERA_HEIGHT, 400_000, 124_000);
    assert_eq!(map.get_n_tries(100), 0);
    // Halves go away from zero.
    let map = GameMap::new(CAMERA_HEIGHT, 400_000, 125_000);
    assert_eq!(map.get_n_tries(100), 1);
    assert_eq!(map.get_n_tries(-100), -1);
    assert_eq!(map.get_n_tries(299), 1);
    assert_eq!(map.get_n_tries(300), 2);
    assert_eq!(map.get_n_tries(-300), -2);
    let map = GameMap::new(CAMERA_HEIGHT, 0, 125_000);
    assert_eq!(map.map_area(), 0);
    assert_eq!(map.get_n_tries(i32::MAX), 0);
    let map = GameMap::new(CAMERA_HEIGHT, 190_000, -250_000);
    assert_eq!(map.map_area(), -47_500_000_000);
    assert_eq!(map.get_n_tries(100), 0);
    assert_eq!(map.get_n_tries(200), -1);
    assert_eq!(map.get_obstacles().len(), 1);
}

#[test]
fn rolled_obstacles_stand_apart() {
    let camera_height = 210_000;
    let map_width = 1_600_000;
    let map_length = 8_000_000;
    let mut placed = 0;
    for seed in 0..20 {
        macroquad::rand::srand(seed);
        let map = GameMap::new(camera_height, map_width, map_length);
        let obstacles = map.get_obstacles();
        // Eighty posts in either fence, and the wall.
        let fixed = 161;
        // A tenth of 1600 by 8000 units is 128 average obstacles.
        assert!(obstacles.len() >= fixed);
        assert!(obstacles.len() <= fixed + 128);
        for i in fixed..obstacles.len() {
            for j in 0..obstacles.len() {
                if i != j {
                    assert!(!obstacles[i].check_collision_obst(&obstacles[j]));
                    assert!(!obstacles[j].check_collision_obst(&obstacles[i]));
                }
            }
            let size = obstacles[i].get_base().get_size();
            let center = obstacles[i].get_base().get_center();
            assert!(OBSTACLE_SIDE_MIN as u32 <= size.0 && size.0 <= OBSTACLE_SIDE_MAX as u32);
            assert!(OBSTACLE_SIDE_MIN as u32 <= size.1 && size.1 <= OBSTACLE_SIDE_MAX as u32);
            let height = obstacles[i].get_height();
            assert!(OBSTACLE_HEIGHT_MIN <= height && height <= 2 * camera_height);
            let x_max = (map_width as i64 - size.0 as i64) / 2;
            assert!(between(center.0 as i64, -x_max, x_max));
            assert!(between(
                center.1 as i64,
                5 * size.1 as i64,
                map_length as i64 - size.1 as i64 / 2
            ));
        }
        placed += obstacles.len() - fixed;
    }
    // The roll does place obstacles, and not the same ones each time.
    assert!(placed > 20 * 30);
}

#[test]
fn rolled_obstacles_differ() {
    macroquad::rand::srand(7);
    let map = GameMap::new(210_000, 1_600_000, 8_000_000);
    let obstacles = map.get_obstacles();
    assert!(obstacles.len() > 161 + 2);
    let first = &obstacles[161];
    let mut same_center = true;
    let mut same_size = true;
    let mut same_height = true;
    for i in 162..obstacles.len() {
        same_center = same_center
            && obstacles[i].get_base().get_center() == first.get_base().get_center();
        same_size = same_size && obstacles[i].get_base().get_size() == first.get_base().get_size();
        same_height = same_height && obstacles[i].get_height() == first.get_height();
    }
    assert!(!same_center);
    assert!(!same_size);
    assert!(!same_height);
}

#[test]
fn place_obstacle_keeps_what_is_clear() {
    let mut map = GameMap::new(CAMERA_HEIGHT, NARROW, 250_000);
    // It touches the right fence, which begins at 95 units.
    let touching = Obstacle::new((45_000, 100_000), (100_000, 50_000), 100_000);
    assert!(map.check_collision_obst(&touching));
    assert!(!map.place_obstacle(touching));
    assert_eq!(map.get_obstacles().len(), 5);
    let clear = Obstacle::new((44_999, 100_000), (100_000, 50_000), 123_000);
    assert!(!map.check_collision_obst(&clear));
    assert!(map.place_obstacle(clear));
    assert_eq!(map.get_obstacles().len(), 6);
    assert_eq!(map.get_obstacles()[5].get_base().get_center(), (44_999, 100_000));
    assert_eq!(map.get_obstacles()[5].get_height(), 123_000);
    // The same one again collides with itself.
    assert!(!map.place_obstacle(clear));
    assert_eq!(map.get_obstacles().len(), 6);
    let behind_the_wall = Obstacle::new((0, 290_001), (100_000, 0), 1);
    assert!(map.place_obstacle(behind_the_wall));
    let at_the_wall = Obstacle::new((0, 250_000), (0, 0), 1);
    assert!(!map.place_obstacle(at_the_wall));
    assert_eq!(map.get_obstacles().len(), 7);
}

#[test]
fn add_obstacle_asks_nothing() {
    let mut map = GameMap::new(CAMERA_HEIGHT, NARROW, 250_000);
    let touching = Obstacle::new((45_000, 100_000), (100_000, 50_000), 100_000);
    map.add_obstacle(touching);
    map.add_obstacle(touching);
    assert_eq!(map.get_obstacles().len(), 7);
    assert_eq!(map.get_obstacles()[6].get_base().get_center(), (45_000, 100_000));
}

#[test]
fn game_is_over_at_the_finish_line() {
    let map = GameMap::new(CAMERA_HEIGHT, NARROW, 250_000);
    // Far behind the wall, where nothing stands.
    let beyond = Rectangle::new((0, 900_000), (25_000, 10_000));
    assert!(map.check_game_win(&beyond));
    assert!(map.check_game_over(&beyond));
    // On the line itself, and one thousandth before it. Both touch the
    // wall.
    let on_the_line = Rectangle::new((0, 250_000), (25_000, 10_000));
    assert!(map.check_game_win(&on_the_line));
    assert!(map.check_game_over(&on_the_line));
    let before = Rectangle::new((0, 249_999), (25_000, 10_000));
    assert!(!map.check_game_win(&before));
    assert!(map.check_game_over(&before));
    // Beside the map, level with the line.
    let outside = Rectangle::new((900_000, 250_000), (25_000, 10_000));
    assert!(!map.check_collision_obst(&Obstacle::new((900_000, 250_000), (25_000, 10_000), 0)));
    assert!(map.check_game_win(&outside));
    assert!(map.check_game_over(&outside));
}

#[test]
fn game_is_over_at_a_fence() {
    let map = GameMap::new(CAMERA_HEIGHT, NARROW, 250_000);
    let in_the_middle = Rectangle::new((0, 100_000), (25_000, 10_000));
    assert!(!map.check_game_over(&in_the_middle));
    let at_the_right_fence = Rectangle::new((82_500, 100_000), (25_000, 10_000));
    assert!(map.check_game_over(&at_the_right_fence));
    assert!(!map.check_game_win(&at_the_right_fence));
    let short_of_it = Rectangle::new((82_499, 100_000), (25_000, 10_000));
    assert!(!map.check_game_over(&short_of_it));
    let at_the_left_fence = Rectangle::new((-82_500, 199_999), (25_000, 10_000));
    assert!(map.check_game_over(&at_the_left_fence));
    let short_of_the_wall = Rectangle::new((0, 244_999), (25_000, 10_000));
    assert!(!map.check_game_over(&short_of_the_wall));
    let at_the_wall = Rectangle::new((0, 245_000), (25_000, 10_000));
    assert!(map.check_game_over(&at_the_wall));
    // The fences end with their last post, at 200 units.
    let past_the_fence = Rectangle::new((115_000, 230_000), (25_000, 10_000));
    assert!(!map.check_game_over(&past_the_fence));
}

#[test]
fn best_distance_is_the_farthest() {
    let mut map = GameMap::new(CAMERA_HEIGHT, NARROW, 250_000);
    assert_eq!(map.get_best_distance_z(), -1_000);
    for z in [30_000, 70_000, 70_001, 240_000] {
        map.log_endrun_distance(z);
        assert_eq!(map.get_best_distance_z(), z);
    }
    for z in [239_999, 0, -5, i32::MIN] {
        map.log_endrun_distance(z);
        assert_eq!(map.get_best_distance_z(), 240_000);
    }
    map.log_endrun_distance(i32::MAX);
    assert_eq!(map.get_best_distance_z(), i32::MAX);
    let mut untouched = GameMap::new(CAMERA_HEIGHT, NARROW, 250_000);
    untouched.log_endrun_distance(-1_001);
    assert_eq!(untouched.get_best_distance_z(), -1_000);
    untouched.log_endrun_distance(-999);
    assert_eq!(untouched.get_best_distance_z(), -999);
}

#[test]
fn best_time_is_the_shortest() {
    let mut map = GameMap::new(CAMERA_HEIGHT, NARROW, 250_000);
    assert_eq!(map.get_best_time(), -1_000);
    // The first time is taken as it is.
    map.log_endrun_time(9_000);
    assert_eq!(map.get_best_time(), 9_000);
    map.log_endrun_time(7_500);
    assert_eq!(map.get_best_time(), 7_500);
    map.log_endrun_time(7_501);
    assert_eq!(map.get_best_time(), 7_500);
    map.log_endrun_time(i64::MAX);
    assert_eq!(map.get_best_time(), 7_500);
    map.log_endrun_time(0);
    assert_eq!(map.get_best_time(), 0);
    map.log_endrun_time(5);
    assert_eq!(map.get_best_time(), 0);
}

#[test]
fn reset_run_counts_the_time_of_a_win_only() {
    let mut map = GameMap::new(CAMERA_HEIGHT, NARROW, 250_000);
    let won = Rectangle::new((0, 250_000), (25_000, 10_000));
    let won_farther = Rectangle::new((0, 260_000), (25_000, 10_000));
    let lost = Rectangle::new((85_000, 249_999), (25_000, 10_000));
    let lost_early = Rectangle::new((85_000, 60_000), (25_000, 10_000));
    map.reset_run(3_000, &lost_early);
    assert_eq!((map.get_best_time(), map.get_best_distance_z()), (-1_000, 60_000));
    map.reset_run(9_000, &won);
    assert_eq!((map.get_best_time(), map.get_best_distance_z()), (9_000, 250_000));
    map.reset_run(7_000, &won_farther);
    assert_eq!((map.get_best_time(), map.get_best_distance_z()), (7_000, 260_000));
    // A loss changes the time on record no more than a slower win.
    map.reset_run(10, &lost);
    assert_eq!((map.get_best_time(), map.get_best_distance_z()), (7_000, 260_000));
    map.reset_run(123_456, &lost_early);
    assert_eq!((map.get_best_time(), map.get_best_distance_z()), (7_000, 260_000));
    map.reset_run(8_000, &won);
    assert_eq!((map.get_best_time(), map.get_best_distance_z()), (7_000, 260_000));
}

#[test]
fn best_line_message_says_distance_then_time() {
    let mut map = GameMap::new(CAMERA_HEIGHT, NARROW, 250_000);
    assert_eq!(map.get_best_line_message(), "best distance: -1");
    map.log_endrun_distance(-400);
    assert_eq!(map.get_best_line_message(), "best distance: -0");
    map.log_endrun_distance(499);
    assert_eq!(map.get_best_line_message(), "best distance: 0");
    map.log_endrun_distance(500);
    assert_eq!(map.get_best_line_message(), "best distance: 0");
    map.log_endrun_distance(501);
    assert_eq!(map.get_best_line_message(), "best distance: 1");
    map.log_endrun_distance(1_500);
    assert_eq!(map.get_best_line_message(), "best distance: 2");
    map.log_endrun_distance(104_500);
    assert_eq!(map.get_best_line_message(), "best distance: 104");
    map.log_endrun_distance(105_499);
    assert_eq!(map.get_best_line_message(), "best distance: 105");
    map.log_endrun_distance(105_500);
    assert_eq!(map.get_best_line_message(), "best distance: 106");
    map.log_endrun_distance(i32::MAX);
    assert_eq!(map.get_best_line_message(), "best distance: 2147484");
    map.log_endrun_time(59_007);
    assert_eq!(map.get_best_line_message(), "best time: 59.007");
    map.log_endrun_time(1_620);
    assert_eq!(map.get_best_line_message(), "best time: 1.620");
    map.log_endrun_time(5);
    assert_eq!(map.get_best_line_message(), "best time: 0.005");
    // No time at all does not count as a time.
    map.log_endrun_time(0);
    assert_eq!(map.get_best_line_message(), "best distance: 2147484");
}

#[test]
fn best_line_message_of_a_long_time() {
    let mut map = GameMap::new(CAMERA_HEIGHT, NARROW, 250_000);
    map.log_endrun_time(i64::MAX);
    assert_eq!(map.get_best_line_message(), "best time: 9223372036854775.807");
}

#[test]
fn grid_lines_stay_where_they_are() {
    let map = GameMap::new(CAMERA_HEIGHT, NARROW, 250_000);
    let mut projection = Projection::new(CAMERA_HEIGHT);
    let mut canvas = Canvas::new(800_000, 600_000);
    map.draw_grid(&projection, &mut canvas);
    {
        // Lines at 0, 100 and 200 units; the map ends before the next.
        let lines = canvas.get_lines();
        assert_eq!(lines.len(), 3);
        assert_eq!((lines[0].x1, lines[0].y1), (495_000, 310_000));
        assert_eq!((lines[0].x2, lines[0].y2), (305_000, 310_000));
        assert_eq!((lines[1].x1, lines[1].y1), (490_476, 309_523));
        assert_eq!((lines[1].x2, lines[1].y2), (309_524, 309_523));
        assert_eq!((lines[2].x1, lines[2].y1), (486_363, 309_090));
        assert_eq!(lines[0].params, grid_line());
    }
    // 30 units on, the same three lines are 30 units nearer.
    projection.set_offset(0, 30_000);
    let mut canvas = Canvas::new(800_000, 600_000);
    map.draw_grid(&projection, &mut canvas);
    {
        let lines = canvas.get_lines();
        assert_eq!(lines.len(), 3);
        assert_eq!((lines[0].x1, lines[0].y1), (496_446, 310_152));
        assert_eq!((lines[1].x1, lines[1].y1), (491_787, 309_661));
    }
    // From 60 units on, the step after the line at 200 units is beyond
    // the end of the map.
    projection.set_offset(0, 60_000);
    let mut canvas = Canvas::new(800_000, 600_000);
    map.draw_grid(&projection, &mut canvas);
    assert_eq!(canvas.get_lines().len(), 2);
    projection.set_offset(0, 250_001);
    let mut canvas = Canvas::new(800_000, 600_000);
    map.draw_grid(&projection, &mut canvas);
    assert_eq!(canvas.get_lines().len(), 0);
}

#[test]
fn grid_lines_begin_at_the_start_of_the_map() {
    let map = GameMap::new(CAMERA_HEIGHT, NARROW, 250_000);
    let mut projection = Projection::new(CAMERA_HEIGHT);
    // The view begins 130 units before the map: the steps at -130 and -30
    // units go with the lines at -100 and 0 units, and only the second of
    // them lies on the map.
    projection.set_offset(0, -130_000);
    let mut canvas = Canvas::new(800_000, 600_000);
    map.draw_grid(&projection, &mut canvas);
    let lines = canvas.get_lines();
    assert_eq!(lines.len(), 3);
    // The line at 0 units is 130 units from the camera.
    assert_eq!((lines[0].x1, lines[0].y1), (489_201, 309_389));
}

#[test]
fn best_run_is_marked_where_it_is_in_view() {
    let mut map = GameMap::new(CAMERA_HEIGHT, NARROW, 250_000);
    let mut projection = Projection::new(CAMERA_HEIGHT);
    let mut canvas = Canvas::new(800_000, 600_000);
    // Nothing is on record: the mark would be one unit behind the camera.
    map.draw(&projection, &mut canvas);
    assert_eq!(canvas.get_texts().len(), 0);
    assert_eq!(canvas.get_lines().len(), 3 + 5 * 12);
    map.log_endrun_distance(100_000);
    let mut canvas = Canvas::new(800_000, 600_000);
    map.draw(&projection, &mut canvas);
    {
        let lines = canvas.get_lines();
        assert_eq!(lines.len(), 3 + 5 * 12 + 2);
        let across = lines[63];
        assert_eq!((across.x1, across.y1), (490_476, 309_523));
        assert_eq!((across.x2, across.y2), (309_524, 309_523));
        assert_eq!(across.params, hud_line());
        // The pole stands at the right end and is 200 units high.
        let pole = lines[64];
        assert_eq!((pole.x1, pole.y1), (490_476, 309_523));
        assert_eq!((pole.x2, pole.y2), (490_476, 119_048));
        assert_eq!(pole.params, hud_line());
        let texts = canvas.get_texts();
        assert_eq!(texts.len(), 1);
        assert_eq!(texts[0].message, "best distance: 100");
        assert_eq!((texts[0].x, texts[0].y), (490_476, 119_048));
        assert_eq!(texts[0].params, text_default());
    }
    map.log_endrun_time(12_345);
    projection.set_offset(0, 100_000);
    let mut canvas = Canvas::new(800_000, 600_000);
    map.draw(&projection, &mut canvas);
    assert_eq!(canvas.get_texts().len(), 1);
    assert_eq!(canvas.get_texts()[0].message, "best time: 12.345");
    projection.set_offset(0, 100_001);
    let mut canvas = Canvas::new(800_000, 600_000);
    map.draw(&projection, &mut canvas);
    assert_eq!(canvas.get_texts().len(), 0);
}
