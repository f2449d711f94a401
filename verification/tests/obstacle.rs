use phoenix::engine::{default_line, Canvas};
use phoenix::obstacle::Obstacle;
use phoenix::projection::Projection;
use phoenix::rectangle::Rectangle;

#[test]
fn obstacle_is_what_it_was_built_with() {
    let obstacle = Obstacle::new((1, -2), (3, 4), -5);
    assert_eq!(obstacle.get_base().get_center(), (1, -2));
    assert_eq!(obstacle.get_base().get_size(), (3, 4));
    assert_eq!(obstacle.get_height(), -5);
}

#[test]
fn obstacle_collides_as_its_base() {
    let obstacle = Obstacle::new((0, 0), (1_000, 1_000), 9_000);
    let touching = Rectangle::new((1_000, -1_000), (1_000, 1_000));
    let apart = Rectangle::new((1_000, -1_001), (1_000, 1_000));
    assert!(obstacle.check_collision(&touching));
    assert!(!obstacle.check_collision(&apart));
    let other = Obstacle::new((-1_000, 0), (1_000, 0), 1);
    let far = Obstacle::new((-1_001, 0), (1_000, 0), 1);
    assert!(obstacle.check_collision_obst(&other));
    assert!(other.check_collision_obst(&obstacle));
    assert!(!obstacle.check_collision_obst(&far));
    assert!(!far.check_collision_obst(&obstacle));
    // How high they are makes no difference.
    let low = Obstacle::new((0, 0), (1_000, 1_000), i32::MIN);
    assert!(low.check_collision_obst(&obstacle));
}

#[test]
fn obstacle_is_drawn_as_a_box() {
    let projection = Projection::new(10_000);
    let obstacle = Obstacle::new((0, 2_000_000), (400_000, 0), 100_000);
    let mut canvas = Canvas::new(800_000, 600_000);
    obstacle.draw(&projection, -10_000, &mut canvas);
    let lines = canvas.get_lines();
    assert_eq!(lines.len(), 12);
    // At 2000 units everything is half its size: the bottom is 5 units
    // below the middle of the screen and the top 45 units above it.
    assert_eq!((lines[0].x1, lines[0].y1, lines[0].x2, lines[0].y2), (300_000, 305_000, 500_000, 305_000));
    assert_eq!((lines[4].x1, lines[4].y1, lines[4].x2, lines[4].y2), (300_000, 255_000, 500_000, 255_000));
    assert_eq!((lines[8].x1, lines[8].y1, lines[8].x2, lines[8].y2), (300_000, 305_000, 300_000, 255_000));
    assert_eq!((lines[9].x1, lines[9].y1, lines[9].x2, lines[9].y2), (500_000, 305_000, 500_000, 255_000));
    assert_eq!((lines[10].x1, lines[10].y1), (500_000, 305_000));
    assert_eq!((lines[11].x1, lines[11].y1), (300_000, 305_000));
    for line in lines {
        assert_eq!(line.params, default_line());
    }
}

#[test]
fn obstacle_out_of_view_is_not_drawn() {
    let mut projection = Projection::new(10_000);
    projection.set_offset(0, 500_000);
    let behind = Obstacle::new((0, 400_000), (100_000, 100_000), 100_000);
    let beyond = Obstacle::new((0, 4_600_000), (100_000, 100_000), 100_000);
    let reaching_in = Obstacle::new((0, 450_000), (100_000, 100_000), 100_000);
    let mut canvas = Canvas::new(800_000, 600_000);
    behind.draw(&projection, -10_000, &mut canvas);
    beyond.draw(&projection, -10_000, &mut canvas);
    assert_eq!(canvas.get_lines().len(), 0);
    reaching_in.draw(&projection, -10_000, &mut canvas);
    assert_eq!(canvas.get_lines().len(), 12);
}

#[test]
fn obstacle_in_the_camera_plane_loses_its_near_edges() {
    let mut projection = Projection::new(10_000);
    projection.set_fov(1_000);
    // The field-of-view distance is 200 units, and the near side of the
    // box lies 200 units behind the camera: only the far side and the
    // upright edges on it have both ends on the screen.
    let box_ = Obstacle::new((0, 0), (100_000, 400_000), 100_000);
    let mut canvas = Canvas::new(800_000, 600_000);
    box_.draw(&projection, -10_000, &mut canvas);
    assert_eq!(canvas.get_lines().len(), 4);
}
