use raycaster::raycast::{cast_ray, cast_ray_wall};
use raycaster::{Point, Wall};

fn wall(ax: i64, ay: i64, bx: i64, by: i64) -> Wall {
    Wall { a: Point { x: ax, y: ay }, b: Point { x: bx, y: by } }
}

#[test]
fn single_wall_ahead_reports_its_distance_and_index() {
    // One vertical wall 380 units straight ahead, range 500.
    let walls = vec![wall(380_000, -100_000, 380_000, 100_000)];
    let o = Point { x: 0, y: 0 };
    let r = cast_ray(o, 0, 500_000, &walls);
    assert_eq!(r.hit, Some(0));
    assert_eq!(r.distance, 380_000);
}

#[test]
fn no_wall_in_path_reports_the_horizon() {
    let walls = vec![wall(380_000, -100_000, 380_000, 100_000)];
    let o = Point { x: 0, y: 0 };
    // Facing the other way: the wall is behind, so nothing is hit.
    let r = cast_ray(o, 180_000, 500_000, &walls);
    assert_eq!(r.hit, None);
    assert_eq!(r.distance, 500_000);
}

#[test]
fn empty_scene_reports_the_horizon() {
    let walls: Vec<Wall> = Vec::new();
    let o = Point { x: 10_000, y: 10_000 };
    let r = cast_ray(o, 45_000, 250_000, &walls);
    assert_eq!(r.hit, None);
    assert_eq!(r.distance, 250_000);
}

#[test]
fn nearest_of_two_walls_wins() {
    let walls = vec![
        wall(380_000, -100_000, 380_000, 100_000),
        wall(200_000, -100_000, 200_000, 100_000),
    ];
    let o = Point { x: 0, y: 0 };
    let r = cast_ray(o, 0, 500_000, &walls);
    assert_eq!(r.hit, Some(1));
    assert_eq!(r.distance, 200_000);
}

#[test]
fn equally_near_walls_tie_to_the_earlier_index() {
    let w = wall(200_000, -100_000, 200_000, 100_000);
    let walls = vec![w, w];
    let o = Point { x: 0, y: 0 };
    let r = cast_ray(o, 0, 500_000, &walls);
    assert_eq!(r.hit, Some(0));
}

#[test]
fn wall_beyond_range_is_the_horizon() {
    let walls = vec![wall(380_000, -100_000, 380_000, 100_000)];
    let o = Point { x: 0, y: 0 };
    let r = cast_ray(o, 0, 300_000, &walls);
    assert_eq!(r.hit, None);
    assert_eq!(r.distance, 300_000);
}

#[test]
fn restricted_cast_reports_the_same_distance() {
    let w = wall(380_000, -100_000, 380_000, 100_000);
    let o = Point { x: 0, y: 0 };
    assert_eq!(cast_ray_wall(o, 0, 500_000, &w), 380_000);
}

#[test]
fn restricted_cast_clamps_to_the_range() {
    let w = wall(380_000, -100_000, 380_000, 100_000);
    let o = Point { x: 0, y: 0 };
    assert_eq!(cast_ray_wall(o, 0, 300_000, &w), 300_000);
}

#[test]
fn forward_hit_beside_the_origin_is_strictly_positive() {
    // The crossing lies within one milli-unit of the origin, so the
    // rounded hit point coincides with it; the reported distance is the
    // one-milli quantum, never zero.
    let w = wall(-1, -1, 2, 1);
    let o = Point { x: 0, y: 0 };
    assert_eq!(cast_ray_wall(o, 0, 500_000, &w), 1);
}

#[test]
fn ray_y_axis_points_down_on_screen() {
    // Heading 90° means -y in screen space: a wall on the -y side is hit.
    let walls = vec![wall(-100_000, -200_000, 100_000, -200_000)];
    let o = Point { x: 0, y: 0 };
    let r = cast_ray(o, 90_000, 500_000, &walls);
    assert_eq!(r.hit, Some(0));
    assert_eq!(r.distance, 200_000);
}
