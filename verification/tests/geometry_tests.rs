use raycaster::arith::isqrt;
use raycaster::geometry::{dist, ray_wall_hit_point, segments_intersect};
use raycaster::{Point, Wall};

fn wall(ax: i64, ay: i64, bx: i64, by: i64) -> Wall {
    Wall { a: Point { x: ax, y: ay }, b: Point { x: bx, y: by } }
}

#[test]
fn isqrt_small_values() {
    assert_eq!(isqrt(0), 0);
    assert_eq!(isqrt(1), 1);
    assert_eq!(isqrt(15), 3);
    assert_eq!(isqrt(16), 4);
    assert_eq!(isqrt(8_100_000_000), 90_000);
}

#[test]
fn dist_pythagorean_triple() {
    let p = Point { x: 0, y: 0 };
    let q = Point { x: 3000, y: 4000 };
    assert_eq!(dist(p, q), 5000);
    assert_eq!(dist(q, p), 5000);
}

#[test]
fn disjoint_segments_do_not_intersect() {
    let u = wall(0, 0, 1000, 0);
    let v = wall(5000, 5000, 6000, 5000);
    assert!(!segments_intersect(&u, &v));
}

#[test]
fn parallel_segments_do_not_intersect() {
    let u = wall(0, 0, 1000, 0);
    let v = wall(0, 500, 1000, 500);
    assert!(!segments_intersect(&u, &v));
}

#[test]
fn touching_endpoints_do_not_intersect() {
    // Open segments: sharing an endpoint is not a crossing.
    let u = wall(0, 0, 1000, 0);
    let v = wall(1000, 0, 2000, 1000);
    assert!(!segments_intersect(&u, &v));
}

#[test]
fn crossing_segments_intersect() {
    let u = wall(0, -1000, 0, 1000);
    let v = wall(-1000, 0, 1000, 0);
    assert!(segments_intersect(&u, &v));
}

#[test]
fn hit_point_matches_analytic_crossing() {
    // Vertical wall at x = 1, ray straight along +x from the origin: the
    // analytic crossing is (1, 0), and the computed hit is within one
    // milli-unit of it.
    let w = wall(1000, -1000, 1000, 1000);
    let o = Point { x: 0, y: 0 };
    let g = Point { x: 2000, y: 0 };
    let hit = ray_wall_hit_point(&w, o, g).expect("ray should hit the wall");
    assert!((hit.x - 1000).abs() <= 1);
    assert!(hit.y.abs() <= 1);
}

#[test]
fn ray_misses_wall_behind() {
    let w = wall(-1000, -1000, -1000, 1000);
    let o = Point { x: 0, y: 0 };
    let g = Point { x: 2000, y: 0 };
    assert!(ray_wall_hit_point(&w, o, g).is_none());
}
