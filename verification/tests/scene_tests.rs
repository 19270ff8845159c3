use raycaster::scene::{Scene, SceneError};
use raycaster::{Point, Wall};

fn wall(ax: i64, ay: i64, bx: i64, by: i64) -> Wall {
    Wall { a: Point { x: ax, y: ay }, b: Point { x: bx, y: by } }
}

#[test]
fn empty_scene_is_rejected() {
    assert_eq!(Scene::new(Vec::new()).err(), Some(SceneError::Empty));
}

#[test]
fn degenerate_wall_is_rejected_with_its_index() {
    let walls = vec![
        wall(0, 0, 400_000, 0),
        wall(5000, 5000, 5000, 5000),
        wall(0, 0, 0, 400_000),
    ];
    assert_eq!(Scene::new(walls).err(), Some(SceneError::BadWall(1)));
}

#[test]
fn out_of_range_wall_is_rejected() {
    let walls = vec![wall(0, 0, 2_000_000_000, 0)];
    assert_eq!(Scene::new(walls).err(), Some(SceneError::BadWall(0)));
}

#[test]
fn valid_walls_build_a_scene() {
    let walls = vec![wall(0, 0, 400_000, 0), wall(400_000, 0, 400_000, 400_000)];
    let scene = Scene::new(walls).expect("scene should build");
    assert_eq!(scene.wall_count(), 2);
    assert_eq!(scene.wall(0), wall(0, 0, 400_000, 0));
}

#[test]
fn lighting_reflects_wall_orientation() {
    let walls = vec![
        // East–west wall: direction angle 180°, intensity 500.
        wall(0, 0, 400_000, 0),
        // North–south wall: direction angle −90°, intensity 250.
        wall(400_000, 0, 400_000, 400_000),
    ];
    let scene = Scene::new(walls).expect("scene should build");
    assert_eq!(scene.lighting(0), 500);
    assert_eq!(scene.lighting(1), 250);
}
