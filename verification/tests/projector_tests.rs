use raycaster::project::{
    column_height, render_columns, render_edges, render_frame, wall_culled, FrameConfig,
    FramePrimitives, RenderMode, ViewerPose,
};
use raycaster::raycast::cast_ray;
use raycaster::scene::Scene;
use raycaster::{Point, Wall};

fn wall(ax: i64, ay: i64, bx: i64, by: i64) -> Wall {
    Wall { a: Point { x: ax, y: ay }, b: Point { x: bx, y: by } }
}

fn square_scene_with_diagonal() -> Scene {
    // A closed 400×400 square plus one diagonal interior wall, in milli-units.
    let walls = vec![
        wall(0, 0, 400_000, 0),
        wall(400_000, 0, 400_000, 400_000),
        wall(400_000, 400_000, 0, 400_000),
        wall(0, 400_000, 0, 0),
        wall(200_000, 40_000, 300_000, 300_000),
    ];
    Scene::new(walls).expect("scene should build")
}

fn reference_config() -> FrameConfig {
    FrameConfig { width: 800, height: 600, fov: 66_000, max_range: 600_000 }
}

#[test]
fn height_guards_against_infinite_columns() {
    // Zero distance and a vanishing cosine term both clamp to zero height.
    assert_eq!(column_height(800, 0, 1000), 0);
    assert_eq!(column_height(800, 100_000, 0), 0);
    assert_eq!(column_height(800, -5, 1000), 0);
}

#[test]
fn height_halves_when_distance_doubles() {
    let near = column_height(800, 100_000, 1000);
    let far = column_height(800, 200_000, 1000);
    assert_eq!(near, 80_000);
    assert_eq!(far, 40_000);
    assert_eq!(far, near / 2);
}

#[test]
fn forward_center_column_sees_the_near_side() {
    // Viewer at (20, 20) heading 0°, FOV 66°, width 800: the ray of the
    // column at x = 400 runs straight ahead and must strike the square's
    // near side within range — never the horizon.
    let scene = square_scene_with_diagonal();
    let cfg = reference_config();
    let o = Point { x: 20_000, y: 20_000 };
    let r = cast_ray(o, 0, cfg.max_range, &vec![
        wall(0, 0, 400_000, 0),
        wall(400_000, 0, 400_000, 400_000),
        wall(400_000, 400_000, 0, 400_000),
        wall(0, 400_000, 0, 0),
        wall(200_000, 40_000, 300_000, 300_000),
    ]);
    assert_eq!(r.hit, Some(1));
    assert_eq!(r.distance, 380_000);
    assert!(r.distance > 0 && r.distance < 600_000);

    let pose = ViewerPose { x: 20_000, y: 20_000, heading: 0 };
    let cols = render_columns(pose, &scene, cfg);
    assert_eq!(cols.len(), 800);
    let center_col = cols[400];
    assert_eq!(center_col.screen_x, 400);
    assert_eq!(center_col.intensity, 250);
    assert_eq!(center_col.top, 300_000 - 21_052);
    assert_eq!(center_col.bottom, 300_000 + 21_052);
}

#[test]
fn projector_is_idempotent() {
    let scene = square_scene_with_diagonal();
    let cfg = reference_config();
    let pose = ViewerPose { x: 20_000, y: 20_000, heading: 0 };
    assert_eq!(render_columns(pose, &scene, cfg), render_columns(pose, &scene, cfg));
    assert_eq!(render_edges(pose, &scene, cfg), render_edges(pose, &scene, cfg));
    assert_eq!(
        render_frame(pose, &scene, cfg, RenderMode::Columns),
        render_frame(pose, &scene, cfg, RenderMode::Columns)
    );
}

#[test]
fn frame_mode_selects_the_strategy() {
    let scene = square_scene_with_diagonal();
    let cfg = reference_config();
    let pose = ViewerPose { x: 20_000, y: 20_000, heading: 0 };
    assert!(matches!(
        render_frame(pose, &scene, cfg, RenderMode::Columns),
        FramePrimitives::Columns(_)
    ));
    assert!(matches!(
        render_frame(pose, &scene, cfg, RenderMode::Edges),
        FramePrimitives::Edges(_)
    ));
}

#[test]
fn columns_facing_away_are_the_horizon() {
    // One small wall to the east, viewer facing west: every column is a
    // zero-extent slice with zero intensity — the horizon, never a fault.
    let cfg = reference_config();
    let scene = Scene::new(vec![wall(100_000, -50_000, 100_000, 50_000)])
        .expect("scene should build");
    let pose = ViewerPose { x: 0, y: 0, heading: 180_000 };
    let cols = render_columns(pose, &scene, cfg);
    assert_eq!(cols.len(), 800);
    for c in &cols {
        assert_eq!(c.top, c.bottom);
        assert_eq!(c.intensity, 0);
    }
}

#[test]
fn edge_endpoints_past_the_view_are_clipped_to_the_screen_border() {
    // A wall crossing the whole field of view: both endpoints lie beyond
    // the view boundaries, so each is clamped to its screen edge exactly.
    let cfg = reference_config();
    let pose = ViewerPose { x: 0, y: 0, heading: 0 };
    let long = Scene::new(vec![wall(100_000, -500_000, 100_000, 500_000)])
        .expect("scene should build");
    let edges = render_edges(pose, &long, cfg);
    assert_eq!(edges.len(), 1);
    let e = edges[0];
    assert_eq!(e.x1, 0);
    assert_eq!(e.x2, 800_000);
    assert!(e.top1 < e.bottom1);
    assert!(e.top2 < e.bottom2);
}

#[test]
fn culling_is_complementary_for_opposite_walls() {
    // Viewer centered in the closed square: the wall behind is culled, the
    // wall ahead is not, and turning the heading by 180° swaps the two.
    let cfg = reference_config();
    let south = wall(0, 0, 400_000, 0);
    let north = wall(400_000, 400_000, 0, 400_000);
    let facing_south = ViewerPose { x: 200_000, y: 200_000, heading: 90_000 };
    let facing_north = ViewerPose { x: 200_000, y: 200_000, heading: 270_000 };

    assert!(!wall_culled(facing_south, cfg, &south));
    assert!(wall_culled(facing_south, cfg, &north));
    assert!(wall_culled(facing_north, cfg, &south));
    assert!(!wall_culled(facing_north, cfg, &north));
}

#[test]
fn edge_sweep_drops_a_wall_behind_the_viewer() {
    let cfg = reference_config();
    let pose = ViewerPose { x: 0, y: 0, heading: 0 };
    let behind = Scene::new(vec![wall(-100_000, -50_000, -100_000, 50_000)])
        .expect("scene should build");
    assert_eq!(render_edges(pose, &behind, cfg).len(), 0);
}

#[test]
fn edge_sweep_keeps_a_wall_ahead_of_the_viewer() {
    let cfg = reference_config();
    let pose = ViewerPose { x: 0, y: 0, heading: 0 };
    let ahead = Scene::new(vec![wall(100_000, -50_000, 100_000, 50_000)])
        .expect("scene should build");
    let edges = render_edges(pose, &ahead, cfg);
    assert_eq!(edges.len(), 1);
    let e = edges[0];
    // North–south wall: intensity 250.
    assert_eq!(e.intensity, 250);
    // Both endpoints project to distinct on-screen columns with real extent.
    assert_ne!(e.x1, e.x2);
    assert!(e.top1 < e.bottom1);
    assert!(e.top2 < e.bottom2);
}
