//! The frame projector: stateless per-frame sweeps of the field of view.
//!
//! Two complementary strategies sit behind one interface: a naive
//! per-column sweep (one ray per screen column) and a per-wall-edge sweep
//! (two projected endpoints per wall, frustum-culled and clipped at the
//! view boundaries).  Both are pure functions of the pose, the scene and
//! the screen, pinned column for column by the spec functions here.

use vstd::prelude::*;
use crate::geometry::{dist, dist_spec, Point, Wall};
use crate::raycast::{
    cast_ray, cast_ray_wall, cast_wall_dist_spec, nearest_hit_spec, ray_target_spec, RayResult,
};
use crate::scene::{lighting_spec, Scene};
use crate::trig::{
    cos_mdeg, cos_spec, dir_angle_spec, direction_angle, lemma_dir_angle_reflect, lemma_norm_add,
    lemma_norm_periodic, norm_mdeg, norm_spec,
};
use crate::arith::wide_mul;
use vstd::arithmetic::div_mod::{
    lemma_add_mod_noop_right, lemma_div_denominator, lemma_div_nonincreasing,
    lemma_div_pos_is_pos,
};

verus! {

/// The viewer: a position and a heading in milli-degrees in `[0°, 360°]`.
/// Owned and mutated by the render surface between frames; the projector
/// only ever reads a by-value snapshot.
#[derive(Clone, Copy, PartialEq, Eq, Structural, Debug)]
pub struct ViewerPose {
    pub x: i64,
    pub y: i64,
    pub heading: i64,
}

impl ViewerPose {
    /// Position in range, heading within one turn.
    pub open spec fn wf(self) -> bool {
        &&& (Point { x: self.x, y: self.y }).wf()
        &&& 0 <= self.heading <= 360000
    }

    /// The viewer's position as a point.
    pub open spec fn pos_spec(self) -> Point {
        Point { x: self.x, y: self.y }
    }

    /// The viewer's position as a point.
    pub fn pos(&self) -> (p: Point)
        ensures
            p == self.pos_spec(),
    {
        Point { x: self.x, y: self.y }
    }
}

/// Screen geometry and projection parameters for a frame.
#[derive(Clone, Copy, PartialEq, Eq, Structural, Debug)]
pub struct FrameConfig {
    /// Screen width in pixels.
    pub width: i64,
    /// Screen height in pixels.
    pub height: i64,
    /// Field of view in milli-degrees.
    pub fov: i64,
    /// Ray clip range in milli-units.
    pub max_range: i64,
}

impl FrameConfig {
    /// Sane screen and projection limits: the field of view stays within a
    /// half turn, so every on-screen fisheye cosine is non-negative.
    pub open spec fn wf(self) -> bool {
        &&& 0 < self.width <= 100000
        &&& 0 < self.height <= 100000
        &&& 0 < self.fov <= 180000
        &&& 0 < self.max_range <= crate::COORD_LIMIT
    }

    /// Half the field of view, in milli-degrees.
    pub open spec fn half_fov(self) -> int {
        self.fov / 2
    }
}

/// One vertical wall slice for one screen column; `top` and `bottom` are in
/// milli-pixels around the screen's vertical center, `intensity` a
/// grayscale value in milli-units.  A zero-extent slice (`top == bottom`)
/// is the horizon: nothing to draw.
#[derive(Clone, Copy, PartialEq, Eq, Structural, Debug)]
pub struct ColumnPrimitive {
    pub screen_x: i64,
    pub top: i64,
    pub bottom: i64,
    pub intensity: i64,
}

/// The perspective numerator: the reference projection constant K = 10,
/// with the three fixed-point scale factors (distance, cosine, pixel) of a
/// thousand each folded in.
pub const PROJ_NUM: i64 = 10_000_000_000;

/// Perspective column half-height in milli-pixels:
/// `K · width / (distance · cos offset)`, zero — never infinite — when the
/// distance or the cosine term vanishes or turns negative.
pub open spec fn height_spec(width: int, d: int, c: int) -> int {
    if d <= 0 || c <= 0 {
        0
    } else {
        (PROJ_NUM * width) / (d * c)
    }
}

/// Compute a column half-height.
pub fn column_height(width: i64, d: i64, c: i64) -> (h: i64)
    requires
        0 < width <= 100000,
        -4_000_000_000 <= d <= 4_000_000_000,
        -1000 <= c <= 1000,
    ensures
        h as int == height_spec(width as int, d as int, c as int),
        0 <= h <= 1_000_000_000_000_000,
{
    if d <= 0 || c <= 0 {
        return 0;
    }
    let den: i128 = wide_mul(d, c);
    proof {
        assert((d as int) * (c as int) > 0) by (nonlinear_arith)
            requires
                d as int > 0,
                c as int > 0,
        ;
        lemma_div_pos_is_pos(PROJ_NUM as int * width as int, den as int);
        lemma_div_nonincreasing(PROJ_NUM as int * width as int, den as int);
    }
    let num: u128 = 10_000_000_000u128 * (width as u128);
    let q: u128 = num / (den as u128);
    q as i64
}

/// Vertical screen center, in milli-pixels.
pub open spec fn center_spec(cfg: FrameConfig) -> int {
    cfg.height * 500
}

/// The ray heading for screen column `i`: the left edge of the view plus
/// `i` angular steps of `fov / width`.
pub open spec fn ray_angle_spec(pose: ViewerPose, cfg: FrameConfig, i: int) -> int {
    pose.heading - cfg.fov / 2 + (i * cfg.fov) / (cfg.width as int)
}

/// The slice the naive sweep emits for screen column `i`: the nearest hit
/// along that column's ray, fisheye-corrected by the cosine of the
/// column's angular offset from the view center; the horizon (zero extent,
/// zero intensity) when no wall lies within range.
pub open spec fn column_spec(
    pose: ViewerPose,
    walls: Seq<Wall>,
    cfg: FrameConfig,
    i: int,
) -> ColumnPrimitive {
    let o = pose.pos_spec();
    let ang = ray_angle_spec(pose, cfg, i);
    let g = ray_target_spec(o, ang, cfg.max_range as int);
    let best = nearest_hit_spec(walls, o, g, cfg.max_range as int, walls.len() as int);
    let c = cos_spec(ang - pose.heading);
    match best.1 {
        Some(j) => (ColumnPrimitive {
            screen_x: i as i64,
            top: (center_spec(cfg) - height_spec(cfg.width as int, best.0, c)) as i64,
            bottom: (center_spec(cfg) + height_spec(cfg.width as int, best.0, c)) as i64,
            intensity: lighting_spec(walls[j]) as i64,
        }),
        None => (ColumnPrimitive {
            screen_x: i as i64,
            top: center_spec(cfg) as i64,
            bottom: center_spec(cfg) as i64,
            intensity: 0,
        }),
    }
}

/// Naive per-column sweep: one ray per screen column, left to right.
pub fn render_columns(pose: ViewerPose, scene: &Scene, cfg: FrameConfig) -> (res: Vec<
    ColumnPrimitive,
>)
    requires
        pose.wf(),
        scene.wf(),
        cfg.wf(),
    ensures
        res@.len() == cfg.width as int,
        forall|i: int|
            0 <= i < cfg.width as int ==> res@[i] == column_spec(
                pose,
                scene.walls_seq(),
                cfg,
                i,
            ),
{
    let o = pose.pos();
    let width: usize = cfg.width as usize;
    let half: i64 = ((cfg.fov as u64) / 2) as i64;
    let center: i64 = cfg.height * 500;
    let mut res: Vec<ColumnPrimitive> = Vec::new();
    let mut i: usize = 0;
    while i < width
        invariant
            pose.wf(),
            scene.wf(),
            cfg.wf(),
            o == pose.pos_spec(),
            width as int == cfg.width as int,
            half as int == cfg.fov / 2,
            center as int == center_spec(cfg),
            i <= width,
            res@.len() == i as int,
            forall|k: int|
                0 <= k < i as int ==> res@[k] == column_spec(pose, scene.walls_seq(), cfg, k),
        decreases width - i,
    {
        proof {
            vstd::arithmetic::mul::lemma_mul_upper_bound(i as int, 100000, cfg.fov as int, 180000);
            vstd::arithmetic::mul::lemma_mul_nonnegative(i as int, cfg.fov as int);
            lemma_div_pos_is_pos(i as int * cfg.fov as int, cfg.width as int);
            lemma_div_nonincreasing(i as int * cfg.fov as int, cfg.width as int);
        }
        let inc: i64 = (((i as u64) * (cfg.fov as u64)) / (cfg.width as u64)) as i64;
        let ang: i64 = pose.heading - half + inc;
        let r: RayResult = cast_ray(o, ang, cfg.max_range, scene.walls_ref());
        let c: i64 = cos_mdeg(ang - pose.heading);
        let prim: ColumnPrimitive = match r.hit {
            Some(j) => {
                let h: i64 = column_height(cfg.width, r.distance, c);
                let li: i64 = scene.lighting(j);
                ColumnPrimitive {
                    screen_x: i as i64,
                    top: center - h,
                    bottom: center + h,
                    intensity: li,
                }
            },
            None => ColumnPrimitive {
                screen_x: i as i64,
                top: center,
                bottom: center,
                intensity: 0,
            },
        };
        res.push(prim);
        i = i + 1;
    }
    res
}

/// One wall edge projected to screen space: both endpoints' x positions
/// and vertical extents, in milli-pixels, plus the wall's intensity.
#[derive(Clone, Copy, PartialEq, Eq, Structural, Debug)]
pub struct EdgePrimitive {
    pub x1: i64,
    pub top1: i64,
    pub bottom1: i64,
    pub x2: i64,
    pub top2: i64,
    pub bottom2: i64,
    pub intensity: i64,
}

/// World angle from the viewer to a point, in `[0°, 360°)`.
pub open spec fn point_angle_spec(pose: ViewerPose, p: Point) -> int {
    norm_spec(dir_angle_spec(p.y - pose.y, p.x - pose.x))
}

/// That angle advanced by the heading: what the culling windows test.
pub open spec fn ac_spec(pose: ViewerPose, p: Point) -> int {
    norm_spec(point_angle_spec(pose, p) + pose.heading)
}

/// An open angular window.
pub open spec fn in_window(x: int, lo: int, hi: int) -> bool {
    lo < x && x < hi
}

/// Frustum culling: a wall is discarded when both endpoint angles fall
/// strictly inside one of three behind-the-viewer windows, their
/// boundaries derived from the half field of view rather than hardcoded
/// (at the reference 66° field of view they come to 33°–213°, 147°–327°
/// and the fixed 90°–270°).
pub open spec fn culled_spec(pose: ViewerPose, cfg: FrameConfig, w: Wall) -> bool {
    let h = cfg.half_fov();
    let ac1 = ac_spec(pose, w.a);
    let ac2 = ac_spec(pose, w.b);
    ||| (in_window(ac1, 90000, 270000) && in_window(ac2, 90000, 270000))
    ||| (in_window(ac1, h, 180000 + h) && in_window(ac2, h, 180000 + h))
    ||| (in_window(ac1, 180000 - h, 360000 - h) && in_window(ac2, 180000 - h, 360000 - h))
}

/// The screen x position, in milli-pixels, of a shifted angle.
pub open spec fn screen_x_spec(cfg: FrameConfig, shift: int) -> int {
    (shift * (cfg.width as int) * 1000) / (cfg.fov as int)
}

/// Projection of one wall endpoint: `(screen x, distance, shifted angle)`.
/// An endpoint whose angle lies beyond a view boundary is clamped to that
/// screen edge and its distance re-measured by a ray cast at the boundary
/// angle restricted to this one wall, so the drawn edge is clipped exactly
/// at the screen border instead of extrapolated.
pub open spec fn endpoint_proj_spec(
    pose: ViewerPose,
    cfg: FrameConfig,
    w: Wall,
    p: Point,
) -> (int, int, int) {
    let h = cfg.half_fov();
    let o = pose.pos_spec();
    let ac = ac_spec(pose, p);
    if h < ac && ac < 180000 {
        (
            (cfg.width as int) * 1000,
            cast_wall_dist_spec(w, o, pose.heading - h, cfg.max_range as int),
            cfg.fov as int,
        )
    } else if 180000 < ac && ac < 360000 - h {
        (0, cast_wall_dist_spec(w, o, pose.heading + h, cfg.max_range as int), 0)
    } else {
        let shift = norm_spec(point_angle_spec(pose, p) + pose.heading + h);
        (screen_x_spec(cfg, shift), dist_spec(o, p), shift)
    }
}

/// The primitive the edge sweep emits for wall `i`: both endpoints
/// projected, heights fisheye-corrected by each endpoint's angular offset
/// from the view center.
pub open spec fn edge_prim_spec(
    pose: ViewerPose,
    cfg: FrameConfig,
    walls: Seq<Wall>,
    i: int,
) -> EdgePrimitive {
    let w = walls[i];
    let e1 = endpoint_proj_spec(pose, cfg, w, w.a);
    let e2 = endpoint_proj_spec(pose, cfg, w, w.b);
    let h1 = height_spec(cfg.width as int, e1.1, cos_spec(e1.2 - cfg.half_fov()));
    let h2 = height_spec(cfg.width as int, e2.1, cos_spec(e2.2 - cfg.half_fov()));
    EdgePrimitive {
        x1: e1.0 as i64,
        top1: (center_spec(cfg) - h1) as i64,
        bottom1: (center_spec(cfg) + h1) as i64,
        x2: e2.0 as i64,
        top2: (center_spec(cfg) - h2) as i64,
        bottom2: (center_spec(cfg) + h2) as i64,
        intensity: lighting_spec(w) as i64,
    }
}

/// The edge sweep over the first `n` walls, in order; culled walls emit
/// nothing.
pub open spec fn edges_spec(
    pose: ViewerPose,
    cfg: FrameConfig,
    walls: Seq<Wall>,
    n: int,
) -> Seq<EdgePrimitive>
    decreases n,
{
    if n <= 0 {
        Seq::empty()
    } else {
        let prefix = edges_spec(pose, cfg, walls, n - 1);
        if culled_spec(pose, cfg, walls[n - 1]) {
            prefix
        } else {
            prefix.push(edge_prim_spec(pose, cfg, walls, n - 1))
        }
    }
}

/// The culling-window angle of a point, as the sweep computes it.
fn point_ac(pose: ViewerPose, p: Point) -> (r: i64)
    requires
        pose.wf(),
        p.wf(),
    ensures
        r as int == ac_spec(pose, p),
        0 <= r < 360000,
{
    let pa = norm_mdeg(direction_angle(p.y - pose.y, p.x - pose.x));
    norm_mdeg(pa + pose.heading)
}

/// Is this wall culled for this pose?
pub fn wall_culled(pose: ViewerPose, cfg: FrameConfig, w: &Wall) -> (r: bool)
    requires
        pose.wf(),
        cfg.wf(),
        w.bounded(crate::COORD_LIMIT as int),
    ensures
        r == culled_spec(pose, cfg, *w),
{
    let half: i64 = ((cfg.fov as u64) / 2) as i64;
    let ac1 = point_ac(pose, w.a);
    let ac2 = point_ac(pose, w.b);
    (ac1 > 90000 && ac1 < 270000 && ac2 > 90000 && ac2 < 270000) || (ac1 > half && ac1 < 180000
        + half && ac2 > half && ac2 < 180000 + half) || (ac1 > 180000 - half && ac1 < 360000 - half
        && ac2 > 180000 - half && ac2 < 360000 - half)
}

/// Project one wall endpoint to `(screen x, distance, shifted angle)`.
fn project_endpoint(pose: ViewerPose, cfg: FrameConfig, w: &Wall, p: Point) -> (r: (i64, i64, i64))
    requires
        pose.wf(),
        cfg.wf(),
        w.bounded(crate::COORD_LIMIT as int),
        p.wf(),
    ensures
        r.0 as int == endpoint_proj_spec(pose, cfg, *w, p).0,
        r.1 as int == endpoint_proj_spec(pose, cfg, *w, p).1,
        r.2 as int == endpoint_proj_spec(pose, cfg, *w, p).2,
        0 <= r.1 <= 3_000_000_000,
        0 <= r.2 <= 360000,
{
    let half: i64 = ((cfg.fov as u64) / 2) as i64;
    let o = pose.pos();
    let pa = norm_mdeg(direction_angle(p.y - pose.y, p.x - pose.x));
    let ac = norm_mdeg(pa + pose.heading);
    if ac > half && ac < 180000 {
        (cfg.width * 1000, cast_ray_wall(o, pose.heading - half, cfg.max_range, w), cfg.fov)
    } else if ac > 180000 && ac < 360000 - half {
        (0, cast_ray_wall(o, pose.heading + half, cfg.max_range, w), 0)
    } else {
        let shift = norm_mdeg(pa + pose.heading + half);
        proof {
            vstd::arithmetic::mul::lemma_mul_upper_bound(
                shift as int, 360000, cfg.width as int, 100000,
            );
            vstd::arithmetic::mul::lemma_mul_nonnegative(shift as int, cfg.width as int);
            lemma_div_pos_is_pos(shift as int * cfg.width as int * 1000, cfg.fov as int);
            lemma_div_nonincreasing(shift as int * cfg.width as int * 1000, cfg.fov as int);
        }
        let sx: i64 = (((shift as u64) * (cfg.width as u64) * 1000) / (cfg.fov as u64)) as i64;
        (sx, dist(o, p), shift)
    }
}

/// Per-wall-edge sweep: two projected endpoints per wall that survives
/// culling, in wall order.
pub fn render_edges(pose: ViewerPose, scene: &Scene, cfg: FrameConfig) -> (res: Vec<EdgePrimitive>)
    requires
        pose.wf(),
        scene.wf(),
        cfg.wf(),
    ensures
        res@ == edges_spec(pose, cfg, scene.walls_seq(), scene.walls_seq().len() as int),
{
    let n: usize = scene.wall_count();
    let center: i64 = cfg.height * 500;
    let half: i64 = ((cfg.fov as u64) / 2) as i64;
    let mut res: Vec<EdgePrimitive> = Vec::new();
    let mut k: usize = 0;
    while k < n
        invariant
            pose.wf(),
            scene.wf(),
            cfg.wf(),
            n as int == scene.walls_seq().len(),
            center as int == center_spec(cfg),
            half as int == cfg.half_fov(),
            k <= n,
            res@ == edges_spec(pose, cfg, scene.walls_seq(), k as int),
        decreases n - k,
    {
        let w = scene.wall(k);
        if !wall_culled(pose, cfg, &w) {
            let e1 = project_endpoint(pose, cfg, &w, w.a);
            let e2 = project_endpoint(pose, cfg, &w, w.b);
            let c1 = cos_mdeg(e1.2 - half);
            let c2 = cos_mdeg(e2.2 - half);
            let h1 = column_height(cfg.width, e1.1, c1);
            let h2 = column_height(cfg.width, e2.1, c2);
            let li = scene.lighting(k);
            res.push(EdgePrimitive {
                x1: e1.0,
                top1: center - h1,
                bottom1: center + h1,
                x2: e2.0,
                top2: center - h2,
                bottom2: center + h2,
                intensity: li,
            });
        }
        k = k + 1;
    }
    res
}

/// Which sweep to run.
#[derive(Clone, Copy, PartialEq, Eq, Structural, Debug)]
pub enum RenderMode {
    /// One ray per screen column.
    Columns,
    /// Two projected endpoints per wall.
    Edges,
}

/// Everything one frame emits, under either strategy.
#[derive(PartialEq, Eq, Debug)]
pub enum FramePrimitives {
    Columns(Vec<ColumnPrimitive>),
    Edges(Vec<EdgePrimitive>),
}

/// The frame projector: one stateless call per frame, strategy selected by
/// configuration.
pub fn render_frame(pose: ViewerPose, scene: &Scene, cfg: FrameConfig, mode: RenderMode) -> (res:
    FramePrimitives)
    requires
        pose.wf(),
        scene.wf(),
        cfg.wf(),
    ensures
        match res {
            FramePrimitives::Columns(v) => {
                &&& mode == RenderMode::Columns
                &&& v@.len() == cfg.width as int
                &&& forall|i: int|
                    0 <= i < cfg.width as int ==> v@[i] == column_spec(
                        pose,
                        scene.walls_seq(),
                        cfg,
                        i,
                    )
            },
            FramePrimitives::Edges(v) => {
                &&& mode == RenderMode::Edges
                &&& v@ == edges_spec(pose, cfg, scene.walls_seq(), scene.walls_seq().len() as int)
            },
        },
{
    match mode {
        RenderMode::Columns => FramePrimitives::Columns(render_columns(pose, scene, cfg)),
        RenderMode::Edges => FramePrimitives::Edges(render_edges(pose, scene, cfg)),
    }
}

/// Column height halves exactly when the distance to a perpendicular wall
/// (cosine term at unity) doubles.
pub proof fn lemma_height_inverse_in_distance(width: int, d: int)
    requires
        0 < width,
        0 < d,
    ensures
        height_spec(width, 2 * d, 1000) == height_spec(width, d, 1000) / 2,
{
    assert(PROJ_NUM * width >= 0) by (nonlinear_arith)
        requires
            width > 0,
    ;
    lemma_div_denominator(PROJ_NUM * width, d * 1000, 2);
}

/// A point reflected through the viewer's position.
pub open spec fn reflect_spec(pose: ViewerPose, p: Point) -> Point {
    Point { x: (2 * pose.x - p.x) as i64, y: (2 * pose.y - p.y) as i64 }
}

/// The culling angle of a point reflected through the viewer, seen after a
/// half turn of the heading, equals the original point's culling angle.
proof fn lemma_ac_opposite(pose: ViewerPose, pose2: ViewerPose, p: Point)
    requires
        pose.wf(),
        p.wf(),
        p != pose.pos_spec(),
        pose2.x == pose.x,
        pose2.y == pose.y,
        pose2.heading == norm_spec(pose.heading + 180000),
    ensures
        ac_spec(pose2, reflect_spec(pose, p)) == ac_spec(pose, p),
{
    let dy = p.y - pose.y;
    let dx = p.x - pose.x;
    let q = reflect_spec(pose, p);
    assert(q.y - pose2.y == -dy && q.x - pose2.x == -dx);
    let d0 = dir_angle_spec(dy, dx);
    lemma_dir_angle_reflect(dy, dx);
    lemma_norm_add(d0 + 180000, pose2.heading as int);
    lemma_add_mod_noop_right(d0 + 180000, pose.heading + 180000, 360000);
    lemma_norm_periodic(d0 + pose.heading);
    lemma_norm_add(d0, pose.heading as int);
}

/// Rotating the viewer's heading by a half turn and reflecting a wall
/// through the viewer leaves the frustum-culling decision unchanged: a
/// wall culled behind the viewer is exactly the opposite wall culled after
/// the turn, which is the symmetry of visibility between walls on opposite
/// sides of the viewer.  (A wall endpoint coinciding with the viewer's
/// position has no direction; such walls are excluded.)
pub proof fn lemma_cull_opposite(pose: ViewerPose, pose2: ViewerPose, cfg: FrameConfig, w: Wall)
    requires
        pose.wf(),
        cfg.wf(),
        w.bounded(crate::COORD_LIMIT as int),
        w.a != pose.pos_spec(),
        w.b != pose.pos_spec(),
        pose2.x == pose.x,
        pose2.y == pose.y,
        pose2.heading == norm_spec(pose.heading + 180000),
    ensures
        culled_spec(pose2, cfg, (Wall { a: reflect_spec(pose, w.a), b: reflect_spec(pose, w.b) }))
            == culled_spec(pose, cfg, w),
{
    lemma_ac_opposite(pose, pose2, w.a);
    lemma_ac_opposite(pose, pose2, w.b);
}

/// The naive sweep is a pure function of pose, scene and screen: two
/// results that both meet its contract are one and the same sequence.
pub proof fn lemma_projector_deterministic(
    pose: ViewerPose,
    walls: Seq<Wall>,
    cfg: FrameConfig,
    r1: Seq<ColumnPrimitive>,
    r2: Seq<ColumnPrimitive>,
)
    requires
        r1.len() == cfg.width as int,
        forall|i: int| 0 <= i < cfg.width as int ==> r1[i] == column_spec(pose, walls, cfg, i),
        r2.len() == cfg.width as int,
        forall|i: int| 0 <= i < cfg.width as int ==> r2[i] == column_spec(pose, walls, cfg, i),
    ensures
        r1 == r2,
{
    assert forall|i: int| 0 <= i < r1.len() implies r1[i] == r2[i] by {
        assert(r1[i] == column_spec(pose, walls, cfg, i));
        assert(r2[i] == column_spec(pose, walls, cfg, i));
    }
    assert(r1 =~= r2);
}

} // verus!
