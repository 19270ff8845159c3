//! The ray caster: nearest wall struck along a ray, clamped to a range.

use vstd::prelude::*;
use crate::geometry::{ray_wall_hit_dist, wall_hit_dist_spec, Point, Wall};
use crate::trig::{cos_mdeg, cos_spec, sin_mdeg, sin_spec, ANGLE_LIMIT};
use crate::arith::{
    div_i128, div_to_zero, lemma_div_to_zero_signed_range, wide_mul,
};

verus! {

/// What a cast returned: the distance to the nearest wall struck, clamped to
/// the maximum range, and which wall it was.  `hit == None` is the horizon —
/// nothing within range, `distance` equal to the range — never a fault.
#[derive(Clone, Copy, PartialEq, Eq, Debug)]
pub struct RayResult {
    pub distance: i64,
    pub hit: Option<usize>,
}

/// The far end of a ray of length `range` cast from `o` at `heading`.
/// Screen-space y grows downward while world angles turn counter-clockwise,
/// so the y component of the direction is negated here — the one place the
/// flip happens for rays.
pub open spec fn ray_target_spec(o: Point, heading: int, range: int) -> Point {
    Point {
        x: (o.x + div_to_zero(range * cos_spec(heading), 1000)) as i64,
        y: (o.y - div_to_zero(range * sin_spec(heading), 1000)) as i64,
    }
}

/// Executable ray endpoint; never strays past twice the coordinate limit.
pub fn ray_target(o: Point, heading: i64, range: i64) -> (g: Point)
    requires
        o.wf(),
        -ANGLE_LIMIT <= heading <= ANGLE_LIMIT,
        0 < range <= crate::COORD_LIMIT,
    ensures
        g == ray_target_spec(o, heading as int, range as int),
        g.bounded(2 * crate::COORD_LIMIT as int),
{
    let c = cos_mdeg(heading);
    let s = sin_mdeg(heading);
    proof {
        assert(-((range as int) * 1000) <= (range as int) * (c as int) <= (range as int) * 1000
            && -((range as int) * 1000) <= (range as int) * (s as int) <= (range as int) * 1000)
            by (nonlinear_arith)
            requires
                0 <= range as int,
                -1000 <= c as int <= 1000,
                -1000 <= s as int <= 1000,
        ;
        lemma_div_to_zero_signed_range((range as int) * (c as int), 1000, range as int);
        lemma_div_to_zero_signed_range((range as int) * (c as int), 1000, -(range as int));
        lemma_div_to_zero_signed_range((range as int) * (s as int), 1000, range as int);
        lemma_div_to_zero_signed_range((range as int) * (s as int), 1000, -(range as int));
    }
    let offx: i64 = div_i128(wide_mul(range, c), 1000) as i64;
    let offy: i64 = div_i128(wide_mul(range, s), 1000) as i64;
    Point { x: o.x + offx, y: o.y - offy }
}

/// The nearest forward hit among the first `n` walls, as the fold the
/// caster's scan performs: a later wall only wins by being strictly closer,
/// so the earliest of equally near walls is reported.
pub open spec fn nearest_hit_spec(
    walls: Seq<Wall>,
    o: Point,
    g: Point,
    range: int,
    n: int,
) -> (int, Option<int>)
    decreases n,
{
    if n <= 0 {
        (range, None::<int>)
    } else {
        let prev = nearest_hit_spec(walls, o, g, range, n - 1);
        match wall_hit_dist_spec(walls[n - 1], o, g) {
            Some(d) => if d < prev.0 {
                (d, Some(n - 1))
            } else {
                prev
            },
            None => prev,
        }
    }
}

/// Some forward hit on `w` lies strictly closer than `b`.
pub open spec fn hit_below(w: Wall, o: Point, g: Point, b: int) -> bool {
    match wall_hit_dist_spec(w, o, g) {
        Some(d) => d < b,
        None => false,
    }
}

/// Cast a ray from `o` at `heading` against every wall and report the
/// nearest forward hit within `max_range`; `(max_range, None)` — the
/// horizon — when no wall is within range.  Walls parallel to the ray are
/// skipped, never an error.
pub fn cast_ray(o: Point, heading: i64, max_range: i64, walls: &Vec<Wall>) -> (r: RayResult)
    requires
        o.wf(),
        -ANGLE_LIMIT <= heading <= ANGLE_LIMIT,
        0 < max_range <= crate::COORD_LIMIT,
        forall|j: int| 0 <= j < walls@.len() ==> (#[trigger] walls@[j]).wf(),
    ensures
        ({
            let g = ray_target_spec(o, heading as int, max_range as int);
            let best = nearest_hit_spec(walls@, o, g, max_range as int, walls@.len() as int);
            &&& r.distance as int == best.0
            &&& (match (r.hit, best.1) {
                (Some(i), Some(j)) => i as int == j,
                (None, None) => true,
                _ => false,
            })
            &&& 0 < r.distance <= max_range
            &&& (walls@.len() == 0 ==> r.hit is None && r.distance == max_range)
            &&& (match r.hit {
                Some(i) => {
                    &&& (i as int) < walls@.len()
                    &&& wall_hit_dist_spec(walls@[i as int], o, g) == Some(r.distance as int)
                    &&& r.distance < max_range
                },
                None => r.distance == max_range,
            })
            &&& forall|j: int|
                0 <= j < walls@.len() ==> !hit_below(#[trigger] walls@[j], o, g, r.distance as int)
        }),
{
    let g = ray_target(o, heading, max_range);
    let ghost gspec = ray_target_spec(o, heading as int, max_range as int);
    let mut closest: i64 = max_range;
    let mut best: Option<usize> = None;
    let n: usize = walls.len();
    let mut k: usize = 0;
    while k < n
        invariant
            n == walls@.len(),
            k <= n,
            o.wf(),
            g == gspec,
            g.bounded(2 * crate::COORD_LIMIT as int),
            0 < max_range <= crate::COORD_LIMIT,
            forall|j: int| 0 <= j < walls@.len() ==> (#[trigger] walls@[j]).wf(),
            0 < closest <= max_range,
            ({
                let sofar = nearest_hit_spec(walls@, o, g, max_range as int, k as int);
                &&& closest as int == sofar.0
                &&& (match (best, sofar.1) {
                    (Some(i), Some(j)) => i as int == j,
                    (None, None) => true,
                    _ => false,
                })
            }),
            (match best {
                Some(i) => {
                    &&& (i as int) < k as int
                    &&& wall_hit_dist_spec(walls@[i as int], o, g) == Some(closest as int)
                    &&& closest < max_range
                },
                None => closest == max_range,
            }),
            forall|j: int| 0 <= j < k as int ==> !hit_below(#[trigger] walls@[j], o, g, closest as int),
        decreases n - k,
    {
        match ray_wall_hit_dist(&walls[k], o, g) {
            Some(d) => {
                if d < closest {
                    closest = d;
                    best = Some(k);
                }
            },
            None => {},
        }
        k = k + 1;
    }
    RayResult { distance: closest, hit: best }
}

/// The cast restricted to one wall, clamped to the range: what the edge
/// renderer uses to clip a wall edge exactly at a field-of-view boundary.
pub open spec fn cast_wall_dist_spec(w: Wall, o: Point, heading: int, range: int) -> int {
    let g = ray_target_spec(o, heading, range);
    match wall_hit_dist_spec(w, o, g) {
        Some(d) => if d < range {
            d
        } else {
            range
        },
        None => range,
    }
}

/// Cast a ray against a single wall; the distance is `max_range` when the
/// ray misses it.
pub fn cast_ray_wall(o: Point, heading: i64, max_range: i64, w: &Wall) -> (d: i64)
    requires
        o.wf(),
        -ANGLE_LIMIT <= heading <= ANGLE_LIMIT,
        0 < max_range <= crate::COORD_LIMIT,
        w.bounded(crate::COORD_LIMIT as int),
    ensures
        d as int == cast_wall_dist_spec(*w, o, heading as int, max_range as int),
        0 < d <= max_range,
{
    let g = ray_target(o, heading, max_range);
    match ray_wall_hit_dist(w, o, g) {
        Some(dd) => if dd < max_range {
            dd
        } else {
            max_range
        },
        None => max_range,
    }
}

} // verus!
