//! The scene: a fixed set of walls, validated once at construction, with a
//! per-wall lighting value cached for the scene's lifetime.

use vstd::prelude::*;
use crate::geometry::Wall;
use crate::trig::{dir_angle_spec, direction_angle};
use vstd::arithmetic::div_mod::{lemma_div_is_ordered, lemma_div_pos_is_pos};

verus! {

/// Why a set of walls was rejected.
#[derive(Clone, Copy, PartialEq, Eq, Debug)]
pub enum SceneError {
    /// No walls at all.
    Empty,
    /// The wall at this index is degenerate or out of range.
    BadWall(usize),
}

/// At least one wall, each in range and non-degenerate.
pub open spec fn valid_walls(ws: Seq<Wall>) -> bool {
    &&& ws.len() > 0
    &&& forall|i: int| 0 <= i < ws.len() ==> (#[trigger] ws[i]).wf()
}

/// The faux-lighting intensity of a wall, in milli-units in `[0, 500]`: the
/// magnitude of the wall's direction angle divided by 360, so east–west
/// walls render brighter than north–south ones.  It depends only on the
/// wall, never on the viewer.
pub open spec fn lighting_spec(w: Wall) -> int {
    let th = dir_angle_spec(w.a.y - w.b.y, w.a.x - w.b.x);
    (if th < 0 { -th } else { th }) / 360
}

/// Compute a wall's lighting intensity.
pub fn wall_lighting(w: &Wall) -> (r: i64)
    requires
        w.bounded(crate::COORD_LIMIT as int),
    ensures
        r as int == lighting_spec(*w),
        0 <= r <= 500,
{
    let th = direction_angle(w.a.y - w.b.y, w.a.x - w.b.x);
    let m: i64 = if th < 0 { -th } else { th };
    proof {
        lemma_div_pos_is_pos(m as int, 360);
        lemma_div_is_ordered(m as int, 180000, 360);
    }
    ((m as u64) / 360) as i64
}

/// An immutable scene: walls plus their cached lighting.
pub struct Scene {
    walls: Vec<Wall>,
    lighting: Vec<i64>,
}

impl Scene {
    /// The walls, as every contract sees them.
    pub closed spec fn walls_seq(self) -> Seq<Wall> {
        self.walls@
    }

    /// The cached lighting agrees with `lighting_spec`, wall by wall.
    pub closed spec fn light_ok(self) -> bool {
        &&& self.lighting@.len() == self.walls@.len()
        &&& forall|i: int|
            0 <= i < self.walls@.len() ==> (#[trigger] self.lighting@[i]) as int == lighting_spec(
                self.walls@[i],
            ) && 0 <= self.lighting@[i] <= 500
    }

    /// A well-formed scene: valid walls and a coherent lighting cache.
    pub open spec fn wf(self) -> bool {
        valid_walls(self.walls_seq()) && self.light_ok()
    }

    /// Build a scene, validating every wall; rejection is at construction
    /// time, never per frame.  `Ok` exactly when the walls are valid;
    /// `BadWall` reports the first offending index.
    pub fn new(walls: Vec<Wall>) -> (r: Result<Scene, SceneError>)
        ensures
            r is Ok <==> valid_walls(walls@),
            match r {
                Ok(s) => s.wf() && s.walls_seq() == walls@,
                Err(e) => match e {
                    SceneError::Empty => walls@.len() == 0,
                    SceneError::BadWall(i) => {
                        &&& (i as int) < walls@.len()
                        &&& !walls@[i as int].wf()
                        &&& forall|j: int| 0 <= j < i as int ==> (#[trigger] walls@[j]).wf()
                    },
                },
            },
    {
        let n: usize = walls.len();
        if n == 0 {
            return Err(SceneError::Empty);
        }
        let mut k: usize = 0;
        while k < n
            invariant
                n == walls@.len(),
                k <= n,
                forall|j: int| 0 <= j < k as int ==> (#[trigger] walls@[j]).wf(),
            decreases n - k,
        {
            let w = walls[k];
            let in_range: bool = -crate::COORD_LIMIT <= w.a.x && w.a.x <= crate::COORD_LIMIT
                && -crate::COORD_LIMIT <= w.a.y && w.a.y <= crate::COORD_LIMIT
                && -crate::COORD_LIMIT <= w.b.x && w.b.x <= crate::COORD_LIMIT
                && -crate::COORD_LIMIT <= w.b.y && w.b.y <= crate::COORD_LIMIT;
            if !in_range || (w.a == w.b) {
                return Err(SceneError::BadWall(k));
            }
            k = k + 1;
        }
        let mut lighting: Vec<i64> = Vec::new();
        let mut k2: usize = 0;
        while k2 < n
            invariant
                n == walls@.len(),
                k2 <= n,
                valid_walls(walls@),
                lighting@.len() == k2 as int,
                forall|j: int|
                    0 <= j < k2 as int ==> (#[trigger] lighting@[j]) as int == lighting_spec(
                        walls@[j],
                    ) && 0 <= lighting@[j] <= 500,
            decreases n - k2,
        {
            let l = wall_lighting(&walls[k2]);
            lighting.push(l);
            k2 = k2 + 1;
        }
        Ok(Scene { walls, lighting })
    }

    /// How many walls the scene holds.
    pub fn wall_count(&self) -> (n: usize)
        ensures
            n as int == self.walls_seq().len(),
    {
        self.walls.len()
    }

    /// The wall at an index.
    pub fn wall(&self, i: usize) -> (w: Wall)
        requires
            (i as int) < self.walls_seq().len(),
        ensures
            w == self.walls_seq()[i as int],
    {
        self.walls[i]
    }

    /// All walls, for casting rays against.
    pub fn walls_ref(&self) -> (v: &Vec<Wall>)
        ensures
            v@ == self.walls_seq(),
    {
        &self.walls
    }

    /// The cached lighting of the wall at an index.
    pub fn lighting(&self, i: usize) -> (r: i64)
        requires
            self.wf(),
            (i as int) < self.walls_seq().len(),
        ensures
            r as int == lighting_spec(self.walls_seq()[i as int]),
            0 <= r <= 500,
    {
        self.lighting[i]
    }
}

} // verus!
