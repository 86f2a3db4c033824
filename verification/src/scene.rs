//! The scene: an aggregate of primitives scanned for the nearest hit.

use crate::color::LinearColor;
use crate::fx::Fx;
use crate::geo::ray::{Ray, RayV};
use crate::hit::{opt_hit_v, HitStruct, HitV};
use crate::shape::{primitive_hit_v, Primitive};
use vstd::prelude::*;

verus! {

/// A scene to be rendered: an ordered sequence of primitives and the
/// background palette the integrator falls back to on a miss (bottom color
/// at the horizon's nadir, top color at its zenith).
pub struct Scene {
    pub objects: Vec<Primitive>,
    pub background_bottom: LinearColor,
    pub background_top: LinearColor,
}

/// The nearest hit over `objects[i..]`, given the nearest hit `best` over
/// `objects[..i]` and the correspondingly tightened window `(t_min, t_max)`:
/// each hit found becomes the new upper bound of the window, so the scan
/// returns the globally nearest hit.
pub open spec fn scene_hit_from(
    objects: Seq<Primitive>,
    i: int,
    ray: RayV,
    t_min: int,
    t_max: int,
    best: Option<HitV>,
) -> Option<HitV>
    decreases objects.len() - i,
{
    if i < 0 || i >= objects.len() {
        best
    } else {
        match primitive_hit_v(objects[i], ray, t_min, t_max) {
            Option::Some(h) => scene_hit_from(objects, i + 1, ray, t_min, h.t, Option::Some(h)),
            Option::None => scene_hit_from(objects, i + 1, ray, t_min, t_max, best),
        }
    }
}

/// The nearest hit of the ray over the whole scene inside `(t_min, t_max)`.
pub open spec fn scene_hit_v(objects: Seq<Primitive>, ray: RayV, t_min: int, t_max: int) -> Option<
    HitV,
> {
    scene_hit_from(objects, 0, ray, t_min, t_max, Option::None)
}

impl Scene {
    /// Scans all primitives and returns the nearest hit inside
    /// `(t_min, t_max)`, if any.
    pub fn hit(&self, ray: &Ray, t_min: Fx, t_max: Fx) -> (r: Option<HitStruct>)
        ensures
            opt_hit_v(r) == scene_hit_v(
                self.objects@,
                ray@,
                t_min.raw as int,
                t_max.raw as int,
            ),
    {
        let mut cur_max = t_max;
        let mut hit_struct: Option<HitStruct> = None;
        let n = self.objects.len();
        let mut i: usize = 0;
        while i < n
            invariant
                i <= n,
                n == self.objects.len(),
                scene_hit_v(self.objects@, ray@, t_min.raw as int, t_max.raw as int)
                    == scene_hit_from(
                    self.objects@,
                    i as int,
                    ray@,
                    t_min.raw as int,
                    cur_max.raw as int,
                    opt_hit_v(hit_struct),
                ),
            decreases n - i,
        {
            let obj = &self.objects[i];
            if let Some(hit) = obj.hit(ray, t_min, cur_max) {
                cur_max = hit.t;
                hit_struct = Some(hit);
            }
            i = i + 1;
        }
        hit_struct
    }
}

} // verus!
