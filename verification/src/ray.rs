use vstd::prelude::*;
use crate::math::{p_in, v_in, Iso, Pt3, RatVec3, Vec3};
use crate::scalar::{Ratio, MAX_COORD};

verus! {

/// A ray.
///
/// On the integer grid a direction cannot have unit length, so the time of
/// impact is measured in units of the direction's length: the hit point is
/// `origin + toi * dir`.  A zero direction is allowed and describes a
/// stationary ray, which hits only what already touches its origin.
#[derive(Clone, Copy, Debug)]
pub struct Ray {
    /// Starting point of the ray.
    pub origin: Pt3,
    /// Direction of the ray.
    pub dir: Vec3,
}

impl Ray {
    /// The origin is an input point; the direction may span the difference
    /// of two input velocities.
    pub open spec fn wf(self) -> bool {
        &&& p_in(self.origin, MAX_COORD as int)
        &&& v_in(self.dir, 2 * MAX_COORD as int)
    }

    /// Creates a new ray starting from `origin` with the direction `dir`.
    pub fn new(origin: Pt3, dir: Vec3) -> (r: Ray)
        requires
            p_in(origin, MAX_COORD as int),
            v_in(dir, 2 * MAX_COORD as int),
        ensures
            r.origin == origin,
            r.dir == dir,
            r.wf(),
    {
        Ray { origin, dir }
    }
}

/// The result of a successful ray cast.
#[derive(Clone, Copy, Debug)]
pub struct RayIntersection {
    /// The time of impact of the ray with the object: the contact point is
    /// `origin + dir * toi`.
    pub toi: Ratio,
    /// The normal at the intersection point, exact and therefore
    /// unnormalized.  If `toi` is exactly zero, the normal might not be
    /// reliable.
    pub normal: RatVec3,
    /// The texture coordinates at the intersection point; absent for shapes
    /// that do not support texture parametrization.
    pub uvs: Option<(Ratio, Ratio)>,
}

impl RayIntersection {
    /// The time of impact is a well-formed, nonnegative rational.
    pub open spec fn wf(self) -> bool {
        &&& self.toi.wf()
        &&& self.toi.num >= 0
        &&& self.normal.wf()
    }

    /// Creates a new `RayIntersection` without texture coordinates.
    pub fn new(toi: Ratio, normal: RatVec3) -> (r: RayIntersection)
        requires
            toi.wf(),
            toi.num >= 0,
            normal.wf(),
        ensures
            r.toi == toi,
            r.normal == normal,
            r.uvs is None,
            r.wf(),
    {
        RayIntersection { toi, normal, uvs: None }
    }

    /// Creates a new `RayIntersection` with texture coordinates.
    pub fn new_with_uvs(toi: Ratio, normal: RatVec3, uvs: Option<(Ratio, Ratio)>) -> (r: RayIntersection)
        requires
            toi.wf(),
            toi.num >= 0,
            normal.wf(),
        ensures
            r.toi == toi,
            r.normal == normal,
            r.uvs == uvs,
            r.wf(),
    {
        RayIntersection { toi, normal, uvs }
    }
}

/// Trait of objects that can be transformed and tested for intersection with
/// a ray.  `toi_and_normal_with_ray` is the mandatory primitive; the other
/// operations are derived from its specification, so that, by contract,
/// `intersects_ray(m, ray)` equals `toi_with_ray(m, ray, true).is_some()`.
pub trait RayCast {
    /// Well-formedness of the shape.
    spec fn rc_wf(&self) -> bool;

    /// The mathematical value of the mandatory primitive.  With `solid`,
    /// a ray starting inside the shape reports a zero time of impact; the
    /// hollow policy is shape-specific and documented per shape.
    spec fn cast_spec(&self, m: Iso, ray: Ray, solid: bool) -> Option<RayIntersection>;

    /// Computes the time of impact, and normal, between this transformed
    /// shape and a ray.
    fn toi_and_normal_with_ray(&self, m: &Iso, ray: &Ray, solid: bool) -> (r: Option<RayIntersection>)
        requires
            self.rc_wf(),
            m.wf(),
            ray.wf(),
        ensures
            r == self.cast_spec(*m, *ray, solid),
            r matches Some(i) ==> i.wf(),
    ;

    /// Computes the time of impact between this transformed shape and a
    /// ray: the primitive's result with the normal dropped.
    fn toi_with_ray(&self, m: &Iso, ray: &Ray, solid: bool) -> (r: Option<Ratio>)
        requires
            self.rc_wf(),
            m.wf(),
            ray.wf(),
        ensures
            r == match self.cast_spec(*m, *ray, solid) {
                Some(i) => Some(i.toi),
                None => None::<Ratio>,
            },
            r matches Some(t) ==> t.wf() && t.num >= 0,
    ;

    /// Computes time of impact, normal, and texture coordinates between
    /// this transformed shape and a ray; falls back to the no-uv result for
    /// shapes without texture parametrization.
    fn toi_and_normal_and_uv_with_ray(&self, m: &Iso, ray: &Ray, solid: bool) -> (r: Option<RayIntersection>)
        requires
            self.rc_wf(),
            m.wf(),
            ray.wf(),
        ensures
            r == self.cast_spec(*m, *ray, solid),
            r matches Some(i) ==> i.wf(),
    ;

    /// Tests whether a ray intersects this transformed shape: true exactly
    /// when the solid cast reports a hit.
    fn intersects_ray(&self, m: &Iso, ray: &Ray) -> (r: bool)
        requires
            self.rc_wf(),
            m.wf(),
            ray.wf(),
        ensures
            r == (self.cast_spec(*m, *ray, true) is Some),
    ;
}

} // verus!
