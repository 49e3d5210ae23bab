use vstd::prelude::*;
use crate::math::{dot, dot_spec, rot_x, rot_y, rot_z, v_in, Iso, RatVec3, Vec3};
use crate::ray::{Ray, RayCast, RayIntersection};
use crate::scalar::{Ratio, MAX_COORD};

verus! {

/// A plane through the local origin with outward normal `normal`: the solid
/// side is the half-space of points with a nonpositive dot product against
/// the normal.
#[derive(Clone, Copy, Debug)]
pub struct Plane {
    pub normal: Vec3,
}

impl Plane {
    /// The normal is a bounded, nonzero direction.
    pub open spec fn wf(self) -> bool {
        &&& v_in(self.normal, MAX_COORD as int)
        &&& !(self.normal.x == 0 && self.normal.y == 0 && self.normal.z == 0)
    }

    /// Builds a plane from its outward normal.
    pub fn new(normal: Vec3) -> (p: Plane)
        requires
            v_in(normal, MAX_COORD as int),
            !(normal.x == 0 && normal.y == 0 && normal.z == 0),
        ensures
            p.normal == normal,
            p.wf(),
    {
        Plane { normal }
    }
}

/// `x` component of the plane's world normal under `m`.
pub open spec fn plane_nw_x(p: Plane, m: Iso) -> int {
    rot_x(m.rot, p.normal.x as int, p.normal.y as int, p.normal.z as int)
}

pub open spec fn plane_nw_y(p: Plane, m: Iso) -> int {
    rot_y(m.rot, p.normal.x as int, p.normal.y as int, p.normal.z as int)
}

pub open spec fn plane_nw_z(p: Plane, m: Iso) -> int {
    rot_z(m.rot, p.normal.x as int, p.normal.y as int, p.normal.z as int)
}

/// The scaled signed distance of the ray origin from the transformed plane:
/// the dot product of the world normal with `origin - m.trans`.
pub open spec fn plane_s0(p: Plane, m: Iso, ray: Ray) -> int {
    dot_spec(
        plane_nw_x(p, m), plane_nw_y(p, m), plane_nw_z(p, m),
        ray.origin.x - m.trans.x, ray.origin.y - m.trans.y, ray.origin.z - m.trans.z,
    )
}

/// The rate at which that distance changes along the ray: the dot product
/// of the world normal with the ray direction.
pub open spec fn plane_sd(p: Plane, m: Iso, ray: Ray) -> int {
    dot_spec(
        plane_nw_x(p, m), plane_nw_y(p, m), plane_nw_z(p, m),
        ray.dir.x as int, ray.dir.y as int, ray.dir.z as int,
    )
}

/// The world normal as an exact rational vector, negated when `neg` is set
/// (a hollow hit from the inside faces the other way).
pub open spec fn plane_normal_rat(p: Plane, m: Iso, neg: bool) -> RatVec3 {
    if neg {
        RatVec3 {
            nx: (-plane_nw_x(p, m)) as i128,
            ny: (-plane_nw_y(p, m)) as i128,
            nz: (-plane_nw_z(p, m)) as i128,
            den: 1,
        }
    } else {
        RatVec3 {
            nx: plane_nw_x(p, m) as i128,
            ny: plane_nw_y(p, m) as i128,
            nz: plane_nw_z(p, m) as i128,
            den: 1,
        }
    }
}

/// The exact ray cast against a transformed plane.  Solid: a ray starting
/// on the solid side reports time zero; otherwise the ray hits exactly when
/// it approaches the plane, at the crossing time.  Hollow: the crossing
/// time from either side, zero on the plane itself.
pub open spec fn plane_cast(p: Plane, m: Iso, ray: Ray, solid: bool) -> Option<RayIntersection> {
    let s0 = plane_s0(p, m, ray);
    let sd = plane_sd(p, m, ray);
    if solid {
        if s0 <= 0 {
            Some(RayIntersection {
                toi: Ratio { num: 0, den: 1 },
                normal: plane_normal_rat(p, m, false),
                uvs: None,
            })
        } else if sd < 0 {
            Some(RayIntersection {
                toi: Ratio { num: s0 as i128, den: (-sd) as i128 },
                normal: plane_normal_rat(p, m, false),
                uvs: None,
            })
        } else {
            None
        }
    } else {
        if s0 == 0 {
            Some(RayIntersection {
                toi: Ratio { num: 0, den: 1 },
                normal: plane_normal_rat(p, m, false),
                uvs: None,
            })
        } else if s0 > 0 && sd < 0 {
            Some(RayIntersection {
                toi: Ratio { num: s0 as i128, den: (-sd) as i128 },
                normal: plane_normal_rat(p, m, false),
                uvs: None,
            })
        } else if s0 < 0 && sd > 0 {
            Some(RayIntersection {
                toi: Ratio { num: (-s0) as i128, den: sd as i128 },
                normal: plane_normal_rat(p, m, true),
                uvs: None,
            })
        } else {
            None
        }
    }
}

impl RayCast for Plane {
    open spec fn rc_wf(&self) -> bool {
        self.wf()
    }

    open spec fn cast_spec(&self, m: Iso, ray: Ray, solid: bool) -> Option<RayIntersection> {
        plane_cast(*self, m, ray, solid)
    }

    fn toi_and_normal_with_ray(&self, m: &Iso, ray: &Ray, solid: bool) -> (r: Option<RayIntersection>)
    {
        let nw = m.rotate_vector(&self.normal);
        let oc = Vec3 {
            x: ray.origin.x - m.trans.x,
            y: ray.origin.y - m.trans.y,
            z: ray.origin.z - m.trans.z,
        };
        let s0 = dot(&nw, &oc);
        let sd = dot(&nw, &ray.dir);
        let normal = RatVec3 { nx: nw.x as i128, ny: nw.y as i128, nz: nw.z as i128, den: 1 };
        if solid {
            if s0 <= 0 {
                Some(RayIntersection::new(Ratio::new(0, 1), normal))
            } else if sd < 0 {
                Some(RayIntersection::new(Ratio::new(s0, -sd), normal))
            } else {
                None
            }
        } else {
            if s0 == 0 {
                Some(RayIntersection::new(Ratio::new(0, 1), normal))
            } else if s0 > 0 && sd < 0 {
                Some(RayIntersection::new(Ratio::new(s0, -sd), normal))
            } else if s0 < 0 && sd > 0 {
                let flipped = RatVec3 {
                    nx: -(nw.x as i128),
                    ny: -(nw.y as i128),
                    nz: -(nw.z as i128),
                    den: 1,
                };
                Some(RayIntersection::new(Ratio::new(-s0, sd), flipped))
            } else {
                None
            }
        }
    }

    fn toi_with_ray(&self, m: &Iso, ray: &Ray, solid: bool) -> (r: Option<Ratio>) {
        match self.toi_and_normal_with_ray(m, ray, solid) {
            Some(inter) => Some(inter.toi),
            None => None,
        }
    }

    fn toi_and_normal_and_uv_with_ray(&self, m: &Iso, ray: &Ray, solid: bool) -> (r: Option<RayIntersection>)
    {
        self.toi_and_normal_with_ray(m, ray, solid)
    }

    fn intersects_ray(&self, m: &Iso, ray: &Ray) -> (r: bool) {
        self.toi_with_ray(m, ray, true).is_some()
    }
}

} // verus!
