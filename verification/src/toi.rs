use vstd::prelude::*;
use crate::math::{dot, dot_spec, p_in, sub_vv, tp_x, tp_y, tp_z, v_in, Iso, Pt3, RatVec3, Rot, Vec3};
use crate::ray::{Ray, RayCast, RayIntersection};
use crate::scalar::{Ratio, MAX_COORD};

verus! {

/// A single-point convex shape: the degenerate support-mapped shape whose
/// support point in every direction is `p`.
#[derive(Clone, Copy, Debug)]
pub struct Vertex {
    pub p: Pt3,
}

impl Vertex {
    pub open spec fn wf(self) -> bool {
        p_in(self.p, MAX_COORD as int)
    }

    pub fn new(p: Pt3) -> (v: Vertex)
        requires
            p_in(p, MAX_COORD as int),
        ensures
            v.p == p,
            v.wf(),
    {
        Vertex { p }
    }
}

/// The reflection of a placed shape: every point of the shape, as placed by
/// its transform, negated through the origin.  Used to turn a Minkowski
/// difference into a Minkowski sum.
#[derive(Clone, Copy, Debug)]
pub struct Reflection<G> {
    pub shape: G,
}

impl<G> Reflection<G> {
    pub fn new(shape: G) -> (r: Reflection<G>)
        ensures
            r.shape == shape,
    {
        Reflection { shape }
    }
}

/// The Minkowski sum of `g1` placed by `m1` and `g2` placed by `m2`: the
/// set of sums of a point of the one and a point of the other.  With `g2`
/// the reflection of a placed shape, the sum is the Minkowski difference
/// `{m1(a) - m2(b)}`, whose membership of the origin encodes overlap of the
/// two original shapes (the configuration-space obstacle).
#[derive(Clone, Copy, Debug)]
pub struct MinkowskiSum<G1, G2> {
    pub m1: Iso,
    pub g1: G1,
    pub m2: Iso,
    pub g2: G2,
}

impl<G1, G2> MinkowskiSum<G1, G2> {
    pub fn new(m1: Iso, g1: G1, m2: Iso, g2: G2) -> (r: MinkowskiSum<G1, G2>)
        ensures
            r.m1 == m1 && r.g1 == g1 && r.m2 == m2 && r.g2 == g2,
    {
        MinkowskiSum { m1, g1, m2, g2 }
    }
}

/// The single point of the CSO of two vertices, before the outer transform:
/// the Minkowski difference `m1(p1) - m2(p2)`, coordinate `x`.  The
/// reflection negates the placed point of shape 2, translation included, so
/// the origin lies in the CSO exactly when the placed vertices coincide.
pub open spec fn cso_px(c: MinkowskiSum<Vertex, Reflection<Vertex>>) -> int {
    tp_x(c.m1, c.g1.p.x as int, c.g1.p.y as int, c.g1.p.z as int)
        - tp_x(c.m2, c.g2.shape.p.x as int, c.g2.shape.p.y as int, c.g2.shape.p.z as int)
}

pub open spec fn cso_py(c: MinkowskiSum<Vertex, Reflection<Vertex>>) -> int {
    tp_y(c.m1, c.g1.p.x as int, c.g1.p.y as int, c.g1.p.z as int)
        - tp_y(c.m2, c.g2.shape.p.x as int, c.g2.shape.p.y as int, c.g2.shape.p.z as int)
}

pub open spec fn cso_pz(c: MinkowskiSum<Vertex, Reflection<Vertex>>) -> int {
    tp_z(c.m1, c.g1.p.x as int, c.g1.p.y as int, c.g1.p.z as int)
        - tp_z(c.m2, c.g2.shape.p.x as int, c.g2.shape.p.y as int, c.g2.shape.p.z as int)
}

/// The exact cast of a ray against a single point `q`: a hit exists exactly
/// when `q - origin` is a nonnegative multiple of the direction.  For a
/// point on a line, `t = dot(v, d) / dot(d, d)` is that multiple whenever
/// the cross product of `v = q - origin` and `d` vanishes.
pub open spec fn ray_point_cast(
    ox: int, oy: int, oz: int, dx: int, dy: int, dz: int, qx: int, qy: int, qz: int,
) -> Option<Ratio> {
    let vx = qx - ox;
    let vy = qy - oy;
    let vz = qz - oz;
    if vx == 0 && vy == 0 && vz == 0 {
        Some(Ratio { num: 0, den: 1 })
    } else if vy * dz - vz * dy != 0 || vz * dx - vx * dz != 0 || vx * dy - vy * dx != 0 {
        None
    } else {
        let tn = dot_spec(vx, vy, vz, dx, dy, dz);
        let td = dot_spec(dx, dy, dz, dx, dy, dz);
        if tn > 0 && td > 0 {
            Some(Ratio { num: tn as i128, den: td as i128 })
        } else {
            None
        }
    }
}

/// Computes the time of impact of a ray with the single point `q`, exactly:
/// the executable form of `ray_point_cast`.
fn ray_point_toi(q: &Pt3, ray: &Ray) -> (r: Option<Ratio>)
    requires
        p_in(*q, 0x80000),
        ray.wf(),
    ensures
        r == ray_point_cast(
            ray.origin.x as int, ray.origin.y as int, ray.origin.z as int,
            ray.dir.x as int, ray.dir.y as int, ray.dir.z as int,
            q.x as int, q.y as int, q.z as int,
        ),
        r matches Some(t) ==> t.wf() && t.num >= 0,
{
    let v = Vec3 { x: q.x - ray.origin.x, y: q.y - ray.origin.y, z: q.z - ray.origin.z };
    let d = ray.dir;
    if v.x == 0 && v.y == 0 && v.z == 0 {
        Some(Ratio::new(0, 1))
    } else {
        proof {
            crate::scalar::lemma_mul_bound(v.y as int, d.z as int, 0x100000);
            crate::scalar::lemma_mul_bound(v.z as int, d.y as int, 0x100000);
            crate::scalar::lemma_mul_bound(v.z as int, d.x as int, 0x100000);
            crate::scalar::lemma_mul_bound(v.x as int, d.z as int, 0x100000);
            crate::scalar::lemma_mul_bound(v.x as int, d.y as int, 0x100000);
            crate::scalar::lemma_mul_bound(v.y as int, d.x as int, 0x100000);
        }
        let cx = (v.y as i128) * (d.z as i128) - (v.z as i128) * (d.y as i128);
        let cy = (v.z as i128) * (d.x as i128) - (v.x as i128) * (d.z as i128);
        let cz = (v.x as i128) * (d.y as i128) - (v.y as i128) * (d.x as i128);
        if cx != 0 || cy != 0 || cz != 0 {
            None
        } else {
            let tn = dot(&v, &d);
            let td = dot(&d, &d);
            if tn > 0 && td > 0 {
                Some(Ratio::new(tn, td))
            } else {
                None
            }
        }
    }
}

impl MinkowskiSum<Vertex, Reflection<Vertex>> {
    /// The single point of the CSO of two vertices, carried by the outer
    /// transform `m`.
    fn cso_point(&self, m: &Iso) -> (q: Pt3)
        requires
            self.rc_wf(),
            m.wf(),
        ensures
            q.x as int == tp_x(*m, cso_px(*self), cso_py(*self), cso_pz(*self)),
            q.y as int == tp_y(*m, cso_px(*self), cso_py(*self), cso_pz(*self)),
            q.z as int == tp_z(*m, cso_px(*self), cso_py(*self), cso_pz(*self)),
            p_in(q, 0x80000),
    {
        let p1 = self.m1.transform_point(&self.g1.p);
        assert(p_in(p1, 0x20000));
        let p2 = self.m2.transform_point(&self.g2.shape.p);
        assert(p_in(p2, 0x20000));
        let q0 = Pt3 { x: p1.x - p2.x, y: p1.y - p2.y, z: p1.z - p2.z };
        let q = m.transform_point(&q0);
        assert(p_in(q, 0x80000));
        q
    }
}

impl RayCast for MinkowskiSum<Vertex, Reflection<Vertex>> {
    open spec fn rc_wf(&self) -> bool {
        &&& self.m1.wf()
        &&& self.m2.wf()
        &&& self.g1.wf()
        &&& self.g2.shape.wf()
    }

    /// The CSO of two vertices is the single point `m1(p1) - m2(p2)`; the
    /// cast is the exact ray-point cast against it, carried by the outer
    /// transform.  `solid` makes no difference for a point.  The normal of
    /// a point hit is the reversed ray direction (unreliable at time zero,
    /// where the direction may be arbitrary).
    open spec fn cast_spec(&self, m: Iso, ray: Ray, solid: bool) -> Option<RayIntersection> {
        let qx = tp_x(m, cso_px(*self), cso_py(*self), cso_pz(*self));
        let qy = tp_y(m, cso_px(*self), cso_py(*self), cso_pz(*self));
        let qz = tp_z(m, cso_px(*self), cso_py(*self), cso_pz(*self));
        match ray_point_cast(
            ray.origin.x as int, ray.origin.y as int, ray.origin.z as int,
            ray.dir.x as int, ray.dir.y as int, ray.dir.z as int,
            qx, qy, qz,
        ) {
            Some(t) => Some(RayIntersection {
                toi: t,
                normal: RatVec3 {
                    nx: (-ray.dir.x) as i128,
                    ny: (-ray.dir.y) as i128,
                    nz: (-ray.dir.z) as i128,
                    den: 1,
                },
                uvs: None,
            }),
            None => None,
        }
    }

    fn toi_and_normal_with_ray(&self, m: &Iso, ray: &Ray, solid: bool) -> (r: Option<RayIntersection>)
    {
        let q = self.cso_point(m);
        let normal = RatVec3 {
            nx: -(ray.dir.x as i128),
            ny: -(ray.dir.y as i128),
            nz: -(ray.dir.z as i128),
            den: 1,
        };
        match ray_point_toi(&q, ray) {
            Some(t) => Some(RayIntersection::new(t, normal)),
            None => None,
        }
    }

    fn toi_with_ray(&self, m: &Iso, ray: &Ray, solid: bool) -> (r: Option<Ratio>) {
        match self.toi_and_normal_with_ray(m, ray, solid) {
            Some(inter) => Some(inter.toi),
            None => None,
        }
    }

    fn toi_and_normal_and_uv_with_ray(&self, m: &Iso, ray: &Ray, solid: bool) -> (r: Option<RayIntersection>)
    {
        self.toi_and_normal_with_ray(m, ray, solid)
    }

    fn intersects_ray(&self, m: &Iso, ray: &Ray) -> (r: bool) {
        self.toi_with_ray(m, ray, true).is_some()
    }
}

/// The identity isometry, as a value for specifications.
pub open spec fn iso_id() -> Iso {
    Iso {
        rot: Rot { ax: 0, nx: false, ay: 1, ny: false, az: 2, nz: false },
        trans: Vec3 { x: 0, y: 0, z: 0 },
    }
}

/// The CSO and origin ray that a support-map time-of-impact query reduces
/// to: the Minkowski sum of `g1` and the reflection of `g2`, and the ray
/// from the origin with direction `-(vel1 - vel2)`.
pub open spec fn toi_cso<G1, G2>(m1: Iso, g1: G1, m2: Iso, g2: G2) -> MinkowskiSum<G1, Reflection<G2>> {
    MinkowskiSum { m1, g1, m2, g2: Reflection { shape: g2 } }
}

pub open spec fn toi_ray(vel1: Vec3, vel2: Vec3) -> Ray {
    Ray {
        origin: Pt3 { x: 0, y: 0, z: 0 },
        dir: Vec3 {
            x: (vel2.x - vel1.x) as i64,
            y: (vel2.y - vel1.y) as i64,
            z: (vel2.z - vel1.z) as i64,
        },
    }
}

/// Time of impact between two support-mapped shapes under translational
/// movement: the hit time of the ray cast from the origin with direction
/// `-(vel1 - vel2)` against the configuration-space obstacle, the Minkowski
/// sum of `g1` and the reflection of `g2`.  The solver behind that cast is
/// the CSO's own `RayCast` capability: this function owes exactly its
/// result.
pub fn support_map_against_support_map<G1: Copy, G2: Copy>(
    m1: &Iso, vel1: &Vec3, g1: &G1, m2: &Iso, vel2: &Vec3, g2: &G2,
) -> (r: Option<Ratio>) where MinkowskiSum<G1, Reflection<G2>>: RayCast
    requires
        toi_cso(*m1, *g1, *m2, *g2).rc_wf(),
        v_in(*vel1, MAX_COORD as int),
        v_in(*vel2, MAX_COORD as int),
    ensures
        r == match toi_cso(*m1, *g1, *m2, *g2).cast_spec(iso_id(), toi_ray(*vel1, *vel2), true) {
            Some(i) => Some(i.toi),
            None => None::<Ratio>,
        },
{
    let dir = sub_vv(vel2, vel1);
    let rg2 = Reflection::new(*g2);
    let cso = MinkowskiSum::new(*m1, *g1, *m2, rg2);
    cso.toi_with_ray(&Iso::identity(), &Ray::new(Pt3 { x: 0, y: 0, z: 0 }, dir), true)
}

/// Time of impact between two support-mapped shapes under translational
/// movement, together with the separating-axis direction at first contact:
/// the CSO's hit normal.
pub fn support_map_against_support_map_with_normal<G1: Copy, G2: Copy>(
    m1: &Iso, vel1: &Vec3, g1: &G1, m2: &Iso, vel2: &Vec3, g2: &G2,
) -> (r: Option<(Ratio, RatVec3)>) where MinkowskiSum<G1, Reflection<G2>>: RayCast
    requires
        toi_cso(*m1, *g1, *m2, *g2).rc_wf(),
        v_in(*vel1, MAX_COORD as int),
        v_in(*vel2, MAX_COORD as int),
    ensures
        r == match toi_cso(*m1, *g1, *m2, *g2).cast_spec(iso_id(), toi_ray(*vel1, *vel2), true) {
            Some(i) => Some((i.toi, i.normal)),
            None => None::<(Ratio, RatVec3)>,
        },
{
    let dir = sub_vv(vel2, vel1);
    let rg2 = Reflection::new(*g2);
    let cso = MinkowskiSum::new(*m1, *g1, *m2, rg2);
    match cso.toi_and_normal_with_ray(&Iso::identity(), &Ray::new(Pt3 { x: 0, y: 0, z: 0 }, dir), true) {
        Some(inter) => Some((inter.toi, inter.normal)),
        None => None,
    }
}

} // verus!
