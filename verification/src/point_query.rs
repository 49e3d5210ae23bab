use vstd::prelude::*;
use crate::math::{Iso, Pt3, RatPt3, RatVec3, p_in, dist2_spec};
use crate::scalar::{Ratio, MAX_COORD};

verus! {

/// Description of the projection of a point on a shape.
#[derive(Clone, Copy, Debug)]
pub struct PointProjection {
    /// Whether or not the point to project was inside of the shape.
    pub is_inside: bool,
    /// The projection result.
    pub point: RatPt3,
}

impl PointProjection {
    /// Initializes a new `PointProjection`.
    pub fn new(is_inside: bool, point: RatPt3) -> (r: PointProjection)
        ensures
            r.is_inside == is_inside,
            r.point == point,
    {
        PointProjection { is_inside, point }
    }
}

/// Description of the projection of a point on a shape, with the outward
/// normal at the projected point.
#[derive(Clone, Copy, Debug)]
pub struct PointNormalProjection {
    /// Whether or not the point to project was inside of the shape.
    pub is_inside: bool,
    /// The projection result.
    pub point: RatPt3,
    /// Normal at the projected point.  The normal is exact and therefore
    /// unnormalized: it points in the outward direction but need not have
    /// unit length.
    pub normal: RatVec3,
}

impl PointNormalProjection {
    /// Initializes a new `PointNormalProjection`.
    pub fn new(is_inside: bool, point: RatPt3, normal: RatVec3) -> (r: PointNormalProjection)
        ensures
            r.is_inside == is_inside,
            r.point == point,
            r.normal == normal,
    {
        PointNormalProjection { is_inside, point, normal }
    }
}

/// The signed squared distance reported by `distance_to_point`: the exact
/// squared distance from the query point to its projection, negated when the
/// query was hollow (`!solid`) and the point lay inside.
pub open spec fn signed_dist2(px: int, py: int, pz: int, proj: PointProjection, solid: bool) -> Ratio {
    let d2 = dist2_spec(px, py, pz, proj.point);
    if solid || !proj.is_inside {
        d2
    } else {
        Ratio { num: (-(d2.num as int)) as i128, den: d2.den }
    }
}

/// Trait of objects that can be tested for point inclusion and projection.
pub trait PointQuery {
    /// Well-formedness of the shape (bounded coordinates, valid geometry).
    spec fn pq_wf(&self) -> bool;

    /// The mathematical value of `project_point`.
    spec fn proj_spec(&self, m: Iso, pt: Pt3, solid: bool) -> PointProjection;

    /// Projects a point on `self` transformed by `m`.
    fn project_point(&self, m: &Iso, pt: &Pt3, solid: bool) -> (r: PointProjection)
        requires
            self.pq_wf(),
            m.wf(),
            p_in(*pt, MAX_COORD as int),
        ensures
            r == self.proj_spec(*m, *pt, solid),
            r.point.wf(),
            r.point.bounded(),
    ;

    /// Computes the minimal squared distance between a point and `self`
    /// transformed by `m`, negative exactly when `!solid` and the point is
    /// strictly inside.
    fn distance_to_point(&self, m: &Iso, pt: &Pt3, solid: bool) -> (r: Ratio)
        requires
            self.pq_wf(),
            m.wf(),
            p_in(*pt, MAX_COORD as int),
        ensures
            r == signed_dist2(pt.x as int, pt.y as int, pt.z as int, self.proj_spec(*m, *pt, solid), solid),
            r.wf(),
    ;

    /// Tests if the given point is inside of `self` transformed by `m`:
    /// equal, by contract, to `project_point(m, pt, false).is_inside`.
    fn contains_point(&self, m: &Iso, pt: &Pt3) -> (r: bool)
        requires
            self.pq_wf(),
            m.wf(),
            p_in(*pt, MAX_COORD as int),
        ensures
            r == self.proj_spec(*m, *pt, false).is_inside,
    ;
}

/// Returns shape-specific info in addition to generic projection information.
///
/// `PointQuery` must stay usable over a heterogeneous collection of shapes,
/// which precludes returning shape-specific data from it.  A shape that has
/// extra projection information to share implements `RichPointQuery` as
/// well, and its `PointQuery::project_point` simply discards the extra datum.
pub trait RichPointQuery {
    /// Additional shape-specific projection information.
    type ExtraInfo;

    /// Well-formedness of the shape.
    spec fn rpq_wf(&self) -> bool;

    /// The mathematical value of `project_point_with_extra_info`.
    spec fn rich_proj_spec(&self, m: Iso, pt: Pt3, solid: bool) -> (PointProjection, Self::ExtraInfo);

    /// Projects a point on `self` transformed by `m`, with extra info.
    fn project_point_with_extra_info(&self, m: &Iso, pt: &Pt3, solid: bool) -> (r: (PointProjection, Self::ExtraInfo))
        requires
            self.rpq_wf(),
            m.wf(),
            p_in(*pt, MAX_COORD as int),
        ensures
            r == self.rich_proj_spec(*m, *pt, solid),
            r.0.point.wf(),
            r.0.point.bounded(),
    ;
}

/// Trait of objects that can be tested for point inclusion and projection,
/// including the outward normal at the projection.  It is kept separate from
/// `PointQuery` because not every shape/point-type combination can define a
/// normal.
pub trait PointNormalQuery {
    /// Well-formedness of the shape, including any planarity the normal
    /// needs (a segment's normal is defined for planar configurations only).
    spec fn pnq_wf(&self) -> bool;

    /// The inputs on which the normal is defined: a query point that
    /// coincides with the projected vertex has no direction to it, and such
    /// an input is a contract violation rather than a computable answer.
    spec fn pnq_req(&self, m: Iso, pt: Pt3) -> bool;

    /// The mathematical value of `project_point_with_normal`.
    spec fn proj_normal_spec(&self, m: Iso, pt: Pt3) -> PointNormalProjection;

    /// Projects a point on `self` transformed by `m` and reports the
    /// outward normal at the projection.
    fn project_point_with_normal(&self, m: &Iso, pt: &Pt3, solid: bool) -> (r: PointNormalProjection)
        requires
            self.pnq_wf(),
            m.wf(),
            p_in(*pt, MAX_COORD as int),
            self.pnq_req(*m, *pt),
        ensures
            r == self.proj_normal_spec(*m, *pt),
            r.point.wf(),
            r.point.bounded(),
            r.normal.wf(),
    ;
}

/// LAW (solid distance is nonnegative): with `solid` set, the signed squared
/// distance returned by `distance_to_point` is never negative.
pub proof fn lemma_distance_solid_nonneg(px: int, py: int, pz: int, proj: PointProjection)
    requires
        -(MAX_COORD as int) <= px <= MAX_COORD as int,
        -(MAX_COORD as int) <= py <= MAX_COORD as int,
        -(MAX_COORD as int) <= pz <= MAX_COORD as int,
        proj.point.wf(),
        proj.point.bounded(),
    ensures
        signed_dist2(px, py, pz, proj, true).num >= 0,
        signed_dist2(px, py, pz, proj, true).den > 0,
{
    lemma_dist2_parts(px, py, pz, proj.point);
}

/// LAW (hollow distance sign): without `solid`, the distance is negative
/// exactly when the query point lies strictly inside the shape: reported
/// inside, and at a positive distance from its own boundary projection.
pub proof fn lemma_distance_hollow_sign(px: int, py: int, pz: int, proj: PointProjection)
    requires
        -(MAX_COORD as int) <= px <= MAX_COORD as int,
        -(MAX_COORD as int) <= py <= MAX_COORD as int,
        -(MAX_COORD as int) <= pz <= MAX_COORD as int,
        proj.point.wf(),
        proj.point.bounded(),
    ensures
        (signed_dist2(px, py, pz, proj, false).num < 0)
            <==> (proj.is_inside && dist2_spec(px, py, pz, proj.point).num != 0),
{
    lemma_dist2_parts(px, py, pz, proj.point);
}

/// The squared distance between a bounded query point and a bounded rational
/// point is a nonnegative rational whose numerator fits an `i128`.
proof fn lemma_dist2_parts(px: int, py: int, pz: int, w: crate::math::RatPt3)
    requires
        -(MAX_COORD as int) <= px <= MAX_COORD as int,
        -(MAX_COORD as int) <= py <= MAX_COORD as int,
        -(MAX_COORD as int) <= pz <= MAX_COORD as int,
        w.wf(),
        w.bounded(),
    ensures
        dist2_spec(px, py, pz, w).num
            == (px * w.den - w.nx) * (px * w.den - w.nx)
                + (py * w.den - w.ny) * (py * w.den - w.ny)
                + (pz * w.den - w.nz) * (pz * w.den - w.nz),
        dist2_spec(px, py, pz, w).num >= 0,
        dist2_spec(px, py, pz, w).den > 0,
{
    crate::scalar::lemma_mul_bound2(px, w.den as int, 0x10000, 0x20_0000_0000);
    crate::scalar::lemma_mul_bound2(py, w.den as int, 0x10000, 0x20_0000_0000);
    crate::scalar::lemma_mul_bound2(pz, w.den as int, 0x10000, 0x20_0000_0000);
    let dx = px * w.den - w.nx;
    let dy = py * w.den - w.ny;
    let dz = pz * w.den - w.nz;
    crate::scalar::lemma_mul_bound(dx, dx, 0x400_0000_0000_0000);
    crate::scalar::lemma_mul_bound(dy, dy, 0x400_0000_0000_0000);
    crate::scalar::lemma_mul_bound(dz, dz, 0x400_0000_0000_0000);
    crate::math::lemma_sq_nonneg(dx);
    crate::math::lemma_sq_nonneg(dy);
    crate::math::lemma_sq_nonneg(dz);
    crate::math::lemma_sq_nonneg(w.den as int);
    crate::scalar::lemma_mul_bound(w.den as int, w.den as int, 0x20_0000_0000);
    assert(w.den * w.den > 0) by (nonlinear_arith)
        requires
            w.den > 0,
    ;
}

} // verus!
