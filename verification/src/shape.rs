use vstd::prelude::*;
use vstd::pervasive::unreached;
use crate::math::{p_in, Iso, Pt3, RatPt3};
use crate::plane::Plane;
use crate::point_query::{
    signed_dist2, PointNormalProjection, PointNormalQuery, PointProjection, PointQuery,
};
use crate::point_segment::{seg_normal_proj, seg_proj_full, Segment};
use crate::ray::{Ray, RayCast, RayIntersection};
use crate::scalar::{Ratio, MAX_COORD};

verus! {

/// The error of asking a shape for a capability it does not advertise.
#[derive(Clone, Copy, Debug, PartialEq, Eq, Structural)]
pub enum QueryError {
    UnsupportedCapability,
}

/// A closed set of shape kinds, queried through one interface.  Each kind
/// advertises the capabilities it has; asking for a missing one through a
/// capability trait is a contract violation (left out by `requires`), while
/// the `try_` form reports it as an explicit error.
#[derive(Clone, Copy, Debug)]
pub enum Shape {
    Segment(Segment),
    Plane(Plane),
}

impl Shape {
    pub open spec fn wf(self) -> bool {
        match self {
            Shape::Segment(s) => s.wf(),
            Shape::Plane(p) => p.wf(),
        }
    }

    /// Whether the underlying shape can answer point queries.
    pub open spec fn has_point_query(self) -> bool {
        self is Segment
    }

    /// Whether the underlying shape can answer normal-reporting point
    /// queries.
    pub open spec fn has_point_normal_query(self) -> bool {
        self is Segment
    }

    /// Whether the underlying shape can answer ray casts.
    pub open spec fn has_ray_cast(self) -> bool {
        self is Plane
    }

    /// The point-query capability of the underlying shape, if it has one.
    pub fn as_point_query(&self) -> (r: Option<&Segment>)
        ensures
            match *self {
                Shape::Segment(seg) => r matches Some(s) && *s == seg,
                _ => r is None,
            },
    {
        match self {
            Shape::Segment(s) => Some(s),
            _ => None,
        }
    }

    /// The ray-cast capability of the underlying shape, if it has one.
    pub fn as_ray_cast(&self) -> (r: Option<&Plane>)
        ensures
            match *self {
                Shape::Plane(pl) => r matches Some(p) && *p == pl,
                _ => r is None,
            },
    {
        match self {
            Shape::Plane(p) => Some(p),
            _ => None,
        }
    }

    /// Projects a point on the underlying shape, or reports that the shape
    /// has no point-query capability.
    pub fn try_project_point(&self, m: &Iso, pt: &Pt3, solid: bool) -> (r: Result<
        PointProjection,
        QueryError,
    >)
        requires
            self.wf(),
            m.wf(),
            p_in(*pt, MAX_COORD as int),
        ensures
            match *self {
                Shape::Segment(seg) => r matches Ok(pr) && pr == seg_proj_full(seg, *m, *pt),
                _ => r matches Err(e) && e == QueryError::UnsupportedCapability,
            },
    {
        match self {
            Shape::Segment(s) => Ok(s.project_point(m, pt, solid)),
            _ => Err(QueryError::UnsupportedCapability),
        }
    }

    /// Computes the signed squared distance to the underlying shape, or
    /// reports that the shape has no point-query capability.
    pub fn try_distance_to_point(&self, m: &Iso, pt: &Pt3, solid: bool) -> (r: Result<
        Ratio,
        QueryError,
    >)
        requires
            self.wf(),
            m.wf(),
            p_in(*pt, MAX_COORD as int),
        ensures
            match *self {
                Shape::Segment(seg) => r matches Ok(d) && d == signed_dist2(
                    pt.x as int, pt.y as int, pt.z as int, seg_proj_full(seg, *m, *pt), solid),
                _ => r matches Err(e) && e == QueryError::UnsupportedCapability,
            },
    {
        match self {
            Shape::Segment(s) => Ok(s.distance_to_point(m, pt, solid)),
            _ => Err(QueryError::UnsupportedCapability),
        }
    }

    /// Tests the point for containment in the underlying shape, or reports
    /// that the shape has no point-query capability.
    pub fn try_contains_point(&self, m: &Iso, pt: &Pt3) -> (r: Result<bool, QueryError>)
        requires
            self.wf(),
            m.wf(),
            p_in(*pt, MAX_COORD as int),
        ensures
            match *self {
                Shape::Segment(seg) => r matches Ok(b) && b == seg_proj_full(
                    seg, *m, *pt).is_inside,
                _ => r matches Err(e) && e == QueryError::UnsupportedCapability,
            },
    {
        match self {
            Shape::Segment(s) => Ok(s.contains_point(m, pt)),
            _ => Err(QueryError::UnsupportedCapability),
        }
    }

    /// Projects a point with its outward normal, or reports that the shape
    /// has no normal-reporting capability.  A degenerate configuration (a
    /// non-planar segment, or a query point on the projected vertex) stays a
    /// contract violation, as only the capability mismatch is recoverable.
    pub fn try_project_point_with_normal(&self, m: &Iso, pt: &Pt3, solid: bool) -> (r: Result<
        PointNormalProjection,
        QueryError,
    >)
        requires
            self.wf(),
            m.wf(),
            p_in(*pt, MAX_COORD as int),
            match *self {
                Shape::Segment(seg) => seg.pnq_wf() && seg.pnq_req(*m, *pt),
                _ => true,
            },
        ensures
            match *self {
                Shape::Segment(seg) => r matches Ok(pr) && pr == seg_normal_proj(seg, *m, *pt),
                _ => r matches Err(e) && e == QueryError::UnsupportedCapability,
            },
    {
        match self {
            Shape::Segment(s) => Ok(s.project_point_with_normal(m, pt, solid)),
            _ => Err(QueryError::UnsupportedCapability),
        }
    }

    /// Computes the time of impact of a ray with the underlying shape, or
    /// reports that the shape has no ray-cast capability.
    pub fn try_toi_with_ray(&self, m: &Iso, ray: &Ray, solid: bool) -> (r: Result<
        Option<Ratio>,
        QueryError,
    >)
        requires
            self.wf(),
            m.wf(),
            ray.wf(),
        ensures
            match *self {
                Shape::Plane(p) => r matches Ok(o) && o == match p.cast_spec(*m, *ray, solid) {
                    Some(i) => Some(i.toi),
                    None => None::<Ratio>,
                },
                _ => r matches Err(e) && e == QueryError::UnsupportedCapability,
            },
    {
        match self {
            Shape::Plane(p) => Ok(p.toi_with_ray(m, ray, solid)),
            _ => Err(QueryError::UnsupportedCapability),
        }
    }
}

impl PointQuery for Shape {
    /// Asking a shape without the capability is a contract violation.
    open spec fn pq_wf(&self) -> bool {
        &&& self.wf()
        &&& self.has_point_query()
    }

    open spec fn proj_spec(&self, m: Iso, pt: Pt3, solid: bool) -> PointProjection {
        match *self {
            Shape::Segment(s) => s.proj_spec(m, pt, solid),
            _ => PointProjection {
                is_inside: false,
                point: RatPt3 { nx: 0, ny: 0, nz: 0, den: 1 },
            },
        }
    }

    fn project_point(&self, m: &Iso, pt: &Pt3, solid: bool) -> (r: PointProjection) {
        match self {
            Shape::Segment(s) => s.project_point(m, pt, solid),
            _ => unreached(),
        }
    }

    fn distance_to_point(&self, m: &Iso, pt: &Pt3, solid: bool) -> (r: Ratio) {
        match self {
            Shape::Segment(s) => s.distance_to_point(m, pt, solid),
            _ => unreached(),
        }
    }

    fn contains_point(&self, m: &Iso, pt: &Pt3) -> (r: bool) {
        match self {
            Shape::Segment(s) => s.contains_point(m, pt),
            _ => unreached(),
        }
    }
}

impl PointNormalQuery for Shape {
    open spec fn pnq_wf(&self) -> bool {
        match *self {
            Shape::Segment(s) => s.pnq_wf(),
            _ => false,
        }
    }

    open spec fn pnq_req(&self, m: Iso, pt: Pt3) -> bool {
        match *self {
            Shape::Segment(s) => s.pnq_req(m, pt),
            _ => false,
        }
    }

    open spec fn proj_normal_spec(&self, m: Iso, pt: Pt3) -> PointNormalProjection {
        match *self {
            Shape::Segment(s) => seg_normal_proj(s, m, pt),
            _ => PointNormalProjection {
                is_inside: false,
                point: RatPt3 { nx: 0, ny: 0, nz: 0, den: 1 },
                normal: crate::math::RatVec3 { nx: 0, ny: 0, nz: 0, den: 1 },
            },
        }
    }

    fn project_point_with_normal(&self, m: &Iso, pt: &Pt3, solid: bool) -> (r: PointNormalProjection)
    {
        match self {
            Shape::Segment(s) => s.project_point_with_normal(m, pt, solid),
            _ => unreached(),
        }
    }
}

impl RayCast for Shape {
    open spec fn rc_wf(&self) -> bool {
        match *self {
            Shape::Plane(p) => p.rc_wf(),
            _ => false,
        }
    }

    open spec fn cast_spec(&self, m: Iso, ray: Ray, solid: bool) -> Option<RayIntersection> {
        match *self {
            Shape::Plane(p) => p.cast_spec(m, ray, solid),
            _ => None,
        }
    }

    fn toi_and_normal_with_ray(&self, m: &Iso, ray: &Ray, solid: bool) -> (r: Option<RayIntersection>)
    {
        match self {
            Shape::Plane(p) => p.toi_and_normal_with_ray(m, ray, solid),
            _ => unreached(),
        }
    }

    fn toi_with_ray(&self, m: &Iso, ray: &Ray, solid: bool) -> (r: Option<Ratio>) {
        match self {
            Shape::Plane(p) => p.toi_with_ray(m, ray, solid),
            _ => unreached(),
        }
    }

    fn toi_and_normal_and_uv_with_ray(&self, m: &Iso, ray: &Ray, solid: bool) -> (r: Option<RayIntersection>)
    {
        match self {
            Shape::Plane(p) => p.toi_and_normal_and_uv_with_ray(m, ray, solid),
            _ => unreached(),
        }
    }

    fn intersects_ray(&self, m: &Iso, ray: &Ray) -> (r: bool) {
        match self {
            Shape::Plane(p) => p.intersects_ray(m, ray),
            _ => unreached(),
        }
    }
}

} // verus!
