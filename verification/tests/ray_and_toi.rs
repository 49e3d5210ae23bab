use geomquery::math::{Iso, Pt3, RatVec3, Rot, Vec3};
use geomquery::plane::Plane;
use geomquery::point_query::{PointNormalQuery, PointQuery};
use geomquery::point_segment::Segment;
use geomquery::ray::{Ray, RayCast, RayIntersection};
use geomquery::shape::{QueryError, Shape};
use geomquery::toi::{
    support_map_against_support_map, support_map_against_support_map_with_normal, Vertex,
};

fn pt(x: i64, y: i64, z: i64) -> Pt3 {
    Pt3::new(x, y, z)
}

fn v(x: i64, y: i64, z: i64) -> Vec3 {
    Vec3::new(x, y, z)
}

#[test]
fn plane_cast_hits_from_outside() {
    let p = Plane::new(v(0, 0, 1));
    let m = Iso::identity();
    let ray = Ray::new(pt(0, 0, 5), v(0, 0, -1));
    let inter = p.toi_and_normal_with_ray(&m, &ray, true).unwrap();
    // toi is exactly 5
    assert_eq!(inter.toi.num, 5 * inter.toi.den);
    // normal is the plane's outward normal (0, 0, 1)
    assert_eq!(inter.normal.nx, 0);
    assert_eq!(inter.normal.ny, 0);
    assert_eq!(inter.normal.nz, inter.normal.den);
    assert!(inter.uvs.is_none());
}

#[test]
fn plane_cast_solid_inside_reports_zero() {
    let p = Plane::new(v(0, 0, 1));
    let m = Iso::identity();
    let ray = Ray::new(pt(0, 0, -3), v(0, 0, -1));
    let t = p.toi_with_ray(&m, &ray, true).unwrap();
    assert_eq!(t.num, 0);
}

#[test]
fn plane_cast_hollow_from_inside_exits_through_boundary() {
    // A ray four units below the plane, moving up: it reaches the hollow
    // boundary at time 4, and the reported normal faces back along the ray.
    let p = Plane::new(v(0, 0, 1));
    let m = Iso::identity();
    let ray = Ray::new(pt(0, 0, -4), v(0, 0, 1));
    let inter = p.toi_and_normal_with_ray(&m, &ray, false).unwrap();
    assert_eq!(inter.toi.num, 4 * inter.toi.den);
    assert_eq!(inter.normal.nx, 0);
    assert_eq!(inter.normal.ny, 0);
    assert_eq!(inter.normal.nz, -inter.normal.den);
}

#[test]
fn plane_cast_receding_ray_misses() {
    let p = Plane::new(v(0, 0, 1));
    let m = Iso::identity();
    let ray = Ray::new(pt(0, 0, 5), v(0, 0, 1));
    assert!(p.toi_with_ray(&m, &ray, true).is_none());
    assert!(!p.intersects_ray(&m, &ray));
}

#[test]
fn intersects_ray_equals_solid_toi_presence() {
    let p = Plane::new(v(1, 2, 2));
    let m = Iso::identity();
    let rays = [
        Ray::new(pt(3, 1, 4), v(-1, -1, -1)),
        Ray::new(pt(3, 1, 4), v(1, 1, 1)),
        Ray::new(pt(-5, 0, 0), v(0, 1, 0)),
        Ray::new(pt(0, 0, 0), v(0, 0, 0)),
    ];
    for ray in rays {
        assert_eq!(p.intersects_ray(&m, &ray), p.toi_with_ray(&m, &ray, true).is_some());
    }
}

#[test]
fn point_against_point_time_of_impact() {
    // One vertex at the origin moving right at speed 1; another at rest ten
    // units away: they meet at time 10, along separating axis (1, 0, 0).
    let g1 = Vertex::new(pt(0, 0, 0));
    let g2 = Vertex::new(pt(10, 0, 0));
    let m = Iso::identity();
    let t = support_map_against_support_map(&m, &v(1, 0, 0), &g1, &m, &v(0, 0, 0), &g2).unwrap();
    assert_eq!(t.num, 10 * t.den);
    let (t2, n) =
        support_map_against_support_map_with_normal(&m, &v(1, 0, 0), &g1, &m, &v(0, 0, 0), &g2)
            .unwrap();
    assert_eq!(t2.num, 10 * t2.den);
    assert_eq!(n.nx, n.den);
    assert_eq!(n.ny, 0);
    assert_eq!(n.nz, 0);
}

#[test]
fn point_against_point_receding_never_touches() {
    let g1 = Vertex::new(pt(0, 0, 0));
    let g2 = Vertex::new(pt(10, 0, 0));
    let m = Iso::identity();
    let r = support_map_against_support_map(&m, &v(-1, 0, 0), &g1, &m, &v(0, 0, 0), &g2);
    assert!(r.is_none());
    // off-line motion never meets either
    let r2 = support_map_against_support_map(&m, &v(0, 1, 0), &g1, &m, &v(0, 0, 0), &g2);
    assert!(r2.is_none());
}

#[test]
fn point_against_point_already_touching() {
    let g1 = Vertex::new(pt(3, 4, 5));
    let g2 = Vertex::new(pt(3, 4, 5));
    let m = Iso::identity();
    let t = support_map_against_support_map(&m, &v(1, 0, 0), &g1, &m, &v(0, 0, 0), &g2).unwrap();
    assert_eq!(t.num, 0);
}

#[test]
fn facade_reports_missing_capability() {
    let plane_shape = Shape::Plane(Plane::new(v(0, 0, 1)));
    let m = Iso::identity();
    assert!(plane_shape.as_point_query().is_none());
    let r = plane_shape.try_project_point(&m, &pt(1, 2, 3), true);
    assert_eq!(r.unwrap_err(), QueryError::UnsupportedCapability);
    let seg_shape = Shape::Segment(Segment::new(pt(0, 0, 0), pt(2, 0, 0)));
    assert!(seg_shape.as_ray_cast().is_none());
}

#[test]
fn facade_forwards_point_queries() {
    let seg = Segment::new(pt(0, 0, 0), pt(2, 0, 0));
    let shape = Shape::Segment(seg);
    let m = Iso::identity();
    let direct = seg.project_point(&m, &pt(1, 2, 0), false);
    let through = shape.try_project_point(&m, &pt(1, 2, 0), false).unwrap();
    assert_eq!(direct.is_inside, through.is_inside);
    assert_eq!(direct.point.nx, through.point.nx);
    assert_eq!(direct.point.den, through.point.den);
    assert_eq!(shape.contains_point(&m, &pt(1, 0, 0)), seg.contains_point(&m, &pt(1, 0, 0)));
}

#[test]
fn segment_normal_by_voronoi_region() {
    let seg = Segment::new(pt(0, 0, 0), pt(2, 0, 0));
    let m = Iso::identity();
    // vertex region of a: normal is the vector from a to the query point
    let ra = seg.project_point_with_normal(&m, &pt(-1, 1, 0), false);
    assert_eq!(ra.normal.nx, -ra.normal.den);
    assert_eq!(ra.normal.ny, ra.normal.den);
    assert_eq!(ra.normal.nz, 0);
    // vertex region of b
    let rb = seg.project_point_with_normal(&m, &pt(3, 0, 0), false);
    assert_eq!(rb.normal.nx, rb.normal.den);
    assert_eq!(rb.normal.ny, 0);
    assert_eq!(rb.normal.nz, 0);
    // interior region: the left-hand perpendicular (ab.y, -ab.x, 0) of
    // ab = (2, 0, 0), which is (0, -2, 0) under the preserved orientation
    let ri = seg.project_point_with_normal(&m, &pt(1, 1, 0), false);
    assert_eq!(ri.normal.nx, 0);
    assert_eq!(ri.normal.ny, -2 * ri.normal.den);
    assert_eq!(ri.normal.nz, 0);
    // the projection itself agrees with the plain query
    assert_eq!(ri.point.nx, ri.point.den);
    assert_eq!(ri.point.ny, 0);
    assert!(!ri.is_inside);
}

#[test]
fn ray_intersection_constructors() {
    let t = geomquery::scalar::Ratio::new(3, 1);
    let n = RatVec3 { nx: 0, ny: 0, nz: 1, den: 1 };
    let plain = RayIntersection::new(t, n);
    assert!(plain.uvs.is_none());
    assert_eq!(plain.toi.num, 3);
    let uv = Some((geomquery::scalar::Ratio::new(1, 2), geomquery::scalar::Ratio::new(1, 3)));
    let textured = RayIntersection::new_with_uvs(t, n, uv);
    assert!(textured.uvs.is_some());
    // the plane has no texture parametrization: the uv operation falls back
    // to the plain result
    let p = Plane::new(v(0, 0, 1));
    let m = Iso::identity();
    let ray = Ray::new(pt(0, 0, 5), v(0, 0, -1));
    let a = p.toi_and_normal_with_ray(&m, &ray, true).unwrap();
    let b = p.toi_and_normal_and_uv_with_ray(&m, &ray, true).unwrap();
    assert_eq!(a.toi.num * b.toi.den, b.toi.num * a.toi.den);
    assert!(b.uvs.is_none());
}

// The next four tests place shape 2 by a transform with a nonzero
// translation, so they would all fail if the translation entered the
// configuration-space obstacle with the wrong sign.
#[test]
fn toi_respects_the_second_transforms_translation() {
    // Both local points at the origin; shape 2 placed ten units away;
    // shape 1 approaching at speed 1: contact at time 10.
    let g1 = Vertex::new(pt(0, 0, 0));
    let g2 = Vertex::new(pt(0, 0, 0));
    let m1 = Iso::identity();
    let m2 = Iso::new(Rot { ax: 0, nx: false, ay: 1, ny: false, az: 2, nz: false }, v(10, 0, 0));
    let t = support_map_against_support_map(&m1, &v(1, 0, 0), &g1, &m2, &v(0, 0, 0), &g2).unwrap();
    assert_eq!(t.num, 10 * t.den);
}

#[test]
fn toi_receding_under_translation_never_touches() {
    let g1 = Vertex::new(pt(0, 0, 0));
    let g2 = Vertex::new(pt(0, 0, 0));
    let m1 = Iso::identity();
    let m2 = Iso::new(Rot { ax: 0, nx: false, ay: 1, ny: false, az: 2, nz: false }, v(10, 0, 0));
    let r = support_map_against_support_map(&m1, &v(-1, 0, 0), &g1, &m2, &v(0, 0, 0), &g2);
    assert!(r.is_none());
}

#[test]
fn toi_zero_when_placed_points_coincide() {
    // The placed points coincide at world (5, 0, 0) although the local
    // points differ: the shapes overlap at time zero.
    let g1 = Vertex::new(pt(5, 0, 0));
    let g2 = Vertex::new(pt(-5, 0, 0));
    let m1 = Iso::identity();
    let m2 = Iso::new(Rot { ax: 0, nx: false, ay: 1, ny: false, az: 2, nz: false }, v(10, 0, 0));
    let t = support_map_against_support_map(&m1, &v(1, 0, 0), &g1, &m2, &v(0, 0, 0), &g2).unwrap();
    assert_eq!(t.num, 0);
}

#[test]
fn toi_is_symmetric_in_the_pair() {
    let g1 = Vertex::new(pt(0, 0, 0));
    let g2 = Vertex::new(pt(0, 0, 0));
    let m1 = Iso::identity();
    let m2 = Iso::new(Rot { ax: 0, nx: false, ay: 1, ny: false, az: 2, nz: false }, v(10, 0, 0));
    let a = support_map_against_support_map(&m1, &v(1, 0, 0), &g1, &m2, &v(0, 0, 0), &g2).unwrap();
    let b = support_map_against_support_map(&m2, &v(0, 0, 0), &g2, &m1, &v(1, 0, 0), &g1).unwrap();
    assert_eq!(a.num * b.den, b.num * a.den);
}

#[test]
fn try_surface_covers_every_capability() {
    let m = Iso::identity();
    let seg = Segment::new(pt(0, 0, 0), pt(2, 0, 0));
    let seg_shape = Shape::Segment(seg);
    let plane_shape = Shape::Plane(Plane::new(v(0, 0, 1)));
    // point-query capabilities through the segment, errors through the plane
    let d = seg_shape.try_distance_to_point(&m, &pt(1, 2, 0), true).unwrap();
    assert_eq!(d.num, 4 * d.den);
    assert_eq!(
        plane_shape.try_distance_to_point(&m, &pt(1, 2, 0), true).unwrap_err(),
        QueryError::UnsupportedCapability,
    );
    assert!(seg_shape.try_contains_point(&m, &pt(1, 0, 0)).unwrap());
    assert_eq!(
        plane_shape.try_contains_point(&m, &pt(1, 0, 0)).unwrap_err(),
        QueryError::UnsupportedCapability,
    );
    let n = seg_shape.try_project_point_with_normal(&m, &pt(1, 1, 0), false).unwrap();
    assert_eq!(n.normal.ny, -2 * n.normal.den);
    assert_eq!(
        plane_shape.try_project_point_with_normal(&m, &pt(1, 1, 0), false).unwrap_err(),
        QueryError::UnsupportedCapability,
    );
    // ray-cast capability through the plane, error through the segment
    let ray = Ray::new(pt(0, 0, 5), v(0, 0, -1));
    let t = plane_shape.try_toi_with_ray(&m, &ray, true).unwrap().unwrap();
    assert_eq!(t.num, 5 * t.den);
    assert_eq!(
        seg_shape.try_toi_with_ray(&m, &ray, true).unwrap_err(),
        QueryError::UnsupportedCapability,
    );
}
