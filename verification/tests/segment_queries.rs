use geomquery::math::{Iso, Pt3, RatPt3, Rot, Vec3};
use geomquery::point_query::PointQuery;
use geomquery::point_query::RichPointQuery;
use geomquery::point_segment::Segment;

fn pt(x: i64, y: i64, z: i64) -> Pt3 {
    Pt3::new(x, y, z)
}

// Coordinates are integers, so the classic half-way case is stated with the
// whole configuration scaled by two: segment (0,0,0)-(2,0,0) and query point
// (1,2,0) have projection (1,0,0) at parametric position 1/2.
#[test]
fn interior_projection_scaled_midcase() {
    let s = Segment::new(pt(0, 0, 0), pt(2, 0, 0));
    let m = Iso::identity();
    let (proj, t) = s.project_point_with_extra_info(&m, &pt(1, 2, 0), false);
    // parametric position is exactly 1/2
    assert_eq!(t.num * 2, t.den);
    // projection is exactly (1, 0, 0)
    assert!(proj.point.den > 0);
    assert_eq!(proj.point.nx, proj.point.den);
    assert_eq!(proj.point.ny, 0);
    assert_eq!(proj.point.nz, 0);
    // the query point is off the segment
    assert!(!proj.is_inside);
}

#[test]
fn vertex_a_projection() {
    let s = Segment::new(pt(0, 0, 0), pt(1, 0, 0));
    let m = Iso::identity();
    let (proj, t) = s.project_point_with_extra_info(&m, &pt(-1, 0, 0), false);
    assert_eq!(t.num, 0);
    assert_eq!(t.den, 1);
    assert_eq!(proj.point.nx, 0);
    assert_eq!(proj.point.ny, 0);
    assert_eq!(proj.point.nz, 0);
    assert_eq!(proj.point.den, 1);
    assert!(!proj.is_inside);
}

#[test]
fn vertex_b_projection() {
    let s = Segment::new(pt(0, 0, 0), pt(1, 0, 0));
    let m = Iso::identity();
    let (proj, t) = s.project_point_with_extra_info(&m, &pt(2, 5, 0), false);
    assert_eq!(t.num, 1);
    assert_eq!(t.den, 1);
    assert_eq!(proj.point.nx, 1);
    assert_eq!(proj.point.ny, 0);
    assert_eq!(proj.point.nz, 0);
    assert_eq!(proj.point.den, 1);
    assert!(!proj.is_inside);
}

#[test]
fn degenerate_segment_projects_to_vertex() {
    let s = Segment::new(pt(0, 0, 0), pt(0, 0, 0));
    let m = Iso::identity();
    for &q in &[pt(7, 3, -2), pt(0, 0, 0), pt(-5, 11, 9)] {
        let (proj, t) = s.project_point_with_extra_info(&m, &q, false);
        assert_eq!(t.num, 0);
        assert_eq!(t.den, 1);
        assert_eq!(proj.point.nx, 0);
        assert_eq!(proj.point.ny, 0);
        assert_eq!(proj.point.nz, 0);
    }
}

#[test]
fn contains_point_matches_projection() {
    let s = Segment::new(pt(0, 0, 0), pt(2, 0, 0));
    let m = Iso::identity();
    // on the segment
    assert!(s.contains_point(&m, &pt(1, 0, 0)));
    assert!(s.project_point(&m, &pt(1, 0, 0), false).is_inside);
    // off the segment
    assert!(!s.contains_point(&m, &pt(1, 1, 0)));
    assert!(!s.project_point(&m, &pt(1, 1, 0), false).is_inside);
}

#[test]
fn distance_is_exact_and_signed() {
    let s = Segment::new(pt(0, 0, 0), pt(2, 0, 0));
    let m = Iso::identity();
    // squared distance from (1,2,0) is exactly 4
    let d = s.distance_to_point(&m, &pt(1, 2, 0), true);
    assert!(d.den > 0);
    assert_eq!(d.num, 4 * d.den);
    // a point on the segment has distance zero, solid or hollow
    let d0 = s.distance_to_point(&m, &pt(1, 0, 0), true);
    assert_eq!(d0.num, 0);
    let d0h = s.distance_to_point(&m, &pt(1, 0, 0), false);
    assert_eq!(d0h.num, 0);
    // a segment has no strict interior, so the hollow distance is never negative
    let dh = s.distance_to_point(&m, &pt(1, 2, 0), false);
    assert!(dh.num >= 0);
}

#[test]
fn projection_under_translation_and_rotation() {
    // Rotation mapping x->y, y->x (a reflection-free swap with sign flips is
    // kept simple here: image x takes source y, image y takes source x).
    let rot = Rot { ax: 1, nx: false, ay: 0, ny: false, az: 2, nz: false };
    let m = Iso::new(rot, Vec3::new(1, 2, 3));
    let s = Segment::new(pt(0, 0, 0), pt(2, 0, 0));
    // world image of the segment runs from (1,2,3) to (1,4,3): the local
    // x axis maps onto the world y axis.
    let (proj, t) = s.project_point_with_extra_info(&m, &pt(1, 3, 3), false);
    assert!(proj.is_inside);
    assert_eq!(t.num * 2, t.den);
    assert_eq!(proj.point.nx, proj.point.den);
    assert_eq!(proj.point.ny, 3 * proj.point.den);
    assert_eq!(proj.point.nz, 3 * proj.point.den);
}

// The classic instance itself: segment A=(0,0,0), B=(1,0,0) and the
// half-integer query point (1/2, 1, 0) project to (1/2, 0, 0) at
// parametric position 1/2.
#[test]
fn half_integer_query_projects_exactly() {
    let s = Segment::new(pt(0, 0, 0), pt(1, 0, 0));
    let q = RatPt3 { nx: 1, ny: 2, nz: 0, den: 2 };
    let (proj, t) = s.project_rational_point_with_extra_info(&q, false);
    // parametric position is exactly 1/2
    assert_eq!(t.num * 2, t.den);
    // projection is exactly (1/2, 0, 0)
    assert!(proj.point.den > 0);
    assert_eq!(proj.point.nx * 2, proj.point.den);
    assert_eq!(proj.point.ny, 0);
    assert_eq!(proj.point.nz, 0);
    assert!(!proj.is_inside);
    // a half-integer point on the segment reports inside
    let on = RatPt3 { nx: 1, ny: 0, nz: 0, den: 2 };
    let (pr_on, t_on) = s.project_rational_point_with_extra_info(&on, false);
    assert!(pr_on.is_inside);
    assert_eq!(t_on.num * 2, t_on.den);
}
