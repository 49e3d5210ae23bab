use vstd::prelude::*;
use crate::math::{
    dist2_spec, dot, dot_spec, itp_x, itp_y, itp_z, p_in, rot_x, rot_y, rot_z, rtp_nx, rtp_ny, rtp_nz,
    sub_pp, transform_rat_pt, Iso, Pt3, RatPt3, RatVec3, Vec3,
};
use crate::point_query::{
    PointNormalProjection, PointNormalQuery, PointProjection, PointQuery, RichPointQuery,
};
use crate::scalar::{lemma_mul_bound, lemma_mul_bound2, Ratio, MAX_COORD};

verus! {

/// A segment with integer endpoints `a` and `b`.
#[derive(Clone, Copy, Debug)]
pub struct Segment {
    pub a: Pt3,
    pub b: Pt3,
}

impl Segment {
    /// Endpoints lie within the input coordinate range.
    pub open spec fn wf(self) -> bool {
        &&& p_in(self.a, MAX_COORD as int)
        &&& p_in(self.b, MAX_COORD as int)
    }

    /// Builds a segment.  A degenerate segment (`a == b`) is allowed; every
    /// query then projects onto the vertex `a`.
    pub fn new(a: Pt3, b: Pt3) -> (s: Segment)
        requires
            p_in(a, MAX_COORD as int),
            p_in(b, MAX_COORD as int),
        ensures
            s.a == a,
            s.b == b,
            s.wf(),
    {
        Segment { a, b }
    }
}

/// The squared length of the segment's direction `b - a`.
pub open spec fn seg_sqnab(s: Segment) -> int {
    dot_spec(
        s.b.x - s.a.x, s.b.y - s.a.y, s.b.z - s.a.z,
        s.b.x - s.a.x, s.b.y - s.a.y, s.b.z - s.a.z,
    )
}

/// The dot product of `b - a` with `l - a`, for a local query point `l`.
pub open spec fn seg_abap(s: Segment, lx: int, ly: int, lz: int) -> int {
    dot_spec(
        s.b.x - s.a.x, s.b.y - s.a.y, s.b.z - s.a.z,
        lx - s.a.x, ly - s.a.y, lz - s.a.z,
    )
}

/// Numerator of the clamped parametric position of the projection.
/// The three cases are the Voronoi regions of vertex `a`, vertex `b` and the
/// segment interior; a degenerate segment falls into the first case, so a
/// division by zero can never arise.
pub open spec fn seg_tnum(s: Segment, lx: int, ly: int, lz: int) -> int {
    if seg_abap(s, lx, ly, lz) <= 0 {
        0
    } else if seg_abap(s, lx, ly, lz) >= seg_sqnab(s) {
        1
    } else {
        seg_abap(s, lx, ly, lz)
    }
}

/// Denominator of the clamped parametric position of the projection.
pub open spec fn seg_tden(s: Segment, lx: int, ly: int, lz: int) -> int {
    if seg_abap(s, lx, ly, lz) <= 0 {
        1
    } else if seg_abap(s, lx, ly, lz) >= seg_sqnab(s) {
        1
    } else {
        seg_sqnab(s)
    }
}

/// The projection of the local point `l` on the segment, in the local frame:
/// the point `a + (tnum/tden) * (b - a)` as an exact rational point.
pub open spec fn seg_local_proj(s: Segment, lx: int, ly: int, lz: int) -> RatPt3 {
    let n = seg_tnum(s, lx, ly, lz);
    let d = seg_tden(s, lx, ly, lz);
    RatPt3 {
        nx: (s.a.x * d + n * (s.b.x - s.a.x)) as i128,
        ny: (s.a.y * d + n * (s.b.y - s.a.y)) as i128,
        nz: (s.a.z * d + n * (s.b.z - s.a.z)) as i128,
        den: d as i128,
    }
}

/// The local coordinates of the query point: the world point carried into
/// the segment's frame by the inverse of `m`.
pub open spec fn seg_lx(m: Iso, pt: Pt3) -> int {
    itp_x(m, pt.x as int, pt.y as int, pt.z as int)
}

pub open spec fn seg_ly(m: Iso, pt: Pt3) -> int {
    itp_y(m, pt.x as int, pt.y as int, pt.z as int)
}

pub open spec fn seg_lz(m: Iso, pt: Pt3) -> int {
    itp_z(m, pt.x as int, pt.y as int, pt.z as int)
}

/// The projection of `pt` on the segment transformed by `m`, carried back to
/// world coordinates.
pub open spec fn seg_proj(s: Segment, m: Iso, pt: Pt3) -> RatPt3 {
    let loc = seg_local_proj(s, seg_lx(m, pt), seg_ly(m, pt), seg_lz(m, pt));
    RatPt3 {
        nx: rtp_nx(m, loc) as i128,
        ny: rtp_ny(m, loc) as i128,
        nz: rtp_nz(m, loc) as i128,
        den: loc.den,
    }
}

/// Whether the query point lies exactly on the transformed segment.  With
/// exact arithmetic "approximately equal to its own projection" becomes
/// exact equality.
pub open spec fn seg_is_inside(s: Segment, m: Iso, pt: Pt3) -> bool {
    seg_proj(s, m, pt).is_pt(pt.x as int, pt.y as int, pt.z as int)
}

/// The full mathematical projection result.
pub open spec fn seg_proj_full(s: Segment, m: Iso, pt: Pt3) -> PointProjection {
    PointProjection { is_inside: seg_is_inside(s, m, pt), point: seg_proj(s, m, pt) }
}

/// The parametric position of the projection, as a rational in `[0, 1]`.
pub open spec fn seg_extra(s: Segment, m: Iso, pt: Pt3) -> Ratio {
    Ratio {
        num: seg_tnum(s, seg_lx(m, pt), seg_ly(m, pt), seg_lz(m, pt)) as i128,
        den: seg_tden(s, seg_lx(m, pt), seg_ly(m, pt), seg_lz(m, pt)) as i128,
    }
}

/// `seg_g(s, l, n, d) / (d*d)` is the squared distance, in the local frame,
/// between the local query point `l` and the segment point at parameter
/// `n / d`: `seg_g` is the squared norm of `d*(l - a) - n*(b - a)`.
pub open spec fn seg_g(s: Segment, lx: int, ly: int, lz: int, n: int, d: int) -> int {
    let ex = d * (lx - s.a.x) - n * (s.b.x - s.a.x);
    let ey = d * (ly - s.a.y) - n * (s.b.y - s.a.y);
    let ez = d * (lz - s.a.z) - n * (s.b.z - s.a.z);
    ex * ex + ey * ey + ez * ez
}

/// LAW (minimality carries to world coordinates).  The squared world
/// distance between the query point and its world projection equals the
/// squared local distance between the inverse-transformed query point and
/// the local projection: with `lemma_iso_preserves_dist2`, the projection
/// minimality law therefore bounds world distances as well.
#[verifier::rlimit(100)]
pub proof fn lemma_seg_proj_world_dist2(s: Segment, m: Iso, pt: Pt3)
    requires
        s.wf(),
        m.wf(),
        p_in(pt, MAX_COORD as int),
    ensures
        dist2_spec(pt.x as int, pt.y as int, pt.z as int, seg_proj(s, m, pt))
            == dist2_spec(
                seg_lx(m, pt), seg_ly(m, pt), seg_lz(m, pt),
                seg_local_proj(s, seg_lx(m, pt), seg_ly(m, pt), seg_lz(m, pt)),
            ),
{
    let lx = seg_lx(m, pt);
    let ly = seg_ly(m, pt);
    let lz = seg_lz(m, pt);
    let loc = seg_local_proj(s, lx, ly, lz);
    let e = seg_abap(s, lx, ly, lz);
    let f = seg_sqnab(s);
    lemma_mul_bound(s.b.x - s.a.x, s.b.x - s.a.x, 0x20000);
    lemma_mul_bound(s.b.y - s.a.y, s.b.y - s.a.y, 0x20000);
    lemma_mul_bound(s.b.z - s.a.z, s.b.z - s.a.z, 0x20000);
    if 0 < e < f {
        lemma_mul_bound2(s.a.x as int, f, 0x10000, 0xC_0000_0000);
        lemma_mul_bound2(s.a.y as int, f, 0x10000, 0xC_0000_0000);
        lemma_mul_bound2(s.a.z as int, f, 0x10000, 0xC_0000_0000);
        lemma_mul_bound2(e, s.b.x - s.a.x, 0xC_0000_0000, 0x20000);
        lemma_mul_bound2(e, s.b.y - s.a.y, 0xC_0000_0000, 0x20000);
        lemma_mul_bound2(e, s.b.z - s.a.z, 0xC_0000_0000, 0x20000);
    }
    assert(loc.bounded());
    assert(-0x20000 <= lx <= 0x20000);
    assert(-0x20000 <= ly <= 0x20000);
    assert(-0x20000 <= lz <= 0x20000);
    crate::math::lemma_rot_roundtrip_fwd(
        m.rot, pt.x - m.trans.x, pt.y - m.trans.y, pt.z - m.trans.z,
    );
    crate::math::lemma_iso_preserves_dist2(m, lx, ly, lz, loc);
}

/// Ring identity: expansion of one squared component behind `seg_g`.
proof fn lemma_sq_expand(d: int, ap: int, n: int, ab: int)
    ensures
        (d * ap - n * ab) * (d * ap - n * ab)
            == d * d * (ap * ap) - 2 * n * d * (ab * ap) + n * n * (ab * ab),
{
    broadcast use vstd::arithmetic::mul::group_mul_properties;
}

/// Distributing a product over a three-term sum.
proof fn lemma_distrib3(c: int, x: int, y: int, z: int) by (nonlinear_arith)
    ensures
        c * (x + y + z) == c * x + c * y + c * z,
{
}

/// Ring identity: expansion of the squared norm behind `seg_g`.
proof fn lemma_g_expand(
    apx: int, apy: int, apz: int, abx: int, aby: int, abz: int, n: int, d: int,
)
    ensures
        (d * apx - n * abx) * (d * apx - n * abx)
        + (d * apy - n * aby) * (d * apy - n * aby)
        + (d * apz - n * abz) * (d * apz - n * abz)
        == d * d * (apx * apx + apy * apy + apz * apz)
            - 2 * n * d * (abx * apx + aby * apy + abz * apz)
            + n * n * (abx * abx + aby * aby + abz * abz),
{
    lemma_sq_expand(d, apx, n, abx);
    lemma_sq_expand(d, apy, n, aby);
    lemma_sq_expand(d, apz, n, abz);
    lemma_distrib3(d * d, apx * apx, apy * apy, apz * apz);
    lemma_distrib3(2 * n * d, abx * apx, aby * apy, abz * apz);
    lemma_distrib3(n * n, abx * abx, aby * aby, abz * abz);
}

/// LAW (projection minimality).  The projection parameter is clamped to
/// `[0, 1]`, so the projected point lies on the segment; and among all
/// segment points `a + (sn/sd) * (b - a)` with `sn/sd` in `[0, 1]`, the
/// projected point attains the least squared distance to the query point.
/// Distances are measured in the segment's local frame, into which the rigid
/// transform carries the query point unchanged.  In rational terms:
/// `seg_g(l, sn, sd) / (sd*sd) >= seg_g(l, tnum, tden) / (tden*tden)`,
/// stated below with both sides cleared of denominators.
#[verifier::rlimit(100)]
pub proof fn lemma_segment_projection_minimal(
    s: Segment, lx: int, ly: int, lz: int, sn: int, sd: int,
)
    requires
        sd > 0,
        0 <= sn <= sd,
    ensures
        seg_tden(s, lx, ly, lz) > 0,
        0 <= seg_tnum(s, lx, ly, lz) <= seg_tden(s, lx, ly, lz),
        seg_g(s, lx, ly, lz, sn, sd) * (seg_tden(s, lx, ly, lz) * seg_tden(s, lx, ly, lz))
            >= seg_g(s, lx, ly, lz, seg_tnum(s, lx, ly, lz), seg_tden(s, lx, ly, lz)) * (sd * sd),
{
    let apx = lx - s.a.x;
    let apy = ly - s.a.y;
    let apz = lz - s.a.z;
    let abx = s.b.x - s.a.x;
    let aby = s.b.y - s.a.y;
    let abz = s.b.z - s.a.z;
    let q = apx * apx + apy * apy + apz * apz;
    let e = seg_abap(s, lx, ly, lz);
    let f = seg_sqnab(s);
    crate::math::lemma_sq_nonneg(apx);
    crate::math::lemma_sq_nonneg(apy);
    crate::math::lemma_sq_nonneg(apz);
    crate::math::lemma_sq_nonneg(abx);
    crate::math::lemma_sq_nonneg(aby);
    crate::math::lemma_sq_nonneg(abz);
    lemma_g_expand(apx, apy, apz, abx, aby, abz, sn, sd);
    assert(seg_g(s, lx, ly, lz, sn, sd) == sd * sd * q - 2 * sn * sd * e + sn * sn * f);
    if e <= 0 {
        lemma_g_expand(apx, apy, apz, abx, aby, abz, 0, 1);
        assert(seg_g(s, lx, ly, lz, 0, 1) == q);
        lemma_min_vertex_a(q, e, f, sn, sd);
    } else if e >= f {
        lemma_g_expand(apx, apy, apz, abx, aby, abz, 1, 1);
        assert(seg_g(s, lx, ly, lz, 1, 1) == q - 2 * e + f);
        lemma_min_vertex_b(q, e, f, sn, sd);
    } else {
        lemma_g_expand(apx, apy, apz, abx, aby, abz, e, f);
        assert(seg_g(s, lx, ly, lz, e, f) == f * f * q - 2 * e * f * e + e * e * f);
        lemma_min_interior(q, e, f, sn, sd);
    }
}

/// In the Voronoi region of vertex `a`, the vertex is the nearest point.
proof fn lemma_min_vertex_a(q: int, e: int, f: int, sn: int, sd: int) by (nonlinear_arith)
    requires
        e <= 0,
        f >= 0,
        0 <= sn,
        0 < sd,
    ensures
        sd * sd * q - 2 * sn * sd * e + sn * sn * f >= q * (sd * sd),
{
}

/// In the Voronoi region of vertex `b`, the vertex is the nearest point.
proof fn lemma_min_vertex_b(q: int, e: int, f: int, sn: int, sd: int) by (nonlinear_arith)
    requires
        e >= f,
        f >= 0,
        0 <= sn <= sd,
        0 < sd,
    ensures
        (sd * sd * q - 2 * sn * sd * e + sn * sn * f) * (1 * 1) >= (q - 2 * e + f) * (sd * sd),
{
    assert((sd * sd * q - 2 * sn * sd * e + sn * sn * f) - (q - 2 * e + f) * (sd * sd)
        == (sd - sn) * (2 * e * sd - f * (sn + sd)));
    assert(2 * e * sd - f * (sn + sd) >= 0);
    assert((sd - sn) * (2 * e * sd - f * (sn + sd)) >= 0);
}

/// Ring identity behind the interior case: the surplus squared distance is
/// `f` times a square.
proof fn lemma_min_interior_id(q: int, e: int, f: int, sn: int, sd: int)
    ensures
        (sd * sd * q - 2 * sn * sd * e + sn * sn * f) * (f * f)
            - (f * f * q - 2 * e * f * e + e * e * f) * (sd * sd)
            == f * ((sn * f - sd * e) * (sn * f - sd * e)),
{
    broadcast use vstd::arithmetic::mul::group_mul_properties;
}

/// A nonnegative value times a square is nonnegative.
proof fn lemma_nonneg_times_sq(f: int, t: int) by (nonlinear_arith)
    requires
        f >= 0,
    ensures
        f * (t * t) >= 0,
{
}

/// In the interior region, the orthogonal foot is the nearest point.
proof fn lemma_min_interior(q: int, e: int, f: int, sn: int, sd: int)
    requires
        0 < e < f,
        0 <= sn <= sd,
        0 < sd,
    ensures
        (sd * sd * q - 2 * sn * sd * e + sn * sn * f) * (f * f)
            >= (f * f * q - 2 * e * f * e + e * e * f) * (sd * sd),
{
    lemma_min_interior_id(q, e, f, sn, sd);
    lemma_nonneg_times_sq(f, sn * f - sd * e);
}

/// The scaled dot product of `b - a` with `q - a` for a rational query
/// point `q` with numerators `(qnx, qny, qnz)` over denominator `w`: the
/// value of `dot(ab, q - a)` multiplied by `w`.
pub open spec fn seg_rq_e(s: Segment, qnx: int, qny: int, qnz: int, w: int) -> int {
    dot_spec(
        s.b.x - s.a.x, s.b.y - s.a.y, s.b.z - s.a.z,
        qnx - s.a.x * w, qny - s.a.y * w, qnz - s.a.z * w,
    )
}

/// Numerator of the clamped parametric position for a rational query
/// point: the same three Voronoi regions as for an integer query.
pub open spec fn seg_rq_tnum(s: Segment, qnx: int, qny: int, qnz: int, w: int) -> int {
    if seg_rq_e(s, qnx, qny, qnz, w) <= 0 {
        0
    } else if seg_rq_e(s, qnx, qny, qnz, w) >= w * seg_sqnab(s) {
        1
    } else {
        seg_rq_e(s, qnx, qny, qnz, w)
    }
}

/// Denominator of the clamped parametric position for a rational query
/// point.
pub open spec fn seg_rq_tden(s: Segment, qnx: int, qny: int, qnz: int, w: int) -> int {
    if seg_rq_e(s, qnx, qny, qnz, w) <= 0 {
        1
    } else if seg_rq_e(s, qnx, qny, qnz, w) >= w * seg_sqnab(s) {
        1
    } else {
        w * seg_sqnab(s)
    }
}

/// The projection of a rational query point on the segment: the point
/// `a + (tnum/tden) * (b - a)` as an exact rational point.
pub open spec fn seg_rq_proj(s: Segment, qnx: int, qny: int, qnz: int, w: int) -> RatPt3 {
    let n = seg_rq_tnum(s, qnx, qny, qnz, w);
    let d = seg_rq_tden(s, qnx, qny, qnz, w);
    RatPt3 {
        nx: (s.a.x * d + n * (s.b.x - s.a.x)) as i128,
        ny: (s.a.y * d + n * (s.b.y - s.a.y)) as i128,
        nz: (s.a.z * d + n * (s.b.z - s.a.z)) as i128,
        den: d as i128,
    }
}

/// Whether a rational query point lies exactly on the segment: it equals
/// its own projection, compared by cross multiplication.
pub open spec fn seg_rq_inside(s: Segment, qnx: int, qny: int, qnz: int, w: int) -> bool {
    let pr = seg_rq_proj(s, qnx, qny, qnz, w);
    &&& pr.nx * w == qnx * pr.den
    &&& pr.ny * w == qny * pr.den
    &&& pr.nz * w == qnz * pr.den
}

impl Segment {
    /// Projects a rational query point on the segment, given in the
    /// segment's own frame, with the parametric position of the projection.
    /// This admits query points off the integer grid, such as half-integer
    /// coordinates; the projection itself is exact.
    #[verifier::rlimit(100)]
    pub fn project_rational_point_with_extra_info(&self, q: &RatPt3, solid: bool) -> (r: (
        PointProjection,
        Ratio,
    ))
        requires
            self.wf(),
            q.wf(),
            q.den <= 0x10000,
            -0x1_0000_0000 <= q.nx <= 0x1_0000_0000,
            -0x1_0000_0000 <= q.ny <= 0x1_0000_0000,
            -0x1_0000_0000 <= q.nz <= 0x1_0000_0000,
        ensures
            r.0.point == seg_rq_proj(*self, q.nx as int, q.ny as int, q.nz as int, q.den as int),
            r.0.is_inside == seg_rq_inside(
                *self, q.nx as int, q.ny as int, q.nz as int, q.den as int),
            r.0.point.wf(),
            r.1.num == seg_rq_tnum(*self, q.nx as int, q.ny as int, q.nz as int, q.den as int) as i128,
            r.1.den == seg_rq_tden(*self, q.nx as int, q.ny as int, q.nz as int, q.den as int) as i128,
            r.1.wf(),
            r.1.bounded(),
    {
        let ab = sub_pp(&self.b, &self.a);
        proof {
            lemma_mul_bound(ab.x as int, ab.x as int, 0x20000);
            lemma_mul_bound(ab.y as int, ab.y as int, 0x20000);
            lemma_mul_bound(ab.z as int, ab.z as int, 0x20000);
            lemma_mul_bound2(self.a.x as int, q.den as int, 0x10000, 0x10000);
            lemma_mul_bound2(self.a.y as int, q.den as int, 0x10000, 0x10000);
            lemma_mul_bound2(self.a.z as int, q.den as int, 0x10000, 0x10000);
        }
        let w = q.den;
        let apx = q.nx - (self.a.x as i128) * w;
        let apy = q.ny - (self.a.y as i128) * w;
        let apz = q.nz - (self.a.z as i128) * w;
        proof {
            lemma_mul_bound2(ab.x as int, apx as int, 0x20000, 0x2_0000_0000);
            lemma_mul_bound2(ab.y as int, apy as int, 0x20000, 0x2_0000_0000);
            lemma_mul_bound2(ab.z as int, apz as int, 0x20000, 0x2_0000_0000);
        }
        let e = (ab.x as i128) * apx + (ab.y as i128) * apy + (ab.z as i128) * apz;
        let f = dot(&ab, &ab);
        proof {
            lemma_mul_bound2(w as int, f as int, 0x10000, 0xC_0000_0000);
        }
        let wf = w * f;
        let proj: RatPt3;
        let position_on_segment: Ratio;
        if e <= 0 {
            // Voronoi region of vertex 'a'.
            proj = RatPt3::from_pt(&self.a);
            position_on_segment = Ratio::from_int(0);
        } else if e >= wf {
            // Voronoi region of vertex 'b'.
            proj = RatPt3::from_pt(&self.b);
            position_on_segment = Ratio::from_int(1);
        } else {
            // Voronoi region of the segment interior.
            proof {
                lemma_mul_bound2(self.a.x as int, wf as int, 0x10000, 0xC_0000_0000_0000);
                lemma_mul_bound2(self.a.y as int, wf as int, 0x10000, 0xC_0000_0000_0000);
                lemma_mul_bound2(self.a.z as int, wf as int, 0x10000, 0xC_0000_0000_0000);
                lemma_mul_bound2(e as int, ab.x as int, 0xC_0000_0000_0000, 0x20000);
                lemma_mul_bound2(e as int, ab.y as int, 0xC_0000_0000_0000, 0x20000);
                lemma_mul_bound2(e as int, ab.z as int, 0xC_0000_0000_0000, 0x20000);
            }
            proj = RatPt3 {
                nx: (self.a.x as i128) * wf + e * (ab.x as i128),
                ny: (self.a.y as i128) * wf + e * (ab.y as i128),
                nz: (self.a.z as i128) * wf + e * (ab.z as i128),
                den: wf,
            };
            position_on_segment = Ratio::new(e, wf);
        }
        proof {
            lemma_mul_bound2(proj.nx as int, w as int, 0x80_0000_0000_0000_0000, 0x10000);
            lemma_mul_bound2(proj.ny as int, w as int, 0x80_0000_0000_0000_0000, 0x10000);
            lemma_mul_bound2(proj.nz as int, w as int, 0x80_0000_0000_0000_0000, 0x10000);
            lemma_mul_bound2(q.nx as int, proj.den as int, 0x2_0000_0000, 0xC_0000_0000_0000);
            lemma_mul_bound2(q.ny as int, proj.den as int, 0x2_0000_0000, 0xC_0000_0000_0000);
            lemma_mul_bound2(q.nz as int, proj.den as int, 0x2_0000_0000, 0xC_0000_0000_0000);
        }
        let inside = proj.nx * w == q.nx * proj.den && proj.ny * w == q.ny * proj.den
            && proj.nz * w == q.nz * proj.den;
        (PointProjection::new(inside, proj), position_on_segment)
    }
}

impl RichPointQuery for Segment {
    /// The segment's extra projection information: the parametric position
    /// of the projection on the segment, in `[0, 1]`.
    type ExtraInfo = Ratio;

    open spec fn rpq_wf(&self) -> bool {
        self.wf()
    }

    open spec fn rich_proj_spec(&self, m: Iso, pt: Pt3, solid: bool) -> (PointProjection, Ratio) {
        (seg_proj_full(*self, m, pt), seg_extra(*self, m, pt))
    }

    /// Voronoi-region case analysis: vertex `a`, vertex `b`, or the segment
    /// interior; a degenerate (zero-length) segment short-circuits to `a`.
    fn project_point_with_extra_info(&self, m: &Iso, pt: &Pt3, solid: bool) -> (r: (PointProjection, Ratio))
    {
        let lp = m.inverse_transform_point(pt);
        assert(p_in(lp, 0x20000));
        let (local, position_on_segment) = self.local_projection(&lp);
        let w = transform_rat_pt(m, &local);
        proof {
            lemma_mul_bound2(pt.x as int, w.den as int, 0x10000, 0x20_0000_0000);
            lemma_mul_bound2(pt.y as int, w.den as int, 0x10000, 0x20_0000_0000);
            lemma_mul_bound2(pt.z as int, w.den as int, 0x10000, 0x20_0000_0000);
        }
        let inside = w.nx == (pt.x as i128) * w.den && w.ny == (pt.y as i128) * w.den
            && w.nz == (pt.z as i128) * w.den;
        (PointProjection::new(inside, w), position_on_segment)
    }
}

impl Segment {
    /// Computes the projection of the local point `lp` on the segment, in
    /// the local frame, together with the parametric position: the
    /// Voronoi-region case analysis itself.
    #[verifier::rlimit(100)]
    fn local_projection(&self, lp: &Pt3) -> (r: (RatPt3, Ratio))
        requires
            self.wf(),
            p_in(*lp, 0x20000),
        ensures
            r.0 == seg_local_proj(*self, lp.x as int, lp.y as int, lp.z as int),
            -0x80_0000_0000_0000 <= r.0.nx <= 0x80_0000_0000_0000,
            -0x80_0000_0000_0000 <= r.0.ny <= 0x80_0000_0000_0000,
            -0x80_0000_0000_0000 <= r.0.nz <= 0x80_0000_0000_0000,
            0 < r.0.den <= crate::math::RP_DEN_MAX,
            r.1.num == seg_tnum(*self, lp.x as int, lp.y as int, lp.z as int) as i128,
            r.1.den == seg_tden(*self, lp.x as int, lp.y as int, lp.z as int) as i128,
            r.1.wf(),
            r.1.bounded(),
    {
        let ab = sub_pp(&self.b, &self.a);
        let ap = sub_pp(lp, &self.a);
        proof {
            lemma_mul_bound(ab.x as int, ab.x as int, 0x20000);
            lemma_mul_bound(ab.y as int, ab.y as int, 0x20000);
            lemma_mul_bound(ab.z as int, ab.z as int, 0x20000);
            lemma_mul_bound2(ab.x as int, ap.x as int, 0x20000, 0x30000);
            lemma_mul_bound2(ab.y as int, ap.y as int, 0x20000, 0x30000);
            lemma_mul_bound2(ab.z as int, ap.z as int, 0x20000, 0x30000);
        }
        let ab_ap = dot(&ab, &ap);
        let sqnab = dot(&ab, &ab);
        if ab_ap <= 0 {
            // Voronoi region of vertex 'a'.
            (RatPt3::from_pt(&self.a), Ratio::from_int(0))
        } else if ab_ap >= sqnab {
            // Voronoi region of vertex 'b'.
            (RatPt3::from_pt(&self.b), Ratio::from_int(1))
        } else {
            // Voronoi region of the segment interior; 0 < ab_ap < sqnab, so
            // the segment is not degenerate and the division is exact.
            proof {
                lemma_mul_bound2(self.a.x as int, sqnab as int, 0x10000, 0xC_0000_0000);
                lemma_mul_bound2(self.a.y as int, sqnab as int, 0x10000, 0xC_0000_0000);
                lemma_mul_bound2(self.a.z as int, sqnab as int, 0x10000, 0xC_0000_0000);
                lemma_mul_bound2(ab_ap as int, ab.x as int, 0xC_0000_0000, 0x20000);
                lemma_mul_bound2(ab_ap as int, ab.y as int, 0xC_0000_0000, 0x20000);
                lemma_mul_bound2(ab_ap as int, ab.z as int, 0xC_0000_0000, 0x20000);
            }
            let local = RatPt3 {
                nx: (self.a.x as i128) * sqnab + ab_ap * (ab.x as i128),
                ny: (self.a.y as i128) * sqnab + ab_ap * (ab.y as i128),
                nz: (self.a.z as i128) * sqnab + ab_ap * (ab.z as i128),
                den: sqnab,
            };
            (local, Ratio::new(ab_ap, sqnab))
        }
    }
}

impl PointQuery for Segment {
    open spec fn pq_wf(&self) -> bool {
        self.wf()
    }

    open spec fn proj_spec(&self, m: Iso, pt: Pt3, solid: bool) -> PointProjection {
        seg_proj_full(*self, m, pt)
    }

    fn project_point(&self, m: &Iso, pt: &Pt3, solid: bool) -> (r: PointProjection) {
        let (projection, _) = self.project_point_with_extra_info(m, pt, solid);
        projection
    }

    fn distance_to_point(&self, m: &Iso, pt: &Pt3, solid: bool) -> (r: Ratio) {
        let proj = self.project_point(m, pt, solid);
        let d2 = crate::math::dist2_of(pt, &proj.point);
        if solid || !proj.is_inside {
            d2
        } else {
            Ratio { num: -d2.num, den: d2.den }
        }
    }

    fn contains_point(&self, m: &Iso, pt: &Pt3) -> (r: bool) {
        self.project_point(m, pt, false).is_inside
    }
}

/// The local outward-normal direction at the projection, by Voronoi region:
/// the vector from the projected vertex to the query point at a vertex, and
/// the left-hand perpendicular `(ab.y, -ab.x, 0)` of `ab = b - a` in the
/// interior (reversing this orientation would flip "outward").
pub open spec fn seg_nlx(s: Segment, lx: int, ly: int, lz: int) -> int {
    if seg_abap(s, lx, ly, lz) <= 0 {
        lx - s.a.x
    } else if seg_abap(s, lx, ly, lz) >= seg_sqnab(s) {
        lx - s.b.x
    } else {
        s.b.y - s.a.y
    }
}

pub open spec fn seg_nly(s: Segment, lx: int, ly: int, lz: int) -> int {
    if seg_abap(s, lx, ly, lz) <= 0 {
        ly - s.a.y
    } else if seg_abap(s, lx, ly, lz) >= seg_sqnab(s) {
        ly - s.b.y
    } else {
        s.a.x - s.b.x
    }
}

pub open spec fn seg_nlz(s: Segment, lx: int, ly: int, lz: int) -> int {
    if seg_abap(s, lx, ly, lz) <= 0 {
        lz - s.a.z
    } else if seg_abap(s, lx, ly, lz) >= seg_sqnab(s) {
        lz - s.b.z
    } else {
        0
    }
}

/// The outward normal at the projection, carried to world coordinates: the
/// local direction rotated by `m` (normals are unaffected by translation).
/// It is exact and therefore unnormalized.
pub open spec fn seg_normal(s: Segment, m: Iso, pt: Pt3) -> RatVec3 {
    let lx = seg_lx(m, pt);
    let ly = seg_ly(m, pt);
    let lz = seg_lz(m, pt);
    let nx = seg_nlx(s, lx, ly, lz);
    let ny = seg_nly(s, lx, ly, lz);
    let nz = seg_nlz(s, lx, ly, lz);
    RatVec3 {
        nx: rot_x(m.rot, nx, ny, nz) as i128,
        ny: rot_y(m.rot, nx, ny, nz) as i128,
        nz: rot_z(m.rot, nx, ny, nz) as i128,
        den: 1,
    }
}

/// The full mathematical result of the normal-reporting projection.
pub open spec fn seg_normal_proj(s: Segment, m: Iso, pt: Pt3) -> PointNormalProjection {
    PointNormalProjection {
        is_inside: seg_is_inside(s, m, pt),
        point: seg_proj(s, m, pt),
        normal: seg_normal(s, m, pt),
    }
}

impl PointNormalQuery for Segment {
    /// The planar variant: the segment lies in the `z == 0` plane.
    open spec fn pnq_wf(&self) -> bool {
        &&& self.wf()
        &&& self.a.z == 0
        &&& self.b.z == 0
    }

    /// The query point is planar too, and does not coincide with the vertex
    /// of its Voronoi region: a zero-length normal has no direction.
    open spec fn pnq_req(&self, m: Iso, pt: Pt3) -> bool {
        let lx = seg_lx(m, pt);
        let ly = seg_ly(m, pt);
        let lz = seg_lz(m, pt);
        &&& lz == 0
        &&& (seg_abap(*self, lx, ly, lz) <= 0
            ==> !(lx == self.a.x && ly == self.a.y && lz == self.a.z))
        &&& (seg_abap(*self, lx, ly, lz) > 0
                && seg_abap(*self, lx, ly, lz) >= seg_sqnab(*self)
            ==> !(lx == self.b.x && ly == self.b.y && lz == self.b.z))
    }

    open spec fn proj_normal_spec(&self, m: Iso, pt: Pt3) -> PointNormalProjection {
        seg_normal_proj(*self, m, pt)
    }

    /// The same Voronoi-region case analysis as the plain projection, with
    /// the outward direction of each region reported alongside.
    fn project_point_with_normal(&self, m: &Iso, pt: &Pt3, solid: bool) -> (r: PointNormalProjection)
    {
        let lp = m.inverse_transform_point(pt);
        assert(p_in(lp, 0x20000));
        let (local, _position) = self.local_projection(&lp);
        let w = transform_rat_pt(m, &local);
        proof {
            lemma_mul_bound2(pt.x as int, w.den as int, 0x10000, 0x20_0000_0000);
            lemma_mul_bound2(pt.y as int, w.den as int, 0x10000, 0x20_0000_0000);
            lemma_mul_bound2(pt.z as int, w.den as int, 0x10000, 0x20_0000_0000);
        }
        let inside = w.nx == (pt.x as i128) * w.den && w.ny == (pt.y as i128) * w.den
            && w.nz == (pt.z as i128) * w.den;
        let ab = sub_pp(&self.b, &self.a);
        let ap = sub_pp(&lp, &self.a);
        proof {
            lemma_mul_bound(ab.x as int, ab.x as int, 0x20000);
            lemma_mul_bound(ab.y as int, ab.y as int, 0x20000);
            lemma_mul_bound(ab.z as int, ab.z as int, 0x20000);
            lemma_mul_bound2(ab.x as int, ap.x as int, 0x20000, 0x30000);
            lemma_mul_bound2(ab.y as int, ap.y as int, 0x20000, 0x30000);
            lemma_mul_bound2(ab.z as int, ap.z as int, 0x20000, 0x30000);
        }
        let ab_ap = dot(&ab, &ap);
        let sqnab = dot(&ab, &ab);
        let nloc: Vec3;
        if ab_ap <= 0 {
            // Voronoi region of vertex 'a'.
            nloc = ap;
        } else if ab_ap >= sqnab {
            // Voronoi region of vertex 'b'.
            nloc = sub_pp(&lp, &self.b);
        } else {
            // Voronoi region of the segment interior.
            nloc = Vec3::new(ab.y, -ab.x, 0);
        }
        let nw = m.rotate_vector(&nloc);
        let normal = RatVec3 { nx: nw.x as i128, ny: nw.y as i128, nz: nw.z as i128, den: 1 };
        PointNormalProjection::new(inside, w, normal)
    }
}

} // verus!
