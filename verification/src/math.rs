use vstd::prelude::*;
use crate::scalar::{Ratio, MAX_COORD};

verus! {

/// Working bound on coordinates handed to the vector helpers; wide enough for
/// every intermediate of the query algorithms, small enough that sums and
/// products always fit their integer types.
pub const WIDE: i64 = 0x1000_0000;

/// Bound on the numerator of a projection or hit point.
pub const RP_NUM_MAX: i128 = 0x100_0000_0000_0000;

/// Bound on the denominator of a projection or hit point.
pub const RP_DEN_MAX: i128 = 0x20_0000_0000;

/// A vector with exact integer coordinates.
#[derive(Clone, Copy, Debug, PartialEq, Eq, Structural)]
pub struct Vec3 {
    pub x: i64,
    pub y: i64,
    pub z: i64,
}

/// A point with exact integer coordinates.
#[derive(Clone, Copy, Debug, PartialEq, Eq, Structural)]
pub struct Pt3 {
    pub x: i64,
    pub y: i64,
    pub z: i64,
}

/// All coordinates of `v` lie within `[-b, b]`.
pub open spec fn v_in(v: Vec3, b: int) -> bool {
    &&& -b <= v.x <= b
    &&& -b <= v.y <= b
    &&& -b <= v.z <= b
}

/// All coordinates of `p` lie within `[-b, b]`.
pub open spec fn p_in(p: Pt3, b: int) -> bool {
    &&& -b <= p.x <= b
    &&& -b <= p.y <= b
    &&& -b <= p.z <= b
}

/// The dot product, as unbounded integers.
pub open spec fn dot_spec(ux: int, uy: int, uz: int, vx: int, vy: int, vz: int) -> int {
    ux * vx + uy * vy + uz * vz
}

impl Vec3 {
    pub fn new(x: i64, y: i64, z: i64) -> (v: Vec3)
        ensures
            v.x == x && v.y == y && v.z == z,
    {
        Vec3 { x, y, z }
    }
}

impl Pt3 {
    pub fn new(x: i64, y: i64, z: i64) -> (p: Pt3)
        ensures
            p.x == x && p.y == y && p.z == z,
    {
        Pt3 { x, y, z }
    }
}

/// Difference of two points, an exact vector.
pub fn sub_pp(p: &Pt3, q: &Pt3) -> (v: Vec3)
    requires
        p_in(*p, WIDE as int),
        p_in(*q, WIDE as int),
    ensures
        v.x == p.x - q.x,
        v.y == p.y - q.y,
        v.z == p.z - q.z,
        v_in(v, 2 * WIDE as int),
{
    Vec3 { x: p.x - q.x, y: p.y - q.y, z: p.z - q.z }
}

/// Difference of two vectors.
pub fn sub_vv(u: &Vec3, v: &Vec3) -> (w: Vec3)
    requires
        v_in(*u, WIDE as int),
        v_in(*v, WIDE as int),
    ensures
        w.x == u.x - v.x,
        w.y == u.y - v.y,
        w.z == u.z - v.z,
        v_in(w, 2 * WIDE as int),
{
    Vec3 { x: u.x - v.x, y: u.y - v.y, z: u.z - v.z }
}

/// Negation of a vector.
pub fn neg_v(v: &Vec3) -> (w: Vec3)
    requires
        v_in(*v, WIDE as int),
    ensures
        w.x == -v.x && w.y == -v.y && w.z == -v.z,
        v_in(w, WIDE as int),
{
    Vec3 { x: -v.x, y: -v.y, z: -v.z }
}

/// Exact dot product of two bounded vectors.
pub fn dot(u: &Vec3, v: &Vec3) -> (r: i128)
    requires
        v_in(*u, 4 * WIDE as int),
        v_in(*v, 4 * WIDE as int),
    ensures
        r == dot_spec(u.x as int, u.y as int, u.z as int, v.x as int, v.y as int, v.z as int),
        -0x10_0000_0000_0000_0000 <= r <= 0x10_0000_0000_0000_0000,
{
    proof {
        crate::scalar::lemma_mul_bound(u.x as int, v.x as int, 0x4000_0000);
        crate::scalar::lemma_mul_bound(u.y as int, v.y as int, 0x4000_0000);
        crate::scalar::lemma_mul_bound(u.z as int, v.z as int, 0x4000_0000);
    }
    (u.x as i128) * (v.x as i128) + (u.y as i128) * (v.y as i128) + (u.z as i128) * (v.z as i128)
}

/// A rotation that maps the coordinate axes onto signed coordinate axes: the
/// exact isometries of the integer grid.  Coordinate `x` of the image is
/// coordinate `ax` of the argument, negated when `nx` is set, and likewise
/// for `y` and `z`.
#[derive(Clone, Copy, Debug)]
pub struct Rot {
    pub ax: u8,
    pub nx: bool,
    pub ay: u8,
    pub ny: bool,
    pub az: u8,
    pub nz: bool,
}

/// Selects one of three values by axis index.
pub open spec fn axis3(a: u8, x: int, y: int, z: int) -> int {
    if a == 0 { x } else if a == 1 { y } else { z }
}

/// Applies a sign flag.
pub open spec fn sgn(n: bool, c: int) -> int {
    if n { -c } else { c }
}

impl Rot {
    /// The three source axes are distinct, so the map is a bijection.
    pub open spec fn wf(self) -> bool {
        &&& self.ax < 3 && self.ay < 3 && self.az < 3
        &&& self.ax != self.ay && self.ay != self.az && self.ax != self.az
    }

    /// The identity rotation.
    pub fn identity() -> (r: Rot)
        ensures
            r == (Rot { ax: 0, nx: false, ay: 1, ny: false, az: 2, nz: false }),
            r.wf(),
    {
        Rot { ax: 0, nx: false, ay: 1, ny: false, az: 2, nz: false }
    }
}

/// `x` coordinate of the rotated triple.
pub open spec fn rot_x(r: Rot, x: int, y: int, z: int) -> int {
    sgn(r.nx, axis3(r.ax, x, y, z))
}

/// `y` coordinate of the rotated triple.
pub open spec fn rot_y(r: Rot, x: int, y: int, z: int) -> int {
    sgn(r.ny, axis3(r.ay, x, y, z))
}

/// `z` coordinate of the rotated triple.
pub open spec fn rot_z(r: Rot, x: int, y: int, z: int) -> int {
    sgn(r.nz, axis3(r.az, x, y, z))
}

/// `x` coordinate of the inverse rotation applied to a triple.
pub open spec fn inv_x(r: Rot, x: int, y: int, z: int) -> int {
    if r.ax == 0 { sgn(r.nx, x) } else if r.ay == 0 { sgn(r.ny, y) } else { sgn(r.nz, z) }
}

/// `y` coordinate of the inverse rotation applied to a triple.
pub open spec fn inv_y(r: Rot, x: int, y: int, z: int) -> int {
    if r.ax == 1 { sgn(r.nx, x) } else if r.ay == 1 { sgn(r.ny, y) } else { sgn(r.nz, z) }
}

/// `z` coordinate of the inverse rotation applied to a triple.
pub open spec fn inv_z(r: Rot, x: int, y: int, z: int) -> int {
    if r.ax == 2 { sgn(r.nx, x) } else if r.ay == 2 { sgn(r.ny, y) } else { sgn(r.nz, z) }
}

/// The inverse rotation undoes the rotation, coordinate by coordinate.
pub proof fn lemma_rot_roundtrip(r: Rot, x: int, y: int, z: int)
    requires
        r.wf(),
    ensures
        inv_x(r, rot_x(r, x, y, z), rot_y(r, x, y, z), rot_z(r, x, y, z)) == x,
        inv_y(r, rot_x(r, x, y, z), rot_y(r, x, y, z), rot_z(r, x, y, z)) == y,
        inv_z(r, rot_x(r, x, y, z), rot_y(r, x, y, z), rot_z(r, x, y, z)) == z,
{
}

/// Flipping the sign of both factors keeps a product.
pub proof fn lemma_sgn_mul(n: bool, a: int, b: int)
    ensures
        sgn(n, a) * sgn(n, b) == a * b,
{
    if n {
        assert((-a) * (-b) == a * b) by (nonlinear_arith);
    }
}

/// Rotations preserve the dot product.
pub proof fn lemma_rot_dot(r: Rot, ux: int, uy: int, uz: int, vx: int, vy: int, vz: int)
    requires
        r.wf(),
    ensures
        dot_spec(
            rot_x(r, ux, uy, uz), rot_y(r, ux, uy, uz), rot_z(r, ux, uy, uz),
            rot_x(r, vx, vy, vz), rot_y(r, vx, vy, vz), rot_z(r, vx, vy, vz),
        ) == dot_spec(ux, uy, uz, vx, vy, vz),
{
    lemma_sgn_mul(r.nx, axis3(r.ax, ux, uy, uz), axis3(r.ax, vx, vy, vz));
    lemma_sgn_mul(r.ny, axis3(r.ay, ux, uy, uz), axis3(r.ay, vx, vy, vz));
    lemma_sgn_mul(r.nz, axis3(r.az, ux, uy, uz), axis3(r.az, vx, vy, vz));
}

/// Selects one of three values by axis index (executable form of `axis3`).
pub fn pick3(a: u8, x: i64, y: i64, z: i64) -> (r: i64)
    requires
        a < 3,
    ensures
        r as int == axis3(a, x as int, y as int, z as int),
{
    if a == 0 { x } else if a == 1 { y } else { z }
}

/// Applies a sign flag (executable form of `sgn`).
pub fn flip(n: bool, c: i64) -> (r: i64)
    requires
        -WIDE * 8 <= c <= WIDE * 8,
    ensures
        r as int == sgn(n, c as int),
{
    if n { -c } else { c }
}

/// A rigid isometry: a grid rotation followed by an integer translation.
#[derive(Clone, Copy, Debug)]
pub struct Iso {
    pub rot: Rot,
    pub trans: Vec3,
}

/// `x` coordinate of `m` applied to a triple.
pub open spec fn tp_x(m: Iso, x: int, y: int, z: int) -> int {
    rot_x(m.rot, x, y, z) + m.trans.x
}

/// `y` coordinate of `m` applied to a triple.
pub open spec fn tp_y(m: Iso, x: int, y: int, z: int) -> int {
    rot_y(m.rot, x, y, z) + m.trans.y
}

/// `z` coordinate of `m` applied to a triple.
pub open spec fn tp_z(m: Iso, x: int, y: int, z: int) -> int {
    rot_z(m.rot, x, y, z) + m.trans.z
}

/// `x` coordinate of the inverse of `m` applied to a triple.
pub open spec fn itp_x(m: Iso, x: int, y: int, z: int) -> int {
    inv_x(m.rot, x - m.trans.x, y - m.trans.y, z - m.trans.z)
}

/// `y` coordinate of the inverse of `m` applied to a triple.
pub open spec fn itp_y(m: Iso, x: int, y: int, z: int) -> int {
    inv_y(m.rot, x - m.trans.x, y - m.trans.y, z - m.trans.z)
}

/// `z` coordinate of the inverse of `m` applied to a triple.
pub open spec fn itp_z(m: Iso, x: int, y: int, z: int) -> int {
    inv_z(m.rot, x - m.trans.x, y - m.trans.y, z - m.trans.z)
}

impl Iso {
    /// Translations stay within the input coordinate range.
    pub open spec fn wf(self) -> bool {
        &&& self.rot.wf()
        &&& v_in(self.trans, MAX_COORD as int)
    }

    /// The identity isometry.
    pub fn identity() -> (m: Iso)
        ensures
            m.wf(),
            m.rot == (Rot { ax: 0, nx: false, ay: 1, ny: false, az: 2, nz: false }),
            m.trans == (Vec3 { x: 0, y: 0, z: 0 }),
    {
        Iso { rot: Rot::identity(), trans: Vec3 { x: 0, y: 0, z: 0 } }
    }

    /// Builds an isometry from a rotation and a translation.
    pub fn new(rot: Rot, trans: Vec3) -> (m: Iso)
        requires
            rot.wf(),
            v_in(trans, MAX_COORD as int),
        ensures
            m.rot == rot,
            m.trans == trans,
            m.wf(),
    {
        Iso { rot, trans }
    }

    /// Applies the isometry to a point.
    pub fn transform_point(&self, p: &Pt3) -> (q: Pt3)
        requires
            self.wf(),
            p_in(*p, 4 * WIDE as int),
        ensures
            q.x as int == tp_x(*self, p.x as int, p.y as int, p.z as int),
            q.y as int == tp_y(*self, p.x as int, p.y as int, p.z as int),
            q.z as int == tp_z(*self, p.x as int, p.y as int, p.z as int),
    {
        let rx = flip(self.rot.nx, pick3(self.rot.ax, p.x, p.y, p.z));
        let ry = flip(self.rot.ny, pick3(self.rot.ay, p.x, p.y, p.z));
        let rz = flip(self.rot.nz, pick3(self.rot.az, p.x, p.y, p.z));
        Pt3 { x: rx + self.trans.x, y: ry + self.trans.y, z: rz + self.trans.z }
    }

    /// Applies the inverse of the isometry to a point.
    pub fn inverse_transform_point(&self, p: &Pt3) -> (q: Pt3)
        requires
            self.wf(),
            p_in(*p, 4 * WIDE as int),
        ensures
            q.x as int == itp_x(*self, p.x as int, p.y as int, p.z as int),
            q.y as int == itp_y(*self, p.x as int, p.y as int, p.z as int),
            q.z as int == itp_z(*self, p.x as int, p.y as int, p.z as int),
    {
        let dx = p.x - self.trans.x;
        let dy = p.y - self.trans.y;
        let dz = p.z - self.trans.z;
        let qx = if self.rot.ax == 0 {
            flip(self.rot.nx, dx)
        } else if self.rot.ay == 0 {
            flip(self.rot.ny, dy)
        } else {
            flip(self.rot.nz, dz)
        };
        let qy = if self.rot.ax == 1 {
            flip(self.rot.nx, dx)
        } else if self.rot.ay == 1 {
            flip(self.rot.ny, dy)
        } else {
            flip(self.rot.nz, dz)
        };
        let qz = if self.rot.ax == 2 {
            flip(self.rot.nx, dx)
        } else if self.rot.ay == 2 {
            flip(self.rot.ny, dy)
        } else {
            flip(self.rot.nz, dz)
        };
        Pt3 { x: qx, y: qy, z: qz }
    }

    /// Rotates a vector (directions are unaffected by the translation part).
    pub fn rotate_vector(&self, v: &Vec3) -> (w: Vec3)
        requires
            self.wf(),
            v_in(*v, 4 * WIDE as int),
        ensures
            w.x as int == rot_x(self.rot, v.x as int, v.y as int, v.z as int),
            w.y as int == rot_y(self.rot, v.x as int, v.y as int, v.z as int),
            w.z as int == rot_z(self.rot, v.x as int, v.y as int, v.z as int),
    {
        let rx = flip(self.rot.nx, pick3(self.rot.ax, v.x, v.y, v.z));
        let ry = flip(self.rot.ny, pick3(self.rot.ay, v.x, v.y, v.z));
        let rz = flip(self.rot.nz, pick3(self.rot.az, v.x, v.y, v.z));
        Vec3 { x: rx, y: ry, z: rz }
    }
}

/// A point with rational coordinates `(nx/den, ny/den, nz/den)` over one
/// shared positive denominator: the result type of exact projections.
#[derive(Clone, Copy, Debug)]
pub struct RatPt3 {
    pub nx: i128,
    pub ny: i128,
    pub nz: i128,
    pub den: i128,
}

/// A vector with rational coordinates over one shared positive denominator.
#[derive(Clone, Copy, Debug)]
pub struct RatVec3 {
    pub nx: i128,
    pub ny: i128,
    pub nz: i128,
    pub den: i128,
}

impl RatPt3 {
    pub open spec fn wf(self) -> bool {
        self.den > 0
    }

    /// Numerators and denominator small enough for further exact arithmetic.
    pub open spec fn bounded(self) -> bool {
        &&& -RP_NUM_MAX <= self.nx <= RP_NUM_MAX
        &&& -RP_NUM_MAX <= self.ny <= RP_NUM_MAX
        &&& -RP_NUM_MAX <= self.nz <= RP_NUM_MAX
        &&& 0 < self.den <= RP_DEN_MAX
    }

    /// The rational point denotes exactly the integer point `(x, y, z)`.
    pub open spec fn is_pt(self, x: int, y: int, z: int) -> bool {
        &&& self.nx == x * self.den
        &&& self.ny == y * self.den
        &&& self.nz == z * self.den
    }

    /// Builds the rational point denoting an integer point.
    pub fn from_pt(p: &Pt3) -> (w: RatPt3)
        requires
            p_in(*p, 4 * WIDE as int),
        ensures
            w.is_pt(p.x as int, p.y as int, p.z as int),
            w.den == 1,
            w.wf(),
            w.bounded(),
    {
        RatPt3 { nx: p.x as i128, ny: p.y as i128, nz: p.z as i128, den: 1 }
    }

    /// The `x` coordinate as a rational.
    pub fn coord_x(&self) -> (r: Ratio)
        requires
            self.wf(),
        ensures
            r.num == self.nx && r.den == self.den,
            r.wf(),
    {
        Ratio { num: self.nx, den: self.den }
    }

    /// The `y` coordinate as a rational.
    pub fn coord_y(&self) -> (r: Ratio)
        requires
            self.wf(),
        ensures
            r.num == self.ny && r.den == self.den,
            r.wf(),
    {
        Ratio { num: self.ny, den: self.den }
    }

    /// The `z` coordinate as a rational.
    pub fn coord_z(&self) -> (r: Ratio)
        requires
            self.wf(),
        ensures
            r.num == self.nz && r.den == self.den,
            r.wf(),
    {
        Ratio { num: self.nz, den: self.den }
    }
}

impl RatVec3 {
    pub open spec fn wf(self) -> bool {
        self.den > 0
    }
}

/// `x` numerator of `m` applied to a rational point (the denominator is kept).
pub open spec fn rtp_nx(m: Iso, w: RatPt3) -> int {
    rot_x(m.rot, w.nx as int, w.ny as int, w.nz as int) + m.trans.x * w.den
}

/// `y` numerator of `m` applied to a rational point.
pub open spec fn rtp_ny(m: Iso, w: RatPt3) -> int {
    rot_y(m.rot, w.nx as int, w.ny as int, w.nz as int) + m.trans.y * w.den
}

/// `z` numerator of `m` applied to a rational point.
pub open spec fn rtp_nz(m: Iso, w: RatPt3) -> int {
    rot_z(m.rot, w.nx as int, w.ny as int, w.nz as int) + m.trans.z * w.den
}

/// Applies an isometry to a rational point, exactly.
pub fn transform_rat_pt(m: &Iso, w: &RatPt3) -> (q: RatPt3)
    requires
        m.wf(),
        w.wf(),
        -0x80_0000_0000_0000 <= w.nx <= 0x80_0000_0000_0000,
        -0x80_0000_0000_0000 <= w.ny <= 0x80_0000_0000_0000,
        -0x80_0000_0000_0000 <= w.nz <= 0x80_0000_0000_0000,
        w.den <= RP_DEN_MAX,
    ensures
        q.nx == rtp_nx(*m, *w),
        q.ny == rtp_ny(*m, *w),
        q.nz == rtp_nz(*m, *w),
        q.den == w.den,
        q.wf(),
        q.bounded(),
{
    proof {
        crate::scalar::lemma_mul_bound2(m.trans.x as int, w.den as int, 0x10000, 0x20_0000_0000);
        crate::scalar::lemma_mul_bound2(m.trans.y as int, w.den as int, 0x10000, 0x20_0000_0000);
        crate::scalar::lemma_mul_bound2(m.trans.z as int, w.den as int, 0x10000, 0x20_0000_0000);
    }
    let rx = if m.rot.ax == 0 { w.nx } else if m.rot.ax == 1 { w.ny } else { w.nz };
    let ry = if m.rot.ay == 0 { w.nx } else if m.rot.ay == 1 { w.ny } else { w.nz };
    let rz = if m.rot.az == 0 { w.nx } else if m.rot.az == 1 { w.ny } else { w.nz };
    let sx = if m.rot.nx { -rx } else { rx };
    let sy = if m.rot.ny { -ry } else { ry };
    let sz = if m.rot.nz { -rz } else { rz };
    RatPt3 {
        nx: sx + (m.trans.x as i128) * w.den,
        ny: sy + (m.trans.y as i128) * w.den,
        nz: sz + (m.trans.z as i128) * w.den,
        den: w.den,
    }
}

/// The squared Euclidean distance between an integer point and a rational
/// point, as a rational: `((x*den - nx)^2 + ... ) / den^2`.
pub open spec fn dist2_spec(px: int, py: int, pz: int, w: RatPt3) -> Ratio {
    Ratio {
        num: ((px * w.den - w.nx) * (px * w.den - w.nx)
            + (py * w.den - w.ny) * (py * w.den - w.ny)
            + (pz * w.den - w.nz) * (pz * w.den - w.nz)) as i128,
        den: (w.den * w.den) as i128,
    }
}

/// Computes the exact squared distance between an integer point and a
/// bounded rational point.
pub fn dist2_of(p: &Pt3, w: &RatPt3) -> (r: Ratio)
    requires
        p_in(*p, MAX_COORD as int),
        w.wf(),
        w.bounded(),
    ensures
        r == dist2_spec(p.x as int, p.y as int, p.z as int, *w),
        r.wf(),
        r.num >= 0,
{
    proof {
        crate::scalar::lemma_mul_bound2(p.x as int, w.den as int, 0x10000, 0x100_0000_0000);
        crate::scalar::lemma_mul_bound2(p.y as int, w.den as int, 0x10000, 0x100_0000_0000);
        crate::scalar::lemma_mul_bound2(p.z as int, w.den as int, 0x10000, 0x100_0000_0000);
        crate::scalar::lemma_mul_bound(
            (p.x as int) * (w.den as int) - w.nx,
            (p.x as int) * (w.den as int) - w.nx,
            0x400_0000_0000_0000,
        );
        crate::scalar::lemma_mul_bound(
            (p.y as int) * (w.den as int) - w.ny,
            (p.y as int) * (w.den as int) - w.ny,
            0x400_0000_0000_0000,
        );
        crate::scalar::lemma_mul_bound(
            (p.z as int) * (w.den as int) - w.nz,
            (p.z as int) * (w.den as int) - w.nz,
            0x400_0000_0000_0000,
        );
        crate::scalar::lemma_mul_bound(w.den as int, w.den as int, 0x100_0000_0000);
        lemma_sq_nonneg((p.x as int) * (w.den as int) - w.nx);
        lemma_sq_nonneg((p.y as int) * (w.den as int) - w.ny);
        lemma_sq_nonneg((p.z as int) * (w.den as int) - w.nz);
        assert(w.den * w.den > 0) by (nonlinear_arith)
            requires
                w.den > 0,
        ;
    }
    let dx = (p.x as i128) * w.den - w.nx;
    let dy = (p.y as i128) * w.den - w.ny;
    let dz = (p.z as i128) * w.den - w.nz;
    Ratio { num: dx * dx + dy * dy + dz * dz, den: w.den * w.den }
}

/// A square is never negative.
pub proof fn lemma_sq_nonneg(a: int)
    ensures
        a * a >= 0,
{
    assert(a * a >= 0) by (nonlinear_arith);
}

/// The rotation undoes its inverse, coordinate by coordinate (the other
/// direction of `lemma_rot_roundtrip`).
pub proof fn lemma_rot_roundtrip_fwd(r: Rot, x: int, y: int, z: int)
    requires
        r.wf(),
    ensures
        rot_x(r, inv_x(r, x, y, z), inv_y(r, x, y, z), inv_z(r, x, y, z)) == x,
        rot_y(r, inv_x(r, x, y, z), inv_y(r, x, y, z), inv_z(r, x, y, z)) == y,
        rot_z(r, inv_x(r, x, y, z), inv_y(r, x, y, z), inv_z(r, x, y, z)) == z,
{
}

/// Rotation application is linear: a scaled difference of rotated triples
/// is the rotation of the scaled difference.
proof fn lemma_rot_lin(
    r: Rot, a: int, b: int, c: int, k: int, a2: int, b2: int, c2: int,
)
    requires
        r.wf(),
    ensures
        rot_x(r, a, b, c) * k - rot_x(r, a2, b2, c2) == rot_x(r, a * k - a2, b * k - b2, c * k - c2),
        rot_y(r, a, b, c) * k - rot_y(r, a2, b2, c2) == rot_y(r, a * k - a2, b * k - b2, c * k - c2),
        rot_z(r, a, b, c) * k - rot_z(r, a2, b2, c2) == rot_z(r, a * k - a2, b * k - b2, c * k - c2),
{
    vstd::arithmetic::mul::lemma_mul_unary_negation(axis3(r.ax, a, b, c), k);
    vstd::arithmetic::mul::lemma_mul_unary_negation(axis3(r.ay, a, b, c), k);
    vstd::arithmetic::mul::lemma_mul_unary_negation(axis3(r.az, a, b, c), k);
}

/// LAW (rigidity): applying an isometry to both a query point and a
/// rational point leaves their exact squared distance unchanged, numerator
/// and denominator alike.  This carries any local-frame distance statement,
/// such as the projection minimality law, to world coordinates.
#[verifier::rlimit(100)]
pub proof fn lemma_iso_preserves_dist2(m: Iso, lx: int, ly: int, lz: int, w: RatPt3)
    requires
        m.wf(),
        w.wf(),
        w.bounded(),
        -0x20000 <= lx <= 0x20000,
        -0x20000 <= ly <= 0x20000,
        -0x20000 <= lz <= 0x20000,
    ensures
        ({
            let tw = RatPt3 {
                nx: rtp_nx(m, w) as i128,
                ny: rtp_ny(m, w) as i128,
                nz: rtp_nz(m, w) as i128,
                den: w.den,
            };
            dist2_spec(tp_x(m, lx, ly, lz), tp_y(m, lx, ly, lz), tp_z(m, lx, ly, lz), tw)
                == dist2_spec(lx, ly, lz, w)
        }),
{
    crate::scalar::lemma_mul_bound2(m.trans.x as int, w.den as int, 0x10000, 0x20_0000_0000);
    crate::scalar::lemma_mul_bound2(m.trans.y as int, w.den as int, 0x10000, 0x20_0000_0000);
    crate::scalar::lemma_mul_bound2(m.trans.z as int, w.den as int, 0x10000, 0x20_0000_0000);
    vstd::arithmetic::mul::lemma_mul_is_distributive_add_other_way(
        w.den as int, rot_x(m.rot, lx, ly, lz), m.trans.x as int);
    vstd::arithmetic::mul::lemma_mul_is_distributive_add_other_way(
        w.den as int, rot_y(m.rot, lx, ly, lz), m.trans.y as int);
    vstd::arithmetic::mul::lemma_mul_is_distributive_add_other_way(
        w.den as int, rot_z(m.rot, lx, ly, lz), m.trans.z as int);
    let dx = lx * w.den - w.nx;
    let dy = ly * w.den - w.ny;
    let dz = lz * w.den - w.nz;
    lemma_rot_lin(m.rot, lx, ly, lz, w.den as int, w.nx as int, w.ny as int, w.nz as int);
    assert(tp_x(m, lx, ly, lz) * w.den - rtp_nx(m, w) == rot_x(m.rot, dx, dy, dz));
    assert(tp_y(m, lx, ly, lz) * w.den - rtp_ny(m, w) == rot_y(m.rot, dx, dy, dz));
    assert(tp_z(m, lx, ly, lz) * w.den - rtp_nz(m, w) == rot_z(m.rot, dx, dy, dz));
    lemma_rot_dot(m.rot, dx, dy, dz, dx, dy, dz);
}

} // verus!
