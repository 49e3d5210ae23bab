use vstd::prelude::*;

verus! {

/// Largest magnitude allowed for an input coordinate.  Keeping inputs within
/// this range guarantees that every intermediate value of the query
/// algorithms fits in an `i128` without overflow.
pub const MAX_COORD: i64 = 65536;

/// Bound on the numerator of a rational that may still be compared with
/// another bounded rational without overflowing an `i128`.
pub const RAT_MAX: i128 = 0x4000_0000_0000_0000;

/// An exact rational number `num / den` with a positive denominator.
///
/// Rationals are kept unreduced: two values denote the same rational when
/// their cross products agree (`eq_spec`).
#[derive(Clone, Copy, Debug)]
pub struct Ratio {
    pub num: i128,
    pub den: i128,
}

impl Ratio {
    /// A rational is well formed when its denominator is positive.
    pub open spec fn wf(self) -> bool {
        self.den > 0
    }

    /// Magnitudes small enough that comparisons cannot overflow.
    pub open spec fn bounded(self) -> bool {
        &&& -RAT_MAX <= self.num <= RAT_MAX
        &&& 0 < self.den <= RAT_MAX
    }

    /// `self` and `other` denote the same rational value.
    pub open spec fn eq_spec(self, other: Ratio) -> bool {
        self.num * other.den == other.num * self.den
    }

    /// `self <= other` as rational values.
    pub open spec fn le_spec(self, other: Ratio) -> bool {
        self.num * other.den <= other.num * self.den
    }

    /// `self < other` as rational values.
    pub open spec fn lt_spec(self, other: Ratio) -> bool {
        self.num * other.den < other.num * self.den
    }

    /// `self` denotes the integer `n`.
    pub open spec fn is_int(self, n: int) -> bool {
        self.num == n * self.den
    }

    /// Builds the rational `num / den`.
    pub fn new(num: i128, den: i128) -> (r: Ratio)
        requires
            den > 0,
        ensures
            r.num == num,
            r.den == den,
            r.wf(),
    {
        Ratio { num, den }
    }

    /// Builds the rational denoting the integer `n`.
    pub fn from_int(n: i64) -> (r: Ratio)
        requires
            -0x4000_0000_0000_0000 <= n <= 0x4000_0000_0000_0000,
        ensures
            r.num == n as int,
            r.den == 1,
            r.is_int(n as int),
            r.wf(),
            r.bounded(),
    {
        Ratio { num: n as i128, den: 1 }
    }

    /// Exact comparison: `self <= other` as rational values.
    pub fn le(self, other: Ratio) -> (r: bool)
        requires
            self.wf(),
            other.wf(),
            self.bounded(),
            other.bounded(),
        ensures
            r == self.le_spec(other),
    {
        proof {
            lemma_mul_bound(self.num as int, other.den as int, 0x4000_0000_0000_0000);
            lemma_mul_bound(other.num as int, self.den as int, 0x4000_0000_0000_0000);
        }
        self.num * other.den <= other.num * self.den
    }

    /// Exact comparison: `self < other` as rational values.
    pub fn lt(self, other: Ratio) -> (r: bool)
        requires
            self.wf(),
            other.wf(),
            self.bounded(),
            other.bounded(),
        ensures
            r == self.lt_spec(other),
    {
        proof {
            lemma_mul_bound(self.num as int, other.den as int, 0x4000_0000_0000_0000);
            lemma_mul_bound(other.num as int, self.den as int, 0x4000_0000_0000_0000);
        }
        self.num * other.den < other.num * self.den
    }

    /// Exact equality of the denoted rational values.
    pub fn eq_val(self, other: Ratio) -> (r: bool)
        requires
            self.wf(),
            other.wf(),
            self.bounded(),
            other.bounded(),
        ensures
            r == self.eq_spec(other),
    {
        proof {
            lemma_mul_bound(self.num as int, other.den as int, 0x4000_0000_0000_0000);
            lemma_mul_bound(other.num as int, self.den as int, 0x4000_0000_0000_0000);
        }
        self.num * other.den == other.num * self.den
    }
}

/// `|a * b| <= m * m` whenever both factors are bounded by `m`.
pub proof fn lemma_mul_bound(a: int, b: int, m: int)
    requires
        0 <= m,
        -m <= a <= m,
        -m <= b <= m,
    ensures
        -m * m <= a * b <= m * m,
{
    assert(-m * m <= a * b <= m * m) by (nonlinear_arith)
        requires
            0 <= m,
            -m <= a <= m,
            -m <= b <= m,
    ;
}

/// `|a * b| <= ma * mb` for factors bounded separately.
pub proof fn lemma_mul_bound2(a: int, b: int, ma: int, mb: int)
    requires
        0 <= ma,
        0 <= mb,
        -ma <= a <= ma,
        -mb <= b <= mb,
    ensures
        -ma * mb <= a * b <= ma * mb,
{
    assert(-ma * mb <= a * b <= ma * mb) by (nonlinear_arith)
        requires
            0 <= ma,
            0 <= mb,
            -ma <= a <= ma,
            -mb <= b <= mb,
    ;
}

} // verus!
