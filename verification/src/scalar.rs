//! Fixed-point numbers: the one kind of quantity the simulation computes with.
//!
//! A [`Scalar`] holds a signed count of raw units, [`SCALE`] of which make up
//! one whole. Sums, differences, products and quotients are rounded toward
//! zero and held inside the range of the raw count, so every operation is
//! total and gives the same result on every machine.

use vstd::prelude::*;

verus! {

/// Raw units that make up one whole.
pub const SCALE: i32 = 20480;

/// The value of `x` held inside the range of a raw count.
#[verifier::opaque]
pub open spec fn saturate(x: int) -> int {
    if x < i32::MIN {
        i32::MIN as int
    } else if x > i32::MAX {
        i32::MAX as int
    } else {
        x
    }
}

/// The quotient of `n` by `d`, rounded toward zero; zero where `d` is zero.
#[verifier::opaque]
pub open spec fn toward_zero(n: int, d: int) -> int {
    if d == 0 {
        0
    } else if d > 0 {
        if n >= 0 {
            n / d
        } else {
            -((-n) / d)
        }
    } else {
        if n >= 0 {
            -(n / (-d))
        } else {
            (-n) / (-d)
        }
    }
}

/// Whether `r` is the greatest number whose square does not exceed `n`.
pub open spec fn is_root(n: int, r: int) -> bool {
    0 <= r && r * r <= n && n < (r + 1) * (r + 1)
}

/// A product of two bounded factors is bounded by the product of the bounds.
pub proof fn lemma_product_bound(a: int, b: int, m: int, n: int)
    requires
        -m <= a <= m,
        -n <= b <= n,
    ensures
        -(m * n) <= a * b <= m * n,
{
    assert(-(m * n) <= a * b <= m * n) by (nonlinear_arith)
        requires
            -m <= a <= m,
            -n <= b <= n,
    ;
}

/// A whole multiple divides back to its factor.
pub proof fn lemma_toward_zero_exact(x: int, d: int)
    requires
        d != 0,
    ensures
        toward_zero(x * d, d) == x,
{
    reveal(toward_zero);
    if d > 0 {
        if x >= 0 {
            assert(x * d >= 0) by (nonlinear_arith)
                requires
                    x >= 0,
                    d > 0,
            ;
            assert((x * d) / d == x) by (nonlinear_arith)
                requires
                    d > 0,
            ;
        } else {
            assert(x * d < 0) by (nonlinear_arith)
                requires
                    x < 0,
                    d > 0,
            ;
            assert(-(x * d) == (-x) * d) by (nonlinear_arith);
            assert(((-x) * d) / d == -x) by (nonlinear_arith)
                requires
                    d > 0,
            ;
        }
    } else {
        let e = -d;
        if x >= 0 {
            assert(x * d <= 0) by (nonlinear_arith)
                requires
                    x >= 0,
                    d < 0,
            ;
            assert(-(x * d) == x * e) by (nonlinear_arith)
                requires
                    e == -d,
            ;
            assert((x * e) / e == x) by (nonlinear_arith)
                requires
                    e > 0,
            ;
            if x * d == 0 {
                assert(x == 0) by (nonlinear_arith)
                    requires
                        x * d == 0,
                        d < 0,
                ;
            }
        } else {
            assert(x * d > 0) by (nonlinear_arith)
                requires
                    x < 0,
                    d < 0,
            ;
            assert(x * d == (-x) * e) by (nonlinear_arith)
                requires
                    e == -d,
            ;
            assert(((-x) * e) / e == -x) by (nonlinear_arith)
                requires
                    e > 0,
            ;
        }
    }
}

/// Holds a wide count inside the range of a raw count.
pub(crate) fn narrow(x: i128) -> (r: i32)
    ensures
        r == saturate(x as int),
{
    proof {
        reveal(saturate);
    }
    if x < -2147483648 {
        -2147483648
    } else if x > 2147483647 {
        2147483647
    } else {
        x as i32
    }
}

/// The exact product of two raw counts.
pub(crate) fn wide_product(a: i32, b: i32) -> (r: i128)
    ensures
        r == a as int * b as int,
        -0x4000_0000_0000_0000 <= r <= 0x4000_0000_0000_0000,
{
    proof {
        lemma_product_bound(a as int, b as int, 0x8000_0000, 0x8000_0000);
    }
    a as i128 * b as i128
}

/// The quotient of two wide counts, rounded toward zero; zero where the
/// divisor is zero.
pub(crate) fn wide_quotient(n: i128, d: i128) -> (r: i128)
    requires
        -0x4000_0000_0000_0000_0000_0000_0000_0000 < n < 0x4000_0000_0000_0000_0000_0000_0000_0000,
        -0x4000_0000_0000_0000_0000_0000_0000_0000 < d < 0x4000_0000_0000_0000_0000_0000_0000_0000,
    ensures
        r == toward_zero(n as int, d as int),
{
    proof {
        reveal(toward_zero);
    }
    if d == 0 {
        0
    } else {
        let m: i128 = if d > 0 { d } else { -d };
        let k: i128 = if n >= 0 { n } else { -n };
        let q: i128 = k / m;
        assert(0 <= k as int / m as int <= k) by (nonlinear_arith)
            requires
                k >= 0,
                m >= 1,
        ;
        if (n >= 0) == (d > 0) {
            q
        } else {
            -q
        }
    }
}

/// The integer square root of `n`.
pub(crate) fn integer_root(n: u128) -> (r: u64)
    requires
        n < 0x1_0000_0000_0000_0000_0000_0000,
    ensures
        is_root(n as int, r as int),
{
    let mut lo: u64 = 0;
    let mut hi: u64 = 0x1_0000_0000_0000;
    assert(0x1_0000_0000_0000int * 0x1_0000_0000_0000int == 0x1_0000_0000_0000_0000_0000_0000int)
        by (nonlinear_arith);
    while hi - lo > 1
        invariant
            lo < hi <= 0x1_0000_0000_0000,
            lo as int * lo as int <= n,
            n < hi as int * hi as int,
        decreases hi - lo,
    {
        let mid: u64 = lo + (hi - lo) / 2;
        proof {
            lemma_product_bound(mid as int, mid as int, 0x1_0000_0000_0000, 0x1_0000_0000_0000);
        }
        let sq: u128 = mid as u128 * mid as u128;
        if sq <= n {
            lo = mid;
        } else {
            hi = mid;
        }
    }
    lo
}

/// A fixed-point number: `raw` counts units of one part in [`SCALE`].
#[derive(Clone, Copy, Debug, PartialEq, Eq, Structural)]
pub struct Scalar {
    pub raw: i32,
}

impl View for Scalar {
    type V = int;

    open spec fn view(&self) -> int {
        self.raw as int
    }
}

impl Scalar {
    /// The number whose raw count is `raw`.
    #[verifier::allow_in_spec]
    pub fn from_raw(raw: i32) -> Scalar
        returns
            (Scalar { raw }),
    {
        Scalar { raw }
    }

    /// Zero.
    #[verifier::allow_in_spec]
    pub fn zero() -> Scalar
        returns
            (Scalar { raw: 0 }),
    {
        Scalar { raw: 0 }
    }

    /// One whole.
    #[verifier::allow_in_spec]
    pub fn one() -> Scalar
        returns
            (Scalar { raw: SCALE }),
    {
        Scalar { raw: SCALE }
    }

    /// The whole number `units`, held inside the range.
    #[verifier::allow_in_spec]
    pub fn from_int(units: i32) -> Scalar
        returns
            (Scalar { raw: saturate(units * SCALE) as i32 }),
    {
        Scalar { raw: narrow(wide_product(units, SCALE)) }
    }

    /// The fraction `num / den`, rounded toward zero; zero where `den` is zero.
    #[verifier::allow_in_spec]
    pub fn from_ratio(num: i32, den: i32) -> Scalar
        returns
            (Scalar { raw: saturate(toward_zero(num * SCALE, den as int)) as i32 }),
    {
        Scalar { raw: narrow(wide_quotient(wide_product(num, SCALE), den as i128)) }
    }

    /// The sum, held inside the range.
    #[verifier::allow_in_spec]
    pub fn add(self, rhs: Scalar) -> Scalar
        returns
            (Scalar { raw: saturate(self.raw + rhs.raw) as i32 }),
    {
        Scalar { raw: narrow(self.raw as i128 + rhs.raw as i128) }
    }

    /// The difference, held inside the range.
    #[verifier::allow_in_spec]
    pub fn sub(self, rhs: Scalar) -> Scalar
        returns
            (Scalar { raw: saturate(self.raw - rhs.raw) as i32 }),
    {
        Scalar { raw: narrow(self.raw as i128 - rhs.raw as i128) }
    }

    /// The opposite, held inside the range.
    #[verifier::allow_in_spec]
    pub fn neg(self) -> Scalar
        returns
            (Scalar { raw: saturate(-self.raw) as i32 }),
    {
        Scalar { raw: narrow(-(self.raw as i128)) }
    }

    /// The size without the sign, held inside the range.
    #[verifier::allow_in_spec]
    pub fn abs(self) -> Scalar
        returns
            (if self.raw >= 0 { self } else { Scalar { raw: saturate(-self.raw) as i32 } }),
    {
        if self.raw >= 0 {
            self
        } else {
            self.neg()
        }
    }

    /// The product, rounded toward zero and held inside the range.
    #[verifier::allow_in_spec]
    pub fn mul(self, rhs: Scalar) -> Scalar
        returns
            (Scalar { raw: saturate(toward_zero(self.raw * rhs.raw, SCALE as int)) as i32 }),
    {
        Scalar { raw: narrow(wide_quotient(wide_product(self.raw, rhs.raw), SCALE as i128)) }
    }

    /// The quotient, rounded toward zero and held inside the range; zero
    /// where `rhs` is zero.
    #[verifier::allow_in_spec]
    pub fn div(self, rhs: Scalar) -> Scalar
        returns
            (Scalar { raw: saturate(toward_zero(self.raw * SCALE, rhs.raw as int)) as i32 }),
    {
        Scalar { raw: narrow(wide_quotient(wide_product(self.raw, SCALE), rhs.raw as i128)) }
    }

    /// `self * num / den` with a single rounding toward zero; zero where
    /// `den` is zero.
    #[verifier::allow_in_spec]
    pub fn mul_ratio(self, num: i32, den: i32) -> Scalar
        returns
            (Scalar { raw: saturate(toward_zero(self.raw * num, den as int)) as i32 }),
    {
        Scalar { raw: narrow(wide_quotient(wide_product(self.raw, num), den as i128)) }
    }

    /// The lesser of the two.
    #[verifier::allow_in_spec]
    pub fn min(self, rhs: Scalar) -> Scalar
        returns
            (if rhs.raw < self.raw { rhs } else { self }),
    {
        if rhs.raw < self.raw {
            rhs
        } else {
            self
        }
    }

    /// The greater of the two.
    #[verifier::allow_in_spec]
    pub fn max(self, rhs: Scalar) -> Scalar
        returns
            (if rhs.raw > self.raw { rhs } else { self }),
    {
        if rhs.raw > self.raw {
            rhs
        } else {
            self
        }
    }

    /// `hi` above `hi`, `lo` below `lo`, else the number itself.
    #[verifier::allow_in_spec]
    pub fn clamp(self, lo: Scalar, hi: Scalar) -> Scalar
        returns
            (if self.raw > hi.raw { hi } else if self.raw < lo.raw { lo } else { self }),
    {
        if self.raw > hi.raw {
            hi
        } else if self.raw < lo.raw {
            lo
        } else {
            self
        }
    }

    /// The greatest whole number that does not exceed the value.
    #[verifier::allow_in_spec]
    pub fn floor(self) -> i32
        returns
            (self.raw as int / SCALE as int) as i32,
    {
        let q: i32 = self.raw / SCALE;
        let r: i32 = self.raw % SCALE;
        if r < 0 {
            q - 1
        } else {
            q
        }
    }
}

} // verus!
