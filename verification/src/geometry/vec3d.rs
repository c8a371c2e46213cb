//! Three-dimensional vectors of fixed-point numbers.

use crate::scalar::{
    integer_root, is_root, narrow, saturate, toward_zero, wide_product, wide_quotient, Scalar,
    SCALE,
};
use vstd::prelude::*;

verus! {

/// One of the three axes.
#[derive(Clone, Copy, Debug, PartialEq, Eq, Structural)]
pub enum Coord {
    X,
    Y,
    Z,
}

/// The sum of the squares of three integers.
#[verifier::opaque]
pub open spec fn sum_of_squares(x: int, y: int, z: int) -> int {
    x * x + y * y + z * z
}

/// The integer square root of `n`; zero below zero.
pub open spec fn root(n: int) -> int {
    if n < 0 {
        0
    } else {
        choose|r: int| is_root(n, r)
    }
}

/// Only one number is the integer square root of `n`.
pub proof fn lemma_root_unique(n: int, r: int)
    requires
        is_root(n, r),
    ensures
        root(n) == r,
{
    assert(n >= 0) by (nonlinear_arith)
        requires
            r * r <= n,
    ;
    let c = choose|c: int| is_root(n, c);
    assert(is_root(n, c));
    if c < r {
        assert((c + 1) * (c + 1) <= r * r) by (nonlinear_arith)
            requires
                0 <= c,
                c + 1 <= r,
        ;
    } else if r < c {
        assert((r + 1) * (r + 1) <= c * c) by (nonlinear_arith)
            requires
                0 <= r,
                r + 1 <= c,
        ;
    }
}

/// The exact sum of the squares of three wide counts.
fn wide_sum_of_squares(x: i64, y: i64, z: i64) -> (r: u128)
    requires
        -0x1_0000_0000 <= x <= 0x1_0000_0000,
        -0x1_0000_0000 <= y <= 0x1_0000_0000,
        -0x1_0000_0000 <= z <= 0x1_0000_0000,
    ensures
        r == sum_of_squares(x as int, y as int, z as int),
        r <= 3 * 0x1_0000_0000_0000_0000,
{
    proof {
        reveal(sum_of_squares);
        crate::scalar::lemma_product_bound(x as int, x as int, 0x1_0000_0000, 0x1_0000_0000);
        crate::scalar::lemma_product_bound(y as int, y as int, 0x1_0000_0000, 0x1_0000_0000);
        crate::scalar::lemma_product_bound(z as int, z as int, 0x1_0000_0000, 0x1_0000_0000);
        assert(x as int * x as int >= 0) by (nonlinear_arith);
        assert(y as int * y as int >= 0) by (nonlinear_arith);
        assert(z as int * z as int >= 0) by (nonlinear_arith);
    }
    let xx: i128 = x as i128 * x as i128;
    let yy: i128 = y as i128 * y as i128;
    let zz: i128 = z as i128 * z as i128;
    (xx + yy + zz) as u128
}

/// The integer square root of a sum of squares, as a wide count.
fn wide_length(x: i64, y: i64, z: i64) -> (r: i128)
    requires
        -0x1_0000_0000 <= x <= 0x1_0000_0000,
        -0x1_0000_0000 <= y <= 0x1_0000_0000,
        -0x1_0000_0000 <= z <= 0x1_0000_0000,
    ensures
        r == root(sum_of_squares(x as int, y as int, z as int)),
        0 <= r < 0x1_0000_0000_0000,
{
    let n = wide_sum_of_squares(x, y, z);
    let r = integer_root(n);
    proof {
        lemma_root_unique(n as int, r as int);
        if r >= 0x1_0000_0000_0000 {
            assert(r as int * r as int >= 0x1_0000_0000_0000int * 0x1_0000_0000_0000int)
                by (nonlinear_arith)
                requires
                    r >= 0x1_0000_0000_0000,
            ;
            assert(0x1_0000_0000_0000int * 0x1_0000_0000_0000int
                == 0x1_0000_0000_0000_0000_0000_0000int) by (nonlinear_arith);
        }
    }
    r as i128
}

/// A vector, or a point, in three dimensions.
#[derive(Clone, Copy, Debug, PartialEq, Eq, Structural)]
pub struct Vec3 {
    pub x: Scalar,
    pub y: Scalar,
    pub z: Scalar,
}

impl Vec3 {
    /// The vector with the given components.
    #[verifier::allow_in_spec]
    pub fn new(x: Scalar, y: Scalar, z: Scalar) -> Vec3
        returns
            (Vec3 { x, y, z }),
    {
        Vec3 { x, y, z }
    }

    /// The vector of three whole numbers.
    #[verifier::allow_in_spec]
    pub fn from_ints(x: i32, y: i32, z: i32) -> Vec3
        returns
            (Vec3 { x: Scalar::from_int(x), y: Scalar::from_int(y), z: Scalar::from_int(z) }),
    {
        Vec3 { x: Scalar::from_int(x), y: Scalar::from_int(y), z: Scalar::from_int(z) }
    }

    /// The zero vector.
    #[verifier::allow_in_spec]
    pub fn zero() -> Vec3
        returns
            (Vec3 { x: Scalar::zero(), y: Scalar::zero(), z: Scalar::zero() }),
    {
        Vec3 { x: Scalar::zero(), y: Scalar::zero(), z: Scalar::zero() }
    }

    /// The vector whose three components are one.
    #[verifier::allow_in_spec]
    pub fn all_ones() -> Vec3
        returns
            (Vec3 { x: Scalar::one(), y: Scalar::one(), z: Scalar::one() }),
    {
        Vec3 { x: Scalar::one(), y: Scalar::one(), z: Scalar::one() }
    }

    /// The component along `axis`.
    #[verifier::allow_in_spec]
    pub fn get(self, axis: Coord) -> Scalar
        returns
            (match axis {
                Coord::X => self.x,
                Coord::Y => self.y,
                Coord::Z => self.z,
            }),
    {
        match axis {
            Coord::X => self.x,
            Coord::Y => self.y,
            Coord::Z => self.z,
        }
    }

    /// The vector with the component along `axis` replaced by `value`.
    #[verifier::allow_in_spec]
    pub fn with(self, axis: Coord, value: Scalar) -> Vec3
        returns
            (match axis {
                Coord::X => Vec3 { x: value, y: self.y, z: self.z },
                Coord::Y => Vec3 { x: self.x, y: value, z: self.z },
                Coord::Z => Vec3 { x: self.x, y: self.y, z: value },
            }),
    {
        match axis {
            Coord::X => Vec3 { x: value, y: self.y, z: self.z },
            Coord::Y => Vec3 { x: self.x, y: value, z: self.z },
            Coord::Z => Vec3 { x: self.x, y: self.y, z: value },
        }
    }

    /// The sum, component by component.
    #[verifier::allow_in_spec]
    pub fn add(self, rhs: Vec3) -> Vec3
        returns
            (Vec3 { x: self.x.add(rhs.x), y: self.y.add(rhs.y), z: self.z.add(rhs.z) }),
    {
        Vec3 { x: self.x.add(rhs.x), y: self.y.add(rhs.y), z: self.z.add(rhs.z) }
    }

    /// The difference, component by component.
    #[verifier::allow_in_spec]
    pub fn sub(self, rhs: Vec3) -> Vec3
        returns
            (Vec3 { x: self.x.sub(rhs.x), y: self.y.sub(rhs.y), z: self.z.sub(rhs.z) }),
    {
        Vec3 { x: self.x.sub(rhs.x), y: self.y.sub(rhs.y), z: self.z.sub(rhs.z) }
    }

    /// The opposite vector.
    #[verifier::allow_in_spec]
    pub fn neg(self) -> Vec3
        returns
            (Vec3 { x: self.x.neg(), y: self.y.neg(), z: self.z.neg() }),
    {
        Vec3 { x: self.x.neg(), y: self.y.neg(), z: self.z.neg() }
    }

    /// The vector stretched by the factor `k`.
    #[verifier::allow_in_spec]
    pub fn scale(self, k: Scalar) -> Vec3
        returns
            (Vec3 { x: self.x.mul(k), y: self.y.mul(k), z: self.z.mul(k) }),
    {
        Vec3 { x: self.x.mul(k), y: self.y.mul(k), z: self.z.mul(k) }
    }

    /// The vector shrunk by the divisor `k`; the zero vector where `k` is zero.
    #[verifier::allow_in_spec]
    pub fn div(self, k: Scalar) -> Vec3
        returns
            (Vec3 { x: self.x.div(k), y: self.y.div(k), z: self.z.div(k) }),
    {
        Vec3 { x: self.x.div(k), y: self.y.div(k), z: self.z.div(k) }
    }

    /// The vector stretched by `num / den`, each component rounded once.
    #[verifier::allow_in_spec]
    pub fn mul_ratio(self, num: i32, den: i32) -> Vec3
        returns
            (Vec3 {
                x: self.x.mul_ratio(num, den),
                y: self.y.mul_ratio(num, den),
                z: self.z.mul_ratio(num, den),
            }),
    {
        Vec3 {
            x: self.x.mul_ratio(num, den),
            y: self.y.mul_ratio(num, den),
            z: self.z.mul_ratio(num, den),
        }
    }

    /// The product of the two vectors, component by component.
    #[verifier::allow_in_spec]
    pub fn component_product(self, rhs: Vec3) -> Vec3
        returns
            (Vec3 { x: self.x.mul(rhs.x), y: self.y.mul(rhs.y), z: self.z.mul(rhs.z) }),
    {
        Vec3 { x: self.x.mul(rhs.x), y: self.y.mul(rhs.y), z: self.z.mul(rhs.z) }
    }

    /// The dot product: the three products are summed exactly and the sum is
    /// rounded once.
    #[verifier::allow_in_spec]
    pub fn dot(self, rhs: Vec3) -> Scalar
        returns
            (Scalar {
                raw: saturate(
                    toward_zero(
                        self.x.raw * rhs.x.raw + self.y.raw * rhs.y.raw + self.z.raw * rhs.z.raw,
                        SCALE as int,
                    ),
                ) as i32,
            }),
    {
        let s: i128 = wide_product(self.x.raw, rhs.x.raw) + wide_product(self.y.raw, rhs.y.raw)
            + wide_product(self.z.raw, rhs.z.raw);
        Scalar { raw: narrow(wide_quotient(s, SCALE as i128)) }
    }

    /// The cross product: each component is a difference of two exact
    /// products, rounded once.
    #[verifier::allow_in_spec]
    pub fn cross(self, rhs: Vec3) -> Vec3
        returns
            (Vec3 {
                x: Scalar {
                    raw: saturate(
                        toward_zero(
                            self.y.raw * rhs.z.raw - self.z.raw * rhs.y.raw,
                            SCALE as int,
                        ),
                    ) as i32,
                },
                y: Scalar {
                    raw: saturate(
                        toward_zero(
                            self.z.raw * rhs.x.raw - self.x.raw * rhs.z.raw,
                            SCALE as int,
                        ),
                    ) as i32,
                },
                z: Scalar {
                    raw: saturate(
                        toward_zero(
                            self.x.raw * rhs.y.raw - self.y.raw * rhs.x.raw,
                            SCALE as int,
                        ),
                    ) as i32,
                },
            }),
    {
        let cx: i128 = wide_product(self.y.raw, rhs.z.raw) - wide_product(self.z.raw, rhs.y.raw);
        let cy: i128 = wide_product(self.z.raw, rhs.x.raw) - wide_product(self.x.raw, rhs.z.raw);
        let cz: i128 = wide_product(self.x.raw, rhs.y.raw) - wide_product(self.y.raw, rhs.x.raw);
        Vec3 {
            x: Scalar { raw: narrow(wide_quotient(cx, SCALE as i128)) },
            y: Scalar { raw: narrow(wide_quotient(cy, SCALE as i128)) },
            z: Scalar { raw: narrow(wide_quotient(cz, SCALE as i128)) },
        }
    }

    /// The exact sum of the squares of the three raw counts.
    pub open spec fn raw_norme_square(self) -> int {
        sum_of_squares(self.x.raw as int, self.y.raw as int, self.z.raw as int)
    }

    /// The length in raw units, before it is held inside the range: the
    /// integer square root of the exact sum of squares.
    pub open spec fn raw_norme(self) -> int {
        root(self.raw_norme_square())
    }

    /// The square of the length: the three squares are summed exactly and
    /// the sum is rounded once.
    #[verifier::allow_in_spec]
    pub fn norme_square(self) -> Scalar
        returns
            (Scalar { raw: saturate(toward_zero(self.raw_norme_square(), SCALE as int)) as i32 }),
    {
        let n = wide_sum_of_squares(self.x.raw as i64, self.y.raw as i64, self.z.raw as i64);
        Scalar { raw: narrow(wide_quotient(n as i128, SCALE as i128)) }
    }

    /// The length: the integer square root of the exact sum of squares.
    #[verifier::allow_in_spec]
    pub fn norme(self) -> Scalar
        returns
            (Scalar { raw: saturate(self.raw_norme()) as i32 }),
    {
        Scalar { raw: narrow(wide_length(self.x.raw as i64, self.y.raw as i64, self.z.raw as i64)) }
    }

    /// The distance to `rhs`: the length of the exact difference.
    #[verifier::allow_in_spec]
    pub fn dist(self, rhs: Vec3) -> Scalar
        returns
            (Scalar {
                raw: saturate(
                    root(
                        sum_of_squares(
                            self.x.raw - rhs.x.raw,
                            self.y.raw - rhs.y.raw,
                            self.z.raw - rhs.z.raw,
                        ),
                    ),
                ) as i32,
            }),
    {
        Scalar {
            raw: narrow(
                wide_length(
                    self.x.raw as i64 - rhs.x.raw as i64,
                    self.y.raw as i64 - rhs.y.raw as i64,
                    self.z.raw as i64 - rhs.z.raw as i64,
                ),
            ),
        }
    }

    /// The vector of length one along `self`: each component over the
    /// length, rounded once; the zero vector where `self` has no length.
    #[verifier::allow_in_spec]
    pub fn normalise(self) -> Vec3
        returns
            (Vec3 {
                x: Scalar {
                    raw: saturate(toward_zero(self.x.raw * SCALE, self.raw_norme())) as i32,
                },
                y: Scalar {
                    raw: saturate(toward_zero(self.y.raw * SCALE, self.raw_norme())) as i32,
                },
                z: Scalar {
                    raw: saturate(toward_zero(self.z.raw * SCALE, self.raw_norme())) as i32,
                },
            }),
    {
        let len = wide_length(self.x.raw as i64, self.y.raw as i64, self.z.raw as i64);
        Vec3 {
            x: Scalar { raw: narrow(wide_quotient(wide_product(self.x.raw, SCALE), len)) },
            y: Scalar { raw: narrow(wide_quotient(wide_product(self.y.raw, SCALE), len)) },
            z: Scalar { raw: narrow(wide_quotient(wide_product(self.z.raw, SCALE), len)) },
        }
    }

    /// Each component held between its own two bounds.
    #[verifier::allow_in_spec]
    pub fn clamp(
        self,
        min_x: Scalar,
        min_y: Scalar,
        min_z: Scalar,
        max_x: Scalar,
        max_y: Scalar,
        max_z: Scalar,
    ) -> Vec3
        returns
            (Vec3 {
                x: self.x.clamp(min_x, max_x),
                y: self.y.clamp(min_y, max_y),
                z: self.z.clamp(min_z, max_z),
            }),
    {
        Vec3 {
            x: self.x.clamp(min_x, max_x),
            y: self.y.clamp(min_y, max_y),
            z: self.z.clamp(min_z, max_z),
        }
    }
}

/// The integer square root of a sum of squares is no less than the size of
/// any of the numbers squared.
pub proof fn lemma_root_covers_each(x: int, y: int, z: int)
    ensures
        root(sum_of_squares(x, y, z)) >= x,
        root(sum_of_squares(x, y, z)) >= -x,
        root(sum_of_squares(x, y, z)) >= y,
        root(sum_of_squares(x, y, z)) >= -y,
        root(sum_of_squares(x, y, z)) >= z,
        root(sum_of_squares(x, y, z)) >= -z,
        root(sum_of_squares(x, y, z)) >= 0,
{
    reveal(sum_of_squares);
    let n = sum_of_squares(x, y, z);
    assert(x * x >= 0 && y * y >= 0 && z * z >= 0) by (nonlinear_arith);
    lemma_root_exists(n);
    let r = root(n);
    assert(is_root(n, r));
    lemma_root_above(x, n, r);
    lemma_root_above(-x, n, r);
    lemma_root_above(y, n, r);
    lemma_root_above(-y, n, r);
    lemma_root_above(z, n, r);
    lemma_root_above(-z, n, r);
    assert((-x) * (-x) == x * x && (-y) * (-y) == y * y && (-z) * (-z) == z * z)
        by (nonlinear_arith);
}

/// A number whose square does not exceed `n` does not exceed the integer
/// square root of `n`.
proof fn lemma_root_above(a: int, n: int, r: int)
    requires
        is_root(n, r),
    ensures
        a * a <= n ==> a <= r,
{
    if a * a <= n && a > r {
        assert(a * a >= (r + 1) * (r + 1)) by (nonlinear_arith)
            requires
                a >= r + 1,
                r >= 0,
        ;
    }
}

/// Every number from zero up has an integer square root.
pub proof fn lemma_root_exists(n: int)
    requires
        n >= 0,
    ensures
        is_root(n, root(n)),
    decreases n,
{
    if n == 0 {
        assert(is_root(0, 0));
    } else {
        lemma_root_exists(n - 1);
        let r = root(n - 1);
        assert(is_root(n - 1, r));
        if n < (r + 1) * (r + 1) {
            assert(is_root(n, r));
        } else {
            assert((r + 2) * (r + 2) > (r + 1) * (r + 1)) by (nonlinear_arith)
                requires
                    r >= 0,
            ;
            assert(is_root(n, r + 1));
        }
    }
}

/// A vector brought to length one has no component beyond one, either way.
pub proof fn lemma_normalise_within_one(v: Vec3)
    ensures
        -SCALE <= v.normalise().x.raw <= SCALE,
        -SCALE <= v.normalise().y.raw <= SCALE,
        -SCALE <= v.normalise().z.raw <= SCALE,
{
    let r = root(sum_of_squares(v.x.raw as int, v.y.raw as int, v.z.raw as int));
    lemma_root_covers_each(v.x.raw as int, v.y.raw as int, v.z.raw as int);
    lemma_quotient_within_scale(v.x.raw as int, r);
    lemma_quotient_within_scale(v.y.raw as int, r);
    lemma_quotient_within_scale(v.z.raw as int, r);
}

/// A number over a divisor that is no less than its size gives no more than
/// one, either way.
proof fn lemma_quotient_within_scale(a: int, r: int)
    requires
        -r <= a <= r,
    ensures
        -SCALE <= saturate(toward_zero(a * SCALE, r)) <= SCALE,
{
    reveal(saturate);
    reveal(toward_zero);
    if r > 0 {
        if a >= 0 {
            assert(0 <= (a * SCALE) / r <= SCALE) by (nonlinear_arith)
                requires
                    0 <= a <= r,
                    r > 0,
                    SCALE == 20480,
            ;
        } else {
            assert(-(a * SCALE) == (-a) * SCALE) by (nonlinear_arith);
            assert(0 <= ((-a) * SCALE) / r <= SCALE) by (nonlinear_arith)
                requires
                    0 <= -a <= r,
                    r > 0,
                    SCALE == 20480,
            ;
        }
    } else {
        assert(a == 0);
    }
}

} // verus!
