//! Orientations (three angles) and the rotations they stand for.
//!
//! Angles are fixed-point radians. Sines come from the Taylor polynomials of
//! the sine and the cosine about zero, each used on an eighth of a turn only,
//! which keeps them within a raw unit or two of the true sine. They are
//! exact at every quarter turn, so that the rotation of the zero orientation
//! is exactly the identity, and they never exceed one in size.

use crate::geometry::vec3d::Vec3;
use crate::scalar::{
    lemma_product_bound, lemma_toward_zero_exact, saturate, toward_zero, wide_quotient, Scalar,
    SCALE,
};
use vstd::arithmetic::div_mod::lemma_fundamental_div_mod_converse;
use vstd::prelude::*;

verus! {

/// Half a turn, in raw units of a radian.
pub const PI: i32 = 64340;

/// A quarter turn, in raw units of a radian.
pub const HALF_PI: i32 = 32170;

/// A whole turn, in raw units of a radian.
pub const TWO_PI: i32 = 128680;

/// An eighth of a turn, in raw units of a radian.
pub const QUARTER_PI: i32 = 16085;

/// The second power of the scale.
pub const SCALE_2: i128 = 419_430_400;

/// The fourth power of the scale.
pub const SCALE_4: i128 = 175_921_860_444_160_000;

/// The fifth power of the scale.
pub const SCALE_5: i128 = 3_602_879_701_896_396_800_000;

/// The sixth power of the scale.
pub const SCALE_6: i128 = 73_786_976_294_838_206_464_000_000;

/// The angle brought into the first whole turn.
pub open spec fn wrap_angle(a: int) -> int {
    a % (TWO_PI as int)
}

/// The value `v` held between nothing and one, in raw units.
pub open spec fn within_unit(v: int) -> int {
    if v < 0 {
        0
    } else if v > SCALE {
        SCALE as int
    } else {
        v
    }
}

/// The sine of an angle `x` of the first eighth of a turn, in raw units:
/// its Taylor polynomial `x - x^3/6 + x^5/120`, rounded once.
pub open spec fn sine_polynomial(x: int) -> int {
    let x2 = x * x;
    let x3 = x2 * x;
    let x5 = x3 * x2;
    within_unit(toward_zero(120 * SCALE_4 * x - 20 * SCALE_2 * x3 + x5, 120 * SCALE_4))
}

/// The cosine of an angle `x` of the first eighth of a turn, in raw units:
/// its Taylor polynomial `1 - x^2/2 + x^4/24 - x^6/720`, rounded once.
pub open spec fn cosine_polynomial(x: int) -> int {
    let x2 = x * x;
    let x4 = x2 * x2;
    let x6 = x4 * x2;
    within_unit(
        toward_zero(720 * SCALE_6 - 360 * SCALE_4 * x2 + 30 * SCALE_2 * x4 - x6, 720 * SCALE_5),
    )
}

/// The sine of an angle `x` of the first quarter turn: its own polynomial
/// up to an eighth of a turn, and beyond that the polynomial of the cosine
/// of what is left to the quarter turn.
pub open spec fn sine_on_quarter(x: int) -> int {
    if x <= QUARTER_PI {
        sine_polynomial(x)
    } else {
        cosine_polynomial(HALF_PI - x)
    }
}

/// The sine of an angle `x` between zero and half a turn: beyond a quarter
/// turn, the sine of what is left to the half turn.
pub open spec fn sine_on_arc(x: int) -> int {
    if x <= HALF_PI {
        sine_on_quarter(x)
    } else {
        sine_on_quarter(PI - x)
    }
}

/// The sine of any angle, in raw units.
#[verifier::opaque]
pub open spec fn sine(a: int) -> int {
    let w = wrap_angle(a);
    if w <= PI {
        sine_on_arc(w)
    } else {
        -sine_on_arc(w - PI)
    }
}

/// The cosine of any angle, in raw units: the sine a quarter turn later.
pub open spec fn cosine(a: int) -> int {
    sine(a + HALF_PI)
}

/// The sine of any angle lies between minus one and one.
pub proof fn lemma_sine_bounds(a: int)
    ensures
        -SCALE <= sine(a) <= SCALE,
        -SCALE <= cosine(a) <= SCALE,
{
    reveal(sine);
}

/// The sine of zero is zero and its cosine is one.
pub proof fn lemma_sine_at_zero()
    ensures
        sine(0) == 0,
        cosine(0) == SCALE,
{
    reveal(sine);
    reveal(toward_zero);
    assert(wrap_angle(0) == 0);
    assert(sine_polynomial(0) == 0) by {
        assert(120 * SCALE_4 * 0 - 20 * SCALE_2 * ((0int * 0) * 0) + ((0int * 0) * 0) * (0int * 0)
            == 0);
    }
    assert(wrap_angle(HALF_PI as int) == HALF_PI);
    assert(cosine_polynomial(0) == SCALE) by {
        assert(720 * SCALE_6 - 360 * SCALE_4 * (0int * 0) + 30 * SCALE_2 * ((0int * 0) * (0int
            * 0)) - ((0int * 0) * (0int * 0)) * (0int * 0) == 20480 * (720 * SCALE_5));
        lemma_toward_zero_exact(20480, 720 * SCALE_5);
    }
}

/// The sine of an angle of the first eighth of a turn.
fn sin_polynomial(x: i32) -> (r: i32)
    requires
        0 <= x <= QUARTER_PI,
    ensures
        r == sine_polynomial(x as int),
        0 <= r <= SCALE,
{
    let x1: i128 = x as i128;
    proof {
        lemma_product_bound(x1 as int, x1 as int, 0x4000, 0x4000);
        assert(x1 * x1 >= 0) by (nonlinear_arith)
            requires
                x1 >= 0,
        ;
    }
    let x2: i128 = x1 * x1;
    proof {
        lemma_product_bound(x2 as int, x1 as int, 0x1000_0000, 0x4000);
        assert(x2 * x1 >= 0) by (nonlinear_arith)
            requires
                x2 >= 0,
                x1 >= 0,
        ;
    }
    let x3: i128 = x2 * x1;
    proof {
        lemma_product_bound(x3 as int, x2 as int, 0x400_0000_0000, 0x1000_0000);
        assert(x3 * x2 >= 0) by (nonlinear_arith)
            requires
                x3 >= 0,
                x2 >= 0,
        ;
    }
    let x5: i128 = x3 * x2;
    // 120 times the fourth power of the scale, 20 times its second power
    let first: i128 = 21_110_623_253_299_200_000 * x1;
    let third: i128 = 8_388_608_000 * x3;
    let value = wide_quotient(first - third + x5, 21_110_623_253_299_200_000);
    if value < 0 {
        0
    } else if value > SCALE as i128 {
        SCALE
    } else {
        value as i32
    }
}

/// The cosine of an angle of the first eighth of a turn.
fn cos_polynomial(x: i32) -> (r: i32)
    requires
        0 <= x <= QUARTER_PI,
    ensures
        r == cosine_polynomial(x as int),
        0 <= r <= SCALE,
{
    let x1: i128 = x as i128;
    proof {
        lemma_product_bound(x1 as int, x1 as int, 0x4000, 0x4000);
        assert(x1 * x1 >= 0) by (nonlinear_arith)
            requires
                x1 >= 0,
        ;
    }
    let x2: i128 = x1 * x1;
    proof {
        lemma_product_bound(x2 as int, x2 as int, 0x1000_0000, 0x1000_0000);
        assert(x2 * x2 >= 0) by (nonlinear_arith)
            requires
                x2 >= 0,
        ;
    }
    let x4: i128 = x2 * x2;
    proof {
        lemma_product_bound(x4 as int, x2 as int, 0x100_0000_0000_0000, 0x1000_0000);
        assert(x4 * x2 >= 0) by (nonlinear_arith)
            requires
                x4 >= 0,
                x2 >= 0,
        ;
    }
    let x6: i128 = x4 * x2;
    // 360 times the fourth power of the scale, 30 times its second power;
    // below, 720 times its sixth and fifth powers
    let second: i128 = 63_331_869_759_897_600_000 * x2;
    let fourth: i128 = 12_582_912_000 * x4;
    let value = wide_quotient(
        53_126_622_932_283_508_654_080_000_000 - second + fourth - x6,
        2_594_073_385_365_405_696_000_000,
    );
    if value < 0 {
        0
    } else if value > SCALE as i128 {
        SCALE
    } else {
        value as i32
    }
}

/// The sine of an angle between zero and half a turn.
fn sin_on_arc(x: i32) -> (r: i32)
    requires
        0 <= x <= PI,
    ensures
        r == sine_on_arc(x as int),
        0 <= r <= SCALE,
{
    let q: i32 = if x <= HALF_PI {
        x
    } else {
        PI - x
    };
    if q <= QUARTER_PI {
        sin_polynomial(q)
    } else {
        cos_polynomial(HALF_PI - q)
    }
}

/// The angle brought into the first whole turn.
fn wrap(a: i64) -> (w: i32)
    requires
        -0x1_0000_0000 <= a <= 0x1_0000_0000,
    ensures
        w == wrap_angle(a as int),
        0 <= w < TWO_PI,
{
    if a >= 0 {
        (a % (TWO_PI as i64)) as i32
    } else {
        let n: i64 = -a;
        let k: i64 = n % (TWO_PI as i64);
        let ghost q = n as int / TWO_PI as int;
        proof {
            assert(n == q * TWO_PI + k) by (nonlinear_arith)
                requires
                    q == n as int / TWO_PI as int,
                    k == n as int % TWO_PI as int,
            ;
        }
        if k == 0 {
            proof {
                assert(a == (-q) * TWO_PI + 0) by (nonlinear_arith)
                    requires
                        a == -n,
                        n == q * TWO_PI + k,
                        k == 0,
                ;
                lemma_fundamental_div_mod_converse(a as int, TWO_PI as int, -q, 0);
            }
            0
        } else {
            proof {
                assert(a == (-q - 1) * TWO_PI + (TWO_PI - k)) by (nonlinear_arith)
                    requires
                        a == -n,
                        n == q * TWO_PI + k,
                ;
                lemma_fundamental_div_mod_converse(
                    a as int,
                    TWO_PI as int,
                    -q - 1,
                    TWO_PI - k,
                );
            }
            (TWO_PI as i64 - k) as i32
        }
    }
}

/// The sine of an angle of the first whole turn.
fn sin_of_wrapped(w: i32) -> (r: i32)
    requires
        0 <= w < TWO_PI,
    ensures
        r == if w <= PI {
            sine_on_arc(w as int)
        } else {
            -sine_on_arc(w - PI)
        },
        -SCALE <= r <= SCALE,
{
    if w <= PI {
        sin_on_arc(w)
    } else {
        -sin_on_arc(w - PI)
    }
}

/// The sine of `angle`.
#[verifier::allow_in_spec]
pub fn sin(angle: Scalar) -> Scalar
    returns
        (Scalar { raw: sine(angle.raw as int) as i32 }),
{
    proof {
        reveal(sine);
    }
    Scalar { raw: sin_of_wrapped(wrap(angle.raw as i64)) }
}

/// The cosine of `angle`.
#[verifier::allow_in_spec]
pub fn cos(angle: Scalar) -> Scalar
    returns
        (Scalar { raw: cosine(angle.raw as int) as i32 }),
{
    proof {
        reveal(sine);
    }
    Scalar { raw: sin_of_wrapped(wrap(angle.raw as i64 + HALF_PI as i64)) }
}

/// An orientation: a turn about the vertical axis (`yaw`), about the
/// sideways axis (`pitch`) and about the forward axis (`roll`). The same
/// three numbers also hold a rate of turning.
#[derive(Clone, Copy, Debug, PartialEq, Eq, Structural)]
pub struct Orientation {
    pub yaw: Scalar,
    pub pitch: Scalar,
    pub roll: Scalar,
}

impl Orientation {
    /// The orientation with the given angles.
    #[verifier::allow_in_spec]
    pub fn new(yaw: Scalar, pitch: Scalar, roll: Scalar) -> Orientation
        returns
            (Orientation { yaw, pitch, roll }),
    {
        Orientation { yaw, pitch, roll }
    }

    /// The orientation that turns nothing.
    #[verifier::allow_in_spec]
    pub fn zero() -> Orientation
        returns
            (Orientation { yaw: Scalar::zero(), pitch: Scalar::zero(), roll: Scalar::zero() }),
    {
        Orientation { yaw: Scalar::zero(), pitch: Scalar::zero(), roll: Scalar::zero() }
    }

    /// The sum, angle by angle.
    #[verifier::allow_in_spec]
    pub fn add(self, rhs: Orientation) -> Orientation
        returns
            (Orientation {
                yaw: self.yaw.add(rhs.yaw),
                pitch: self.pitch.add(rhs.pitch),
                roll: self.roll.add(rhs.roll),
            }),
    {
        Orientation {
            yaw: self.yaw.add(rhs.yaw),
            pitch: self.pitch.add(rhs.pitch),
            roll: self.roll.add(rhs.roll),
        }
    }

    /// The opposite angles.
    #[verifier::allow_in_spec]
    pub fn neg(self) -> Orientation
        returns
            (Orientation { yaw: self.yaw.neg(), pitch: self.pitch.neg(), roll: self.roll.neg() }),
    {
        Orientation { yaw: self.yaw.neg(), pitch: self.pitch.neg(), roll: self.roll.neg() }
    }

    /// The angles stretched by the factor `k`.
    #[verifier::allow_in_spec]
    pub fn scale(self, k: Scalar) -> Orientation
        returns
            (Orientation {
                yaw: self.yaw.mul(k),
                pitch: self.pitch.mul(k),
                roll: self.roll.mul(k),
            }),
    {
        Orientation { yaw: self.yaw.mul(k), pitch: self.pitch.mul(k), roll: self.roll.mul(k) }
    }

    /// The angles stretched by `num / den`, each rounded once.
    #[verifier::allow_in_spec]
    pub fn mul_ratio(self, num: i32, den: i32) -> Orientation
        returns
            (Orientation {
                yaw: self.yaw.mul_ratio(num, den),
                pitch: self.pitch.mul_ratio(num, den),
                roll: self.roll.mul_ratio(num, den),
            }),
    {
        Orientation {
            yaw: self.yaw.mul_ratio(num, den),
            pitch: self.pitch.mul_ratio(num, den),
            roll: self.roll.mul_ratio(num, den),
        }
    }
}

/// A rotation about the origin, held as the three rows of its matrix.
#[derive(Clone, Copy, Debug, PartialEq, Eq, Structural)]
pub struct Rotation {
    pub row_x: Vec3,
    pub row_y: Vec3,
    pub row_z: Vec3,
}

impl Rotation {
    /// The rotation that moves nothing.
    #[verifier::allow_in_spec]
    pub fn identity() -> Rotation
        returns
            (Rotation {
                row_x: Vec3 { x: Scalar::one(), y: Scalar::zero(), z: Scalar::zero() },
                row_y: Vec3 { x: Scalar::zero(), y: Scalar::one(), z: Scalar::zero() },
                row_z: Vec3 { x: Scalar::zero(), y: Scalar::zero(), z: Scalar::one() },
            }),
    {
        Rotation {
            row_x: Vec3 { x: Scalar::one(), y: Scalar::zero(), z: Scalar::zero() },
            row_y: Vec3 { x: Scalar::zero(), y: Scalar::one(), z: Scalar::zero() },
            row_z: Vec3 { x: Scalar::zero(), y: Scalar::zero(), z: Scalar::one() },
        }
    }

    /// The rotation of an orientation: the roll is applied first, then the
    /// pitch, then the yaw.
    #[verifier::allow_in_spec]
    pub fn from_orientation(o: Orientation) -> Rotation
        returns
            (Rotation {
                row_x: Vec3 {
                    x: cos(o.yaw).mul(cos(o.pitch)),
                    y: cos(o.yaw).mul(sin(o.pitch)).mul(sin(o.roll)).sub(
                        sin(o.yaw).mul(cos(o.roll)),
                    ),
                    z: cos(o.yaw).mul(sin(o.pitch)).mul(cos(o.roll)).add(
                        sin(o.yaw).mul(sin(o.roll)),
                    ),
                },
                row_y: Vec3 {
                    x: sin(o.yaw).mul(cos(o.pitch)),
                    y: sin(o.yaw).mul(sin(o.pitch)).mul(sin(o.roll)).add(
                        cos(o.yaw).mul(cos(o.roll)),
                    ),
                    z: sin(o.yaw).mul(sin(o.pitch)).mul(cos(o.roll)).sub(
                        cos(o.yaw).mul(sin(o.roll)),
                    ),
                },
                row_z: Vec3 {
                    x: sin(o.pitch).neg(),
                    y: cos(o.pitch).mul(sin(o.roll)),
                    z: cos(o.pitch).mul(cos(o.roll)),
                },
            }),
    {
        let sy = sin(o.yaw);
        let cy = cos(o.yaw);
        let sp = sin(o.pitch);
        let cp = cos(o.pitch);
        let sr = sin(o.roll);
        let cr = cos(o.roll);
        Rotation {
            row_x: Vec3 {
                x: cy.mul(cp),
                y: cy.mul(sp).mul(sr).sub(sy.mul(cr)),
                z: cy.mul(sp).mul(cr).add(sy.mul(sr)),
            },
            row_y: Vec3 {
                x: sy.mul(cp),
                y: sy.mul(sp).mul(sr).add(cy.mul(cr)),
                z: sy.mul(sp).mul(cr).sub(cy.mul(sr)),
            },
            row_z: Vec3 { x: sp.neg(), y: cp.mul(sr), z: cp.mul(cr) },
        }
    }

    /// The point `v` turned about the origin.
    #[verifier::allow_in_spec]
    pub fn rotate(self, v: Vec3) -> Vec3
        returns
            (Vec3 { x: self.row_x.dot(v), y: self.row_y.dot(v), z: self.row_z.dot(v) }),
    {
        Vec3 { x: self.row_x.dot(v), y: self.row_y.dot(v), z: self.row_z.dot(v) }
    }
}

/// The identity moves no point.
pub proof fn lemma_identity_rotates_nothing(v: Vec3)
    ensures
        Rotation::identity().rotate(v) == v,
{
    reveal(saturate);
    lemma_toward_zero_exact(v.x.raw as int, SCALE as int);
    lemma_toward_zero_exact(v.y.raw as int, SCALE as int);
    lemma_toward_zero_exact(v.z.raw as int, SCALE as int);
    assert(SCALE * v.x.raw + 0 * v.y.raw + 0 * v.z.raw == v.x.raw * SCALE) by (nonlinear_arith);
    assert(0 * v.x.raw + SCALE * v.y.raw + 0 * v.z.raw == v.y.raw * SCALE) by (nonlinear_arith);
    assert(0 * v.x.raw + 0 * v.y.raw + SCALE * v.z.raw == v.z.raw * SCALE) by (nonlinear_arith);
}

/// The zero orientation stands for the identity.
pub proof fn lemma_zero_orientation_is_identity()
    ensures
        Rotation::from_orientation(Orientation::zero()) == Rotation::identity(),
{
    reveal(saturate);
    reveal(toward_zero);
    lemma_sine_at_zero();
    assert(20480int * 20480 == 20480 * 20480) by (nonlinear_arith);
    lemma_toward_zero_exact(20480, 20480);
    assert(toward_zero(0, 20480) == 0);
    assert(20480int * 0 == 0);
    assert(0int * 20480 == 0);
    assert(0int * 0 == 0);
}

} // verus!
