//! Flat and round shapes: triangles and spheres, and whether they meet.

use crate::geometry::rotation::Rotation;
use crate::geometry::vec3d::Vec3;
use crate::scalar::{lemma_product_bound, Scalar};
use vstd::prelude::*;

verus! {

/// Six times the signed volume of the tetrahedron `a b c d`, in raw units
/// cubed: above zero where `d` sees `a b c` turn one way, below zero where
/// it sees them turn the other way, zero where the four lie in one plane.
pub open spec fn orient(a: Vec3, b: Vec3, c: Vec3, d: Vec3) -> int {
    let bx = b.x.raw - a.x.raw;
    let by = b.y.raw - a.y.raw;
    let bz = b.z.raw - a.z.raw;
    let cx = c.x.raw - a.x.raw;
    let cy = c.y.raw - a.y.raw;
    let cz = c.z.raw - a.z.raw;
    let dx = d.x.raw - a.x.raw;
    let dy = d.y.raw - a.y.raw;
    let dz = d.z.raw - a.z.raw;
    bx * (cy * dz - cz * dy) - by * (cx * dz - cz * dx) + bz * (cx * dy - cy * dx)
}

/// The exact difference of two products of differences of raw counts.
fn minor(p: i64, q: i64, r: i64, s: i64) -> (m: i128)
    requires
        -0x1_0000_0000 <= p <= 0x1_0000_0000,
        -0x1_0000_0000 <= q <= 0x1_0000_0000,
        -0x1_0000_0000 <= r <= 0x1_0000_0000,
        -0x1_0000_0000 <= s <= 0x1_0000_0000,
    ensures
        m == p * q - r * s,
        -0x2_0000_0000_0000_0000 <= m <= 0x2_0000_0000_0000_0000,
{
    proof {
        lemma_product_bound(p as int, q as int, 0x1_0000_0000, 0x1_0000_0000);
        lemma_product_bound(r as int, s as int, 0x1_0000_0000, 0x1_0000_0000);
    }
    p as i128 * q as i128 - r as i128 * s as i128
}

/// The exact product of a difference of raw counts and a minor.
fn cofactor(p: i64, m: i128) -> (r: i128)
    requires
        -0x1_0000_0000 <= p <= 0x1_0000_0000,
        -0x2_0000_0000_0000_0000 <= m <= 0x2_0000_0000_0000_0000,
    ensures
        r == p * m,
        -0x2_0000_0000_0000_0000_0000_0000 <= r <= 0x2_0000_0000_0000_0000_0000_0000,
{
    proof {
        lemma_product_bound(p as int, m as int, 0x1_0000_0000, 0x2_0000_0000_0000_0000);
    }
    p as i128 * m
}

/// Six times the signed volume of the tetrahedron `a b c d`.
pub fn orientation(a: Vec3, b: Vec3, c: Vec3, d: Vec3) -> (r: i128)
    ensures
        r == orient(a, b, c, d),
{
    let bx: i64 = b.x.raw as i64 - a.x.raw as i64;
    let by: i64 = b.y.raw as i64 - a.y.raw as i64;
    let bz: i64 = b.z.raw as i64 - a.z.raw as i64;
    let cx: i64 = c.x.raw as i64 - a.x.raw as i64;
    let cy: i64 = c.y.raw as i64 - a.y.raw as i64;
    let cz: i64 = c.z.raw as i64 - a.z.raw as i64;
    let dx: i64 = d.x.raw as i64 - a.x.raw as i64;
    let dy: i64 = d.y.raw as i64 - a.y.raw as i64;
    let dz: i64 = d.z.raw as i64 - a.z.raw as i64;
    cofactor(bx, minor(cy, dz, cz, dy)) - cofactor(by, minor(cx, dz, cz, dx)) + cofactor(
        bz,
        minor(cx, dy, cy, dx),
    )
}

/// A sphere.
#[derive(Clone, Copy, Debug, PartialEq, Eq, Structural)]
pub struct Sphere {
    pub center: Vec3,
    pub radius: Scalar,
}

impl Sphere {
    /// The sphere about `center` with the given radius.
    #[verifier::allow_in_spec]
    pub fn new(center: Vec3, radius: Scalar) -> Sphere
        returns
            (Sphere { center, radius }),
    {
        Sphere { center, radius }
    }
}

/// A flat face with three corners.
#[derive(Clone, Copy, Debug, PartialEq, Eq, Structural)]
pub struct Triangle {
    pub a: Vec3,
    pub b: Vec3,
    pub c: Vec3,
}

impl Triangle {
    /// The triangle with the given corners.
    #[verifier::allow_in_spec]
    pub fn new(points: [Vec3; 3]) -> Triangle
        returns
            (Triangle { a: points[0], b: points[1], c: points[2] }),
    {
        Triangle { a: points[0], b: points[1], c: points[2] }
    }

    /// The triangle turned about the origin.
    #[verifier::allow_in_spec]
    pub fn rotate_around_origin(self, rotation: &Rotation) -> Triangle
        returns
            (Triangle {
                a: rotation.rotate(self.a),
                b: rotation.rotate(self.b),
                c: rotation.rotate(self.c),
            }),
    {
        Triangle {
            a: rotation.rotate(self.a),
            b: rotation.rotate(self.b),
            c: rotation.rotate(self.c),
        }
    }

    /// The triangle moved by `offset`.
    #[verifier::allow_in_spec]
    pub fn add(self, offset: Vec3) -> Triangle
        returns
            (Triangle { a: self.a.add(offset), b: self.b.add(offset), c: self.c.add(offset) }),
    {
        Triangle { a: self.a.add(offset), b: self.b.add(offset), c: self.c.add(offset) }
    }

    /// Whether the segment from `p` to `q` passes through the triangle: its
    /// ends lie on the two sides of the triangle's plane, or one of them in
    /// it, and the line through them runs between the three edges. A segment
    /// that lies in the plane does not pass through.
    pub open spec fn crossed_by(self, p: Vec3, q: Vec3) -> bool {
        let sp = orient(self.a, self.b, self.c, p);
        let sq = orient(self.a, self.b, self.c, q);
        let o1 = orient(p, q, self.a, self.b);
        let o2 = orient(p, q, self.b, self.c);
        let o3 = orient(p, q, self.c, self.a);
        &&& (sp >= 0 && sq <= 0) || (sp <= 0 && sq >= 0)
        &&& !(sp == 0 && sq == 0)
        &&& (o1 >= 0 && o2 >= 0 && o3 >= 0) || (o1 <= 0 && o2 <= 0 && o3 <= 0)
    }

    /// Whether the segment from `p` to `q` passes through the triangle.
    pub fn is_crossed_by(&self, p: Vec3, q: Vec3) -> (r: bool)
        ensures
            r == self.crossed_by(p, q),
    {
        let sp = orientation(self.a, self.b, self.c, p);
        let sq = orientation(self.a, self.b, self.c, q);
        if !((sp >= 0 && sq <= 0) || (sp <= 0 && sq >= 0)) {
            return false;
        }
        if sp == 0 && sq == 0 {
            return false;
        }
        let o1 = orientation(p, q, self.a, self.b);
        let o2 = orientation(p, q, self.b, self.c);
        let o3 = orientation(p, q, self.c, self.a);
        (o1 >= 0 && o2 >= 0 && o3 >= 0) || (o1 <= 0 && o2 <= 0 && o3 <= 0)
    }

    /// Whether an edge of `other` passes through `self`.
    pub open spec fn crossed_by_an_edge_of(self, other: Triangle) -> bool {
        ||| self.crossed_by(other.a, other.b)
        ||| self.crossed_by(other.b, other.c)
        ||| self.crossed_by(other.c, other.a)
    }

    /// Whether the two triangles meet: an edge of one passes through the
    /// other.
    pub open spec fn meets(self, other: Triangle) -> bool {
        self.crossed_by_an_edge_of(other) || other.crossed_by_an_edge_of(self)
    }

    /// Whether the two triangles meet.
    pub fn intersect_with(&self, other: &Triangle) -> (r: bool)
        ensures
            r == self.meets(*other),
    {
        self.is_crossed_by(other.a, other.b) || self.is_crossed_by(other.b, other.c)
            || self.is_crossed_by(other.c, other.a) || other.is_crossed_by(self.a, self.b)
            || other.is_crossed_by(self.b, self.c) || other.is_crossed_by(self.c, self.a)
    }

    /// The point of the triangle that lies closest to `p`: a corner, a point
    /// of an edge or a point of the inside, by the region around the
    /// triangle in which `p` lies.
    #[verifier::allow_in_spec]
    pub fn closest_point(self, p: Vec3) -> Vec3
        returns
            ({
                let ab = self.b.sub(self.a);
                let ac = self.c.sub(self.a);
                let d1 = ab.dot(p.sub(self.a));
                let d2 = ac.dot(p.sub(self.a));
                let d3 = ab.dot(p.sub(self.b));
                let d4 = ac.dot(p.sub(self.b));
                let d5 = ab.dot(p.sub(self.c));
                let d6 = ac.dot(p.sub(self.c));
                let vc = d1.mul(d4).sub(d3.mul(d2));
                let vb = d5.mul(d2).sub(d1.mul(d6));
                let va = d3.mul(d6).sub(d5.mul(d4));
                if d1.raw <= 0 && d2.raw <= 0 {
                    self.a
                } else if d3.raw >= 0 && d4.raw <= d3.raw {
                    self.b
                } else if vc.raw <= 0 && d1.raw >= 0 && d3.raw <= 0 {
                    self.a.add(ab.scale(d1.div(d1.sub(d3))))
                } else if d6.raw >= 0 && d5.raw <= d6.raw {
                    self.c
                } else if vb.raw <= 0 && d2.raw >= 0 && d6.raw <= 0 {
                    self.a.add(ac.scale(d2.div(d2.sub(d6))))
                } else if va.raw <= 0 && d4.raw >= d3.raw && d5.raw >= d6.raw {
                    self.b.add(
                        self.c.sub(self.b).scale(d4.sub(d3).div(d4.sub(d3).add(d5.sub(d6)))),
                    )
                } else {
                    self.a.add(ab.scale(vb.div(va.add(vb).add(vc)))).add(
                        ac.scale(vc.div(va.add(vb).add(vc))),
                    )
                }
            }),
    {
        let ab = self.b.sub(self.a);
        let ac = self.c.sub(self.a);
        let d1 = ab.dot(p.sub(self.a));
        let d2 = ac.dot(p.sub(self.a));
        let d3 = ab.dot(p.sub(self.b));
        let d4 = ac.dot(p.sub(self.b));
        let d5 = ab.dot(p.sub(self.c));
        let d6 = ac.dot(p.sub(self.c));
        let vc = d1.mul(d4).sub(d3.mul(d2));
        let vb = d5.mul(d2).sub(d1.mul(d6));
        let va = d3.mul(d6).sub(d5.mul(d4));
        if d1.raw <= 0 && d2.raw <= 0 {
            self.a
        } else if d3.raw >= 0 && d4.raw <= d3.raw {
            self.b
        } else if vc.raw <= 0 && d1.raw >= 0 && d3.raw <= 0 {
            self.a.add(ab.scale(d1.div(d1.sub(d3))))
        } else if d6.raw >= 0 && d5.raw <= d6.raw {
            self.c
        } else if vb.raw <= 0 && d2.raw >= 0 && d6.raw <= 0 {
            self.a.add(ac.scale(d2.div(d2.sub(d6))))
        } else if va.raw <= 0 && d4.raw >= d3.raw && d5.raw >= d6.raw {
            self.b.add(self.c.sub(self.b).scale(d4.sub(d3).div(d4.sub(d3).add(d5.sub(d6)))))
        } else {
            let sum = va.add(vb).add(vc);
            self.a.add(ab.scale(vb.div(sum))).add(ac.scale(vc.div(sum)))
        }
    }

    /// Whether the sphere reaches the triangle: the closest point of the
    /// triangle to the sphere's centre lies no farther than the radius.
    #[verifier::allow_in_spec]
    pub fn intersect_with_sphere(self, sphere: Sphere) -> bool
        returns
            self.closest_point(sphere.center).dist(sphere.center).raw <= sphere.radius.raw,
    {
        self.closest_point(sphere.center).dist(sphere.center).raw <= sphere.radius.raw
    }
}

/// Two triangles meet whichever of them is asked.
pub proof fn lemma_triangles_meet_both_ways(s: Triangle, t: Triangle)
    ensures
        s.meets(t) == t.meets(s),
{
}

} // verus!
