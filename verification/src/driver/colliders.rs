//! Collision shapes: boxes, spheres, and colliders built of them in two
//! levels, with the tests that tell whether two of them meet.

use crate::game_map::{get_voxel_pos, GameMap};
use crate::geometry::rotation::{lemma_identity_rotates_nothing, Orientation, Rotation};
use crate::geometry::shapes_3d::{Sphere, Triangle};
use crate::geometry::vec3d::{sum_of_squares, Vec3};
use crate::scalar::{saturate, Scalar, SCALE};
use vstd::prelude::*;

verus! {

/// The size beyond which the corners of a turned box are no longer followed,
/// in whole units.
pub const ROTATION_REACH: i32 = 100000;

/// A box whose sides run along the axes, held by two opposite corners.
#[derive(Clone, Copy, Debug, PartialEq, Eq, Structural)]
pub struct AABB {
    pub max: Vec3,
    pub min: Vec3,
}

/// The least of `bound` and the numbers of `s`.
pub open spec fn least_of(bound: Scalar, s: Seq<Scalar>) -> Scalar
    decreases s.len(),
{
    if s.len() == 0 {
        bound
    } else {
        least_of(bound, s.drop_last()).min(s.last())
    }
}

/// The greatest of `bound` and the numbers of `s`.
pub open spec fn greatest_of(bound: Scalar, s: Seq<Scalar>) -> Scalar
    decreases s.len(),
{
    if s.len() == 0 {
        bound
    } else {
        greatest_of(bound, s.drop_last()).max(s.last())
    }
}

impl AABB {
    /// The least corner does not exceed the greatest along any axis.
    pub open spec fn wf(self) -> bool {
        &&& self.min.x.raw <= self.max.x.raw
        &&& self.min.y.raw <= self.max.y.raw
        &&& self.min.z.raw <= self.max.z.raw
    }

    /// The eight corners.
    pub open spec fn vertices(self) -> Seq<Vec3> {
        seq![
            self.max,
            self.min,
            Vec3 { x: self.max.x, y: self.min.y, z: self.min.z },
            Vec3 { x: self.min.x, y: self.max.y, z: self.min.z },
            Vec3 { x: self.min.x, y: self.min.y, z: self.max.z },
            Vec3 { x: self.max.x, y: self.max.y, z: self.min.z },
            Vec3 { x: self.max.x, y: self.min.y, z: self.max.z },
            Vec3 { x: self.min.x, y: self.max.y, z: self.max.z },
        ]
    }

    /// The four corners of the lower face, in turn around it.
    pub open spec fn ground_vertices(self) -> Seq<Vec3> {
        seq![
            self.min,
            Vec3 { x: self.max.x, y: self.min.y, z: self.min.z },
            Vec3 { x: self.max.x, y: self.max.y, z: self.min.z },
            Vec3 { x: self.min.x, y: self.max.y, z: self.min.z },
        ]
    }

    /// The four corners of the upper face, each above the corner of the
    /// lower face with the same index.
    pub open spec fn top_vertices(self) -> Seq<Vec3> {
        seq![
            Vec3 { x: self.min.x, y: self.min.y, z: self.max.z },
            Vec3 { x: self.max.x, y: self.min.y, z: self.max.z },
            self.max,
            Vec3 { x: self.min.x, y: self.max.y, z: self.max.z },
        ]
    }

    /// The twelve triangles of the surface, two for each face: top, bottom,
    /// back, front, right, left.
    pub open spec fn triangles(self) -> Seq<Triangle> {
        let top = self.top_vertices();
        let bot = self.ground_vertices();
        seq![
            Triangle { a: top[0], b: top[1], c: top[2] },
            Triangle { a: top[0], b: top[3], c: top[2] },
            Triangle { a: bot[0], b: bot[1], c: bot[2] },
            Triangle { a: bot[0], b: bot[3], c: bot[2] },
            Triangle { a: bot[0], b: top[0], c: top[1] },
            Triangle { a: bot[1], b: top[1], c: bot[0] },
            Triangle { a: bot[3], b: top[3], c: top[2] },
            Triangle { a: bot[2], b: top[2], c: bot[3] },
            Triangle { a: bot[1], b: top[1], c: top[2] },
            Triangle { a: bot[2], b: top[2], c: bot[1] },
            Triangle { a: bot[3], b: top[3], c: top[0] },
            Triangle { a: bot[0], b: top[0], c: bot[3] },
        ]
    }

    /// The eight corners.
    pub fn get_vertices(&self) -> (r: [Vec3; 8])
        ensures
            r@ == self.vertices(),
    {
        let r = [
            self.max,
            self.min,
            Vec3::new(self.max.x, self.min.y, self.min.z),
            Vec3::new(self.min.x, self.max.y, self.min.z),
            Vec3::new(self.min.x, self.min.y, self.max.z),
            Vec3::new(self.max.x, self.max.y, self.min.z),
            Vec3::new(self.max.x, self.min.y, self.max.z),
            Vec3::new(self.min.x, self.max.y, self.max.z),
        ];
        assert(r@ =~= self.vertices());
        r
    }

    /// The four corners of the lower face.
    pub fn get_ground_vertices(&self) -> (r: [Vec3; 4])
        ensures
            r@ == self.ground_vertices(),
    {
        let r = [
            self.min,
            Vec3::new(self.max.x, self.min.y, self.min.z),
            Vec3::new(self.max.x, self.max.y, self.min.z),
            Vec3::new(self.min.x, self.max.y, self.min.z),
        ];
        assert(r@ =~= self.ground_vertices());
        r
    }

    /// The four corners of the upper face.
    pub fn get_top_vertices(&self) -> (r: [Vec3; 4])
        ensures
            r@ == self.top_vertices(),
    {
        let r = [
            Vec3::new(self.min.x, self.min.y, self.max.z),
            Vec3::new(self.max.x, self.min.y, self.max.z),
            self.max,
            Vec3::new(self.min.x, self.max.y, self.max.z),
        ];
        assert(r@ =~= self.top_vertices());
        r
    }

    /// The twelve triangles of the surface.
    pub fn get_triangles(&self) -> (r: [Triangle; 12])
        ensures
            r@ == self.triangles(),
    {
        let top = self.get_top_vertices();
        let bot = self.get_ground_vertices();
        let r = [
            Triangle::new([top[0], top[1], top[2]]),
            Triangle::new([top[0], top[3], top[2]]),
            Triangle::new([bot[0], bot[1], bot[2]]),
            Triangle::new([bot[0], bot[3], bot[2]]),
            Triangle::new([bot[0], top[0], top[1]]),
            Triangle::new([bot[1], top[1], bot[0]]),
            Triangle::new([bot[3], top[3], top[2]]),
            Triangle::new([bot[2], top[2], bot[3]]),
            Triangle::new([bot[1], top[1], top[2]]),
            Triangle::new([bot[2], top[2], bot[1]]),
            Triangle::new([bot[3], top[3], top[0]]),
            Triangle::new([bot[0], top[0], bot[3]]),
        ];
        assert(r@ =~= self.triangles());
        r
    }

    /// The corner with the least coordinates.
    #[verifier::allow_in_spec]
    pub fn get_first_point(&self) -> Vec3
        returns
            self.min,
    {
        self.min
    }

    /// The corner with the greatest coordinates.
    #[verifier::allow_in_spec]
    pub fn get_second_point(&self) -> Vec3
        returns
            self.max,
    {
        self.max
    }

    /// The size of the shortest side.
    #[verifier::allow_in_spec]
    pub fn get_minimum_side_length(&self) -> Scalar
        returns
            self.max.x.sub(self.min.x).min(self.max.y.sub(self.min.y)).min(
                self.max.z.sub(self.min.z),
            ).abs(),
    {
        let sides = self.max.sub(self.min);
        sides.x.min(sides.y).min(sides.z).abs()
    }

    /// The box with the given corners, taken as they are.
    #[verifier::allow_in_spec]
    pub fn new_precomputed(min: Vec3, max: Vec3) -> AABB
        returns
            (AABB { max, min }),
    {
        AABB { max, min }
    }

    /// The box between two opposite corners, whichever way round they are
    /// given.
    pub fn new(point1: Vec3, point2: Vec3) -> (r: AABB)
        ensures
            r.wf(),
            r.min == Vec3::new(
                point1.x.min(point2.x),
                point1.y.min(point2.y),
                point1.z.min(point2.z),
            ),
            r.max == Vec3::new(
                point1.x.max(point2.x),
                point1.y.max(point2.y),
                point1.z.max(point2.z),
            ),
    {
        AABB {
            max: Vec3::new(
                point1.x.max(point2.x),
                point1.y.max(point2.y),
                point1.z.max(point2.z),
            ),
            min: Vec3::new(
                point1.x.min(point2.x),
                point1.y.min(point2.y),
                point1.z.min(point2.z),
            ),
        }
    }

    /// The two corners, the least first.
    #[verifier::allow_in_spec]
    pub fn get_both_points(&self) -> (Vec3, Vec3)
        returns
            (self.min, self.max),
    {
        (self.min, self.max)
    }

    /// Whether the point lies in the box, its surface included.
    #[verifier::allow_in_spec]
    pub fn collision_point(&self, cible: &Vec3) -> bool
        returns
            (cible.x.raw >= self.min.x.raw && cible.x.raw <= self.max.x.raw) && (cible.y.raw
                >= self.min.y.raw && cible.y.raw <= self.max.y.raw) && (cible.z.raw
                >= self.min.z.raw && cible.z.raw <= self.max.z.raw),
    {
        (cible.x.raw >= self.min.x.raw && cible.x.raw <= self.max.x.raw) && (cible.y.raw
            >= self.min.y.raw && cible.y.raw <= self.max.y.raw) && (cible.z.raw >= self.min.z.raw
            && cible.z.raw <= self.max.z.raw)
    }

    /// Whether the two boxes share a point: along every axis their extents
    /// overlap or touch.
    #[verifier::allow_in_spec]
    pub fn collision_aabb(&self, cible: &AABB) -> bool
        returns
            (cible.max.x.raw >= self.min.x.raw && cible.min.x.raw <= self.max.x.raw) && (
            cible.max.y.raw >= self.min.y.raw && cible.min.y.raw <= self.max.y.raw) && (
            cible.max.z.raw >= self.min.z.raw && cible.min.z.raw <= self.max.z.raw),
    {
        (cible.max.x.raw >= self.min.x.raw && cible.min.x.raw <= self.max.x.raw) && (
        cible.max.y.raw >= self.min.y.raw && cible.min.y.raw <= self.max.y.raw) && (
        cible.max.z.raw >= self.min.z.raw && cible.min.z.raw <= self.max.z.raw)
    }

    /// The box moved by `rhs`.
    #[verifier::allow_in_spec]
    pub fn add(self, rhs: Vec3) -> AABB
        returns
            (AABB { max: self.max.add(rhs), min: self.min.add(rhs) }),
    {
        AABB::new_precomputed(self.min.add(rhs), self.max.add(rhs))
    }

    /// Moves the box by `rhs`.
    pub fn add_assign(&mut self, rhs: Vec3)
        ensures
            *final(self) == old(self).add(rhs),
    {
        self.max = self.max.add(rhs);
        self.min = self.min.add(rhs);
    }

    /// Moves the box by the distance covered in one tick at `speed`.
    pub fn update_avec_spd(&mut self, speed: Vec3)
        ensures
            *final(self) == old(self).add(speed),
    {
        self.max = self.max.add(speed);
        self.min = self.min.add(speed);
    }

    /// The least box that holds both boxes.
    #[verifier::allow_in_spec]
    pub fn merge_with(&self, rhs: &AABB) -> AABB
        returns
            (AABB {
                max: Vec3 {
                    x: self.max.x.max(rhs.max.x),
                    y: self.max.y.max(rhs.max.y),
                    z: self.max.z.max(rhs.max.z),
                },
                min: Vec3 {
                    x: self.min.x.min(rhs.min.x),
                    y: self.min.y.min(rhs.min.y),
                    z: self.min.z.min(rhs.min.z),
                },
            }),
    {
        AABB::new_precomputed(
            Vec3::new(
                self.min.x.min(rhs.min.x),
                self.min.y.min(rhs.min.y),
                self.min.z.min(rhs.min.z),
            ),
            Vec3::new(
                self.max.x.max(rhs.max.x),
                self.max.y.max(rhs.max.y),
                self.max.z.max(rhs.max.z),
            ),
        )
    }

    /// Whether the point `p` stands in terrain that blocks a box: where the
    /// map has no voxel, or one that names no type, or one that is not empty
    /// on all sides.
    pub open spec fn blocked_at(world: &GameMap, p: Vec3) -> bool {
        match world.type_at(get_voxel_pos(p)) {
            Some(voxel_type) => !voxel_type.is_completely_empty(),
            None => true,
        }
    }

    /// Whether a corner of the box stands in blocking terrain.
    pub fn collision_world(&self, world: &GameMap) -> (r: bool)
        ensures
            r == exists|i: int|
                0 <= i < 8 && Self::blocked_at(world, #[trigger] self.vertices()[i]),
    {
        let vertices = self.get_vertices();
        let mut i: usize = 0;
        while i < 8
            invariant
                i <= 8,
                vertices@ == self.vertices(),
                forall|k: int|
                    0 <= k < i ==> !Self::blocked_at(world, #[trigger] self.vertices()[k]),
            decreases 8 - i,
        {
            match world.get_type_of_voxel_at(get_voxel_pos(vertices[i])) {
                Some(voxel_type) => {
                    if !voxel_type.is_completely_empty() {
                        assert(Self::blocked_at(world, self.vertices()[i as int]));
                        return true;
                    }
                },
                None => {
                    assert(Self::blocked_at(world, self.vertices()[i as int]));
                    return true;
                },
            }
            i += 1;
        }
        false
    }

    /// The `x` coordinates of the points.
    pub open spec fn xs(points: Seq<Vec3>) -> Seq<Scalar> {
        Seq::new(points.len(), |i: int| points[i].x)
    }

    /// The `y` coordinates of the points.
    pub open spec fn ys(points: Seq<Vec3>) -> Seq<Scalar> {
        Seq::new(points.len(), |i: int| points[i].y)
    }

    /// The `z` coordinates of the points.
    pub open spec fn zs(points: Seq<Vec3>) -> Seq<Scalar> {
        Seq::new(points.len(), |i: int| points[i].z)
    }

    /// The corners of the box, each turned by `rotation`.
    pub open spec fn turned_vertices(self, rotation: Rotation) -> Seq<Vec3> {
        Seq::new(8, |i: int| rotation.rotate(self.vertices()[i]))
    }

    /// The box around the turned corners of `self`, as far as they lie
    /// within [`ROTATION_REACH`]: along each axis its least coordinate is the
    /// least of the corners' and of the reach, and its greatest coordinate
    /// the greatest of the corners' and of the reach's opposite.
    pub open spec fn turned(self, rotation: Rotation) -> AABB {
        let corners = self.turned_vertices(rotation);
        let reach = Scalar::from_int(ROTATION_REACH);
        let floor = Scalar::from_int(ROTATION_REACH).neg();
        AABB {
            max: Vec3 {
                x: greatest_of(floor, Self::xs(corners)),
                y: greatest_of(floor, Self::ys(corners)),
                z: greatest_of(floor, Self::zs(corners)),
            },
            min: Vec3 {
                x: least_of(reach, Self::xs(corners)),
                y: least_of(reach, Self::ys(corners)),
                z: least_of(reach, Self::zs(corners)),
            },
        }
    }

    /// The box turned about the origin and then moved by `position`.
    pub open spec fn moved(self, position: Vec3, rotation: Rotation) -> AABB {
        self.turned(rotation).add(position)
    }

    /// The box around the corners of `self` turned about the origin. It is
    /// as large as the turned box needs it, or larger: a box that does not
    /// lie along the axes any more is wrapped in one that does.
    pub fn rotate(&self, rotation: &Rotation) -> (r: AABB)
        ensures
            r == self.turned(*rotation),
    {
        let vertices = self.get_vertices();
        let reach = Scalar::from_int(ROTATION_REACH);
        let floor = Scalar::from_int(ROTATION_REACH).neg();
        let mut min = Vec3::new(reach, reach, reach);
        let mut max = Vec3::new(floor, floor, floor);
        let ghost corners = self.turned_vertices(*rotation);
        let mut i: usize = 0;
        while i < 8
            invariant
                i <= 8,
                vertices@ == self.vertices(),
                corners == self.turned_vertices(*rotation),
                reach == Scalar::from_int(ROTATION_REACH),
                floor == Scalar::from_int(ROTATION_REACH).neg(),
                min.x == least_of(reach, Self::xs(corners).take(i as int)),
                min.y == least_of(reach, Self::ys(corners).take(i as int)),
                min.z == least_of(reach, Self::zs(corners).take(i as int)),
                max.x == greatest_of(floor, Self::xs(corners).take(i as int)),
                max.y == greatest_of(floor, Self::ys(corners).take(i as int)),
                max.z == greatest_of(floor, Self::zs(corners).take(i as int)),
            decreases 8 - i,
        {
            let rotated = rotation.rotate(vertices[i]);
            proof {
                assert(rotated == corners[i as int]);
                assert(Self::xs(corners).take(i + 1).drop_last() =~= Self::xs(corners).take(
                    i as int,
                ));
                assert(Self::ys(corners).take(i + 1).drop_last() =~= Self::ys(corners).take(
                    i as int,
                ));
                assert(Self::zs(corners).take(i + 1).drop_last() =~= Self::zs(corners).take(
                    i as int,
                ));
            }
            min = Vec3::new(min.x.min(rotated.x), min.y.min(rotated.y), min.z.min(rotated.z));
            max = Vec3::new(max.x.max(rotated.x), max.y.max(rotated.y), max.z.max(rotated.z));
            i += 1;
        }
        proof {
            assert(Self::xs(corners).take(8) =~= Self::xs(corners));
            assert(Self::ys(corners).take(8) =~= Self::ys(corners));
            assert(Self::zs(corners).take(8) =~= Self::zs(corners));
        }
        AABB::new_precomputed(min, max)
    }
}

/// Whether the sphere reaches into the box: the point of the box closest to
/// the sphere's centre lies nearer than the radius.
#[verifier::allow_in_spec]
pub fn aabb_sphere_collision(aabb: &AABB, sphere: &BoundingSphere) -> bool
    returns
        sphere.center.dist(
            sphere.center.clamp(
                aabb.min.x,
                aabb.min.y,
                aabb.min.z,
                aabb.max.x,
                aabb.max.y,
                aabb.max.z,
            ),
        ).raw < sphere.radius.raw,
{
    let q = sphere.center.clamp(
        aabb.min.x,
        aabb.min.y,
        aabb.min.z,
        aabb.max.x,
        aabb.max.y,
        aabb.max.z,
    );
    sphere.center.dist(q).raw < sphere.radius.raw
}

/// Whether one of the twelve triangles of the box's surface meets
/// `triangle`. What lies wholly inside the box meets none of them.
pub open spec fn aabb_meets_triangle(aabb: AABB, triangle: Triangle) -> bool {
    exists|i: int| 0 <= i < 12 && triangle.meets(#[trigger] aabb.triangles()[i])
}

/// Whether the surface of the box meets `triangle`.
pub fn aabb_triangle_collision(aabb: &AABB, triangle: &Triangle) -> (r: bool)
    ensures
        r == aabb_meets_triangle(*aabb, *triangle),
{
    let triangles = aabb.get_triangles();
    let mut i: usize = 0;
    while i < 12
        invariant
            i <= 12,
            triangles@ == aabb.triangles(),
            forall|k: int| 0 <= k < i ==> !triangle.meets(#[trigger] aabb.triangles()[k]),
        decreases 12 - i,
    {
        if triangle.intersect_with(&triangles[i]) {
            assert(triangle.meets(aabb.triangles()[i as int]));
            return true;
        }
        i += 1;
    }
    false
}

/// A sphere that bounds a part of a body.
#[derive(Clone, Copy, Debug, PartialEq, Eq, Structural)]
pub struct BoundingSphere {
    pub center: Vec3,
    pub radius: Scalar,
}

impl BoundingSphere {
    /// The sphere about `center` with the given radius.
    #[verifier::allow_in_spec]
    pub fn new(center: Vec3, radius: Scalar) -> BoundingSphere
        returns
            (BoundingSphere { center, radius }),
    {
        BoundingSphere { center, radius }
    }

    /// Whether the two spheres reach into each other: their centres lie
    /// nearer than the sum of the radii.
    #[verifier::allow_in_spec]
    pub fn collides_with_sphere(&self, rhs: &BoundingSphere) -> bool
        returns
            self.radius.add(rhs.radius).raw > self.center.dist(rhs.center).raw,
    {
        self.radius.add(rhs.radius).raw > self.center.dist(rhs.center).raw
    }

    /// The lowest point of the sphere.
    #[verifier::allow_in_spec]
    pub fn lowest_point(&self) -> Vec3
        returns
            self.center.sub(Vec3 { x: Scalar::zero(), y: Scalar::zero(), z: self.radius }),
    {
        self.center.sub(Vec3::new(Scalar::zero(), Scalar::zero(), self.radius))
    }

    /// Whether the lowest point of the sphere stands in a solid voxel.
    pub fn collision_world(&self, world: &GameMap) -> (r: bool)
        ensures
            r == world.solid_at(get_voxel_pos(self.lowest_point())),
    {
        world.is_voxel_solid(get_voxel_pos(self.lowest_point()))
    }

    /// Whether the point lies in the sphere, its surface included.
    #[verifier::allow_in_spec]
    pub fn point_inside(&self, point: Vec3) -> bool
        returns
            self.center.dist(point).raw <= self.radius.raw,
    {
        self.center.dist(point).raw <= self.radius.raw
    }

    /// The sphere as a plain shape.
    #[verifier::allow_in_spec]
    pub fn as_sphere(&self) -> Sphere
        returns
            (Sphere { center: self.center, radius: self.radius }),
    {
        Sphere { center: self.center, radius: self.radius }
    }
}

/// Whether two colliders meet.
#[derive(Clone, Copy, Debug, PartialEq, Eq, Structural)]
pub enum Collision {
    No,
    Yes,
}

/// The coarse volume around a part of a body.
#[derive(Clone, Copy, Debug, PartialEq, Eq, Structural)]
pub enum BoundingCollider {
    AABB(AABB),
    BS(BoundingSphere),
}

impl BoundingCollider {
    /// Whether the volume stands in the terrain, as its kind of shape tests
    /// it.
    pub fn collides_with_world(&self, world: &GameMap) -> (r: bool)
        ensures
            r == match *self {
                BoundingCollider::AABB(aabb) => exists|i: int|
                    0 <= i < 8 && AABB::blocked_at(world, #[trigger] aabb.vertices()[i]),
                BoundingCollider::BS(sphere) => world.solid_at(
                    get_voxel_pos(sphere.lowest_point()),
                ),
            },
    {
        match self {
            BoundingCollider::AABB(aabb) => aabb.collision_world(world),
            BoundingCollider::BS(sphere) => sphere.collision_world(world),
        }
    }

    /// Whether the point lies in the volume.
    #[verifier::allow_in_spec]
    pub fn point_inside(&self, point: Vec3) -> bool
        returns
            (match *self {
                BoundingCollider::AABB(aabb) => aabb.collision_point(&point),
                BoundingCollider::BS(sphere) => sphere.point_inside(point),
            }),
    {
        match self {
            BoundingCollider::AABB(aabb) => aabb.collision_point(&point),
            BoundingCollider::BS(sphere) => sphere.point_inside(point),
        }
    }

    /// The volume turned about the origin: a box is wrapped anew, a sphere
    /// keeps its radius.
    pub open spec fn turned(self, rotation: Rotation) -> BoundingCollider {
        match self {
            BoundingCollider::AABB(aabb) => BoundingCollider::AABB(aabb.turned(rotation)),
            BoundingCollider::BS(sphere) => BoundingCollider::BS(
                BoundingSphere { center: rotation.rotate(sphere.center), radius: sphere.radius },
            ),
        }
    }

    /// The volume turned about the origin and then moved by `position`.
    pub open spec fn moved(self, position: Vec3, rotation: Rotation) -> BoundingCollider {
        match self {
            BoundingCollider::AABB(aabb) => BoundingCollider::AABB(aabb.moved(position, rotation)),
            BoundingCollider::BS(sphere) => BoundingCollider::BS(
                BoundingSphere {
                    center: rotation.rotate(sphere.center).add(position),
                    radius: sphere.radius,
                },
            ),
        }
    }

    /// The volume turned about the origin.
    pub fn rotate_around_origin(&self, rotation: &Rotation) -> (r: BoundingCollider)
        ensures
            r == self.turned(*rotation),
    {
        match self {
            BoundingCollider::AABB(aabb) => BoundingCollider::AABB(aabb.rotate(rotation)),
            BoundingCollider::BS(sphere) => BoundingCollider::BS(
                BoundingSphere::new(rotation.rotate(sphere.center), sphere.radius),
            ),
        }
    }

    /// The volume turned about the origin and then moved by `position`.
    pub fn get_moved(&self, position: Vec3, rotation: &Rotation) -> (r: BoundingCollider)
        ensures
            r == self.moved(position, *rotation),
    {
        match self {
            BoundingCollider::AABB(aabb) => BoundingCollider::AABB(
                aabb.rotate(rotation).add(position),
            ),
            BoundingCollider::BS(bs) => BoundingCollider::BS(
                BoundingSphere::new(rotation.rotate(bs.center).add(position), bs.radius),
            ),
        }
    }

    /// Whether the two volumes reach into each other.
    #[verifier::allow_in_spec]
    pub fn collides_with(&self, rhs: &BoundingCollider) -> bool
        returns
            (match *self {
                BoundingCollider::AABB(aabb1) => match *rhs {
                    BoundingCollider::AABB(aabb2) => aabb1.collision_aabb(&aabb2),
                    BoundingCollider::BS(sphere2) => aabb_sphere_collision(&aabb1, &sphere2),
                },
                BoundingCollider::BS(sphere1) => match *rhs {
                    BoundingCollider::AABB(aabb2) => aabb_sphere_collision(&aabb2, &sphere1),
                    BoundingCollider::BS(sphere2) => sphere1.collides_with_sphere(&sphere2),
                },
            }),
    {
        match self {
            BoundingCollider::AABB(aabb1) => match rhs {
                BoundingCollider::AABB(aabb2) => aabb1.collision_aabb(aabb2),
                BoundingCollider::BS(sphere2) => aabb_sphere_collision(aabb1, sphere2),
            },
            BoundingCollider::BS(sphere1) => match rhs {
                BoundingCollider::AABB(aabb2) => aabb_sphere_collision(aabb2, sphere1),
                BoundingCollider::BS(sphere2) => sphere1.collides_with_sphere(sphere2),
            },
        }
    }
}

/// A fine shape inside a part of a body.
#[derive(Clone, Copy, Debug, PartialEq, Eq, Structural)]
pub enum InternalCollider {
    AABB(AABB),
    BS(BoundingSphere),
    Complex(Triangle),
}

impl InternalCollider {
    /// Whether the two shapes meet, by the test that belongs to their two
    /// kinds.
    pub open spec fn collides(self, rhs: InternalCollider) -> bool {
        match self {
            InternalCollider::AABB(aabb1) => match rhs {
                InternalCollider::AABB(aabb2) => aabb1.collision_aabb(&aabb2),
                InternalCollider::BS(bs2) => aabb_sphere_collision(&aabb1, &bs2),
                InternalCollider::Complex(face2) => aabb_meets_triangle(aabb1, face2),
            },
            InternalCollider::BS(bs1) => match rhs {
                InternalCollider::AABB(aabb2) => aabb_sphere_collision(&aabb2, &bs1),
                InternalCollider::BS(bs2) => bs1.collides_with_sphere(&bs2),
                InternalCollider::Complex(face2) => face2.intersect_with_sphere(bs1.as_sphere()),
            },
            InternalCollider::Complex(face1) => match rhs {
                InternalCollider::AABB(aabb2) => aabb_meets_triangle(aabb2, face1),
                InternalCollider::BS(bs2) => face1.intersect_with_sphere(bs2.as_sphere()),
                InternalCollider::Complex(face2) => face1.meets(face2),
            },
        }
    }

    /// Whether the two shapes meet.
    pub fn collides_with(&self, rhs: &InternalCollider) -> (r: bool)
        ensures
            r == self.collides(*rhs),
    {
        match self {
            InternalCollider::AABB(aabb1) => match rhs {
                InternalCollider::AABB(aabb2) => aabb1.collision_aabb(aabb2),
                InternalCollider::BS(bs2) => aabb_sphere_collision(aabb1, bs2),
                InternalCollider::Complex(face2) => aabb_triangle_collision(aabb1, face2),
            },
            InternalCollider::BS(bs1) => match rhs {
                InternalCollider::AABB(aabb2) => aabb_sphere_collision(aabb2, bs1),
                InternalCollider::BS(bs2) => bs1.collides_with_sphere(bs2),
                InternalCollider::Complex(face2) => face2.intersect_with_sphere(bs1.as_sphere()),
            },
            InternalCollider::Complex(face1) => match rhs {
                InternalCollider::AABB(aabb2) => aabb_triangle_collision(aabb2, face1),
                InternalCollider::BS(bs2) => face1.intersect_with_sphere(bs2.as_sphere()),
                InternalCollider::Complex(face2) => face1.intersect_with(face2),
            },
        }
    }

    /// The shape turned about the origin and then moved by `position`.
    pub open spec fn moved(self, position: Vec3, rotation: Rotation) -> InternalCollider {
        match self {
            InternalCollider::AABB(aabb) => InternalCollider::AABB(aabb.moved(position, rotation)),
            InternalCollider::BS(bs) => InternalCollider::BS(
                BoundingSphere {
                    center: rotation.rotate(bs.center).add(position),
                    radius: bs.radius,
                },
            ),
            InternalCollider::Complex(face) => InternalCollider::Complex(
                face.rotate_around_origin(&rotation).add(position),
            ),
        }
    }

    /// The shape turned about the origin and then moved by `position`.
    pub fn get_moved(&self, position: Vec3, rotation: &Rotation) -> (r: InternalCollider)
        ensures
            r == self.moved(position, *rotation),
    {
        match self {
            InternalCollider::AABB(aabb) => InternalCollider::AABB(
                aabb.rotate(rotation).add(position),
            ),
            InternalCollider::BS(bs) => InternalCollider::BS(
                BoundingSphere::new(rotation.rotate(bs.center).add(position), bs.radius),
            ),
            InternalCollider::Complex(face) => InternalCollider::Complex(
                face.rotate_around_origin(rotation).add(position),
            ),
        }
    }
}

/// A part of a body: a coarse volume and the fine shapes inside it.
#[derive(Debug)]
pub struct SubCollider {
    pub bounding_collider: BoundingCollider,
    pub internal_colliders: Vec<InternalCollider>,
}

/// What a [`SubCollider`] holds.
pub struct SubColliderView {
    pub bounding_collider: BoundingCollider,
    pub internal_colliders: Seq<InternalCollider>,
}

impl View for SubCollider {
    type V = SubColliderView;

    open spec fn view(&self) -> SubColliderView {
        SubColliderView {
            bounding_collider: self.bounding_collider,
            internal_colliders: self.internal_colliders@,
        }
    }
}

impl SubColliderView {
    /// Whether a fine shape of `self` meets a fine shape of `rhs`.
    pub open spec fn internals_collide(self, rhs: SubColliderView) -> bool {
        exists|i: int, j: int|
            0 <= i < self.internal_colliders.len() && 0 <= j < rhs.internal_colliders.len()
                && #[trigger] self.internal_colliders[i].collides(rhs.internal_colliders[j])
    }

    /// Whether the two parts meet: their coarse volumes reach into each
    /// other and a fine shape of one meets a fine shape of the other.
    pub open spec fn collides(self, rhs: SubColliderView) -> bool {
        self.bounding_collider.collides_with(&rhs.bounding_collider) && self.internals_collide(rhs)
    }

    /// The part turned about the origin and then moved by `position`, shape
    /// by shape.
    pub open spec fn moved(self, position: Vec3, rotation: Rotation) -> SubColliderView {
        SubColliderView {
            bounding_collider: self.bounding_collider.moved(position, rotation),
            internal_colliders: Seq::new(
                self.internal_colliders.len(),
                |i: int| self.internal_colliders[i].moved(position, rotation),
            ),
        }
    }
}

impl Clone for SubCollider {
    fn clone(&self) -> (r: SubCollider)
        ensures
            r@ == self@,
    {
        let mut internal_colliders: Vec<InternalCollider> = Vec::new();
        let mut i: usize = 0;
        while i < self.internal_colliders.len()
            invariant
                i <= self.internal_colliders.len(),
                internal_colliders@ == self.internal_colliders@.take(i as int),
            decreases self.internal_colliders.len() - i,
        {
            internal_colliders.push(self.internal_colliders[i]);
            assert(self.internal_colliders@.take(i as int).push(self.internal_colliders[i as int])
                =~= self.internal_colliders@.take(i + 1));
            i += 1;
        }
        assert(self.internal_colliders@.take(i as int) =~= self.internal_colliders@);
        SubCollider { bounding_collider: self.bounding_collider, internal_colliders }
    }
}

impl SubCollider {
    /// The part with the given coarse volume and fine shapes.
    pub fn new(
        bounding_collider: BoundingCollider,
        internal_colliders: Vec<InternalCollider>,
    ) -> (r: SubCollider)
        ensures
            r@ == (SubColliderView {
                bounding_collider,
                internal_colliders: internal_colliders@,
            }),
    {
        SubCollider { bounding_collider, internal_colliders }
    }

    /// Whether the coarse volumes of the two parts reach into each other.
    pub fn bounding_collides_with(&self, rhs: &SubCollider) -> (r: bool)
        ensures
            r == self@.bounding_collider.collides_with(&rhs@.bounding_collider),
    {
        self.bounding_collider.collides_with(&rhs.bounding_collider)
    }

    /// Whether a fine shape of `self` meets a fine shape of `rhs`.
    pub fn internals_collide_with(&self, rhs: &SubCollider) -> (r: bool)
        ensures
            r == self@.internals_collide(rhs@),
    {
        let mut i: usize = 0;
        while i < self.internal_colliders.len()
            invariant
                i <= self.internal_colliders.len(),
                forall|a: int, b: int|
                    0 <= a < i && 0 <= b < rhs.internal_colliders.len()
                        ==> !#[trigger] self.internal_colliders[a].collides(
                        rhs.internal_colliders[b],
                    ),
            decreases self.internal_colliders.len() - i,
        {
            let mut j: usize = 0;
            while j < rhs.internal_colliders.len()
                invariant
                    i < self.internal_colliders.len(),
                    j <= rhs.internal_colliders.len(),
                    forall|a: int, b: int|
                        0 <= a < i && 0 <= b < rhs.internal_colliders.len()
                            ==> !#[trigger] self.internal_colliders[a].collides(
                            rhs.internal_colliders[b],
                        ),
                    forall|b: int|
                        0 <= b < j ==> !#[trigger] self.internal_colliders[i as int].collides(
                            rhs.internal_colliders[b],
                        ),
                decreases rhs.internal_colliders.len() - j,
            {
                if self.internal_colliders[i].collides_with(&rhs.internal_colliders[j]) {
                    assert(self@.internal_colliders[i as int].collides(
                        rhs@.internal_colliders[j as int],
                    ));
                    return true;
                }
                j += 1;
            }
            i += 1;
        }
        false
    }

    /// The part turned about the origin and then moved by `position`.
    pub fn get_moved(&self, position: Vec3, rotation: &Rotation) -> (r: SubCollider)
        ensures
            r@ == self@.moved(position, *rotation),
    {
        let bounding_collider = self.bounding_collider.get_moved(position, rotation);
        let mut internal_colliders: Vec<InternalCollider> = Vec::new();
        let mut i: usize = 0;
        while i < self.internal_colliders.len()
            invariant
                i <= self.internal_colliders.len(),
                internal_colliders.len() == i,
                forall|k: int|
                    0 <= k < i ==> #[trigger] internal_colliders[k]
                        == self.internal_colliders[k].moved(position, *rotation),
            decreases self.internal_colliders.len() - i,
        {
            let moved = self.internal_colliders[i].get_moved(position, rotation);
            internal_colliders.push(moved);
            i += 1;
        }
        let r = SubCollider { bounding_collider, internal_colliders };
        assert(r@.internal_colliders =~= self@.moved(position, *rotation).internal_colliders);
        r
    }
}

/// The whole collision shape of a body: a box around everything, and the
/// parts.
#[derive(Debug)]
pub struct ComplexCollider {
    pub global_aabb: AABB,
    pub sub_colliders: Vec<SubCollider>,
}

/// What a [`ComplexCollider`] holds.
pub struct ComplexColliderView {
    pub global_aabb: AABB,
    pub sub_colliders: Seq<SubColliderView>,
}

impl View for ComplexCollider {
    type V = ComplexColliderView;

    open spec fn view(&self) -> ComplexColliderView {
        ComplexColliderView {
            global_aabb: self.global_aabb,
            sub_colliders: Seq::new(
                self.sub_colliders.len() as nat,
                |i: int| self.sub_colliders[i]@,
            ),
        }
    }
}

impl ComplexColliderView {
    /// Whether a part of `self` meets a part of `rhs`.
    pub open spec fn subs_collide(self, rhs: ComplexColliderView) -> bool {
        exists|i: int, j: int|
            0 <= i < self.sub_colliders.len() && 0 <= j < rhs.sub_colliders.len()
                && #[trigger] self.sub_colliders[i].collides(rhs.sub_colliders[j])
    }

    /// Whether the two bodies meet: their boxes share a point and a part of
    /// one meets a part of the other.
    pub open spec fn collides(self, rhs: ComplexColliderView) -> bool {
        self.global_aabb.collision_aabb(&rhs.global_aabb) && self.subs_collide(rhs)
    }

    /// The body turned about the origin and then moved by `position`, box
    /// and parts alike.
    pub open spec fn moved(self, position: Vec3, rotation: Rotation) -> ComplexColliderView {
        ComplexColliderView {
            global_aabb: self.global_aabb.moved(position, rotation),
            sub_colliders: Seq::new(
                self.sub_colliders.len(),
                |i: int| self.sub_colliders[i].moved(position, rotation),
            ),
        }
    }
}

impl Clone for ComplexCollider {
    fn clone(&self) -> (r: ComplexCollider)
        ensures
            r@ == self@,
    {
        let mut sub_colliders: Vec<SubCollider> = Vec::new();
        let mut i: usize = 0;
        while i < self.sub_colliders.len()
            invariant
                i <= self.sub_colliders.len(),
                sub_colliders.len() == i,
                forall|k: int|
                    0 <= k < i ==> (#[trigger] sub_colliders[k])@ == self.sub_colliders[k]@,
            decreases self.sub_colliders.len() - i,
        {
            sub_colliders.push(self.sub_colliders[i].clone());
            i += 1;
        }
        let r = ComplexCollider { global_aabb: self.global_aabb, sub_colliders };
        assert(r@.sub_colliders =~= self@.sub_colliders);
        r
    }
}

impl ComplexCollider {
    /// The box around the whole body.
    pub fn get_global_aabb(&self) -> (r: &AABB)
        ensures
            *r == self@.global_aabb,
    {
        &self.global_aabb
    }

    /// Replaces the box around the whole body.
    pub fn set_aabb(&mut self, new_aabb: AABB)
        ensures
            final(self)@ == (ComplexColliderView {
                global_aabb: new_aabb,
                sub_colliders: old(self)@.sub_colliders,
            }),
    {
        self.global_aabb = new_aabb;
        assert(final(self)@.sub_colliders =~= old(self)@.sub_colliders);
    }

    /// The body with the given box and parts.
    pub fn new(global_aabb: AABB, sub_colliders: Vec<SubCollider>) -> (r: ComplexCollider)
        ensures
            r@.global_aabb == global_aabb,
            r@.sub_colliders == Seq::new(sub_colliders.len() as nat, |i: int| sub_colliders[i]@),
    {
        ComplexCollider { global_aabb, sub_colliders }
    }

    /// The two bodies as one: the least box that holds both boxes, and the
    /// parts of `self` followed by the parts of `rhs`.
    pub fn merge_with(&self, rhs: &ComplexCollider) -> (r: ComplexCollider)
        ensures
            r@.global_aabb == self@.global_aabb.merge_with(&rhs@.global_aabb),
            r@.sub_colliders == self@.sub_colliders + rhs@.sub_colliders,
    {
        let mut out = self.clone();
        out.global_aabb = self.global_aabb.merge_with(&rhs.global_aabb);
        let mut i: usize = 0;
        while i < rhs.sub_colliders.len()
            invariant
                i <= rhs.sub_colliders.len(),
                out.global_aabb == self.global_aabb.merge_with(&rhs.global_aabb),
                out@.sub_colliders == self@.sub_colliders + rhs@.sub_colliders.take(i as int),
            decreases rhs.sub_colliders.len() - i,
        {
            let ghost before = out@.sub_colliders;
            out.sub_colliders.push(rhs.sub_colliders[i].clone());
            assert(out@.sub_colliders =~= before.push(rhs@.sub_colliders[i as int]));
            assert(before.push(rhs@.sub_colliders[i as int]) =~= self@.sub_colliders
                + rhs@.sub_colliders.take(i + 1));
            i += 1;
        }
        assert(rhs@.sub_colliders.take(i as int) =~= rhs@.sub_colliders);
        out
    }

    /// Whether the two bodies meet: `No` at once where their boxes share no
    /// point, else by their parts.
    pub fn get_collision_with(&self, rhs: &ComplexCollider) -> (r: Collision)
        ensures
            r == if self@.collides(rhs@) {
                Collision::Yes
            } else {
                Collision::No
            },
    {
        if self.global_aabb.collision_aabb(&rhs.global_aabb) {
            self.sub_colliders_collide(rhs)
        } else {
            Collision::No
        }
    }

    /// Whether a part of `self` meets a part of `rhs`.
    pub fn sub_colliders_collide(&self, rhs: &ComplexCollider) -> (r: Collision)
        ensures
            r == if self@.subs_collide(rhs@) {
                Collision::Yes
            } else {
                Collision::No
            },
    {
        let mut i: usize = 0;
        while i < self.sub_colliders.len()
            invariant
                i <= self.sub_colliders.len(),
                forall|a: int, b: int|
                    0 <= a < i && 0 <= b < rhs.sub_colliders.len()
                        ==> !#[trigger] self@.sub_colliders[a].collides(rhs@.sub_colliders[b]),
            decreases self.sub_colliders.len() - i,
        {
            let mut j: usize = 0;
            while j < rhs.sub_colliders.len()
                invariant
                    i < self.sub_colliders.len(),
                    j <= rhs.sub_colliders.len(),
                    forall|a: int, b: int|
                        0 <= a < i && 0 <= b < rhs.sub_colliders.len()
                            ==> !#[trigger] self@.sub_colliders[a].collides(
                            rhs@.sub_colliders[b],
                        ),
                    forall|b: int|
                        0 <= b < j ==> !#[trigger] self@.sub_colliders[i as int].collides(
                            rhs@.sub_colliders[b],
                        ),
                decreases rhs.sub_colliders.len() - j,
            {
                if self.sub_colliders[i].bounding_collides_with(&rhs.sub_colliders[j])
                    && self.sub_colliders[i].internals_collide_with(&rhs.sub_colliders[j]) {
                    assert(self@.sub_colliders[i as int].collides(rhs@.sub_colliders[j as int]));
                    return Collision::Yes;
                }
                j += 1;
            }
            i += 1;
        }
        Collision::No
    }

    /// The body turned about the origin by `orientation` and then moved by
    /// `position`.
    pub fn get_moved(&self, position: Vec3, orientation: Orientation) -> (r: ComplexCollider)
        ensures
            r@ == self@.moved(position, Rotation::from_orientation(orientation)),
    {
        let rotation = Rotation::from_orientation(orientation);
        let global_aabb = self.global_aabb.rotate(&rotation).add(position);
        let mut sub_colliders: Vec<SubCollider> = Vec::new();
        let mut i: usize = 0;
        while i < self.sub_colliders.len()
            invariant
                i <= self.sub_colliders.len(),
                sub_colliders.len() == i,
                forall|k: int|
                    0 <= k < i ==> (#[trigger] sub_colliders[k])@ == self@.sub_colliders[k].moved(
                        position,
                        rotation,
                    ),
            decreases self.sub_colliders.len() - i,
        {
            let moved = self.sub_colliders[i].get_moved(position, &rotation);
            sub_colliders.push(moved);
            i += 1;
        }
        let r = ComplexCollider { global_aabb, sub_colliders };
        assert(r@.sub_colliders =~= self@.moved(position, rotation).sub_colliders);
        r
    }
}

/// Two boxes share a point whichever of them is asked.
pub proof fn lemma_collision_aabb_symmetric(a: AABB, b: AABB)
    ensures
        a.collision_aabb(&b) == b.collision_aabb(&a),
{
}

/// The distance between two points is the same from either end.
pub proof fn lemma_dist_symmetric(a: Vec3, b: Vec3)
    ensures
        a.dist(b) == b.dist(a),
{
    reveal(sum_of_squares);
    let dx = a.x.raw - b.x.raw;
    let dy = a.y.raw - b.y.raw;
    let dz = a.z.raw - b.z.raw;
    assert(dx * dx == (-dx) * (-dx)) by (nonlinear_arith);
    assert(dy * dy == (-dy) * (-dy)) by (nonlinear_arith);
    assert(dz * dz == (-dz) * (-dz)) by (nonlinear_arith);
}

/// Two fine shapes meet whichever of them is asked.
pub proof fn lemma_internal_collision_symmetric(a: InternalCollider, b: InternalCollider)
    ensures
        a.collides(b) == b.collides(a),
{
    match (a, b) {
        (InternalCollider::BS(s), InternalCollider::BS(t)) => {
            lemma_dist_symmetric(s.center, t.center);
        },
        _ => {},
    }
}

/// Two coarse volumes reach into each other whichever of them is asked.
pub proof fn lemma_bounding_collision_symmetric(a: BoundingCollider, b: BoundingCollider)
    ensures
        a.collides_with(&b) == b.collides_with(&a),
{
    match (a, b) {
        (BoundingCollider::BS(s), BoundingCollider::BS(t)) => {
            lemma_dist_symmetric(s.center, t.center);
        },
        _ => {},
    }
}

/// Two parts meet whichever of them is asked.
pub proof fn lemma_sub_collision_symmetric(a: SubColliderView, b: SubColliderView)
    ensures
        a.collides(b) == b.collides(a),
{
    lemma_bounding_collision_symmetric(a.bounding_collider, b.bounding_collider);
    if a.internals_collide(b) {
        let (i, j) = choose|i: int, j: int|
            0 <= i < a.internal_colliders.len() && 0 <= j < b.internal_colliders.len()
                && #[trigger] a.internal_colliders[i].collides(b.internal_colliders[j]);
        lemma_internal_collision_symmetric(a.internal_colliders[i], b.internal_colliders[j]);
        assert(b.internal_colliders[j].collides(a.internal_colliders[i]));
    }
    if b.internals_collide(a) {
        let (i, j) = choose|i: int, j: int|
            0 <= i < b.internal_colliders.len() && 0 <= j < a.internal_colliders.len()
                && #[trigger] b.internal_colliders[i].collides(a.internal_colliders[j]);
        lemma_internal_collision_symmetric(b.internal_colliders[i], a.internal_colliders[j]);
        assert(a.internal_colliders[j].collides(b.internal_colliders[i]));
    }
}

/// Two bodies meet whichever of them is asked.
pub proof fn lemma_complex_collision_symmetric(a: ComplexColliderView, b: ComplexColliderView)
    ensures
        a.collides(b) == b.collides(a),
{
    if a.subs_collide(b) {
        let (i, j) = choose|i: int, j: int|
            0 <= i < a.sub_colliders.len() && 0 <= j < b.sub_colliders.len()
                && #[trigger] a.sub_colliders[i].collides(b.sub_colliders[j]);
        lemma_sub_collision_symmetric(a.sub_colliders[i], b.sub_colliders[j]);
        assert(b.sub_colliders[j].collides(a.sub_colliders[i]));
    }
    if b.subs_collide(a) {
        let (i, j) = choose|i: int, j: int|
            0 <= i < b.sub_colliders.len() && 0 <= j < a.sub_colliders.len()
                && #[trigger] b.sub_colliders[i].collides(a.sub_colliders[j]);
        lemma_sub_collision_symmetric(b.sub_colliders[i], a.sub_colliders[j]);
        assert(a.sub_colliders[j].collides(b.sub_colliders[i]));
    }
}

/// Turning a box by the identity gives the same box, as long as its corners
/// are in the right order and within [`ROTATION_REACH`].
pub proof fn lemma_identity_keeps_box(b: AABB)
    requires
        b.within_reach(),
    ensures
        b.turned(Rotation::identity()) == b,
{
    let corners = b.turned_vertices(Rotation::identity());
    let v = b.vertices();
    assert(v.len() == 8);
    assert(v[0] == b.max);
    assert(v[1] == b.min);
    assert(v[2] == Vec3 { x: b.max.x, y: b.min.y, z: b.min.z });
    assert(v[3] == Vec3 { x: b.min.x, y: b.max.y, z: b.min.z });
    assert(v[4] == Vec3 { x: b.min.x, y: b.min.y, z: b.max.z });
    assert(v[5] == Vec3 { x: b.max.x, y: b.max.y, z: b.min.z });
    assert(v[6] == Vec3 { x: b.max.x, y: b.min.y, z: b.max.z });
    assert(v[7] == Vec3 { x: b.min.x, y: b.max.y, z: b.max.z });
    assert forall|i: int| 0 <= i < 8 implies #[trigger] corners[i] == v[i] by {
        lemma_identity_rotates_nothing(v[i]);
    }
    assert forall|i: int| 0 <= i < 8 implies {
        &&& b.min.x.raw <= (#[trigger] corners[i]).x.raw <= b.max.x.raw
        &&& b.min.y.raw <= corners[i].y.raw <= b.max.y.raw
        &&& b.min.z.raw <= corners[i].z.raw <= b.max.z.raw
    } by {
        assert(corners[i] == v[i]);
    }
    lemma_axis_kept(AABB::xs(corners), b.min.x, b.max.x);
    lemma_axis_kept(AABB::ys(corners), b.min.y, b.max.y);
    lemma_axis_kept(AABB::zs(corners), b.min.z, b.max.z);
}

/// Where the coordinates of the corners along one axis all lie between `lo`
/// and `hi`, the second being `lo` and the first `hi`, and both lie within
/// [`ROTATION_REACH`], the least of them is `lo` and the greatest `hi`.
proof fn lemma_axis_kept(s: Seq<Scalar>, lo: Scalar, hi: Scalar)
    requires
        s.len() == 8,
        s[0] == hi,
        s[1] == lo,
        forall|i: int| 0 <= i < 8 ==> lo.raw <= (#[trigger] s[i]).raw <= hi.raw,
        -ROTATION_REACH * SCALE <= lo.raw,
        hi.raw <= ROTATION_REACH * SCALE,
    ensures
        least_of(Scalar::from_int(ROTATION_REACH), s) == lo,
        greatest_of(Scalar::from_int(ROTATION_REACH).neg(), s) == hi,
{
    reveal(saturate);
    lemma_least_within(Scalar::from_int(ROTATION_REACH), s, lo);
    lemma_greatest_within(Scalar::from_int(ROTATION_REACH).neg(), s, hi);
}

/// Where no number of `s` lies below `m`, and neither does `bound`, the
/// least of them is no less than `m`; it is `m` itself where `m` is among
/// them.
pub proof fn lemma_least_within(bound: Scalar, s: Seq<Scalar>, m: Scalar)
    requires
        m.raw <= bound.raw,
        forall|i: int| 0 <= i < s.len() ==> m.raw <= (#[trigger] s[i]).raw,
    ensures
        m.raw <= least_of(bound, s).raw,
        (exists|i: int| 0 <= i < s.len() && #[trigger] s[i] == m) ==> least_of(bound, s) == m,
    decreases s.len(),
{
    if s.len() > 0 {
        lemma_least_within(bound, s.drop_last(), m);
        if exists|i: int| 0 <= i < s.len() && #[trigger] s[i] == m {
            let i = choose|i: int| 0 <= i < s.len() && #[trigger] s[i] == m;
            if i < s.len() - 1 {
                assert(s.drop_last()[i] == m);
            }
        }
    }
}

/// Where no number of `s` lies above `m`, and neither does `bound`, the
/// greatest of them is no more than `m`; it is `m` itself where `m` is among
/// them.
pub proof fn lemma_greatest_within(bound: Scalar, s: Seq<Scalar>, m: Scalar)
    requires
        m.raw >= bound.raw,
        forall|i: int| 0 <= i < s.len() ==> m.raw >= (#[trigger] s[i]).raw,
    ensures
        m.raw >= greatest_of(bound, s).raw,
        (exists|i: int| 0 <= i < s.len() && #[trigger] s[i] == m) ==> greatest_of(bound, s) == m,
    decreases s.len(),
{
    if s.len() > 0 {
        lemma_greatest_within(bound, s.drop_last(), m);
        if exists|i: int| 0 <= i < s.len() && #[trigger] s[i] == m {
            let i = choose|i: int| 0 <= i < s.len() && #[trigger] s[i] == m;
            if i < s.len() - 1 {
                assert(s.drop_last()[i] == m);
            }
        }
    }
}

/// The least of a bound and some numbers exceeds none of them.
pub proof fn lemma_least_is_below_all(bound: Scalar, s: Seq<Scalar>)
    ensures
        least_of(bound, s).raw <= bound.raw,
        forall|i: int| 0 <= i < s.len() ==> least_of(bound, s).raw <= (#[trigger] s[i]).raw,
    decreases s.len(),
{
    if s.len() > 0 {
        lemma_least_is_below_all(bound, s.drop_last());
        assert forall|i: int| 0 <= i < s.len() implies least_of(bound, s).raw <= (
        #[trigger] s[i]).raw by {
            if i < s.len() - 1 {
                assert(s.drop_last()[i] == s[i]);
            }
        }
    }
}

/// The greatest of a bound and some numbers is exceeded by none of them.
pub proof fn lemma_greatest_is_above_all(bound: Scalar, s: Seq<Scalar>)
    ensures
        greatest_of(bound, s).raw >= bound.raw,
        forall|i: int| 0 <= i < s.len() ==> greatest_of(bound, s).raw >= (#[trigger] s[i]).raw,
    decreases s.len(),
{
    if s.len() > 0 {
        lemma_greatest_is_above_all(bound, s.drop_last());
        assert forall|i: int| 0 <= i < s.len() implies greatest_of(bound, s).raw >= (
        #[trigger] s[i]).raw by {
            if i < s.len() - 1 {
                assert(s.drop_last()[i] == s[i]);
            }
        }
    }
}

/// A turned box is wrapped: the box that comes out holds every corner of
/// the box that went in, turned, and its own corners are in the right
/// order.
pub proof fn lemma_turned_box_holds_turned_corners(b: AABB, rotation: Rotation)
    ensures
        b.turned(rotation).wf(),
        forall|i: int|
            0 <= i < 8 ==> b.turned(rotation).collision_point(
                &#[trigger] b.turned_vertices(rotation)[i],
            ),
{
    let corners = b.turned_vertices(rotation);
    let reach = Scalar::from_int(ROTATION_REACH);
    let floor = Scalar::from_int(ROTATION_REACH).neg();
    lemma_least_is_below_all(reach, AABB::xs(corners));
    lemma_least_is_below_all(reach, AABB::ys(corners));
    lemma_least_is_below_all(reach, AABB::zs(corners));
    lemma_greatest_is_above_all(floor, AABB::xs(corners));
    lemma_greatest_is_above_all(floor, AABB::ys(corners));
    lemma_greatest_is_above_all(floor, AABB::zs(corners));
    assert forall|i: int| 0 <= i < 8 implies b.turned(rotation).collision_point(
        &#[trigger] corners[i],
    ) by {
        assert(AABB::xs(corners)[i] == corners[i].x);
        assert(AABB::ys(corners)[i] == corners[i].y);
        assert(AABB::zs(corners)[i] == corners[i].z);
    }
    assert(b.turned(rotation).collision_point(&corners[0]));
}

/// Two merged boxes hold every point that either of them holds.
pub proof fn lemma_merged_box_holds_both(a: AABB, b: AABB, p: Vec3)
    requires
        a.collision_point(&p) || b.collision_point(&p),
    ensures
        a.merge_with(&b).collision_point(&p),
{
}

impl AABB {
    /// The corners are in the right order and within [`ROTATION_REACH`].
    pub open spec fn within_reach(self) -> bool {
        &&& self.wf()
        &&& -ROTATION_REACH * SCALE <= self.min.x.raw && self.max.x.raw <= ROTATION_REACH * SCALE
        &&& -ROTATION_REACH * SCALE <= self.min.y.raw && self.max.y.raw <= ROTATION_REACH * SCALE
        &&& -ROTATION_REACH * SCALE <= self.min.z.raw && self.max.z.raw <= ROTATION_REACH * SCALE
    }
}

impl InternalCollider {
    /// The shape is a box within [`ROTATION_REACH`], or no box.
    pub open spec fn within_reach(self) -> bool {
        self matches InternalCollider::AABB(aabb) ==> aabb.within_reach()
    }
}

impl BoundingCollider {
    /// The volume is a box within [`ROTATION_REACH`], or no box.
    pub open spec fn within_reach(self) -> bool {
        self matches BoundingCollider::AABB(aabb) ==> aabb.within_reach()
    }
}

/// A coarse volume that is turned by the identity and moved by nothing stays
/// as it is, as long as it is no box beyond the reach.
pub proof fn lemma_bounding_moved_nowhere(c: BoundingCollider)
    requires
        c.within_reach(),
    ensures
        c.moved(Vec3::zero(), Rotation::identity()) == c,
        c.turned(Rotation::identity()) == c,
{
    match c {
        BoundingCollider::AABB(aabb) => {
            lemma_identity_keeps_box(aabb);
            lemma_moved_by_nothing(aabb.min);
            lemma_moved_by_nothing(aabb.max);
        },
        BoundingCollider::BS(bs) => {
            lemma_identity_rotates_nothing(bs.center);
            lemma_moved_by_nothing(bs.center);
        },
    }
}

/// A point that is moved by nothing stays.
pub proof fn lemma_moved_by_nothing(v: Vec3)
    ensures
        v.add(Vec3::zero()) == v,
{
    reveal(saturate);
}

/// A fine shape that is turned by the identity and moved by nothing stays as
/// it is, as long as it is no box beyond the reach.
pub proof fn lemma_internal_moved_nowhere(c: InternalCollider)
    requires
        c.within_reach(),
    ensures
        c.moved(Vec3::zero(), Rotation::identity()) == c,
{
    match c {
        InternalCollider::AABB(aabb) => {
            lemma_identity_keeps_box(aabb);
            lemma_moved_by_nothing(aabb.min);
            lemma_moved_by_nothing(aabb.max);
        },
        InternalCollider::BS(bs) => {
            lemma_identity_rotates_nothing(bs.center);
            lemma_moved_by_nothing(bs.center);
        },
        InternalCollider::Complex(face) => {
            lemma_identity_rotates_nothing(face.a);
            lemma_identity_rotates_nothing(face.b);
            lemma_identity_rotates_nothing(face.c);
            lemma_moved_by_nothing(face.a);
            lemma_moved_by_nothing(face.b);
            lemma_moved_by_nothing(face.c);
        },
    }
}

/// A body that is turned by the identity and moved by nothing stays as it
/// is, as long as none of its boxes lies beyond the reach.
pub proof fn lemma_body_moved_nowhere(c: ComplexColliderView)
    requires
        c.global_aabb.within_reach(),
        forall|i: int|
            0 <= i < c.sub_colliders.len() ==> (
            #[trigger] c.sub_colliders[i]).bounding_collider.within_reach(),
        forall|i: int, j: int|
            0 <= i < c.sub_colliders.len() && 0 <= j < c.sub_colliders[i].internal_colliders.len()
                ==> (#[trigger] c.sub_colliders[i].internal_colliders[j]).within_reach(),
    ensures
        c.moved(Vec3::zero(), Rotation::identity()) == c,
{
    let moved = c.moved(Vec3::zero(), Rotation::identity());
    lemma_internal_moved_nowhere(InternalCollider::AABB(c.global_aabb));
    assert forall|i: int| 0 <= i < c.sub_colliders.len() implies #[trigger] moved.sub_colliders[i]
        == c.sub_colliders[i] by {
        let sub = c.sub_colliders[i];
        let moved_sub = sub.moved(Vec3::zero(), Rotation::identity());
        lemma_bounding_moved_nowhere(sub.bounding_collider);
        assert(moved_sub.bounding_collider == sub.bounding_collider);
        assert forall|j: int| 0 <= j < sub.internal_colliders.len() implies #[trigger] moved_sub.internal_colliders[j]
            == sub.internal_colliders[j] by {
            lemma_internal_moved_nowhere(sub.internal_colliders[j]);
        }
        assert(moved_sub.internal_colliders =~= sub.internal_colliders);
    }
    assert(moved.sub_colliders =~= c.sub_colliders);
}

} // verus!
