use vehicle_sim::driver::colliders::{
    aabb_sphere_collision, aabb_triangle_collision, BoundingCollider, BoundingSphere, Collision,
    ComplexCollider, InternalCollider, SubCollider, AABB,
};
use vehicle_sim::game_map::{GameMap, Voxel, VoxelType, WorldVoxelPos, ALL_SIDES_EMPTY};
use vehicle_sim::geometry::rotation::{Orientation, Rotation, HALF_PI, PI};
use vehicle_sim::geometry::shapes_3d::Triangle;
use vehicle_sim::geometry::vec3d::Vec3;
use vehicle_sim::scalar::Scalar;
use vehicle_sim::vehicle::locomotion::SurfaceType;

fn raw(x: i32, y: i32, z: i32) -> Vec3 {
    Vec3::new(Scalar::from_raw(x), Scalar::from_raw(y), Scalar::from_raw(z))
}

fn car_box() -> AABB {
    AABB::new(Vec3::from_ints(2, 1, 1), Vec3::from_ints(-2, -1, 0))
}

fn unit_box_at(x: i32, y: i32, z: i32) -> AABB {
    AABB::new(Vec3::from_ints(x, y, z), Vec3::from_ints(x + 1, y + 1, z + 1))
}

fn yaw(raw_angle: i32) -> Rotation {
    Rotation::from_orientation(Orientation::new(
        Scalar::from_raw(raw_angle),
        Scalar::zero(),
        Scalar::zero(),
    ))
}

/// Ground below the height zero, air above, twenty voxels each way.
fn flat_world() -> GameMap {
    let types = vec![
        VoxelType { surface_type: None, empty_sides: ALL_SIDES_EMPTY },
        VoxelType { surface_type: Some(SurfaceType::Ground), empty_sides: 0 },
    ];
    let mut map = GameMap::new(
        WorldVoxelPos { x: -10, y: -10, z: -5 },
        20,
        20,
        15,
        types,
        Voxel { voxel_type: 0 },
    )
    .unwrap();
    for x in -10..10 {
        for y in -10..10 {
            for z in -5..0 {
                map.set_voxel(WorldVoxelPos { x, y, z }, Voxel { voxel_type: 1 });
            }
        }
    }
    map
}

#[test]
fn a_box_orders_its_corners() {
    let b = car_box();
    assert_eq!(b.get_first_point(), Vec3::from_ints(-2, -1, 0));
    assert_eq!(b.get_second_point(), Vec3::from_ints(2, 1, 1));
    assert_eq!(b.get_both_points(), (Vec3::from_ints(-2, -1, 0), Vec3::from_ints(2, 1, 1)));
    let mixed = AABB::new(Vec3::from_ints(2, -1, 1), Vec3::from_ints(-2, 1, 0));
    assert_eq!(mixed, b);
    let same = AABB::new(Vec3::from_ints(1, 1, 1), Vec3::from_ints(1, 1, 1));
    assert_eq!(same.get_first_point(), same.get_second_point());
}

#[test]
fn a_precomputed_box_keeps_its_corners_as_given() {
    let b = AABB::new_precomputed(Vec3::from_ints(1, 1, 1), Vec3::from_ints(0, 0, 0));
    assert_eq!(b.get_first_point(), Vec3::from_ints(1, 1, 1));
    assert_eq!(b.get_second_point(), Vec3::from_ints(0, 0, 0));
}

#[test]
fn the_corners_of_a_box() {
    let b = car_box();
    let v = b.get_vertices();
    assert_eq!(v[0], Vec3::from_ints(2, 1, 1));
    assert_eq!(v[1], Vec3::from_ints(-2, -1, 0));
    assert_eq!(v[2], Vec3::from_ints(2, -1, 0));
    assert_eq!(v[3], Vec3::from_ints(-2, 1, 0));
    assert_eq!(v[4], Vec3::from_ints(-2, -1, 1));
    assert_eq!(v[5], Vec3::from_ints(2, 1, 0));
    assert_eq!(v[6], Vec3::from_ints(2, -1, 1));
    assert_eq!(v[7], Vec3::from_ints(-2, 1, 1));
    let g = b.get_ground_vertices();
    assert_eq!(
        g,
        [
            Vec3::from_ints(-2, -1, 0),
            Vec3::from_ints(2, -1, 0),
            Vec3::from_ints(2, 1, 0),
            Vec3::from_ints(-2, 1, 0)
        ]
    );
    let t = b.get_top_vertices();
    assert_eq!(
        t,
        [
            Vec3::from_ints(-2, -1, 1),
            Vec3::from_ints(2, -1, 1),
            Vec3::from_ints(2, 1, 1),
            Vec3::from_ints(-2, 1, 1)
        ]
    );
}

#[test]
fn the_triangles_of_a_box_cover_each_face_twice() {
    let b = car_box();
    let tris = b.get_triangles();
    assert_eq!(tris.len(), 12);
    // top face
    assert_eq!(
        tris[0],
        Triangle::new([Vec3::from_ints(-2, -1, 1), Vec3::from_ints(2, -1, 1), Vec3::from_ints(2, 1, 1)])
    );
    assert_eq!(
        tris[1],
        Triangle::new([Vec3::from_ints(-2, -1, 1), Vec3::from_ints(-2, 1, 1), Vec3::from_ints(2, 1, 1)])
    );
    // bottom face
    assert_eq!(
        tris[3],
        Triangle::new([Vec3::from_ints(-2, -1, 0), Vec3::from_ints(-2, 1, 0), Vec3::from_ints(2, 1, 0)])
    );
    // left face
    assert_eq!(
        tris[11],
        Triangle::new([Vec3::from_ints(-2, -1, 0), Vec3::from_ints(-2, -1, 1), Vec3::from_ints(-2, 1, 0)])
    );
    for t in tris.iter() {
        for p in [t.a, t.b, t.c] {
            assert!(b.collision_point(&p));
        }
    }
}

#[test]
fn the_shortest_side_of_a_box() {
    assert_eq!(car_box().get_minimum_side_length(), Scalar::one());
    let flipped = AABB::new_precomputed(Vec3::from_ints(0, 0, 3), Vec3::from_ints(4, 5, 0));
    assert_eq!(flipped.get_minimum_side_length(), Scalar::from_int(3));
}

#[test]
fn a_box_holds_its_inside_and_its_surface() {
    let b = car_box();
    assert!(b.collision_point(&Vec3::zero()));
    assert!(b.collision_point(&Vec3::from_ints(2, 1, 1)));
    assert!(b.collision_point(&Vec3::from_ints(-2, -1, 0)));
    assert!(!b.collision_point(&raw(2 * 20480 + 1, 0, 0)));
    assert!(!b.collision_point(&raw(0, 0, -1)));
    assert!(!b.collision_point(&Vec3::from_ints(0, 2, 0)));
}

#[test]
fn boxes_meet_when_they_overlap_or_touch_and_either_way_round() {
    let a = unit_box_at(0, 0, 0);
    let overlapping = AABB::new(raw(10240, 10240, 10240), Vec3::from_ints(2, 2, 2));
    let touching = unit_box_at(1, 0, 0);
    let apart = unit_box_at(3, 0, 0);
    let apart_in_z = unit_box_at(0, 0, 2);
    for (other, expected) in
        [(overlapping, true), (touching, true), (apart, false), (apart_in_z, false), (a, true)]
    {
        assert_eq!(a.collision_aabb(&other), expected);
        assert_eq!(other.collision_aabb(&a), expected);
    }
    let inside = AABB::new(raw(5000, 5000, 5000), raw(6000, 6000, 6000));
    assert!(a.collision_aabb(&inside));
    assert!(inside.collision_aabb(&a));
}

#[test]
fn a_box_moves_with_a_vector() {
    let b = unit_box_at(0, 0, 0);
    let moved = b.add(Vec3::from_ints(1, -2, 3));
    assert_eq!(moved, unit_box_at(1, -2, 3));
    let mut c = b;
    c.add_assign(Vec3::from_ints(1, -2, 3));
    assert_eq!(c, moved);
    let mut d = b;
    d.update_avec_spd(raw(100, 200, -300));
    assert_eq!(d.get_first_point(), raw(100, 200, -300));
    assert_eq!(d.get_second_point(), raw(20580, 20680, 20180));
}

#[test]
fn merged_boxes_hold_both() {
    let a = unit_box_at(0, 0, 0);
    let b = unit_box_at(3, -2, 1);
    let m = a.merge_with(&b);
    assert_eq!(m.get_first_point(), Vec3::from_ints(0, -2, 0));
    assert_eq!(m.get_second_point(), Vec3::from_ints(4, 1, 2));
    assert_eq!(b.merge_with(&a), m);
    assert_eq!(a.merge_with(&a), a);
    for v in a.get_vertices().iter().chain(b.get_vertices().iter()) {
        assert!(m.collision_point(v));
    }
}

#[test]
fn a_box_meets_the_world_where_a_corner_is_blocked() {
    let world = flat_world();
    let above = AABB::new(Vec3::from_ints(0, 0, 1), Vec3::from_ints(1, 1, 2));
    assert!(!above.collision_world(&world));
    // the lower corners stand on the height zero, which is air
    let standing = unit_box_at(0, 0, 0);
    assert!(!standing.collision_world(&world));
    let sunk = AABB::new(raw(0, 0, -1), Vec3::from_ints(1, 1, 1));
    assert!(sunk.collision_world(&world));
    // a corner outside the map is blocked too
    let leaving = AABB::new(Vec3::from_ints(8, 8, 1), Vec3::from_ints(11, 9, 2));
    assert!(leaving.collision_world(&world));
}

#[test]
fn turning_a_box_by_the_identity_keeps_it() {
    let b = car_box();
    assert_eq!(b.rotate(&Rotation::identity()), b);
    assert_eq!(b.rotate(&Rotation::from_orientation(Orientation::zero())), b);
    let odd = AABB::new(raw(-12345, 777, -99999), raw(54321, 778, 0));
    assert_eq!(odd.rotate(&Rotation::identity()), odd);
}

#[test]
fn turning_a_box_wraps_its_turned_corners() {
    let b = car_box();
    let quarter = b.rotate(&yaw(HALF_PI));
    assert_eq!(quarter.get_first_point(), Vec3::from_ints(-1, -2, 0));
    assert_eq!(quarter.get_second_point(), Vec3::from_ints(1, 2, 1));
    // an eighth of a turn makes the box larger than the car
    let eighth = b.rotate(&yaw(PI / 4));
    assert_eq!(eighth.get_first_point(), raw(-43446, -43446, 0));
    assert_eq!(eighth.get_second_point(), raw(43446, 43446, 20480));
}

#[test]
fn a_box_beyond_the_reach_is_cut_off_when_turned() {
    let far = AABB::new(raw(2_100_000_000, 0, 0), raw(2_110_000_000, 20480, 20480));
    let turned = far.rotate(&Rotation::identity());
    // the least corner cannot lie beyond the reach
    assert_eq!(turned.get_first_point(), raw(2_048_000_000, 0, 0));
    assert_eq!(turned.get_second_point(), raw(2_110_000_000, 20480, 20480));
}

#[test]
fn a_sphere_meets_a_box_by_its_closest_point() {
    let b = unit_box_at(0, 0, 0);
    let inside = BoundingSphere::new(raw(10240, 10240, 10240), Scalar::from_ratio(1, 10));
    assert!(aabb_sphere_collision(&b, &inside));
    let beside = BoundingSphere::new(Vec3::from_ints(2, 0, 0), Scalar::from_ratio(3, 2));
    assert!(aabb_sphere_collision(&b, &beside));
    // touching is not reaching in
    let touching = BoundingSphere::new(Vec3::from_ints(2, 0, 0), Scalar::one());
    assert!(!aabb_sphere_collision(&b, &touching));
    // off a corner: the distance is the root of three
    let corner = BoundingSphere::new(Vec3::from_ints(2, 2, 2), Scalar::from_ratio(17, 10));
    assert!(!aabb_sphere_collision(&b, &corner));
    let corner_reaching = BoundingSphere::new(Vec3::from_ints(2, 2, 2), Scalar::from_ratio(7, 4));
    assert!(aabb_sphere_collision(&b, &corner_reaching));
}

#[test]
fn spheres_meet_nearer_than_the_sum_of_their_radii() {
    let a = BoundingSphere::new(Vec3::zero(), Scalar::one());
    let near = BoundingSphere::new(raw(30720, 0, 0), Scalar::one());
    let touching = BoundingSphere::new(Vec3::from_ints(2, 0, 0), Scalar::one());
    let far = BoundingSphere::new(Vec3::from_ints(3, 0, 0), Scalar::one());
    assert!(a.collides_with_sphere(&near) && near.collides_with_sphere(&a));
    assert!(!a.collides_with_sphere(&touching) && !touching.collides_with_sphere(&a));
    assert!(!a.collides_with_sphere(&far) && !far.collides_with_sphere(&a));
}

#[test]
fn a_sphere_holds_points_up_to_its_surface() {
    let s = BoundingSphere::new(Vec3::from_ints(1, 1, 1), Scalar::one());
    assert!(s.point_inside(Vec3::from_ints(1, 1, 1)));
    assert!(s.point_inside(Vec3::from_ints(2, 1, 1)));
    assert!(!s.point_inside(raw(2 * 20480 + 1, 20480, 20480)));
}

#[test]
fn a_sphere_meets_the_world_at_its_lowest_point() {
    let world = flat_world();
    let resting = BoundingSphere::new(Vec3::from_ints(0, 0, 1), Scalar::one());
    assert_eq!(resting.lowest_point(), Vec3::zero());
    assert!(!resting.collision_world(&world));
    let sunk = BoundingSphere::new(Vec3::from_ints(0, 0, 1), Scalar::from_ratio(11, 10));
    assert!(sunk.collision_world(&world));
    let outside = BoundingSphere::new(Vec3::from_ints(50, 0, -1), Scalar::one());
    assert!(!outside.collision_world(&world));
}

#[test]
fn a_box_meets_a_triangle_that_cuts_its_surface() {
    let b = unit_box_at(0, 0, 0);
    let cutting = Triangle::new([
        raw(10240, 10240, -20480),
        raw(10240, 10240, 40960),
        raw(10240, 15000, 40960),
    ]);
    assert!(aabb_triangle_collision(&b, &cutting));
    let away = cutting.add(Vec3::from_ints(5, 0, 0));
    assert!(!aabb_triangle_collision(&b, &away));
    // what lies wholly inside the box cuts no face
    let inside = Triangle::new([raw(5000, 5000, 5000), raw(6000, 5000, 5000), raw(5000, 6000, 5000)]);
    assert!(!aabb_triangle_collision(&b, &inside));
}

#[test]
fn coarse_volumes_test_points_and_each_other() {
    let bx = BoundingCollider::AABB(unit_box_at(0, 0, 0));
    let sp = BoundingCollider::BS(BoundingSphere::new(Vec3::from_ints(2, 0, 0), Scalar::from_ratio(3, 2)));
    assert!(bx.point_inside(raw(100, 100, 100)));
    assert!(!bx.point_inside(Vec3::from_ints(2, 0, 0)));
    assert!(sp.point_inside(Vec3::from_ints(1, 0, 0)));
    assert!(!sp.point_inside(Vec3::from_ints(0, 0, 0)));
    assert!(bx.collides_with(&sp));
    assert!(sp.collides_with(&bx));
    assert!(bx.collides_with(&bx));
    assert!(sp.collides_with(&sp));
    let far = BoundingCollider::BS(BoundingSphere::new(Vec3::from_ints(9, 9, 9), Scalar::one()));
    assert!(!bx.collides_with(&far));
    assert!(!far.collides_with(&bx));
    assert!(!sp.collides_with(&far));
}

#[test]
fn coarse_volumes_turn_and_move() {
    let bx = BoundingCollider::AABB(car_box());
    let turned = bx.rotate_around_origin(&yaw(HALF_PI));
    assert_eq!(
        turned,
        BoundingCollider::AABB(AABB::new(Vec3::from_ints(-1, -2, 0), Vec3::from_ints(1, 2, 1)))
    );
    let sp = BoundingCollider::BS(BoundingSphere::new(Vec3::from_ints(2, 0, 0), Scalar::one()));
    assert_eq!(
        sp.rotate_around_origin(&yaw(HALF_PI)),
        BoundingCollider::BS(BoundingSphere::new(Vec3::from_ints(0, 2, 0), Scalar::one()))
    );
    assert_eq!(
        sp.get_moved(Vec3::from_ints(1, 1, 1), &yaw(HALF_PI)),
        BoundingCollider::BS(BoundingSphere::new(Vec3::from_ints(1, 3, 1), Scalar::one()))
    );
}

#[test]
fn coarse_volumes_meet_the_world_by_their_kind() {
    let world = flat_world();
    let bx = BoundingCollider::AABB(AABB::new(raw(0, 0, -1), Vec3::from_ints(1, 1, 1)));
    assert!(bx.collides_with_world(&world));
    let sp = BoundingCollider::BS(BoundingSphere::new(Vec3::from_ints(0, 0, 1), Scalar::one()));
    assert!(!sp.collides_with_world(&world));
}

#[test]
fn fine_shapes_meet_by_pairs_and_either_way_round() {
    let bx = InternalCollider::AABB(unit_box_at(0, 0, 0));
    let sp = InternalCollider::BS(BoundingSphere::new(Vec3::from_ints(2, 0, 0), Scalar::from_ratio(3, 2)));
    let face = InternalCollider::Complex(Triangle::new([
        raw(10240, 10240, -20480),
        raw(10240, 10240, 40960),
        raw(10240, 15000, 40960),
    ]));
    let far_face = InternalCollider::Complex(Triangle::new([
        Vec3::from_ints(20, 20, 20),
        Vec3::from_ints(21, 20, 20),
        Vec3::from_ints(20, 21, 20),
    ]));
    let shapes = [bx, sp, face, far_face];
    // the face lies in one plane with itself, and a little more than the
    // sphere's radius from its centre
    let expected = [
        [true, true, true, false],
        [true, true, false, false],
        [true, false, false, false],
        [false, false, false, false],
    ];
    let wide = InternalCollider::BS(BoundingSphere::new(Vec3::from_ints(2, 0, 0), Scalar::from_ratio(8, 5)));
    assert!(wide.collides_with(&face));
    assert!(face.collides_with(&wide));
    for i in 0..4 {
        for j in 0..4 {
            assert_eq!(shapes[i].collides_with(&shapes[j]), expected[i][j], "{} {}", i, j);
            assert_eq!(
                shapes[i].collides_with(&shapes[j]),
                shapes[j].collides_with(&shapes[i])
            );
        }
    }
}

fn body_at(x: i32) -> ComplexCollider {
    let b = unit_box_at(x, 0, 0);
    ComplexCollider::new(
        b,
        vec![SubCollider::new(BoundingCollider::AABB(b), vec![InternalCollider::AABB(b)])],
    )
}

#[test]
fn bodies_meet_through_box_parts_and_shapes() {
    let a = body_at(0);
    let touching = body_at(1);
    let apart = body_at(3);
    assert_eq!(a.get_collision_with(&touching), Collision::Yes);
    assert_eq!(touching.get_collision_with(&a), Collision::Yes);
    assert_eq!(a.get_collision_with(&apart), Collision::No);
    assert_eq!(apart.get_collision_with(&a), Collision::No);
    assert_eq!(a.sub_colliders_collide(&touching), Collision::Yes);
    assert_eq!(a.sub_colliders_collide(&apart), Collision::No);
}

#[test]
fn bodies_whose_boxes_are_apart_do_not_meet_whatever_their_parts() {
    let part = unit_box_at(0, 0, 0);
    let sub = || SubCollider::new(BoundingCollider::AABB(part), vec![InternalCollider::AABB(part)]);
    let here = ComplexCollider::new(unit_box_at(0, 0, 0), vec![sub()]);
    let there = ComplexCollider::new(unit_box_at(5, 0, 0), vec![sub()]);
    assert_eq!(here.sub_colliders_collide(&there), Collision::Yes);
    assert_eq!(here.get_collision_with(&there), Collision::No);
}

#[test]
fn parts_need_their_volumes_and_their_shapes_to_meet() {
    let volume = BoundingCollider::AABB(AABB::new(Vec3::from_ints(0, 0, 0), Vec3::from_ints(4, 4, 4)));
    let left = SubCollider::new(volume, vec![InternalCollider::AABB(unit_box_at(0, 0, 0))]);
    let right = SubCollider::new(volume, vec![InternalCollider::AABB(unit_box_at(3, 3, 3))]);
    assert!(left.bounding_collides_with(&right));
    assert!(!left.internals_collide_with(&right));
    let world = AABB::new(Vec3::from_ints(0, 0, 0), Vec3::from_ints(4, 4, 4));
    let a = ComplexCollider::new(world, vec![left]);
    let b = ComplexCollider::new(world, vec![right]);
    assert_eq!(a.get_collision_with(&b), Collision::No);
    let none = SubCollider::new(volume, vec![]);
    let some = SubCollider::new(volume, vec![InternalCollider::AABB(unit_box_at(0, 0, 0))]);
    assert!(!none.internals_collide_with(&some));
    assert!(!some.internals_collide_with(&none));
    let empty = ComplexCollider::new(world, vec![]);
    assert_eq!(empty.get_collision_with(&a), Collision::No);
}

#[test]
fn a_later_pair_of_shapes_is_found() {
    let volume = BoundingCollider::AABB(AABB::new(Vec3::from_ints(0, 0, 0), Vec3::from_ints(9, 9, 9)));
    let left = SubCollider::new(
        volume,
        vec![
            InternalCollider::AABB(unit_box_at(0, 0, 0)),
            InternalCollider::AABB(unit_box_at(7, 7, 7)),
        ],
    );
    let right = SubCollider::new(
        volume,
        vec![
            InternalCollider::AABB(unit_box_at(3, 3, 3)),
            InternalCollider::BS(BoundingSphere::new(Vec3::from_ints(8, 8, 8), Scalar::one())),
        ],
    );
    assert!(left.internals_collide_with(&right));
    assert!(right.internals_collide_with(&left));
}

#[test]
fn a_body_moves_as_a_whole() {
    let a = body_at(0);
    let quarter = Orientation::new(Scalar::from_raw(HALF_PI), Scalar::zero(), Scalar::zero());
    let moved = a.get_moved(Vec3::from_ints(10, 0, 0), quarter);
    let expected = AABB::new(Vec3::from_ints(9, 0, 0), Vec3::from_ints(10, 1, 1));
    assert_eq!(*moved.get_global_aabb(), expected);
    assert_eq!(moved.sub_colliders.len(), 1);
    assert_eq!(moved.sub_colliders[0].bounding_collider, BoundingCollider::AABB(expected));
    assert_eq!(moved.sub_colliders[0].internal_colliders, vec![InternalCollider::AABB(expected)]);
    // the body itself stays
    assert_eq!(*a.get_global_aabb(), unit_box_at(0, 0, 0));
    let still = a.get_moved(Vec3::zero(), Orientation::zero());
    assert_eq!(*still.get_global_aabb(), unit_box_at(0, 0, 0));
}

#[test]
fn a_part_moves_shape_by_shape() {
    let face = Triangle::new([Vec3::from_ints(0, 0, 0), Vec3::from_ints(1, 0, 0), Vec3::from_ints(0, 1, 0)]);
    let part = SubCollider::new(
        BoundingCollider::BS(BoundingSphere::new(Vec3::from_ints(1, 0, 0), Scalar::one())),
        vec![
            InternalCollider::BS(BoundingSphere::new(Vec3::from_ints(1, 0, 0), Scalar::one())),
            InternalCollider::Complex(face),
            InternalCollider::AABB(unit_box_at(0, 0, 0)),
        ],
    );
    let moved = part.get_moved(Vec3::from_ints(0, 0, 5), &yaw(HALF_PI));
    assert_eq!(
        moved.bounding_collider,
        BoundingCollider::BS(BoundingSphere::new(Vec3::from_ints(0, 1, 5), Scalar::one()))
    );
    assert_eq!(
        moved.internal_colliders[0],
        InternalCollider::BS(BoundingSphere::new(Vec3::from_ints(0, 1, 5), Scalar::one()))
    );
    assert_eq!(
        moved.internal_colliders[1],
        InternalCollider::Complex(Triangle::new([
            Vec3::from_ints(0, 0, 5),
            Vec3::from_ints(0, 1, 5),
            Vec3::from_ints(-1, 0, 5)
        ]))
    );
    assert_eq!(
        moved.internal_colliders[2],
        InternalCollider::AABB(AABB::new(Vec3::from_ints(-1, 0, 5), Vec3::from_ints(0, 1, 6)))
    );
}

#[test]
fn merged_bodies_keep_all_parts_in_order() {
    let a = body_at(0);
    let b = body_at(3);
    let m = a.merge_with(&b);
    assert_eq!(*m.get_global_aabb(), AABB::new(Vec3::from_ints(0, 0, 0), Vec3::from_ints(4, 1, 1)));
    assert_eq!(m.sub_colliders.len(), 2);
    assert_eq!(m.sub_colliders[0].bounding_collider, BoundingCollider::AABB(unit_box_at(0, 0, 0)));
    assert_eq!(m.sub_colliders[1].bounding_collider, BoundingCollider::AABB(unit_box_at(3, 0, 0)));
    assert_eq!(m.get_collision_with(&body_at(3)), Collision::Yes);
    assert_eq!(a.sub_colliders.len(), 1);
}

#[test]
fn the_box_of_a_body_is_replaced() {
    let mut a = body_at(0);
    a.set_aabb(unit_box_at(7, 7, 7));
    assert_eq!(*a.get_global_aabb(), unit_box_at(7, 7, 7));
    assert_eq!(a.sub_colliders.len(), 1);
    let copy = a.clone();
    assert_eq!(*copy.get_global_aabb(), unit_box_at(7, 7, 7));
    assert_eq!(copy.sub_colliders[0].internal_colliders, a.sub_colliders[0].internal_colliders);
}

#[test]
fn a_body_turned_by_nothing_and_moved_by_nothing_stays() {
    let face = Triangle::new([raw(1, 2, 3), raw(-4, 5, 6), raw(7, -8, 9)]);
    let b = car_box();
    let body = ComplexCollider::new(
        b,
        vec![SubCollider::new(
            BoundingCollider::BS(BoundingSphere::new(raw(5, 6, 7), Scalar::one())),
            vec![
                InternalCollider::AABB(b),
                InternalCollider::BS(BoundingSphere::new(raw(-5, 6, -7), Scalar::one())),
                InternalCollider::Complex(face),
            ],
        )],
    );
    let same = body.get_moved(Vec3::zero(), Orientation::zero());
    assert_eq!(same.get_global_aabb(), body.get_global_aabb());
    assert_eq!(same.sub_colliders[0].bounding_collider, body.sub_colliders[0].bounding_collider);
    assert_eq!(
        same.sub_colliders[0].internal_colliders,
        body.sub_colliders[0].internal_colliders
    );
}
