use vehicle_sim::driver::actions::{Action, ActionKind, ActionResult};
use vehicle_sim::driver::colliders::{
    BoundingCollider, BoundingSphere, Collision, InternalCollider, AABB,
};
use vehicle_sim::game_engine::PhysicsConstants;
use vehicle_sim::game_map::{GameMap, Voxel, VoxelType, WorldVoxelPos, ALL_SIDES_EMPTY};
use vehicle_sim::geometry::rotation::{Orientation, HALF_PI, PI};
use vehicle_sim::geometry::vec3d::{Coord, Vec3};
use vehicle_sim::scalar::Scalar;
use vehicle_sim::vehicle::default_vehicles::default_car::{
    default_car_box, default_wheel_motion, get_default_car_type, get_default_loco_equips,
};
use vehicle_sim::vehicle::hull::HullUpdate;
use vehicle_sim::vehicle::locomotion::{
    count_as_divisor, ActivationOutput, ActivationRequirement, ApplicationPoint, DriverAction,
    EqMotionKind, Locomotion, LocomotionEquipment, LocomotionEvent, LocomotionUpdate,
    MotionApplication, StaticLocomotion, SurfaceType,
};
use vehicle_sim::vehicle::position::{VehiclePosUpdate, VehiclePosition};
use vehicle_sim::vehicle::vehicle_stats::VehicleStats;
use vehicle_sim::vehicle::{NewVehicleEntity, StaticVehicleEntity, VehicleEntity};

fn raw(x: i32, y: i32, z: i32) -> Vec3 {
    Vec3::new(Scalar::from_raw(x), Scalar::from_raw(y), Scalar::from_raw(z))
}

fn angles(yaw: i32, pitch: i32, roll: i32) -> Orientation {
    Orientation::new(Scalar::from_raw(yaw), Scalar::from_raw(pitch), Scalar::from_raw(roll))
}

/// Ground below the height zero, air from there up to the height twenty.
fn flat_world() -> GameMap {
    let types = vec![
        VoxelType { surface_type: None, empty_sides: ALL_SIDES_EMPTY },
        VoxelType { surface_type: Some(SurfaceType::Ground), empty_sides: 0 },
    ];
    let mut map = GameMap::new(
        WorldVoxelPos { x: -30, y: -30, z: -5 },
        60,
        60,
        25,
        types,
        Voxel { voxel_type: 0 },
    )
    .unwrap();
    for x in -30..30 {
        for y in -30..30 {
            for z in -5..0 {
                map.set_voxel(WorldVoxelPos { x, y, z }, Voxel { voxel_type: 1 });
            }
        }
    }
    map
}

fn constants() -> PhysicsConstants {
    PhysicsConstants {
        gravity: Scalar::from_ratio(1, 20),
        air_resistance: Scalar::from_ratio(49, 50),
        turn_resistance: Scalar::from_ratio(9, 10),
    }
}

fn car_stats() -> VehicleStats {
    VehicleStats { static_id: 0, nitro_left: Scalar::from_int(100), mass: Scalar::from_int(10) }
}

/// The default car with its wheels pushing at the centre of gravity.
fn falling_car() -> StaticVehicleEntity {
    let mut car = get_default_car_type();
    for eq in car.locomotion.equipment.iter_mut() {
        eq.motion.application_point = ApplicationPoint::CenterOfGravity;
    }
    car
}

fn car_at(car: &StaticVehicleEntity, pos: Vec3) -> VehicleEntity {
    NewVehicleEntity::new(VehiclePosition::new().with_pos(pos), car_stats()).get_ent(car)
}

/// One tick: the pass over the equipment, its events applied, then the
/// pass over the physics, its events applied.
fn tick(ent: &mut VehicleEntity, car: &StaticVehicleEntity, world: &GameMap) {
    let changes = ent.locomotion.compute_vehicle_and_locomotion_changes::<usize>(
        0,
        &car.locomotion,
        world,
        &ent.stats,
        &ent.position,
    );
    ent.position = ent.position.updated(changes.speed.update);
    ent.locomotion.apply(changes.equipment.update);
    if let Some(flush) = changes.flush {
        ent.locomotion.apply(flush.update);
    }
    let physics = ent.locomotion.compute_vehicle_physics::<usize>(
        0,
        Some(0),
        &car.locomotion,
        car,
        world,
        &ent.stats,
        &ent.position,
        &constants(),
    );
    ent.position = ent.position.updated(physics.pose.update);
    ent.position = ent.position.updated(physics.speed.update);
    physics.collider.update.apply_to_comp(&mut ent.hull);
}

#[test]
fn the_function_that_does_nothing() {
    vehicle_sim::vehicle::test();
}

#[test]
fn the_default_car() {
    let car = get_default_car_type();
    assert_eq!(car.stats.start_mass, Scalar::one());
    assert_eq!(car.stats.max_nitro, Scalar::from_int(100));
    let aabb = AABB::new(Vec3::from_ints(2, 1, 1), Vec3::from_ints(-2, -1, 0));
    assert_eq!(default_car_box(), aabb);
    assert_eq!(*car.hull.base_collider.get_global_aabb(), aabb);
    assert_eq!(car.hull.base_collider.sub_colliders.len(), 1);
    assert_eq!(car.hull.base_collider.sub_colliders[0].bounding_collider, BoundingCollider::AABB(aabb));
    assert_eq!(
        car.hull.base_collider.sub_colliders[0].internal_colliders,
        vec![InternalCollider::AABB(aabb)]
    );
    assert_eq!(car.locomotion.equipment.len(), 4);
    assert!(car.locomotion.is_supported());
    let corners = [
        Vec3::from_ints(-2, -1, 0),
        Vec3::from_ints(2, -1, 0),
        Vec3::from_ints(2, 1, 0),
        Vec3::from_ints(-2, 1, 0),
    ];
    for (i, wheel) in car.locomotion.equipment.iter().enumerate() {
        assert_eq!(wheel.resting_local_position, corners[i]);
        assert_eq!(
            wheel.collider,
            BoundingCollider::BS(BoundingSphere::new(corners[i], Scalar::from_raw(7168)))
        );
        assert_eq!(wheel.max_self_rotation, angles(PI / 3, 0, 0));
        assert_eq!(wheel.is_ground_equipment, Some(SurfaceType::Ground));
        assert_eq!(wheel.down_dir, None);
        assert!(wheel.drag_coefficients.is_empty());
        assert_eq!(wheel.motion, default_wheel_motion());
        assert_eq!(wheel.motion.kind, EqMotionKind::Switch);
        assert_eq!(wheel.motion.forward_vector, Vec3::from_ints(1, 0, 0));
        assert_eq!(
            wheel.motion.motion_application,
            MotionApplication::FlatAlong2AxisFromEquipment { removed: Coord::Z }
        );
        assert_eq!(wheel.motion.application_point, ApplicationPoint::CenterOfEquipment);
        assert_eq!(wheel.activation_requirements.len(), if i == 1 || i == 2 { 2 } else { 0 });
    }
    let driven = &car.locomotion.equipment[1];
    let full = |from: i32, to: i32| (Scalar::from_int(from), Scalar::from_int(to));
    let (from, to) = full(-1, 1);
    assert_eq!(
        driven.activation_requirements[0].requirements,
        vec![
            ActivationRequirement::SurfaceContact(Some(SurfaceType::Ground)),
            ActivationRequirement::DriverAction(DriverAction::Throttle { from, to })
        ]
    );
    assert_eq!(driven.activation_requirements[0].output, ActivationOutput::ActivateMotion);
    assert_eq!(
        driven.activation_requirements[1].requirements,
        vec![
            ActivationRequirement::SurfaceContact(Some(SurfaceType::Ground)),
            ActivationRequirement::DriverAction(DriverAction::HorizontalReorientation { from, to })
        ]
    );
    assert_eq!(driven.activation_requirements[1].output, ActivationOutput::Turn(Coord::Z));
}

#[test]
fn the_wheels_of_another_box() {
    let aabb = AABB::new(Vec3::from_ints(0, 0, 0), Vec3::from_ints(6, 2, 1));
    let wheels = get_default_loco_equips(aabb);
    assert_eq!(wheels.len(), 4);
    assert_eq!(wheels[2].resting_local_position, Vec3::from_ints(6, 2, 0));
    assert_eq!(wheels[0].activation_requirements.len(), 0);
    assert_eq!(wheels[2].activation_requirements.len(), 2);
    assert!(wheels.iter().all(|w| w.is_supported()));
}

#[test]
fn a_new_vehicle_takes_its_hull_to_its_pose() {
    let car = get_default_car_type();
    let mut position = VehiclePosition::new().with_pos(Vec3::from_ints(10, 0, 3));
    position.orientation = angles(HALF_PI, 0, 0);
    let ent = NewVehicleEntity::new(position, car_stats()).get_ent(&car);
    assert_eq!(ent.position, position);
    assert_eq!(ent.stats, car_stats());
    assert_eq!(ent.mesh_info.instance_id, None);
    assert_eq!(ent.mesh_info.loco_instances_ids, None);
    assert_eq!(
        *ent.hull.complex_collider.get_global_aabb(),
        AABB::new(Vec3::from_ints(9, -2, 3), Vec3::from_ints(11, 2, 4))
    );
    assert!(ent.locomotion.driver_actions.is_empty());
    assert_eq!(ent.locomotion.equipment.len(), 4);
    assert!(ent.locomotion.is_fitting(&car.locomotion));
    for (i, eq) in ent.locomotion.equipment.iter().enumerate() {
        assert_eq!(eq.static_equipment, i);
        assert_eq!(eq.current_local_position, car.locomotion.equipment[i].resting_local_position);
        assert_eq!(eq.current_local_speed, Vec3::zero());
        assert_eq!(eq.current_local_orient, Orientation::zero());
        assert_eq!(eq.current_local_turn_speed, Orientation::zero());
        assert_eq!(eq.current_collider, car.locomotion.equipment[i].collider);
    }
}

#[test]
fn equipment_must_name_a_slot_of_the_type() {
    let car = get_default_car_type();
    let mut ent = car_at(&car, Vec3::zero());
    assert!(ent.locomotion.is_fitting(&car.locomotion));
    ent.locomotion.equipment[3].static_equipment = 4;
    assert!(!ent.locomotion.is_fitting(&car.locomotion));
    let none = StaticLocomotion { equipment: vec![] };
    assert!(Locomotion::new(vec![]).is_fitting(&none));
    assert!(none.is_supported());
    let mut broken = get_default_car_type();
    broken.locomotion.equipment[2].motion.application_point = ApplicationPoint::ContactPoint;
    assert!(!broken.locomotion.is_supported());
}

#[test]
fn counts_become_divisors_inside_the_range() {
    assert_eq!(count_as_divisor(0), 0);
    assert_eq!(count_as_divisor(4), 4);
    assert_eq!(count_as_divisor(i32::MAX as usize), i32::MAX);
    assert_eq!(count_as_divisor(usize::MAX), i32::MAX);
}

#[test]
fn a_car_in_the_air_changes_nothing_in_the_pass_over_its_equipment() {
    let world = flat_world();
    let car = get_default_car_type();
    let ent = car_at(&car, raw(10240, 10240, 5 * 20480));
    let changes = ent.locomotion.compute_vehicle_and_locomotion_changes::<usize>(
        7,
        &car.locomotion,
        &world,
        &ent.stats,
        &ent.position,
    );
    assert_eq!(changes.equipment.id, 7);
    assert_eq!(changes.equipment.source, None);
    match &changes.equipment.update {
        LocomotionUpdate::UpdateEverything(new_eqs) => assert_eq!(new_eqs, &ent.locomotion.equipment),
        _ => panic!("the equipment is replaced as a whole"),
    }
    assert!(changes.flush.is_none());
    assert_eq!(changes.speed.id, 7);
    assert_eq!(changes.speed.source, None);
    assert_eq!(
        changes.speed.update,
        VehiclePosUpdate::AddToEverySpeed(Vec3::zero(), Orientation::zero())
    );
}

#[test]
fn throttle_drives_a_car_that_stands_on_the_ground() {
    let world = flat_world();
    let car = get_default_car_type();
    // the wheels are a fifth of a unit above the ground, within their colliders
    let mut ent = car_at(&car, raw(10240, 10240, 4096));
    ent.locomotion.driver_actions.push((Action::new(ActionKind::Throttle(Scalar::one())), ActionResult::Pending));
    let changes = ent.locomotion.compute_vehicle_and_locomotion_changes::<usize>(
        0,
        &car.locomotion,
        &world,
        &ent.stats,
        &ent.position,
    );
    // the two driven wheels push forward by their share along their levers;
    // what they and the other wheels give the rate of turning cancels
    assert_eq!(
        changes.speed.update,
        VehiclePosUpdate::AddToEverySpeed(raw(3662, 0, 0), Orientation::zero())
    );
    match &changes.equipment.update {
        LocomotionUpdate::UpdateEverything(new_eqs) => assert_eq!(new_eqs, &ent.locomotion.equipment),
        _ => panic!("the equipment is replaced as a whole"),
    }
    let flush = changes.flush.expect("the driver's actions are used up");
    assert_eq!(flush.id, 0);
    assert_eq!(flush.source, None);
    assert!(matches!(flush.update, LocomotionUpdate::FlushActions));
}

#[test]
fn throttle_does_not_drive_a_car_in_the_air() {
    let world = flat_world();
    let car = get_default_car_type();
    let mut ent = car_at(&car, raw(10240, 10240, 2 * 20480));
    ent.locomotion.driver_actions.push((Action::new(ActionKind::Throttle(Scalar::one())), ActionResult::Pending));
    let changes = ent.locomotion.compute_vehicle_and_locomotion_changes::<usize>(
        0,
        &car.locomotion,
        &world,
        &ent.stats,
        &ent.position,
    );
    assert_eq!(
        changes.speed.update,
        VehiclePosUpdate::AddToEverySpeed(Vec3::zero(), Orientation::zero())
    );
    assert!(changes.flush.is_some());
}

#[test]
fn steering_turns_the_two_middle_wheels() {
    let world = flat_world();
    let car = get_default_car_type();
    let mut ent = car_at(&car, raw(10240, 10240, 4096));
    ent.locomotion.driver_actions.push((
        Action::new(ActionKind::Turn(Scalar::from_ratio(1, 2))),
        ActionResult::Pending,
    ));
    let changes = ent.locomotion.compute_vehicle_and_locomotion_changes::<usize>(
        0,
        &car.locomotion,
        &world,
        &ent.stats,
        &ent.position,
    );
    assert_eq!(
        changes.speed.update,
        VehiclePosUpdate::AddToEverySpeed(Vec3::zero(), Orientation::zero())
    );
    match &changes.equipment.update {
        LocomotionUpdate::UpdateEverything(new_eqs) => {
            assert_eq!(new_eqs.len(), 4);
            assert_eq!(new_eqs[0], ent.locomotion.equipment[0]);
            assert_eq!(new_eqs[3], ent.locomotion.equipment[3]);
            for i in [1, 2] {
                assert_eq!(new_eqs[i].current_local_orient, angles(10240, 0, 0));
                assert_eq!(new_eqs[i].current_local_turn_speed, angles(6144, 0, 0));
                assert_eq!(new_eqs[i].static_equipment, i);
            }
        }
        _ => panic!("the equipment is replaced as a whole"),
    }
}

#[test]
fn one_tick_of_physics_in_the_air() {
    let world = flat_world();
    let car = falling_car();
    let mut ent = car_at(&car, raw(10240, 10240, 5 * 20480));
    ent.position.spd = raw(1000, 0, 0);
    ent.position.turn_spd = angles(2000, 0, 0);
    let physics = ent.locomotion.compute_vehicle_physics(
        3,
        Some(42u8),
        &car.locomotion,
        &car,
        &world,
        &ent.stats,
        &ent.position,
        &constants(),
    );
    // four wheels, each pulled down by gravity over the mass; the speed keeps
    // 49 parts in 50 and the rate of turning nine tenths of that
    let new_spd = raw(979, 0, -408);
    let new_turn = angles(1763, 0, 0);
    assert_eq!(physics.speed.id, 3);
    assert_eq!(physics.speed.source, Some(42));
    assert_eq!(physics.speed.update, VehiclePosUpdate::UpdateEverySpeed(new_spd, new_turn));
    assert_eq!(physics.pose.id, 3);
    assert_eq!(physics.pose.source, Some(42));
    assert_eq!(
        physics.pose.update,
        VehiclePosUpdate::UpdateEveryPos(raw(10240 + 979, 10240, 5 * 20480 - 408), new_turn)
    );
    assert_eq!(physics.collider.id, 3);
    assert_eq!(physics.collider.source, None);
    match &physics.collider.update {
        HullUpdate::UpdateCollider(collider) => {
            let expected = car
                .hull
                .base_collider
                .get_moved(raw(10240 + 979, 10240, 5 * 20480 - 408), new_turn);
            assert_eq!(collider.get_global_aabb(), expected.get_global_aabb());
            assert_eq!(collider.sub_colliders.len(), 1);
            assert_eq!(collider.get_collision_with(&expected), Collision::Yes);
        }
        _ => panic!("the collider is replaced as a whole"),
    }
}

#[test]
fn a_car_in_the_air_falls_faster_each_tick_by_gravity_less_the_resistance_of_the_air() {
    let world = flat_world();
    let car = falling_car();
    let mut ent = car_at(&car, raw(10240, 10240, 15 * 20480));
    let air = constants().air_resistance;
    let pull = constants().gravity.neg().div(car_stats().mass);
    assert_eq!(pull.raw, -102);
    let mut expected = Scalar::zero();
    for _ in 0..40 {
        tick(&mut ent, &car, &world);
        expected = expected.mul(air).add(pull).add(pull).add(pull).add(pull);
        assert_eq!(ent.position.spd, Vec3::new(Scalar::zero(), Scalar::zero(), expected));
        assert_eq!(ent.position.turn_spd, Orientation::zero());
        assert_eq!(ent.position.orientation, Orientation::zero());
        assert!(ent.position.pos.z.raw > 20480);
    }
    assert_eq!(expected.raw, -11291);
}

#[test]
fn the_default_car_hangs_where_it_is_because_gravity_pulls_across_its_levers() {
    let world = flat_world();
    let car = get_default_car_type();
    let start = raw(10240, 10240, 5 * 20480);
    let mut ent = car_at(&car, start);
    for _ in 0..10 {
        tick(&mut ent, &car, &world);
    }
    assert_eq!(ent.position, VehiclePosition::new().with_pos(start));
}

#[test]
fn a_car_dropped_on_the_ground_does_not_fall_through() {
    let world = flat_world();
    let car = falling_car();
    let mut ent = car_at(&car, raw(10240, 10240, 20480));
    let mut lowest = i32::MAX;
    let mut highest = i32::MIN;
    for _ in 0..600 {
        tick(&mut ent, &car, &world);
        lowest = lowest.min(ent.position.pos.z.raw);
        highest = highest.max(ent.position.pos.z.raw);
        // it neither drifts sideways nor turns
        assert_eq!(ent.position.pos.x.raw, 10240);
        assert_eq!(ent.position.pos.y.raw, 10240);
        assert_eq!(ent.position.orientation, Orientation::zero());
    }
    // it sinks into the ground by less than a voxel before it is pushed out
    assert!(lowest > -20480, "lowest {}", lowest);
    // and the push out throws it up again, but never out of the world
    assert!(highest < 20 * 20480, "highest {}", highest);
    // the hull has been kept at the vehicle's pose
    assert_eq!(
        *ent.hull.complex_collider.get_global_aabb(),
        default_car_box().add(ent.position.pos)
    );
}

fn wheel(i: usize) -> LocomotionEquipment {
    LocomotionEquipment {
        static_equipment: i,
        current_local_position: Vec3::from_ints(i as i32, 0, 0),
        current_local_speed: Vec3::zero(),
        current_local_orient: Orientation::zero(),
        current_local_turn_speed: Orientation::zero(),
        current_collider: BoundingCollider::BS(BoundingSphere::new(Vec3::zero(), Scalar::one())),
    }
}

#[test]
fn an_update_of_everything_reaches_as_far_as_both_lists_go() {
    let mut loco = Locomotion::new(vec![wheel(0), wheel(1), wheel(2)]);
    loco.apply(LocomotionUpdate::UpdateEverything(vec![wheel(7), wheel(8)]));
    assert_eq!(loco.equipment, vec![wheel(7), wheel(8), wheel(2)]);
    loco.apply(LocomotionUpdate::UpdateEverything(vec![wheel(3), wheel(4), wheel(5), wheel(6)]));
    assert_eq!(loco.equipment, vec![wheel(3), wheel(4), wheel(5)]);
    loco.apply(LocomotionUpdate::UpdateEverything(vec![]));
    assert_eq!(loco.equipment, vec![wheel(3), wheel(4), wheel(5)]);
}

#[test]
fn speeds_of_equipment_are_replaced_and_added_to() {
    let mut loco = Locomotion::new(vec![wheel(0), wheel(1)]);
    let push = (raw(1, 2, 3), angles(4, 5, 6));
    loco.apply(LocomotionUpdate::UpdateEverySpeed(vec![push]));
    assert_eq!(loco.equipment[0].current_local_speed, raw(1, 2, 3));
    assert_eq!(loco.equipment[0].current_local_turn_speed, angles(4, 5, 6));
    assert_eq!(loco.equipment[0].current_local_position, wheel(0).current_local_position);
    assert_eq!(loco.equipment[1], wheel(1));
    loco.apply(LocomotionUpdate::AddToEverySpeed(vec![push, push, push]));
    assert_eq!(loco.equipment[0].current_local_speed, raw(2, 4, 6));
    assert_eq!(loco.equipment[0].current_local_turn_speed, angles(8, 10, 12));
    assert_eq!(loco.equipment[1].current_local_speed, raw(1, 2, 3));
    assert_eq!(loco.equipment[1].current_local_turn_speed, angles(4, 5, 6));
    assert_eq!(wheel(0).with_speeds(push).with_added_speeds(push), loco.equipment[0]);
}

#[test]
fn actions_are_noted_and_forgotten() {
    let mut loco = Locomotion::new(vec![wheel(0)]);
    assert!(loco.driver_actions.is_empty());
    let go = Action::new(ActionKind::Throttle(Scalar::one()));
    let nitro = Action::new(ActionKind::ActivateNitro);
    loco.apply(LocomotionUpdate::AddAction(go, ActionResult::Pending));
    loco.apply(LocomotionUpdate::AddAction(nitro, ActionResult::Done));
    assert_eq!(loco.driver_actions, vec![(go, ActionResult::Pending), (nitro, ActionResult::Done)]);
    assert_eq!(go.get_kind(), ActionKind::Throttle(Scalar::one()));
    loco.apply(LocomotionUpdate::FlushActions);
    assert!(loco.driver_actions.is_empty());
    assert_eq!(loco.equipment, vec![wheel(0)]);
}

#[test]
fn an_event_changes_the_vehicle_it_names_and_no_other() {
    let mut all = vec![
        Locomotion::new(vec![wheel(0)]),
        Locomotion::new(vec![wheel(1)]),
        Locomotion::new(vec![wheel(2)]),
    ];
    let event = LocomotionEvent::new(1, Some("player"), LocomotionUpdate::UpdateEverything(vec![wheel(9)]));
    assert_eq!(event.get_id(), 1);
    assert_eq!(*event.get_source(), Some("player"));
    event.apply_to_component(&mut all);
    assert_eq!(all.len(), 3);
    assert_eq!(all[0].equipment, vec![wheel(0)]);
    assert_eq!(all[1].equipment, vec![wheel(9)]);
    assert_eq!(all[2].equipment, vec![wheel(2)]);
    let add = LocomotionEvent::<u8>::new(
        2,
        None,
        LocomotionUpdate::AddAction(Action::new(ActionKind::Other), ActionResult::Pending),
    );
    add.apply_to_component(&mut all);
    assert_eq!(all[2].driver_actions.len(), 1);
    assert!(all[1].driver_actions.is_empty());
    let copy = all[2].clone();
    assert_eq!(copy.equipment, all[2].equipment);
    assert_eq!(copy.driver_actions, all[2].driver_actions);
}

#[test]
fn the_default_car_rests_on_the_ground_without_a_driver() {
    let world = flat_world();
    let car = get_default_car_type();
    // the wheels a fifth of a unit above the ground, within their colliders
    let start = raw(10240, 10240, 4096);
    let mut ent = car_at(&car, start);
    for _ in 0..200 {
        tick(&mut ent, &car, &world);
        assert_eq!(ent.position, VehiclePosition::new().with_pos(start));
    }
    assert_eq!(
        *ent.hull.complex_collider.get_global_aabb(),
        default_car_box().add(start)
    );
}

#[test]
fn the_default_car_rolls_under_throttle_and_slows_down_without() {
    let world = flat_world();
    let car = get_default_car_type();
    let mut ent = car_at(&car, raw(10240, 10240, 4096));
    let air = constants().air_resistance;
    let mut speed = Scalar::zero();
    let mut x = Scalar::from_raw(10240);
    for _ in 0..10 {
        ent.locomotion.apply(LocomotionUpdate::AddAction(
            Action::new(ActionKind::Throttle(Scalar::one())),
            ActionResult::Pending,
        ));
        tick(&mut ent, &car, &world);
        // the two driven wheels add their push, then the air takes its part
        speed = speed.add(Scalar::from_raw(3662)).mul(air);
        x = x.add(speed);
        assert_eq!(ent.position.spd, Vec3::new(speed, Scalar::zero(), Scalar::zero()));
        assert_eq!(ent.position.pos, Vec3::new(x, Scalar::from_raw(10240), Scalar::from_raw(4096)));
        assert_eq!(ent.position.orientation, Orientation::zero());
        assert!(ent.locomotion.driver_actions.is_empty());
    }
    assert_eq!(speed.raw, 32815);
    for _ in 0..10 {
        tick(&mut ent, &car, &world);
        speed = speed.mul(air);
        assert_eq!(ent.position.spd, Vec3::new(speed, Scalar::zero(), Scalar::zero()));
    }
}

#[test]
fn equipment_is_drawn_where_it_is_in_the_world() {
    let car = get_default_car_type();
    let mut position = VehiclePosition::new().with_pos(Vec3::from_ints(10, 0, 3));
    position.orientation = angles(HALF_PI, 0, 0);
    let mut ent = NewVehicleEntity::new(position, car_stats()).get_ent(&car);
    ent.locomotion.equipment[1].current_local_orient = angles(100, 0, 0);
    let poses = ent.equipment_poses();
    assert_eq!(
        poses,
        vec![
            (Vec3::from_ints(11, -2, 3), angles(HALF_PI, 0, 0)),
            (Vec3::from_ints(11, 2, 3), angles(HALF_PI + 100, 0, 0)),
            (Vec3::from_ints(9, 2, 3), angles(HALF_PI, 0, 0)),
            (Vec3::from_ints(9, -2, 3), angles(HALF_PI, 0, 0)),
        ]
    );
}
