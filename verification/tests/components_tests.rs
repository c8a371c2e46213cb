use vehicle_sim::driver::colliders::{
    BoundingCollider, ComplexCollider, InternalCollider, SubCollider, AABB,
};
use vehicle_sim::driver::stats::{StatEvent, StatEventVariant, StaticStats, Stats};
use vehicle_sim::geometry::rotation::Orientation;
use vehicle_sim::geometry::vec3d::Vec3;
use vehicle_sim::scalar::Scalar;
use vehicle_sim::server::server_tasks::{cool, GameUserEvent, ServerTask, TaskTarget};
use vehicle_sim::vehicle::hull::{Hull, HullEvent, HullUpdate, StaticHull};
use vehicle_sim::vehicle::mesh_info::{VMeshInfoUpdate, VehicleMeshInfo};
use vehicle_sim::vehicle::position::{
    StaticVehiclePos, VehiclePosEvent, VehiclePosUpdate, VehiclePosition,
};
use vehicle_sim::vehicle::vehicle_stats::{StaticVehicleStats, VehicleStats, VehicleStatsUpdate};

fn raw(x: i32, y: i32, z: i32) -> Vec3 {
    Vec3::new(Scalar::from_raw(x), Scalar::from_raw(y), Scalar::from_raw(z))
}

fn angles(yaw: i32, pitch: i32, roll: i32) -> Orientation {
    Orientation::new(Scalar::from_raw(yaw), Scalar::from_raw(pitch), Scalar::from_raw(roll))
}

#[test]
fn a_driver_starts_with_the_statistics_of_its_kind() {
    let stats = Stats::from_static(&StaticStats {});
    assert_eq!(stats.get_id(), 0);
    assert_eq!((stats.health, stats.damage, stats.stamina), (0, 0, 0));
    assert_eq!(stats.ground_speed, Scalar::from_ratio(1, 5));
    assert_eq!(stats.jump_height, Scalar::one());
    assert_eq!(stats.personal_vehicle, None);
}

#[test]
fn a_stat_event_changes_one_statistic_of_one_driver() {
    let fresh = Stats::from_static(&StaticStats {});
    let mut all = vec![fresh, fresh, fresh];
    StatEvent::new(1, Some(9u32), StatEventVariant::UpdateHealth(50)).apply_to_component(&mut all);
    StatEvent::<u32>::new(1, None, StatEventVariant::UpdateDamage(-3)).apply_to_component(&mut all);
    StatEvent::<u32>::new(2, None, StatEventVariant::UpdateStamina(7)).apply_to_component(&mut all);
    assert_eq!(all[0], fresh);
    assert_eq!((all[1].health, all[1].damage, all[1].stamina), (50, -3, 0));
    assert_eq!((all[2].health, all[2].damage, all[2].stamina), (0, 0, 7));
    let event = StatEvent::new(4, Some(9u32), StatEventVariant::UpdateHealth(1));
    assert_eq!(event.get_id(), 4);
    assert_eq!(*event.get_source(), Some(9));
    assert_eq!(fresh.updated(StatEventVariant::UpdateHealth(1)).health, 1);
}

#[test]
fn a_vehicle_starts_at_rest_at_the_origin() {
    let position = VehiclePosition::new();
    assert_eq!(position.get_pos(), Vec3::zero());
    assert_eq!(position.get_orientation(), Orientation::zero());
    assert_eq!(position.spd, Vec3::zero());
    assert_eq!(position.turn_spd, Orientation::zero());
    assert_eq!(VehiclePosition::from_static(&StaticVehiclePos {}), position);
    assert_eq!(position.get_rotation(), None);
    let moved = position.with_pos(raw(1, 2, 3));
    assert_eq!(moved.get_pos(), raw(1, 2, 3));
    assert_eq!(moved.spd, Vec3::zero());
}

#[test]
fn position_events_replace_or_add() {
    let start = VehiclePosition::new().with_pos(raw(1, 2, 3));
    let mut all = vec![start, start];
    let event = VehiclePosEvent::new(
        1,
        Some('a'),
        VehiclePosUpdate::UpdateEverySpeed(raw(10, 0, 0), angles(1, 0, 0)),
    );
    assert_eq!(event.get_id(), 1);
    assert_eq!(*event.get_source(), Some('a'));
    event.apply_to_component(&mut all);
    assert_eq!(all[0], start);
    assert_eq!(all[1].spd, raw(10, 0, 0));
    assert_eq!(all[1].turn_spd, angles(1, 0, 0));
    assert_eq!(all[1].pos, raw(1, 2, 3));
    VehiclePosEvent::<char>::new(
        1,
        None,
        VehiclePosUpdate::AddToEverySpeed(raw(1, 1, 1), angles(0, 2, 0)),
    )
    .apply_to_component(&mut all);
    assert_eq!(all[1].spd, raw(11, 1, 1));
    assert_eq!(all[1].turn_spd, angles(1, 2, 0));
    VehiclePosEvent::<char>::new(
        1,
        None,
        VehiclePosUpdate::UpdateEveryPos(raw(-5, -5, -5), angles(7, 8, 9)),
    )
    .apply_to_component(&mut all);
    assert_eq!(all[1].pos, raw(-5, -5, -5));
    assert_eq!(all[1].orientation, angles(7, 8, 9));
    assert_eq!(all[1].spd, raw(11, 1, 1));
    assert_eq!(all[0], start);
}

#[test]
fn vehicle_statistics_start_with_the_mass_of_the_type() {
    let kind = StaticVehicleStats { start_mass: Scalar::from_int(10), max_nitro: Scalar::from_int(100) };
    let mut stats = VehicleStats::from_static(&kind);
    assert_eq!(stats.get_id(), 0);
    assert_eq!(stats.mass, Scalar::from_int(10));
    assert_eq!(stats.nitro_left, Scalar::zero());
    VehicleStatsUpdate::UpdateNitro(Scalar::from_int(40)).apply_to_comp(&mut stats);
    assert_eq!(stats.nitro_left, Scalar::from_int(40));
    assert_eq!(stats.mass, Scalar::from_int(10));
    VehicleStatsUpdate::UpdateMass(Scalar::from_int(12)).apply_to_comp(&mut stats);
    assert_eq!(stats.mass, Scalar::from_int(12));
    assert_eq!(stats.nitro_left, Scalar::from_int(40));
}

fn body(x: i32) -> ComplexCollider {
    let b = AABB::new(Vec3::from_ints(x, 0, 0), Vec3::from_ints(x + 1, 1, 1));
    ComplexCollider::new(
        b,
        vec![SubCollider::new(BoundingCollider::AABB(b), vec![InternalCollider::AABB(b)])],
    )
}

#[test]
fn a_hull_starts_as_the_hull_of_its_type_and_is_replaced() {
    let kind = StaticHull { base_collider: body(0) };
    let mut hull = Hull::from_static(&kind);
    assert_eq!(hull.complex_collider.get_global_aabb(), body(0).get_global_aabb());
    assert_eq!(hull.complex_collider.sub_colliders.len(), 1);
    HullUpdate::UpdateColliderAABB(*body(5).get_global_aabb()).apply_to_comp(&mut hull);
    assert_eq!(hull.complex_collider.get_global_aabb(), body(5).get_global_aabb());
    assert_eq!(
        hull.complex_collider.sub_colliders[0].bounding_collider,
        body(0).sub_colliders[0].bounding_collider
    );
    HullUpdate::UpdateCollider(body(9)).apply_to_comp(&mut hull);
    assert_eq!(hull.complex_collider.get_global_aabb(), body(9).get_global_aabb());
    assert_eq!(
        hull.complex_collider.sub_colliders[0].bounding_collider,
        body(9).sub_colliders[0].bounding_collider
    );
    let event = HullEvent::new(3, Some(1u8), HullUpdate::UpdateColliderAABB(*body(1).get_global_aabb()));
    assert_eq!(event.id, 3);
    assert_eq!(event.source, Some(1));
}

#[test]
fn the_drawn_instance_of_a_vehicle_is_replaced() {
    let mut info = VehicleMeshInfo::from_static();
    assert_eq!(info.instance_id, None);
    info.loco_instances_ids = Some(vec![4, 5]);
    VMeshInfoUpdate::UpdateInstance(Some(3)).apply_to_comp(&mut info);
    assert_eq!(info.instance_id, Some(3));
    assert_eq!(info.loco_instances_ids, Some(vec![4, 5]));
    VMeshInfoUpdate::UpdateInstance(None).apply_to_comp(&mut info);
    assert_eq!(info.instance_id, None);
}

#[test]
fn the_tasks_of_a_tick() {
    let engine = [
        (ServerTask::ApplyEvents, 1, 0),
        (ServerTask::Main, 8, 1),
        (ServerTask::AfterMain, 8, 2),
        (ServerTask::PrepareRendering, 1, 3),
        (ServerTask::SendMustSync, 1, 30),
        (ServerTask::MultiFirstPart, 1, 10),
        (ServerTask::MultiSecondPart, 1, 11),
        (ServerTask::MultiThirdPart, 1, 12),
        (ServerTask::MultiFourthPart, 1, 13),
    ];
    for (task, threads, id) in engine {
        assert_eq!(task.uses_type(), TaskTarget::Engine);
        assert_eq!(task.max_threads(), threads);
        assert_eq!(task.type_task_id(), id);
    }
    for (task, id) in [(ServerTask::SendFramebuf, 0), (ServerTask::WaitForPresent, 1)] {
        assert_eq!(task.uses_type(), TaskTarget::Window);
        assert_eq!(task.max_threads(), 1);
        assert_eq!(task.type_task_id(), id);
    }
    cool();
}

#[test]
fn user_events_compare_by_what_they_hold() {
    let a = GameUserEvent::ChoseThatValue(String::from("speed"), String::from("fast"));
    assert_eq!(a.clone(), a);
    assert_ne!(a, GameUserEvent::IncreasedThatValue(String::from("speed")));
    assert_ne!(
        GameUserEvent::IncreasedThatValue(String::from("speed")),
        GameUserEvent::DecreasedThatValue(String::from("speed"))
    );
    assert_eq!(GameUserEvent::ClickedCoolButton, GameUserEvent::ClickedCoolButton);
    assert_ne!(GameUserEvent::ClickedCoolButton, GameUserEvent::ClickedBadButton);
}
