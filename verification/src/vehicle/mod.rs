//! Vehicles: their pose, their statistics, their hull and the equipment
//! that moves them.

use crate::geometry::rotation::{Orientation, Rotation};
use crate::geometry::vec3d::Vec3;
use crate::vehicle::hull::{Hull, StaticHull};
use crate::vehicle::locomotion::{Locomotion, StaticLocomotion};
use crate::vehicle::mesh_info::VehicleMeshInfo;
use crate::vehicle::position::{StaticVehiclePos, VehiclePosition};
use crate::vehicle::vehicle_stats::{StaticVehicleStats, VehicleStats};
use vstd::prelude::*;

pub mod default_vehicles;
pub mod hull;
pub mod locomotion;
pub mod mesh_info;
pub mod position;
pub mod vehicle_stats;

verus! {

/// Does nothing.
pub fn test() {
}

/// One vehicle.
#[derive(Debug)]
pub struct VehicleEntity {
    pub position: VehiclePosition,
    pub stats: VehicleStats,
    pub mesh_info: VehicleMeshInfo,
    pub hull: Hull,
    pub locomotion: Locomotion,
}

/// What all vehicles of one type share.
#[derive(Debug)]
pub struct StaticVehicleEntity {
    pub position: StaticVehiclePos,
    pub stats: StaticVehicleStats,
    pub hull: StaticHull,
    pub locomotion: StaticLocomotion,
}

/// What is given of a vehicle that is about to be made.
#[derive(Clone, Copy, Debug, PartialEq, Eq, Structural)]
pub struct NewVehicleEntity {
    pub position: VehiclePosition,
    pub stats: VehicleStats,
}

impl VehicleEntity {
    /// Where each equipment is to be drawn and how it is turned there: its
    /// place in the world, and the orientation of the vehicle with its own
    /// added.
    pub fn equipment_poses(&self) -> (r: Vec<(Vec3, Orientation)>)
        ensures
            r.len() == self.locomotion.equipment.len(),
            forall|i: int|
                0 <= i < r.len() ==> #[trigger] r[i] == (
                    self.locomotion.equipment[i].world_position(&self.position),
                    self.position.orientation.add(
                        self.locomotion.equipment[i].current_local_orient,
                    ),
                ),
    {
        let mut poses: Vec<(Vec3, Orientation)> = Vec::new();
        let mut i: usize = 0;
        while i < self.locomotion.equipment.len()
            invariant
                i <= self.locomotion.equipment.len(),
                poses.len() == i,
                forall|k: int|
                    0 <= k < i ==> #[trigger] poses[k] == (
                        self.locomotion.equipment[k].world_position(&self.position),
                        self.position.orientation.add(
                            self.locomotion.equipment[k].current_local_orient,
                        ),
                    ),
            decreases self.locomotion.equipment.len() - i,
        {
            let eq = &self.locomotion.equipment[i];
            poses.push(
                (
                    eq.world_position(&self.position),
                    self.position.orientation.add(eq.current_local_orient),
                ),
            );
            i += 1;
        }
        poses
    }
}

impl NewVehicleEntity {
    /// The vehicle with the given pose and statistics.
    #[verifier::allow_in_spec]
    pub fn new(position: VehiclePosition, stats: VehicleStats) -> NewVehicleEntity
        returns
            (NewVehicleEntity { position, stats }),
    {
        NewVehicleEntity { position, stats }
    }

    /// The vehicle of the given type: the hull of the type brought to the
    /// vehicle's pose, the equipment of the type at rest, and nothing drawn
    /// yet.
    pub fn get_ent(self, static_type: &StaticVehicleEntity) -> (r: VehicleEntity)
        ensures
            r.position == self.position,
            r.stats == self.stats,
            r.mesh_info.instance_id.is_none() && r.mesh_info.loco_instances_ids.is_none(),
            r.hull.complex_collider@ == static_type.hull.base_collider@.moved(
                self.position.pos,
                Rotation::from_orientation(self.position.orientation),
            ),
            r.locomotion@.driver_actions.len() == 0,
            r.locomotion@.equipment.len() == static_type.locomotion.equipment.len(),
            r.locomotion.fits(&static_type.locomotion),
            forall|i: int|
                0 <= i < static_type.locomotion.equipment.len() ==> {
                    &&& (#[trigger] r.locomotion@.equipment[i]).static_equipment == i
                    &&& r.locomotion@.equipment[i].current_local_position
                        == static_type.locomotion.equipment[i].resting_local_position
                    &&& r.locomotion@.equipment[i].current_collider
                        == static_type.locomotion.equipment[i].collider
                },
    {
        let hull = Hull {
            complex_collider: static_type.hull.base_collider.get_moved(
                self.position.pos,
                self.position.orientation,
            ),
        };
        VehicleEntity {
            position: self.position,
            stats: self.stats,
            mesh_info: VehicleMeshInfo::from_static(),
            hull,
            locomotion: Locomotion::from_static(&static_type.locomotion),
        }
    }
}

} // verus!
