//! Which drawn instances stand for a vehicle and for its equipment.

use vstd::prelude::*;

verus! {

/// The instances that are drawn for one vehicle, once it has any.
#[derive(Debug)]
pub struct VehicleMeshInfo {
    pub instance_id: Option<usize>,
    pub loco_instances_ids: Option<Vec<usize>>,
}

/// A change of the instance that is drawn for a vehicle.
#[derive(Clone, Copy, Debug, PartialEq, Eq, Structural)]
pub enum VMeshInfoUpdate {
    UpdateInstance(Option<usize>),
}

impl VehicleMeshInfo {
    /// A vehicle for which nothing is drawn yet.
    pub fn from_static() -> (r: VehicleMeshInfo)
        ensures
            r.instance_id.is_none(),
            r.loco_instances_ids.is_none(),
    {
        VehicleMeshInfo { instance_id: None, loco_instances_ids: None }
    }
}

impl VMeshInfoUpdate {
    /// Applies the change to `component`; the instances of the equipment
    /// stay.
    pub fn apply_to_comp(self, component: &mut VehicleMeshInfo)
        ensures
            self matches VMeshInfoUpdate::UpdateInstance(instance) && final(component).instance_id
                == instance,
            final(component).loco_instances_ids == old(component).loco_instances_ids,
    {
        match self {
            VMeshInfoUpdate::UpdateInstance(instance) => component.instance_id = instance,
        }
    }
}

} // verus!
