//! What a vehicle weighs and what it has left to burn.

use crate::scalar::Scalar;
use vstd::prelude::*;

verus! {

/// The statistics of one vehicle.
#[derive(Clone, Copy, Debug, PartialEq, Eq, Structural)]
pub struct VehicleStats {
    pub static_id: usize,
    pub nitro_left: Scalar,
    pub mass: Scalar,
}

/// The statistics that all vehicles of a type start with.
#[derive(Clone, Copy, Debug, PartialEq, Eq, Structural)]
pub struct StaticVehicleStats {
    pub start_mass: Scalar,
    pub max_nitro: Scalar,
}

/// A change of a vehicle's statistics.
#[derive(Clone, Copy, Debug, PartialEq, Eq, Structural)]
pub enum VehicleStatsUpdate {
    UpdateNitro(Scalar),
    UpdateMass(Scalar),
}

impl VehicleStats {
    /// The type of the vehicle.
    #[verifier::allow_in_spec]
    pub fn get_id(&self) -> usize
        returns
            self.static_id,
    {
        self.static_id
    }

    /// The statistics that a vehicle of the given type starts with: the
    /// type's mass, and no nitro.
    #[verifier::allow_in_spec]
    pub fn from_static(static_comp: &StaticVehicleStats) -> VehicleStats
        returns
            (VehicleStats {
                static_id: 0,
                nitro_left: Scalar::zero(),
                mass: static_comp.start_mass,
            }),
    {
        VehicleStats { static_id: 0, nitro_left: Scalar::zero(), mass: static_comp.start_mass }
    }
}

impl VehicleStatsUpdate {
    /// Applies the change to `component`.
    pub fn apply_to_comp(self, component: &mut VehicleStats)
        ensures
            *final(component) == match self {
                VehicleStatsUpdate::UpdateNitro(new_nitro) => VehicleStats {
                    nitro_left: new_nitro,
                    ..*old(component)
                },
                VehicleStatsUpdate::UpdateMass(new_mass) => VehicleStats {
                    mass: new_mass,
                    ..*old(component)
                },
            },
    {
        match self {
            VehicleStatsUpdate::UpdateNitro(new_nitro) => component.nitro_left = new_nitro,
            VehicleStatsUpdate::UpdateMass(new_mass) => component.mass = new_mass,
        }
    }
}

} // verus!
