//! Where a vehicle is, how it is turned, and how fast it moves and turns.

use crate::geometry::rotation::{Orientation, Rotation};
use crate::geometry::vec3d::Vec3;
use vstd::prelude::*;

verus! {

/// The pose and the motion of a vehicle.
#[derive(Clone, Copy, Debug, PartialEq, Eq, Structural)]
pub struct VehiclePosition {
    pub pos: Vec3,
    pub spd: Vec3,
    pub orientation: Orientation,
    pub turn_spd: Orientation,
}

impl VehiclePosition {
    /// A vehicle at rest at the origin, turned no way.
    #[verifier::allow_in_spec]
    pub fn new() -> VehiclePosition
        returns
            (VehiclePosition {
                pos: Vec3::zero(),
                spd: Vec3::zero(),
                orientation: Orientation::zero(),
                turn_spd: Orientation::zero(),
            }),
    {
        VehiclePosition {
            pos: Vec3::zero(),
            spd: Vec3::zero(),
            orientation: Orientation::zero(),
            turn_spd: Orientation::zero(),
        }
    }

    /// The same vehicle at `pos`.
    #[verifier::allow_in_spec]
    pub fn with_pos(self, pos: Vec3) -> VehiclePosition
        returns
            (VehiclePosition {
                pos,
                spd: self.spd,
                orientation: self.orientation,
                turn_spd: self.turn_spd,
            }),
    {
        VehiclePosition {
            pos,
            spd: self.spd,
            orientation: self.orientation,
            turn_spd: self.turn_spd,
        }
    }

    /// The pose that a vehicle type starts with.
    #[verifier::allow_in_spec]
    pub fn from_static(static_comp: &StaticVehiclePos) -> VehiclePosition
        returns
            VehiclePosition::new(),
    {
        VehiclePosition::new()
    }

    /// How the vehicle is turned.
    #[verifier::allow_in_spec]
    pub fn get_orientation(&self) -> Orientation
        returns
            self.orientation,
    {
        self.orientation
    }

    /// The rotation that the vehicle keeps ready: none, it is made anew
    /// from the orientation wherever it is needed.
    pub fn get_rotation(&self) -> (r: Option<Rotation>)
        ensures
            r.is_none(),
    {
        None
    }

    /// Where the vehicle is.
    #[verifier::allow_in_spec]
    pub fn get_pos(&self) -> Vec3
        returns
            self.pos,
    {
        self.pos
    }

    /// The position after `update`.
    #[verifier::allow_in_spec]
    pub fn updated(self, update: VehiclePosUpdate) -> VehiclePosition
        returns
            (match update {
                VehiclePosUpdate::UpdateEverySpeed(spd, turn_spd) => VehiclePosition {
                    pos: self.pos,
                    spd,
                    orientation: self.orientation,
                    turn_spd,
                },
                VehiclePosUpdate::AddToEverySpeed(spd, turn_spd) => VehiclePosition {
                    pos: self.pos,
                    spd: self.spd.add(spd),
                    orientation: self.orientation,
                    turn_spd: self.turn_spd.add(turn_spd),
                },
                VehiclePosUpdate::UpdateEveryPos(pos, orientation) => VehiclePosition {
                    pos,
                    spd: self.spd,
                    orientation,
                    turn_spd: self.turn_spd,
                },
            }),
    {
        match update {
            VehiclePosUpdate::UpdateEverySpeed(spd, turn_spd) => VehiclePosition {
                pos: self.pos,
                spd,
                orientation: self.orientation,
                turn_spd,
            },
            VehiclePosUpdate::AddToEverySpeed(spd, turn_spd) => VehiclePosition {
                pos: self.pos,
                spd: self.spd.add(spd),
                orientation: self.orientation,
                turn_spd: self.turn_spd.add(turn_spd),
            },
            VehiclePosUpdate::UpdateEveryPos(pos, orientation) => VehiclePosition {
                pos,
                spd: self.spd,
                orientation,
                turn_spd: self.turn_spd,
            },
        }
    }
}

/// What all vehicles of a type share of their pose: nothing.
#[derive(Clone, Copy, Debug, PartialEq, Eq, Structural)]
pub struct StaticVehiclePos {
}

/// A change of a vehicle's pose or motion.
#[derive(Clone, Copy, Debug, PartialEq, Eq, Structural)]
pub enum VehiclePosUpdate {
    /// Replaces the speed and the rate of turning.
    UpdateEverySpeed(Vec3, Orientation),
    /// Adds to the speed and to the rate of turning.
    AddToEverySpeed(Vec3, Orientation),
    /// Replaces the position and the orientation.
    UpdateEveryPos(Vec3, Orientation),
}

/// A change of the pose of the vehicle `id`, with the identity of whoever
/// asked for it, if known.
#[derive(Debug)]
pub struct VehiclePosEvent<ID> {
    pub id: usize,
    pub source: Option<ID>,
    pub update: VehiclePosUpdate,
}

impl<ID> VehiclePosEvent<ID> {
    /// The event that applies `update` to the vehicle `id`.
    pub fn new(id: usize, source: Option<ID>, update: VehiclePosUpdate) -> (r: VehiclePosEvent<ID>)
        ensures
            r.id == id,
            r.source == source,
            r.update == update,
    {
        VehiclePosEvent { id, source, update }
    }

    /// Who asked for the change, if known.
    pub fn get_source(&self) -> (r: &Option<ID>)
        ensures
            *r == self.source,
    {
        &self.source
    }

    /// The vehicle that the change is for.
    pub fn get_id(&self) -> (r: usize)
        ensures
            r == self.id,
    {
        self.id
    }

    /// Applies the change to the vehicle it is for, and to no other.
    pub fn apply_to_component(self, components: &mut Vec<VehiclePosition>)
        requires
            self.id < old(components).len(),
        ensures
            final(components)@ == old(components)@.update(
                self.id as int,
                old(components)[self.id as int].updated(self.update),
            ),
    {
        let current = components[self.id];
        components.set(self.id, current.updated(self.update));
    }
}

} // verus!
