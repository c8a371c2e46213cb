//! Locomotion equipment: what activates it, what it contributes to the
//! vehicle's motion, and how the vehicle is moved over the terrain.

use crate::driver::actions::{Action, ActionKind, ActionResult};
use crate::driver::colliders::BoundingCollider;
use crate::game_engine::PhysicsConstants;
use crate::game_map::raycaster::{ArcEnd, Curve, Ray, COEF_ONE};
use crate::game_map::{get_voxel_pos, GameMap};
use crate::geometry::rotation::{
    lemma_identity_rotates_nothing, lemma_zero_orientation_is_identity, Orientation, Rotation,
};
use crate::geometry::vec3d::{Coord, Vec3};
use crate::scalar::{lemma_toward_zero_exact, saturate, toward_zero, Scalar};
use crate::vehicle::hull::{HullEvent, HullUpdate};
use crate::vehicle::position::{VehiclePosEvent, VehiclePosUpdate, VehiclePosition};
use crate::vehicle::vehicle_stats::VehicleStats;
use crate::vehicle::StaticVehicleEntity;
use vstd::prelude::*;

verus! {

/// How far down an equipment looks for the surface it stands on, in whole
/// units.
pub const CONTACT_REACH: i32 = 100;

/// The greatest length that counts as none, in raw units: a hundredth of a
/// whole, rounded down.
pub const NEGLIGIBLE_LENGTH: i32 = 204;

/// The part of its own rate of turning that an equipment keeps from one tick
/// to the next, in raw units: six tenths.
pub const SELF_TURN_DAMPING: i32 = 12288;

/// The kind of surface a voxel offers or an equipment needs.
#[derive(Clone, Copy, Debug, PartialEq, Eq, Structural)]
pub enum SurfaceType {
    Ground,
    Water,
    Any,
}

/// Whether an equipment is on or off, or works by degrees.
#[derive(Clone, Copy, Debug, PartialEq, Eq, Structural)]
pub enum EqMotionKind {
    Switch,
    AnalogLinear,
}

/// The frame in which the motion of an equipment is applied.
#[derive(Clone, Copy, Debug, PartialEq, Eq, Structural)]
pub enum MotionApplication {
    /// Turned as the vehicle and then as the equipment.
    EquipmentLocal,
    /// Turned as the equipment, then flattened along the named axis and
    /// brought to length one unless negligible.
    FlatAlong2AxisFromEquipment { removed: Coord },
    /// As it is.
    WorldCoords,
    /// Turned against the vehicle: from the world into the vehicle's frame.
    RotateAgainstVehicle,
}

/// The point at which the motion of an equipment pushes the vehicle.
#[derive(Clone, Copy, Debug, PartialEq, Eq, Structural)]
pub enum ApplicationPoint {
    /// Where the equipment is: the motion pushes and turns the vehicle.
    CenterOfEquipment,
    /// The centre of gravity: the motion only pushes.
    CenterOfGravity,
    /// Where the equipment touches the terrain. No pass supports it.
    ContactPoint,
}

/// The motion that an equipment gives when it is activated.
#[derive(Clone, Copy, Debug, PartialEq, Eq, Structural)]
pub struct EqMotion {
    pub motion_application: MotionApplication,
    pub forward_vector: Vec3,
    pub kind: EqMotionKind,
    pub application_point: ApplicationPoint,
}

/// How an equipment recoils.
#[derive(Clone, Copy, Debug, PartialEq, Eq, Structural)]
pub enum EqRecoilKind {
    InstantOnActivation,
    ProgressiveOnActivation(Scalar),
    SuspensionOnContact(Scalar),
}

/// The recoil of an equipment.
#[derive(Clone, Copy, Debug, PartialEq, Eq, Structural)]
pub struct EqRecoil {
    pub kind: EqRecoilKind,
    pub equipment_local_vector_towards_recoil: Vec3,
    /// The number of times the vector can be applied in recoil.
    pub max_recoil: Scalar,
}

/// What an activation does.
#[derive(Clone, Copy, Debug, PartialEq, Eq, Structural)]
pub enum ActivationOutput {
    /// Pushes the vehicle.
    ActivateMotion,
    /// Turns the equipment about the given axis of its own.
    Turn(Coord),
}

/// What a driver must ask for.
#[derive(Clone, Copy, Debug, PartialEq, Eq, Structural)]
pub enum DriverAction {
    Throttle { from: Scalar, to: Scalar },
    HorizontalReorientation { from: Scalar, to: Scalar },
    Nitro,
}

impl DriverAction {
    /// Whether this asks for throttle and `throttle` lies in the bounds.
    #[verifier::allow_in_spec]
    pub fn throttle_in_bounds(&self, throttle: Scalar) -> bool
        returns
            (match *self {
                DriverAction::Throttle { from, to } => throttle.raw >= from.raw && throttle.raw
                    <= to.raw,
                _ => false,
            }),
    {
        match self {
            DriverAction::Throttle { from, to } => throttle.raw >= from.raw && throttle.raw
                <= to.raw,
            _ => false,
        }
    }

    /// Whether this asks for a turn and `turn` lies in the bounds.
    #[verifier::allow_in_spec]
    pub fn turning_in_bounds(&self, turn: Scalar) -> bool
        returns
            (match *self {
                DriverAction::HorizontalReorientation { from, to } => turn.raw >= from.raw
                    && turn.raw <= to.raw,
                _ => false,
            }),
    {
        match self {
            DriverAction::HorizontalReorientation { from, to } => turn.raw >= from.raw && turn.raw
                <= to.raw,
            _ => false,
        }
    }

    /// Whether this asks for nitro.
    #[verifier::allow_in_spec]
    pub fn is_nitro(&self) -> bool
        returns
            (*self is Nitro),
    {
        match self {
            DriverAction::Nitro => true,
            _ => false,
        }
    }

    /// Whether an action of the given kind is what this asks for: throttle
    /// or a turn within the bounds, or the use of nitro.
    #[verifier::allow_in_spec]
    pub fn accepts(&self, kind: ActionKind) -> bool
        returns
            (match kind {
                ActionKind::Throttle(value) => self.throttle_in_bounds(value),
                ActionKind::Turn(value) => self.turning_in_bounds(value),
                ActionKind::ActivateNitro => self.is_nitro(),
                ActionKind::Other => false,
            }),
    {
        match kind {
            ActionKind::Throttle(value) => self.throttle_in_bounds(value),
            ActionKind::Turn(value) => self.turning_in_bounds(value),
            ActionKind::ActivateNitro => self.is_nitro(),
            ActionKind::Other => false,
        }
    }

    /// The value that an action of the given kind carries for this: its
    /// throttle where this asks for throttle, its turn where this asks for a
    /// turn.
    #[verifier::allow_in_spec]
    pub fn value_of(&self, kind: ActionKind) -> Option<Scalar>
        returns
            (match (*self, kind) {
                (DriverAction::Throttle { .. }, ActionKind::Throttle(value)) => Some(value),
                (DriverAction::HorizontalReorientation { .. }, ActionKind::Turn(value)) => Some(
                    value,
                ),
                _ => None,
            }),
    {
        match (*self, kind) {
            (DriverAction::Throttle { .. }, ActionKind::Throttle(value)) => Some(value),
            (DriverAction::HorizontalReorientation { .. }, ActionKind::Turn(value)) => Some(value),
            _ => None,
        }
    }
}

/// One thing that must hold for an equipment to be activated.
#[derive(Clone, Copy, Debug, PartialEq, Eq, Structural)]
pub enum ActivationRequirement {
    /// The vehicle has more nitro left than this.
    NitroAmount(Scalar),
    /// The equipment touches terrain whose surface is exactly this.
    SurfaceContact(Option<SurfaceType>),
    /// The surface below lies between `from` and `to` away, and is of the
    /// given type where one is given.
    DistanceToSurface { from: Scalar, to: Scalar, surface_type: Option<SurfaceType> },
    /// The driver asks for this.
    DriverAction(DriverAction),
    /// Where the equipment sits on the hull. No pass supports it.
    HullPosition,
}

/// What must all hold for one activation, and what the activation does.
#[derive(Debug)]
pub struct ActivationRequirements {
    pub requirements: Vec<ActivationRequirement>,
    pub output: ActivationOutput,
}

impl ActivationRequirements {
    /// The requirements with their output.
    pub fn new(requirements: Vec<ActivationRequirement>, output: ActivationOutput) -> (r:
        ActivationRequirements)
        ensures
            r.requirements == requirements,
            r.output == output,
    {
        ActivationRequirements { requirements, output }
    }

    /// None of the requirements is one that is not supported.
    pub open spec fn supported(&self) -> bool {
        forall|i: int|
            0 <= i < self.requirements.len() ==> !(#[trigger] self.requirements[i] is HullPosition)
    }
}

/// What all equipments in one slot of a vehicle type share.
#[derive(Debug)]
pub struct StaticLocomotionEquipment {
    pub activation_requirements: Vec<ActivationRequirements>,
    pub resting_local_position: Vec3,
    pub max_self_rotation: Orientation,
    pub motion: EqMotion,
    pub recoil: EqRecoil,
    pub collider: BoundingCollider,
    /// Which way is down for the equipment, in its own frame; straight down
    /// in the world where none is given.
    pub down_dir: Option<Vec3>,
    /// The surface that bears the equipment, where it bears load.
    pub is_ground_equipment: Option<SurfaceType>,
    /// The drag of the equipment on each kind of surface. No pass reads it.
    pub drag_coefficients: Vec<(SurfaceType, Scalar)>,
}

impl StaticLocomotionEquipment {
    /// Every requirement is supported.
    pub open spec fn requirements_supported(&self) -> bool {
        forall|i: int|
            0 <= i < self.activation_requirements.len()
                ==> (#[trigger] self.activation_requirements[i]).supported()
    }

    /// The point at which the motion is applied is supported.
    pub open spec fn motion_supported(&self) -> bool {
        !(self.motion.application_point is ContactPoint)
    }

    /// Every requirement and the point at which the motion is applied are
    /// supported.
    pub open spec fn supported(&self) -> bool {
        self.requirements_supported() && self.motion_supported()
    }

    /// Whether every requirement and the point at which the motion is
    /// applied are supported.
    pub fn is_supported(&self) -> (r: bool)
        ensures
            r == self.supported(),
    {
        if let ApplicationPoint::ContactPoint = self.motion.application_point {
            return false;
        }
        let mut i: usize = 0;
        while i < self.activation_requirements.len()
            invariant
                i <= self.activation_requirements.len(),
                forall|k: int|
                    0 <= k < i ==> (#[trigger] self.activation_requirements[k]).supported(),
            decreases self.activation_requirements.len() - i,
        {
            let set = &self.activation_requirements[i];
            let mut j: usize = 0;
            while j < set.requirements.len()
                invariant
                    i < self.activation_requirements.len(),
                    *set == self.activation_requirements[i as int],
                    j <= set.requirements.len(),
                    forall|k: int|
                        0 <= k < j ==> !(#[trigger] set.requirements[k] is HullPosition),
                decreases set.requirements.len() - j,
            {
                if let ActivationRequirement::HullPosition = set.requirements[j] {
                    assert(set.requirements[j as int] is HullPosition);
                    assert(!self.activation_requirements[i as int].supported());
                    return false;
                }
                j += 1;
            }
            i += 1;
        }
        true
    }
}

/// What all equipments of a vehicle type share, slot by slot.
#[derive(Debug)]
pub struct StaticLocomotion {
    pub equipment: Vec<StaticLocomotionEquipment>,
}

/// One activation of an equipment in one tick.
#[derive(Clone, Copy, Debug, PartialEq, Eq, Structural)]
pub struct Activated {
    pub activation_id: usize,
    pub strength: Scalar,
}

/// The state of one equipment of one vehicle.
#[derive(Clone, Copy, Debug, PartialEq, Eq, Structural)]
pub struct LocomotionEquipment {
    pub static_equipment: usize,
    pub current_local_position: Vec3,
    pub current_local_speed: Vec3,
    pub current_local_orient: Orientation,
    pub current_local_turn_speed: Orientation,
    pub current_collider: BoundingCollider,
}

/// Whether two surfaces, or their absence, are the same.
fn same_surface(a: Option<SurfaceType>, b: Option<SurfaceType>) -> (r: bool)
    ensures
        r == (a == b),
{
    match (a, b) {
        (Some(x), Some(y)) => x == y,
        (None, None) => true,
        _ => false,
    }
}

/// What the pending actions of a driver come to for one thing asked of
/// them, the actions taken in turn: whether one of them is what is asked
/// for, and the strength, which is the value of the latest of them that is
/// what is asked for and carries a value, or `strength` where there is none.
pub open spec fn driven(
    action: DriverAction,
    driver_actions: Seq<(Action, ActionResult)>,
    strength: Scalar,
) -> (bool, Scalar)
    decreases driver_actions.len(),
{
    if driver_actions.len() == 0 {
        (false, strength)
    } else {
        let before = driven(action, driver_actions.drop_last(), strength);
        let kind = driver_actions.last().0.get_kind();
        (
            before.0 || action.accepts(kind),
            if action.accepts(kind) && action.value_of(kind).is_some() {
                action.value_of(kind).unwrap()
            } else {
                before.1
            },
        )
    }
}

/// The driver asks for a thing exactly where one of the pending actions is
/// what is asked for.
pub proof fn lemma_driven_by_any_accepted(
    action: DriverAction,
    driver_actions: Seq<(Action, ActionResult)>,
    strength: Scalar,
)
    ensures
        driven(action, driver_actions, strength).0 == exists|k: int|
            0 <= k < driver_actions.len() && action.accepts(
                (#[trigger] driver_actions[k]).0.get_kind(),
            ),
    decreases driver_actions.len(),
{
    if driver_actions.len() > 0 {
        let shorter = driver_actions.drop_last();
        lemma_driven_by_any_accepted(action, shorter, strength);
        if driven(action, driver_actions, strength).0 {
            if driven(action, shorter, strength).0 {
                let k = choose|k: int|
                    0 <= k < shorter.len() && action.accepts((#[trigger] shorter[k]).0.get_kind());
                assert(driver_actions[k] == shorter[k]);
            } else {
                assert(action.accepts(driver_actions[driver_actions.len() - 1].0.get_kind()));
            }
        } else {
            assert forall|k: int| 0 <= k < driver_actions.len() implies !action.accepts(
                (#[trigger] driver_actions[k]).0.get_kind(),
            ) by {
                if k < shorter.len() {
                    assert(shorter[k] == driver_actions[k]);
                }
            }
        }
    }
}

/// The strength that throttle or a turn is asked with lies within the
/// bounds asked for, unless no pending action was accepted.
pub proof fn lemma_driven_strength_in_bounds(
    action: DriverAction,
    driver_actions: Seq<(Action, ActionResult)>,
    strength: Scalar,
)
    requires
        driven(action, driver_actions, strength).0,
    ensures
        action matches DriverAction::Throttle { from, to } ==> from.raw <= driven(
            action,
            driver_actions,
            strength,
        ).1.raw <= to.raw,
        action matches DriverAction::HorizontalReorientation { from, to } ==> from.raw <= driven(
            action,
            driver_actions,
            strength,
        ).1.raw <= to.raw,
        action is Nitro ==> driven(action, driver_actions, strength).1 == strength,
    decreases driver_actions.len(),
{
    if driver_actions.len() > 0 {
        let shorter = driver_actions.drop_last();
        let kind = driver_actions.last().0.get_kind();
        if driven(action, shorter, strength).0 {
            lemma_driven_strength_in_bounds(action, shorter, strength);
        } else if action is Nitro {
            lemma_driven_nitro_keeps_strength(shorter, strength);
        }
    }
}

/// Asking for nitro leaves the strength as it was.
proof fn lemma_driven_nitro_keeps_strength(
    driver_actions: Seq<(Action, ActionResult)>,
    strength: Scalar,
)
    ensures
        driven(DriverAction::Nitro, driver_actions, strength).1 == strength,
    decreases driver_actions.len(),
{
    if driver_actions.len() > 0 {
        lemma_driven_nitro_keeps_strength(driver_actions.drop_last(), strength);
    }
}

impl LocomotionEquipment {
    /// Where the equipment is in the world.
    #[verifier::allow_in_spec]
    pub fn world_position(&self, vehicle_position: &VehiclePosition) -> Vec3
        returns
            Rotation::from_orientation(vehicle_position.orientation).rotate(
                self.current_local_position,
            ).add(vehicle_position.pos),
    {
        Rotation::from_orientation(vehicle_position.orientation).rotate(
            self.current_local_position,
        ).add(vehicle_position.pos)
    }

    /// Which way is down for the equipment, in the world: its own down
    /// turned as the equipment and then as the vehicle, or straight down
    /// where it has none.
    #[verifier::allow_in_spec]
    pub fn down_direction(
        &self,
        static_type: &StaticLocomotionEquipment,
        vehicle_position: &VehiclePosition,
    ) -> Vec3
        returns
            (match static_type.down_dir {
                Some(vec) => Rotation::from_orientation(vehicle_position.orientation).rotate(
                    Rotation::from_orientation(self.current_local_orient).rotate(vec),
                ),
                None => Vec3::from_ints(0, 0, -1i32),
            }),
    {
        match static_type.down_dir {
            Some(vec) => Rotation::from_orientation(vehicle_position.orientation).rotate(
                Rotation::from_orientation(self.current_local_orient).rotate(vec),
            ),
            None => Vec3::from_ints(0, 0, -1i32),
        }
    }

    /// The ray from the equipment downward, no longer than `max_length`.
    #[verifier::allow_in_spec]
    pub fn down_ray(
        &self,
        static_type: &StaticLocomotionEquipment,
        vehicle_position: &VehiclePosition,
        max_length: Scalar,
    ) -> Ray
        returns
            Ray::new(
                self.world_position(vehicle_position),
                self.down_direction(static_type, vehicle_position),
                Some(max_length),
            ),
    {
        Ray::new(
            self.world_position(vehicle_position),
            self.down_direction(static_type, vehicle_position),
            Some(max_length),
        )
    }

    /// Whether the point `point` of the world lies in the collider of the
    /// equipment, turned as the vehicle is.
    pub open spec fn holds_point(&self, vehicle_position: &VehiclePosition, point: Vec3) -> bool {
        self.current_collider.turned(
            Rotation::from_orientation(vehicle_position.orientation),
        ).point_inside(point.sub(vehicle_position.pos))
    }

    /// Whether the point `point` of the world lies in the collider of the
    /// equipment, turned as the vehicle is.
    pub fn is_holding_point(&self, vehicle_position: &VehiclePosition, point: Vec3) -> (r: bool)
        ensures
            r == self.holds_point(vehicle_position, point),
    {
        let vehicle_rotation = Rotation::from_orientation(vehicle_position.orientation);
        self.current_collider.rotate_around_origin(&vehicle_rotation).point_inside(
            point.sub(vehicle_position.pos),
        )
    }

    /// Whether the equipment touches terrain whose surface is `surface`: the
    /// ray downward, as far as [`CONTACT_REACH`], ends in a voxel of that
    /// surface, at a point that lies in the collider of the equipment.
    pub open spec fn surface_contact(
        &self,
        static_type: &StaticLocomotionEquipment,
        world: &GameMap,
        vehicle_position: &VehiclePosition,
        surface: Option<SurfaceType>,
    ) -> bool {
        let end = self.down_ray(
            static_type,
            vehicle_position,
            Scalar::from_int(CONTACT_REACH),
        ).end(world).end;
        match world.type_at(get_voxel_pos(end)) {
            Some(voxel_type) => self.holds_point(vehicle_position, end) && voxel_type.surface_type
                == surface,
            None => false,
        }
    }

    /// Whether the equipment touches terrain whose surface is `surface`.
    pub fn has_surface_contact(
        &self,
        static_type: &StaticLocomotionEquipment,
        world: &GameMap,
        vehicle_position: &VehiclePosition,
        surface: Option<SurfaceType>,
    ) -> (r: bool)
        ensures
            r == self.surface_contact(static_type, world, vehicle_position, surface),
    {
        let ray = self.down_ray(static_type, vehicle_position, Scalar::from_int(CONTACT_REACH));
        let end = ray.get_end(world);
        match world.get_type_of_voxel_at(get_voxel_pos(end.end)) {
            Some(voxel_type) => {
                if self.is_holding_point(vehicle_position, end.end) {
                    same_surface(voxel_type.surface_type, surface)
                } else {
                    false
                }
            },
            None => false,
        }
    }

    /// Whether the surface below lies between `from` and `to` away: the ray
    /// downward, as far as `to`, ends at a length between the two, and, where
    /// a surface is asked for, in a voxel of that surface.
    pub open spec fn distance_to_surface(
        &self,
        static_type: &StaticLocomotionEquipment,
        world: &GameMap,
        vehicle_position: &VehiclePosition,
        from: Scalar,
        to: Scalar,
        surface: Option<SurfaceType>,
    ) -> bool {
        let end = self.down_ray(static_type, vehicle_position, to).end(world);
        &&& from.raw <= end.final_length.raw <= to.raw
        &&& surface matches Some(wanted) ==> (world.type_at(get_voxel_pos(end.end)) matches Some(
            voxel_type,
        ) && voxel_type.surface_type == Some(wanted))
    }

    /// Whether the surface below lies between `from` and `to` away.
    pub fn has_distance_to_surface(
        &self,
        static_type: &StaticLocomotionEquipment,
        world: &GameMap,
        vehicle_position: &VehiclePosition,
        from: Scalar,
        to: Scalar,
        surface: Option<SurfaceType>,
    ) -> (r: bool)
        ensures
            r == self.distance_to_surface(static_type, world, vehicle_position, from, to, surface),
    {
        let ray = self.down_ray(static_type, vehicle_position, to);
        let end = ray.get_end(world);
        if end.final_length.raw >= from.raw && end.final_length.raw <= to.raw {
            match surface {
                Some(wanted) => match world.get_type_of_voxel_at(get_voxel_pos(end.end)) {
                    Some(voxel_type) => same_surface(voxel_type.surface_type, Some(wanted)),
                    None => false,
                },
                None => true,
            }
        } else {
            false
        }
    }

    /// Whether one requirement holds, and the strength after it: the
    /// strength before, unless the requirement is an action of the driver
    /// that carries a value.
    pub open spec fn requirement_met(
        &self,
        static_type: &StaticLocomotionEquipment,
        world: &GameMap,
        vehicle_stats: &VehicleStats,
        vehicle_position: &VehiclePosition,
        driver_actions: Seq<(Action, ActionResult)>,
        requirement: ActivationRequirement,
        strength: Scalar,
    ) -> (bool, Scalar) {
        match requirement {
            ActivationRequirement::NitroAmount(amount) => (
                vehicle_stats.nitro_left.raw > amount.raw,
                strength,
            ),
            ActivationRequirement::DriverAction(action) => driven(action, driver_actions, strength),
            ActivationRequirement::DistanceToSurface { from, to, surface_type } => (
                self.distance_to_surface(
                    static_type,
                    world,
                    vehicle_position,
                    from,
                    to,
                    surface_type,
                ),
                strength,
            ),
            ActivationRequirement::HullPosition => (false, strength),
            ActivationRequirement::SurfaceContact(surface_type) => (
                self.surface_contact(static_type, world, vehicle_position, surface_type),
                strength,
            ),
        }
    }

    /// Whether one requirement holds, and the strength after it.
    fn check_requirement(
        &self,
        static_type: &StaticLocomotionEquipment,
        world: &GameMap,
        vehicle_stats: &VehicleStats,
        vehicle_position: &VehiclePosition,
        driver_actions: &Vec<(Action, ActionResult)>,
        requirement: ActivationRequirement,
        strength: Scalar,
    ) -> (r: (bool, Scalar))
        ensures
            r == self.requirement_met(
                static_type,
                world,
                vehicle_stats,
                vehicle_position,
                driver_actions@,
                requirement,
                strength,
            ),
    {
        match requirement {
            ActivationRequirement::NitroAmount(amount) => (
                vehicle_stats.nitro_left.raw > amount.raw,
                strength,
            ),
            ActivationRequirement::DriverAction(action) => {
                let mut any_action_compatible = false;
                let mut current = strength;
                let mut k: usize = 0;
                while k < driver_actions.len()
                    invariant
                        k <= driver_actions.len(),
                        (any_action_compatible, current) == driven(
                            action,
                            driver_actions@.take(k as int),
                            strength,
                        ),
                    decreases driver_actions.len() - k,
                {
                    let kind = driver_actions[k].0.get_kind();
                    proof {
                        assert(driver_actions@.take(k + 1).drop_last() =~= driver_actions@.take(
                            k as int,
                        ));
                    }
                    if action.accepts(kind) {
                        any_action_compatible = true;
                        match action.value_of(kind) {
                            Some(value) => current = value,
                            None => {},
                        }
                    }
                    k += 1;
                }
                proof {
                    assert(driver_actions@.take(k as int) =~= driver_actions@);
                }
                (any_action_compatible, current)
            },
            ActivationRequirement::DistanceToSurface { from, to, surface_type } => (
                self.has_distance_to_surface(
                    static_type,
                    world,
                    vehicle_position,
                    from,
                    to,
                    surface_type,
                ),
                strength,
            ),
            ActivationRequirement::HullPosition => (false, strength),
            ActivationRequirement::SurfaceContact(surface_type) => (
                self.has_surface_contact(static_type, world, vehicle_position, surface_type),
                strength,
            ),
        }
    }

    /// The strength with which the requirements from the one at `from` on
    /// are all met, taken in turn from the strength `strength`; none where
    /// one of them is not met.
    pub open spec fn satisfied(
        &self,
        static_type: &StaticLocomotionEquipment,
        world: &GameMap,
        vehicle_stats: &VehicleStats,
        vehicle_position: &VehiclePosition,
        driver_actions: Seq<(Action, ActionResult)>,
        requirements: Seq<ActivationRequirement>,
        from: int,
        strength: Scalar,
    ) -> Option<Scalar>
        decreases requirements.len() - from,
    {
        if from < 0 || from >= requirements.len() {
            Some(strength)
        } else {
            let met = self.requirement_met(
                static_type,
                world,
                vehicle_stats,
                vehicle_position,
                driver_actions,
                requirements[from],
                strength,
            );
            if met.0 {
                self.satisfied(
                    static_type,
                    world,
                    vehicle_stats,
                    vehicle_position,
                    driver_actions,
                    requirements,
                    from + 1,
                    met.1,
                )
            } else {
                None
            }
        }
    }

    /// Whether a requirement holds does not depend on the strength so far.
    pub proof fn lemma_requirement_met_whatever_the_strength(
        &self,
        static_type: &StaticLocomotionEquipment,
        world: &GameMap,
        vehicle_stats: &VehicleStats,
        vehicle_position: &VehiclePosition,
        driver_actions: Seq<(Action, ActionResult)>,
        requirement: ActivationRequirement,
        strength: Scalar,
        other: Scalar,
    )
        ensures
            self.requirement_met(
                static_type,
                world,
                vehicle_stats,
                vehicle_position,
                driver_actions,
                requirement,
                strength,
            ).0 == self.requirement_met(
                static_type,
                world,
                vehicle_stats,
                vehicle_position,
                driver_actions,
                requirement,
                other,
            ).0,
    {
        if let ActivationRequirement::DriverAction(action) = requirement {
            lemma_driven_by_any_accepted(action, driver_actions, strength);
            lemma_driven_by_any_accepted(action, driver_actions, other);
        }
    }

    /// A set of requirements is satisfied exactly where every one of its
    /// requirements holds.
    pub proof fn lemma_satisfied_where_all_requirements_hold(
        &self,
        static_type: &StaticLocomotionEquipment,
        world: &GameMap,
        vehicle_stats: &VehicleStats,
        vehicle_position: &VehiclePosition,
        driver_actions: Seq<(Action, ActionResult)>,
        requirements: Seq<ActivationRequirement>,
        from: int,
        strength: Scalar,
    )
        requires
            0 <= from <= requirements.len(),
        ensures
            self.satisfied(
                static_type,
                world,
                vehicle_stats,
                vehicle_position,
                driver_actions,
                requirements,
                from,
                strength,
            ).is_some() == forall|j: int|
                from <= j < requirements.len() ==> self.requirement_met(
                    static_type,
                    world,
                    vehicle_stats,
                    vehicle_position,
                    driver_actions,
                    #[trigger] requirements[j],
                    Scalar::zero(),
                ).0,
        decreases requirements.len() - from,
    {
        if from < requirements.len() {
            let met = self.requirement_met(
                static_type,
                world,
                vehicle_stats,
                vehicle_position,
                driver_actions,
                requirements[from],
                strength,
            );
            self.lemma_requirement_met_whatever_the_strength(
                static_type,
                world,
                vehicle_stats,
                vehicle_position,
                driver_actions,
                requirements[from],
                strength,
                Scalar::zero(),
            );
            if met.0 {
                self.lemma_satisfied_where_all_requirements_hold(
                    static_type,
                    world,
                    vehicle_stats,
                    vehicle_position,
                    driver_actions,
                    requirements,
                    from + 1,
                    met.1,
                );
                assert(self.requirement_met(
                    static_type,
                    world,
                    vehicle_stats,
                    vehicle_position,
                    driver_actions,
                    requirements[from],
                    Scalar::zero(),
                ).0);
            } else {
                assert(!self.requirement_met(
                    static_type,
                    world,
                    vehicle_stats,
                    vehicle_position,
                    driver_actions,
                    requirements[from],
                    Scalar::zero(),
                ).0);
            }
        }
    }

    /// The activations among the first `upto` sets of requirements, in the
    /// order of the sets: one for each set whose requirements are all met,
    /// with the strength they are met with from the strength zero.
    pub open spec fn activations(
        &self,
        static_type: &StaticLocomotionEquipment,
        world: &GameMap,
        vehicle_stats: &VehicleStats,
        vehicle_position: &VehiclePosition,
        driver_actions: Seq<(Action, ActionResult)>,
        upto: int,
    ) -> Seq<Activated>
        decreases upto,
    {
        if upto <= 0 {
            Seq::empty()
        } else {
            let before = self.activations(
                static_type,
                world,
                vehicle_stats,
                vehicle_position,
                driver_actions,
                upto - 1,
            );
            match self.satisfied(
                static_type,
                world,
                vehicle_stats,
                vehicle_position,
                driver_actions,
                static_type.activation_requirements[upto - 1].requirements@,
                0,
                Scalar::zero(),
            ) {
                Some(strength) => before.push(
                    Activated { activation_id: (upto - 1) as usize, strength },
                ),
                None => before,
            }
        }
    }

    /// Every activation among the first `upto` sets names one of them.
    pub proof fn lemma_activations_in_range(
        &self,
        static_type: &StaticLocomotionEquipment,
        world: &GameMap,
        vehicle_stats: &VehicleStats,
        vehicle_position: &VehiclePosition,
        driver_actions: Seq<(Action, ActionResult)>,
        upto: int,
    )
        requires
            upto <= static_type.activation_requirements.len(),
        ensures
            forall|k: int|
                0 <= k < self.activations(
                    static_type,
                    world,
                    vehicle_stats,
                    vehicle_position,
                    driver_actions,
                    upto,
                ).len() ==> (#[trigger] self.activations(
                    static_type,
                    world,
                    vehicle_stats,
                    vehicle_position,
                    driver_actions,
                    upto,
                )[k]).activation_id < upto,
        decreases upto,
    {
        if upto > 0 {
            self.lemma_activations_in_range(
                static_type,
                world,
                vehicle_stats,
                vehicle_position,
                driver_actions,
                upto - 1,
            );
            let before = self.activations(
                static_type,
                world,
                vehicle_stats,
                vehicle_position,
                driver_actions,
                upto - 1,
            );
            let now = self.activations(
                static_type,
                world,
                vehicle_stats,
                vehicle_position,
                driver_actions,
                upto,
            );
            assert(now == before || (now.len() == before.len() + 1 && now.drop_last() == before
                && now.last().activation_id == upto - 1));
            assert forall|k: int| 0 <= k < now.len() implies (#[trigger] now[k]).activation_id
                < upto by {
                if k < before.len() {
                    assert(now[k] == before[k]);
                }
            }
        }
    }

    /// Each satisfied set gives one activation, and no other set gives any:
    /// among the activations of the first `upto` sets there is one for the
    /// set `set`, with the strength that the set is satisfied with, exactly
    /// where that set is satisfied.
    pub proof fn lemma_activation_for_each_satisfied_set(
        &self,
        static_type: &StaticLocomotionEquipment,
        world: &GameMap,
        vehicle_stats: &VehicleStats,
        vehicle_position: &VehiclePosition,
        driver_actions: Seq<(Action, ActionResult)>,
        upto: int,
        set: int,
    )
        requires
            0 <= set < upto <= static_type.activation_requirements.len(),
        ensures
            match self.satisfied(
                static_type,
                world,
                vehicle_stats,
                vehicle_position,
                driver_actions,
                static_type.activation_requirements[set].requirements@,
                0,
                Scalar::zero(),
            ) {
                Some(strength) => self.activations(
                    static_type,
                    world,
                    vehicle_stats,
                    vehicle_position,
                    driver_actions,
                    upto,
                ).contains(Activated { activation_id: set as usize, strength }),
                None => forall|k: int|
                    0 <= k < self.activations(
                        static_type,
                        world,
                        vehicle_stats,
                        vehicle_position,
                        driver_actions,
                        upto,
                    ).len() ==> (#[trigger] self.activations(
                        static_type,
                        world,
                        vehicle_stats,
                        vehicle_position,
                        driver_actions,
                        upto,
                    )[k]).activation_id != set,
            },
        decreases upto,
    {
        let before = self.activations(
            static_type,
            world,
            vehicle_stats,
            vehicle_position,
            driver_actions,
            upto - 1,
        );
        let now = self.activations(
            static_type,
            world,
            vehicle_stats,
            vehicle_position,
            driver_actions,
            upto,
        );
        let outcome = self.satisfied(
            static_type,
            world,
            vehicle_stats,
            vehicle_position,
            driver_actions,
            static_type.activation_requirements[set].requirements@,
            0,
            Scalar::zero(),
        );
        self.lemma_activations_in_range(
            static_type,
            world,
            vehicle_stats,
            vehicle_position,
            driver_actions,
            upto - 1,
        );
        if set < upto - 1 {
            self.lemma_activation_for_each_satisfied_set(
                static_type,
                world,
                vehicle_stats,
                vehicle_position,
                driver_actions,
                upto - 1,
                set,
            );
            match outcome {
                Some(strength) => {
                    let wanted = Activated { activation_id: set as usize, strength };
                    let k = choose|k: int| 0 <= k < before.len() && before[k] == wanted;
                    assert(now[k] == wanted);
                },
                None => {
                    assert forall|k: int| 0 <= k < now.len() implies (#[trigger] now[k]).activation_id
                        != set by {
                        if k < before.len() {
                            assert(now[k] == before[k]);
                        }
                    }
                },
            }
        } else {
            match outcome {
                Some(strength) => {
                    assert(now.last() == Activated { activation_id: set as usize, strength });
                },
                None => {
                    assert(now == before);
                },
            }
        }
    }

    /// The activations of the equipment in this tick: one for each set of
    /// requirements that are all met, in the order of the sets.
    pub fn can_activate(
        &self,
        static_type: &StaticLocomotionEquipment,
        world: &GameMap,
        vehicle_stats: &VehicleStats,
        vehicle_position: &VehiclePosition,
        driver_actions: &Vec<(Action, ActionResult)>,
    ) -> (r: Vec<Activated>)
        requires
            static_type.requirements_supported(),
        ensures
            r@ == self.activations(
                static_type,
                world,
                vehicle_stats,
                vehicle_position,
                driver_actions@,
                static_type.activation_requirements.len() as int,
            ),
            forall|k: int|
                0 <= k < r.len() ==> (#[trigger] r[k]).activation_id
                    < static_type.activation_requirements.len(),
    {
        let mut activations: Vec<Activated> = Vec::new();
        let mut i: usize = 0;
        while i < static_type.activation_requirements.len()
            invariant
                i <= static_type.activation_requirements.len(),
                activations@ == self.activations(
                    static_type,
                    world,
                    vehicle_stats,
                    vehicle_position,
                    driver_actions@,
                    i as int,
                ),
            decreases static_type.activation_requirements.len() - i,
        {
            let reqs = &static_type.activation_requirements[i].requirements;
            let mut possible = true;
            let mut strength = Scalar::zero();
            let mut j: usize = 0;
            while possible && j < reqs.len()
                invariant
                    j <= reqs.len(),
                    self.satisfied(
                        static_type,
                        world,
                        vehicle_stats,
                        vehicle_position,
                        driver_actions@,
                        reqs@,
                        0,
                        Scalar::zero(),
                    ) == if possible {
                        self.satisfied(
                            static_type,
                            world,
                            vehicle_stats,
                            vehicle_position,
                            driver_actions@,
                            reqs@,
                            j as int,
                            strength,
                        )
                    } else {
                        None
                    },
                decreases reqs.len() - j + if possible { 1int } else { 0int },
            {
                let met = self.check_requirement(
                    static_type,
                    world,
                    vehicle_stats,
                    vehicle_position,
                    driver_actions,
                    reqs[j],
                    strength,
                );
                possible = met.0;
                strength = met.1;
                j += 1;
            }
            if possible {
                activations.push(Activated { activation_id: i, strength });
            }
            i += 1;
        }
        proof {
            self.lemma_activations_in_range(
                static_type,
                world,
                vehicle_stats,
                vehicle_position,
                driver_actions@,
                static_type.activation_requirements.len() as int,
            );
        }
        activations
    }
}

/// The least nudge that frees the point `end`, tried in this order: the
/// vertical part of `nudge` alone; that part and one unit more; `nudge`
/// without its `x`, without its `y`, without its `z`; and where none of them
/// leads out of solid terrain, `nudge` as it is.
#[verifier::allow_in_spec]
pub fn get_minimum_nudge(end: Vec3, nudge: Vec3, world: &GameMap) -> Vec3
    returns
        (if !world.solid_at(
            get_voxel_pos(end.add(Vec3::new(Scalar::zero(), Scalar::zero(), nudge.z))),
        ) {
            Vec3::new(Scalar::zero(), Scalar::zero(), nudge.z)
        } else if !world.solid_at(
            get_voxel_pos(
                end.add(Vec3::new(Scalar::zero(), Scalar::zero(), nudge.z.add(Scalar::one()))),
            ),
        ) {
            Vec3::new(Scalar::zero(), Scalar::zero(), nudge.z.add(Scalar::one()))
        } else if !world.solid_at(
            get_voxel_pos(end.add(Vec3::new(Scalar::zero(), nudge.y, nudge.z))),
        ) {
            Vec3::new(Scalar::zero(), nudge.y, nudge.z)
        } else if !world.solid_at(
            get_voxel_pos(end.add(Vec3::new(nudge.x, Scalar::zero(), nudge.z))),
        ) {
            Vec3::new(nudge.x, Scalar::zero(), nudge.z)
        } else if !world.solid_at(
            get_voxel_pos(end.add(Vec3::new(nudge.x, nudge.y, Scalar::zero()))),
        ) {
            Vec3::new(nudge.x, nudge.y, Scalar::zero())
        } else {
            nudge
        }),
{
    let zero = Scalar::zero();
    let xy_zeroed_out = end.add(Vec3::new(zero, zero, nudge.z));
    if world.is_voxel_solid(get_voxel_pos(xy_zeroed_out)) {
        let stepped_z_nudge = end.add(Vec3::new(zero, zero, nudge.z.add(Scalar::one())));
        if world.is_voxel_solid(get_voxel_pos(stepped_z_nudge)) {
            let x_zeroed = end.add(Vec3::new(zero, nudge.y, nudge.z));
            let y_zeroed = end.add(Vec3::new(nudge.x, zero, nudge.z));
            let z_zeroed = end.add(Vec3::new(nudge.x, nudge.y, zero));
            if !world.is_voxel_solid(get_voxel_pos(x_zeroed)) {
                Vec3::new(zero, nudge.y, nudge.z)
            } else if !world.is_voxel_solid(get_voxel_pos(y_zeroed)) {
                Vec3::new(nudge.x, zero, nudge.z)
            } else if !world.is_voxel_solid(get_voxel_pos(z_zeroed)) {
                Vec3::new(nudge.x, nudge.y, zero)
            } else {
                nudge
            }
        } else {
            Vec3::new(zero, zero, nudge.z.add(Scalar::one()))
        }
    } else {
        Vec3::new(zero, zero, nudge.z)
    }
}

/// The least nudge leads out of solid terrain, or it is the nudge as it
/// was given.
pub proof fn lemma_least_nudge_frees(end: Vec3, nudge: Vec3, world: &GameMap)
    ensures
        get_minimum_nudge(end, nudge, world) == nudge || !world.solid_at(
            get_voxel_pos(end.add(get_minimum_nudge(end, nudge, world))),
        ),
{
}

/// The vector `v` without its part along `removed`, brought to length one
/// unless what is left is negligible.
#[verifier::allow_in_spec]
pub fn flattened(v: Vec3, removed: Coord) -> Vec3
    returns
        (if v.with(removed, Scalar::zero()).norme().raw > NEGLIGIBLE_LENGTH {
            v.with(removed, Scalar::zero()).normalise()
        } else {
            v.with(removed, Scalar::zero())
        }),
{
    let flat = v.with(removed, Scalar::zero());
    if flat.norme().raw > NEGLIGIBLE_LENGTH {
        flat.normalise()
    } else {
        flat
    }
}

impl LocomotionEquipment {
    /// The motion vector `motion_vector`, at the strength `strength`, in the
    /// frame in which it is applied.
    #[verifier::allow_in_spec]
    pub fn applied_vector(
        &self,
        vehicle_position: &VehiclePosition,
        strength: Scalar,
        motion_vector: Vec3,
        motion_application: MotionApplication,
    ) -> Vec3
        returns
            (match motion_application {
                MotionApplication::EquipmentLocal => Rotation::from_orientation(
                    vehicle_position.orientation,
                ).rotate(
                    Rotation::from_orientation(self.current_local_orient).rotate(
                        motion_vector.scale(strength),
                    ),
                ),
                MotionApplication::FlatAlong2AxisFromEquipment { removed } => flattened(
                    Rotation::from_orientation(self.current_local_orient).rotate(
                        motion_vector.scale(strength),
                    ),
                    removed,
                ),
                MotionApplication::WorldCoords => motion_vector.scale(strength),
                MotionApplication::RotateAgainstVehicle => Rotation::from_orientation(
                    vehicle_position.orientation.neg(),
                ).rotate(motion_vector.scale(strength)),
            }),
    {
        match motion_application {
            MotionApplication::EquipmentLocal => {
                let vehicle_rotat = Rotation::from_orientation(vehicle_position.orientation);
                let equip_rotat = Rotation::from_orientation(self.current_local_orient);
                vehicle_rotat.rotate(equip_rotat.rotate(motion_vector.scale(strength)))
            },
            MotionApplication::FlatAlong2AxisFromEquipment { removed } => {
                let equip_rotat = Rotation::from_orientation(self.current_local_orient);
                flattened(equip_rotat.rotate(motion_vector.scale(strength)), removed)
            },
            MotionApplication::WorldCoords => motion_vector.scale(strength),
            MotionApplication::RotateAgainstVehicle => {
                let against_vehicle_rotat = Rotation::from_orientation(
                    vehicle_position.orientation.neg(),
                );
                against_vehicle_rotat.rotate(motion_vector.scale(strength))
            },
        }
    }

    /// What a motion gives the vehicle: a change of its speed, a change of
    /// its rate of turning, and the factor by which the motion was scaled.
    ///
    /// Applied at the centre of the equipment, the motion turns the vehicle
    /// by the moment of the motion about the centre of gravity, over the
    /// mass, and pushes it by the motion scaled by how far it points along
    /// the lever, over the mass. Applied at the centre of gravity, it pushes
    /// by the motion over the mass and turns nothing.
    pub open spec fn motion(
        &self,
        static_type: &StaticLocomotionEquipment,
        vehicle_stats: &VehicleStats,
        vehicle_position: &VehiclePosition,
        strength: Scalar,
        motion_vector: Vec3,
        motion_application: MotionApplication,
    ) -> (Vec3, Orientation, Scalar) {
        let applied = self.applied_vector(
            vehicle_position,
            strength,
            motion_vector,
            motion_application,
        );
        match static_type.motion.application_point {
            ApplicationPoint::CenterOfEquipment => {
                let lever = self.current_local_position;
                let moment = lever.cross(applied).div(vehicle_stats.mass);
                let factor = applied.normalise().dot(lever.normalise()).abs().div(
                    vehicle_stats.mass,
                );
                (applied.scale(factor), Orientation::new(moment.z, moment.y, moment.x), factor)
            },
            ApplicationPoint::CenterOfGravity => (
                applied.div(vehicle_stats.mass),
                Orientation::zero(),
                Scalar::one(),
            ),
            ApplicationPoint::ContactPoint => (Vec3::zero(), Orientation::zero(), Scalar::zero()),
        }
    }

    /// What a motion gives the vehicle: a change of its speed, a change of
    /// its rate of turning, and the factor by which the motion was scaled.
    pub fn compute_vehicle_speed_vector_and_turn_spd_change(
        &self,
        static_type: &StaticLocomotionEquipment,
        world: &GameMap,
        vehicle_stats: &VehicleStats,
        vehicle_position: &VehiclePosition,
        strength: Scalar,
        motion_vector: Vec3,
        motion_application: MotionApplication,
    ) -> (r: (Vec3, Orientation, Scalar))
        requires
            static_type.motion_supported(),
        ensures
            r == self.motion(
                static_type,
                vehicle_stats,
                vehicle_position,
                strength,
                motion_vector,
                motion_application,
            ),
    {
        let rotated_motion_vector = self.applied_vector(
            vehicle_position,
            strength,
            motion_vector,
            motion_application,
        );
        match static_type.motion.application_point {
            ApplicationPoint::CenterOfEquipment => {
                let lever = self.current_local_position;
                let moment = lever.cross(rotated_motion_vector).div(vehicle_stats.mass);
                let orient_change = Orientation::new(moment.z, moment.y, moment.x);
                let normalised_dot = rotated_motion_vector.normalise().dot(
                    lever.normalise(),
                ).abs();
                let factor = normalised_dot.div(vehicle_stats.mass);
                let resulting_force = rotated_motion_vector.scale(factor);
                (resulting_force, orient_change, factor)
            },
            ApplicationPoint::CenterOfGravity => (
                rotated_motion_vector.div(vehicle_stats.mass),
                Orientation::zero(),
                Scalar::one(),
            ),
            ApplicationPoint::ContactPoint => (Vec3::zero(), Orientation::zero(), Scalar::zero()),
        }
    }

    /// How the equipment is turned after a tick at its own rate of turning,
    /// each angle held within the greatest turn of its type, either way.
    #[verifier::allow_in_spec]
    pub fn compute_new_self_orient(&self, static_type: &StaticLocomotionEquipment) -> Orientation
        returns
            (Orientation {
                yaw: self.current_local_orient.yaw.add(self.current_local_turn_speed.yaw).clamp(
                    static_type.max_self_rotation.yaw.neg(),
                    static_type.max_self_rotation.yaw,
                ),
                pitch: self.current_local_orient.pitch.add(
                    self.current_local_turn_speed.pitch,
                ).clamp(
                    static_type.max_self_rotation.pitch.neg(),
                    static_type.max_self_rotation.pitch,
                ),
                roll: self.current_local_orient.roll.add(self.current_local_turn_speed.roll).clamp(
                    static_type.max_self_rotation.roll.neg(),
                    static_type.max_self_rotation.roll,
                ),
            }),
    {
        let max_rotation = static_type.max_self_rotation;
        let turned = self.current_local_orient.add(self.current_local_turn_speed);
        Orientation {
            yaw: turned.yaw.clamp(max_rotation.yaw.neg(), max_rotation.yaw),
            pitch: turned.pitch.clamp(max_rotation.pitch.neg(), max_rotation.pitch),
            roll: turned.roll.clamp(max_rotation.roll.neg(), max_rotation.roll),
        }
    }

    /// The change of the equipment's own rate of turning by `strength` about
    /// the axis `rotation_axis`.
    #[verifier::allow_in_spec]
    pub fn compute_turn_speed_change(&self, rotation_axis: Coord, strength: Scalar) -> Orientation
        returns
            (match rotation_axis {
                Coord::X => Orientation { roll: strength, ..Orientation::zero() },
                Coord::Y => Orientation { pitch: strength, ..Orientation::zero() },
                Coord::Z => Orientation { yaw: strength, ..Orientation::zero() },
            }),
    {
        match rotation_axis {
            Coord::X => Orientation { roll: strength, ..Orientation::zero() },
            Coord::Y => Orientation { pitch: strength, ..Orientation::zero() },
            Coord::Z => Orientation { yaw: strength, ..Orientation::zero() },
        }
    }

    /// What the activations `activated` come to, taken in turn: the
    /// equipment's own rate of turning with every turn added, and the sums
    /// of what the motions give the vehicle's speed and rate of turning.
    pub open spec fn applied(
        &self,
        static_type: &StaticLocomotionEquipment,
        vehicle_stats: &VehicleStats,
        vehicle_position: &VehiclePosition,
        activated: Seq<Activated>,
    ) -> (Orientation, Vec3, Orientation)
        decreases activated.len(),
    {
        if activated.len() == 0 {
            (self.current_local_turn_speed, Vec3::zero(), Orientation::zero())
        } else {
            let before = self.applied(
                static_type,
                vehicle_stats,
                vehicle_position,
                activated.drop_last(),
            );
            let last = activated.last();
            match static_type.activation_requirements[last.activation_id as int].output {
                ActivationOutput::ActivateMotion => {
                    let given = self.motion(
                        static_type,
                        vehicle_stats,
                        vehicle_position,
                        last.strength,
                        static_type.motion.forward_vector,
                        static_type.motion.motion_application,
                    );
                    (before.0, before.1.add(given.0), before.2.add(given.1))
                },
                ActivationOutput::Turn(axis) => (
                    before.0.add(self.compute_turn_speed_change(axis, last.strength)),
                    before.1,
                    before.2,
                ),
            }
        }
    }

    /// The equipment after one tick, and what it gives the vehicle's speed
    /// and rate of turning: its activations are applied, it turns at its own
    /// rate within the bounds of its type, and its own rate of turning is
    /// damped by [`SELF_TURN_DAMPING`].
    pub open spec fn updated(
        &self,
        static_type: &StaticLocomotionEquipment,
        world: &GameMap,
        vehicle_stats: &VehicleStats,
        vehicle_position: &VehiclePosition,
        driver_actions: Seq<(Action, ActionResult)>,
    ) -> (LocomotionEquipment, Vec3, Orientation) {
        let outcome = self.applied(
            static_type,
            vehicle_stats,
            vehicle_position,
            self.activations(
                static_type,
                world,
                vehicle_stats,
                vehicle_position,
                driver_actions,
                static_type.activation_requirements.len() as int,
            ),
        );
        let turning = LocomotionEquipment { current_local_turn_speed: outcome.0, ..*self };
        (
            LocomotionEquipment {
                current_local_orient: turning.compute_new_self_orient(static_type),
                current_local_turn_speed: outcome.0.scale(Scalar { raw: SELF_TURN_DAMPING }),
                ..*self
            },
            outcome.1,
            outcome.2,
        )
    }

    /// The equipment after one tick, and what it gives the vehicle's speed
    /// and rate of turning.
    pub fn compute_activations_and_update_equipment(
        &self,
        static_type: &StaticLocomotionEquipment,
        world: &GameMap,
        vehicle_stats: &VehicleStats,
        vehicle_position: &VehiclePosition,
        driver_actions: &Vec<(Action, ActionResult)>,
    ) -> (r: (LocomotionEquipment, Vec3, Orientation))
        requires
            static_type.supported(),
        ensures
            r == self.updated(
                static_type,
                world,
                vehicle_stats,
                vehicle_position,
                driver_actions@,
            ),
    {
        let mut vehicle_spd_add = Vec3::zero();
        let mut vehicle_turn_spd_add = Orientation::zero();
        let mut self_clone = *self;
        let activated = self.can_activate(
            static_type,
            world,
            vehicle_stats,
            vehicle_position,
            driver_actions,
        );
        let mut k: usize = 0;
        while k < activated.len()
            invariant
                k <= activated.len(),
                static_type.supported(),
                forall|i: int|
                    0 <= i < activated.len() ==> (#[trigger] activated[i]).activation_id
                        < static_type.activation_requirements.len(),
                self_clone == (LocomotionEquipment {
                    current_local_turn_speed: self_clone.current_local_turn_speed,
                    ..*self
                }),
                (self_clone.current_local_turn_speed, vehicle_spd_add, vehicle_turn_spd_add)
                    == self.applied(
                    static_type,
                    vehicle_stats,
                    vehicle_position,
                    activated@.take(k as int),
                ),
            decreases activated.len() - k,
        {
            proof {
                assert(activated@.take(k + 1).drop_last() =~= activated@.take(k as int));
            }
            let current = activated[k];
            match static_type.activation_requirements[current.activation_id].output {
                ActivationOutput::ActivateMotion => {
                    let given = self.compute_vehicle_speed_vector_and_turn_spd_change(
                        static_type,
                        world,
                        vehicle_stats,
                        vehicle_position,
                        current.strength,
                        static_type.motion.forward_vector,
                        static_type.motion.motion_application,
                    );
                    vehicle_spd_add = vehicle_spd_add.add(given.0);
                    vehicle_turn_spd_add = vehicle_turn_spd_add.add(given.1);
                },
                ActivationOutput::Turn(axis) => {
                    let orient_change = self.compute_turn_speed_change(axis, current.strength);
                    self_clone.current_local_turn_speed = self_clone.current_local_turn_speed.add(
                        orient_change,
                    );
                },
            }
            k += 1;
        }
        proof {
            assert(activated@.take(k as int) =~= activated@);
        }
        self_clone.current_local_orient = self_clone.compute_new_self_orient(static_type);
        self_clone.current_local_turn_speed = self_clone.current_local_turn_speed.scale(
            Scalar::from_raw(SELF_TURN_DAMPING),
        );
        (self_clone, vehicle_spd_add, vehicle_turn_spd_add)
    }

    /// Whether the equipment stands on the surface that bears it; nothing
    /// where it bears no load.
    pub fn compute_on_ground_if_relevant(
        &self,
        static_type: &StaticLocomotionEquipment,
        world: &GameMap,
        vehicle_stats: &VehicleStats,
        vehicle_position: &VehiclePosition,
    ) -> (r: Option<bool>)
        ensures
            r == match static_type.is_ground_equipment {
                Some(surface_type) => Some(
                    self.surface_contact(static_type, world, vehicle_position, Some(surface_type)),
                ),
                None => None,
            },
    {
        match static_type.is_ground_equipment {
            Some(surface_type) => Some(
                self.has_surface_contact(static_type, world, vehicle_position, Some(surface_type)),
            ),
            None => None,
        }
    }

    /// The path of the equipment through the world over one tick of the
    /// vehicle's motion: it turns about the vehicle at the vehicle's rate of
    /// turning and moves from where it is to where it will be.
    #[verifier::allow_in_spec]
    pub fn swept_path(&self, vehicle_position: &VehiclePosition) -> Curve
        returns
            ({
                let current_world_pos = vehicle_position.pos.add(
                    Rotation::from_orientation(vehicle_position.orientation).rotate(
                        self.current_local_position,
                    ),
                );
                let next_world_pos = vehicle_position.pos.add(
                    Rotation::from_orientation(
                        vehicle_position.orientation.add(vehicle_position.turn_spd),
                    ).rotate(self.current_local_position),
                ).add(vehicle_position.spd);
                Curve::new(
                    current_world_pos,
                    vehicle_position.pos,
                    next_world_pos.sub(current_world_pos),
                    vehicle_position.turn_spd,
                )
            }),
    {
        let vehicle_rotation = Rotation::from_orientation(vehicle_position.orientation);
        let current_world_pos = vehicle_position.pos.add(
            vehicle_rotation.rotate(self.current_local_position),
        );
        let vehicle_next_rotation = Rotation::from_orientation(
            vehicle_position.orientation.add(vehicle_position.turn_spd),
        );
        let next_world_pos = vehicle_position.pos.add(
            vehicle_next_rotation.rotate(self.current_local_position),
        ).add(vehicle_position.spd);
        let diff_vector = next_world_pos.sub(current_world_pos);
        Curve::new(current_world_pos, vehicle_position.pos, diff_vector, vehicle_position.turn_spd)
    }

    /// The push that frees an equipment whose path over the tick ended at
    /// `end`: the part of the path it could not cover, turned back, and cut
    /// down to the least nudge that leads out of solid terrain.
    #[verifier::allow_in_spec]
    pub fn nudge_back(path: &Curve, end: ArcEnd, world: &GameMap) -> Vec3
        returns
            get_minimum_nudge(
                end.end,
                path.speed_to_end.mul_ratio(
                    if end.final_coef < i32::MIN + COEF_ONE {
                        i32::MIN
                    } else {
                        (end.final_coef - COEF_ONE) as i32
                    },
                    COEF_ONE,
                ),
                world,
            ),
    {
        let remaining: i32 = if end.final_coef < i32::MIN + COEF_ONE {
            i32::MIN
        } else {
            end.final_coef - COEF_ONE
        };
        get_minimum_nudge(end.end, path.speed_to_end.mul_ratio(remaining, COEF_ONE), world)
    }

    /// What an equipment that bears load on `surface_type` gives the
    /// vehicle when its path over the tick ends at `end`.
    ///
    /// Where the path reaches no solid terrain, the equipment falls: gravity
    /// pulls it straight down in the world. Where the path ends on its
    /// ground, at a point in its collider, the equipment is pushed back by
    /// the nudge that frees it, and stands. Where the path ends elsewhere,
    /// it gives nothing.
    pub open spec fn reaction(
        &self,
        static_type: &StaticLocomotionEquipment,
        world: &GameMap,
        vehicle_stats: &VehicleStats,
        vehicle_position: &VehiclePosition,
        constants: &PhysicsConstants,
        surface_type: SurfaceType,
        path: &Curve,
        end: ArcEnd,
    ) -> (Vec3, Orientation, bool) {
        if end.final_coef >= COEF_ONE {
            let given = self.motion(
                static_type,
                vehicle_stats,
                vehicle_position,
                constants.gravity,
                Vec3::from_ints(0, 0, -1i32),
                MotionApplication::RotateAgainstVehicle,
            );
            (given.0, given.1, false)
        } else if (world.type_at(get_voxel_pos(end.end)) matches Some(voxel_type)
            && voxel_type.surface_type == Some(surface_type)) && self.holds_point(
            vehicle_position,
            end.end,
        ) {
            let speed_nudge = Self::nudge_back(path, end, world);
            let given = self.motion(
                static_type,
                vehicle_stats,
                vehicle_position,
                speed_nudge.norme(),
                speed_nudge.normalise(),
                MotionApplication::RotateAgainstVehicle,
            );
            (speed_nudge, given.1, true)
        } else {
            (Vec3::zero(), Orientation::zero(), false)
        }
    }

    /// What an equipment that bears load on `surface_type` gives the
    /// vehicle when its path over the tick ends at `end`.
    fn react(
        &self,
        static_type: &StaticLocomotionEquipment,
        world: &GameMap,
        vehicle_stats: &VehicleStats,
        vehicle_position: &VehiclePosition,
        constants: &PhysicsConstants,
        surface_type: SurfaceType,
        path: &Curve,
        end: ArcEnd,
    ) -> (r: (Vec3, Orientation, bool))
        requires
            static_type.motion_supported(),
        ensures
            r == self.reaction(
                static_type,
                world,
                vehicle_stats,
                vehicle_position,
                constants,
                surface_type,
                path,
                end,
            ),
    {
        if end.final_coef >= COEF_ONE {
            let given = self.compute_vehicle_speed_vector_and_turn_spd_change(
                static_type,
                world,
                vehicle_stats,
                vehicle_position,
                constants.gravity,
                Vec3::from_ints(0, 0, -1),
                MotionApplication::RotateAgainstVehicle,
            );
            (given.0, given.1, false)
        } else {
            let on_ground = match world.get_type_of_voxel_at(get_voxel_pos(end.end)) {
                Some(voxel_type) => same_surface(voxel_type.surface_type, Some(surface_type)),
                None => false,
            };
            if on_ground && self.is_holding_point(vehicle_position, end.end) {
                let speed_nudge = Self::nudge_back(path, end, world);
                let given = self.compute_vehicle_speed_vector_and_turn_spd_change(
                    static_type,
                    world,
                    vehicle_stats,
                    vehicle_position,
                    speed_nudge.norme(),
                    speed_nudge.normalise(),
                    MotionApplication::RotateAgainstVehicle,
                );
                (speed_nudge, given.1, true)
            } else {
                (Vec3::zero(), Orientation::zero(), false)
            }
        }
    }

    /// What meeting the terrain gives the vehicle in one tick: a change of
    /// its speed, a change of its rate of turning, and whether the
    /// equipment stands on its ground. An equipment that bears no load gives
    /// nothing; one that does gives what the end of its path over the tick
    /// calls for.
    pub open spec fn collision(
        &self,
        static_type: &StaticLocomotionEquipment,
        world: &GameMap,
        vehicle_stats: &VehicleStats,
        vehicle_position: &VehiclePosition,
        constants: &PhysicsConstants,
    ) -> (Vec3, Orientation, bool) {
        match static_type.is_ground_equipment {
            Some(surface_type) => self.reaction(
                static_type,
                world,
                vehicle_stats,
                vehicle_position,
                constants,
                surface_type,
                &self.swept_path(vehicle_position),
                self.swept_path(vehicle_position).end(world),
            ),
            None => (Vec3::zero(), Orientation::zero(), false),
        }
    }

    /// What meeting the terrain gives the vehicle in one tick: a change of
    /// its speed, a change of its rate of turning, and whether the
    /// equipment stands on its ground.
    pub fn collide_with_world(
        &self,
        static_type: &StaticLocomotionEquipment,
        world: &GameMap,
        vehicle_stats: &VehicleStats,
        vehicle_position: &VehiclePosition,
        constants: &PhysicsConstants,
    ) -> (r: (Vec3, Orientation, bool))
        requires
            static_type.motion_supported(),
        ensures
            r == self.collision(static_type, world, vehicle_stats, vehicle_position, constants),
    {
        match static_type.is_ground_equipment {
            Some(surface_type) => {
                let path = self.swept_path(vehicle_position);
                let end = path.get_end(world);
                self.react(
                    static_type,
                    world,
                    vehicle_stats,
                    vehicle_position,
                    constants,
                    surface_type,
                    &path,
                    end,
                )
            },
            None => (Vec3::zero(), Orientation::zero(), false),
        }
    }
}

impl StaticLocomotion {
    /// Every slot is supported.
    pub open spec fn supported(&self) -> bool {
        forall|i: int| 0 <= i < self.equipment.len() ==> (#[trigger] self.equipment[i]).supported()
    }

    /// Whether every slot is supported.
    pub fn is_supported(&self) -> (r: bool)
        ensures
            r == self.supported(),
    {
        let mut i: usize = 0;
        while i < self.equipment.len()
            invariant
                i <= self.equipment.len(),
                forall|k: int| 0 <= k < i ==> (#[trigger] self.equipment[k]).supported(),
            decreases self.equipment.len() - i,
        {
            if !self.equipment[i].is_supported() {
                return false;
            }
            i += 1;
        }
        true
    }
}

/// The number `n` as a divisor, held inside the range.
#[verifier::allow_in_spec]
pub fn count_as_divisor(n: usize) -> i32
    returns
        (if n > 0x7fff_ffff {
            i32::MAX
        } else {
            n as i32
        }),
{
    if n > 0x7fff_ffff {
        i32::MAX
    } else {
        n as i32
    }
}

/// The equipment of one vehicle and what its driver has asked for since the
/// last tick.
#[derive(Debug)]
pub struct Locomotion {
    pub equipment: Vec<LocomotionEquipment>,
    pub driver_actions: Vec<(Action, ActionResult)>,
}

/// What a [`Locomotion`] holds.
pub struct LocomotionView {
    pub equipment: Seq<LocomotionEquipment>,
    pub driver_actions: Seq<(Action, ActionResult)>,
}

impl View for Locomotion {
    type V = LocomotionView;

    open spec fn view(&self) -> LocomotionView {
        LocomotionView { equipment: self.equipment@, driver_actions: self.driver_actions@ }
    }
}

impl Clone for Locomotion {
    fn clone(&self) -> (r: Locomotion)
        ensures
            r@ == self@,
    {
        let mut equipment: Vec<LocomotionEquipment> = Vec::new();
        let mut i: usize = 0;
        while i < self.equipment.len()
            invariant
                i <= self.equipment.len(),
                equipment@ == self.equipment@.take(i as int),
            decreases self.equipment.len() - i,
        {
            equipment.push(self.equipment[i]);
            assert(self.equipment@.take(i as int).push(self.equipment[i as int])
                =~= self.equipment@.take(i + 1));
            i += 1;
        }
        assert(self.equipment@.take(i as int) =~= self.equipment@);
        let mut driver_actions: Vec<(Action, ActionResult)> = Vec::new();
        let mut j: usize = 0;
        while j < self.driver_actions.len()
            invariant
                j <= self.driver_actions.len(),
                driver_actions@ == self.driver_actions@.take(j as int),
            decreases self.driver_actions.len() - j,
        {
            driver_actions.push(self.driver_actions[j]);
            assert(self.driver_actions@.take(j as int).push(self.driver_actions[j as int])
                =~= self.driver_actions@.take(j + 1));
            j += 1;
        }
        assert(self.driver_actions@.take(j as int) =~= self.driver_actions@);
        Locomotion { equipment, driver_actions }
    }
}

/// What the pass over the equipment of a vehicle has come to.
pub struct EquipmentPass {
    /// The equipment after the tick, in order.
    pub equipment: Seq<LocomotionEquipment>,
    /// Which of them stand on their ground, in order.
    pub on_ground: Seq<usize>,
    /// The change of the vehicle's speed.
    pub spd_change: Vec3,
    /// The change of the vehicle's rate of turning.
    pub turn_spd_change: Orientation,
}

/// What the pass over the equipment of a vehicle asks to be changed.
#[derive(Debug)]
pub struct LocomotionChanges<ID> {
    /// Replaces the equipment.
    pub equipment: LocomotionEvent<ID>,
    /// Forgets the actions of the driver, where there were any.
    pub flush: Option<LocomotionEvent<ID>>,
    /// Adds to the vehicle's speed and rate of turning.
    pub speed: VehiclePosEvent<ID>,
}

/// What the pass over the physics of a vehicle asks to be changed.
#[derive(Debug)]
pub struct PhysicsChanges<ID> {
    /// Replaces the vehicle's position and orientation.
    pub pose: VehiclePosEvent<ID>,
    /// Replaces the vehicle's speed and rate of turning.
    pub speed: VehiclePosEvent<ID>,
    /// Replaces the hull's collider by the type's collider at the new pose.
    pub collider: HullEvent<ID>,
}

/// What the pass over the terrain has come to.
pub struct TerrainPass {
    /// The sum of what the equipment that stands gives the speed.
    pub ground_spd_add: Vec3,
    /// The sum of what the equipment that does not stand gives the speed.
    pub nonground_spd_add: Vec3,
    /// How many of the equipment stand.
    pub standing: nat,
    /// The vehicle's rate of turning with all that the equipment gives it.
    pub turn_spd: Orientation,
}

impl Locomotion {
    /// The locomotion with the given equipment and no pending action.
    pub fn new(equipment: Vec<LocomotionEquipment>) -> (r: Locomotion)
        ensures
            r@.equipment == equipment@,
            r@.driver_actions.len() == 0,
    {
        Locomotion { equipment, driver_actions: Vec::new() }
    }

    /// The locomotion that a vehicle of the given type starts with: one
    /// equipment for each slot, at rest in its resting place.
    pub fn from_static(static_comp: &StaticLocomotion) -> (r: Locomotion)
        ensures
            r@.driver_actions.len() == 0,
            r@.equipment.len() == static_comp.equipment.len(),
            forall|i: int|
                0 <= i < static_comp.equipment.len() ==> #[trigger] r@.equipment[i]
                    == (LocomotionEquipment {
                    static_equipment: i as usize,
                    current_local_position: static_comp.equipment[i].resting_local_position,
                    current_local_speed: Vec3::zero(),
                    current_local_orient: Orientation::zero(),
                    current_local_turn_speed: Orientation::zero(),
                    current_collider: static_comp.equipment[i].collider,
                }),
    {
        let mut equipment: Vec<LocomotionEquipment> = Vec::new();
        let mut i: usize = 0;
        while i < static_comp.equipment.len()
            invariant
                i <= static_comp.equipment.len(),
                equipment.len() == i,
                forall|k: int|
                    0 <= k < i ==> #[trigger] equipment[k] == (LocomotionEquipment {
                        static_equipment: k as usize,
                        current_local_position: static_comp.equipment[k].resting_local_position,
                        current_local_speed: Vec3::zero(),
                        current_local_orient: Orientation::zero(),
                        current_local_turn_speed: Orientation::zero(),
                        current_collider: static_comp.equipment[k].collider,
                    }),
            decreases static_comp.equipment.len() - i,
        {
            equipment.push(
                LocomotionEquipment {
                    static_equipment: i,
                    current_local_position: static_comp.equipment[i].resting_local_position,
                    current_local_speed: Vec3::zero(),
                    current_local_orient: Orientation::zero(),
                    current_local_turn_speed: Orientation::zero(),
                    current_collider: static_comp.equipment[i].collider,
                },
            );
            i += 1;
        }
        Locomotion { equipment, driver_actions: Vec::new() }
    }

    /// The slot of the type that the equipment with the number `i` names.
    pub open spec fn slot_of(
        &self,
        static_locomotion: &StaticLocomotion,
        i: int,
    ) -> StaticLocomotionEquipment {
        static_locomotion.equipment[self.equipment[i].static_equipment as int]
    }

    /// Every equipment names a slot of the type.
    pub open spec fn fits(&self, static_locomotion: &StaticLocomotion) -> bool {
        forall|i: int|
            0 <= i < self.equipment.len() ==> (#[trigger] self.equipment[i]).static_equipment
                < static_locomotion.equipment.len()
    }

    /// Whether every equipment names a slot of the type.
    pub fn is_fitting(&self, static_locomotion: &StaticLocomotion) -> (r: bool)
        ensures
            r == self.fits(static_locomotion),
    {
        let mut i: usize = 0;
        while i < self.equipment.len()
            invariant
                i <= self.equipment.len(),
                forall|k: int|
                    0 <= k < i ==> (#[trigger] self.equipment[k]).static_equipment
                        < static_locomotion.equipment.len(),
            decreases self.equipment.len() - i,
        {
            if self.equipment[i].static_equipment >= static_locomotion.equipment.len() {
                return false;
            }
            i += 1;
        }
        true
    }

    /// What the pass over the first `upto` equipment comes to: each is
    /// brought through its tick, what it gives the vehicle's speed is turned
    /// as the vehicle and summed, what it gives the rate of turning is
    /// summed, and those that bear load and stand on their ground after
    /// their tick are noted.
    pub open spec fn equipment_pass(
        &self,
        static_locomotion: &StaticLocomotion,
        world: &GameMap,
        vehicle_stats: &VehicleStats,
        vehicle_position: &VehiclePosition,
        upto: int,
    ) -> EquipmentPass
        decreases upto,
    {
        if upto <= 0 {
            EquipmentPass {
                equipment: Seq::empty(),
                on_ground: Seq::empty(),
                spd_change: Vec3::zero(),
                turn_spd_change: Orientation::zero(),
            }
        } else {
            let before = self.equipment_pass(
                static_locomotion,
                world,
                vehicle_stats,
                vehicle_position,
                upto - 1,
            );
            let eq = self.equipment[upto - 1];
            let static_type = &static_locomotion.equipment[eq.static_equipment as int];
            let after = eq.updated(
                static_type,
                world,
                vehicle_stats,
                vehicle_position,
                self.driver_actions@,
            );
            EquipmentPass {
                equipment: before.equipment.push(after.0),
                on_ground: if static_type.is_ground_equipment matches Some(surface_type)
                    && after.0.surface_contact(
                    static_type,
                    world,
                    vehicle_position,
                    Some(surface_type),
                ) {
                    before.on_ground.push((upto - 1) as usize)
                } else {
                    before.on_ground
                },
                spd_change: before.spd_change.add(
                    Rotation::from_orientation(vehicle_position.orientation).rotate(after.1),
                ),
                turn_spd_change: before.turn_spd_change.add(after.2),
            }
        }
    }

    /// The speed that each equipment on the ground drives the vehicle at:
    /// the part of the speed `total_spd`, shared among `count` of them, that
    /// points the way the vehicle faces, along the forward axis.
    #[verifier::allow_in_spec]
    pub fn ground_speed(vehicle_position: &VehiclePosition, total_spd: Vec3, count: usize) -> Vec3
        returns
            Vec3::from_ints(1, 0, 0).scale(
                total_spd.mul_ratio(1, count_as_divisor(count)).norme(),
            ).scale(
                Rotation::from_orientation(vehicle_position.orientation).rotate(
                    Vec3::from_ints(1, 0, 0),
                ).dot(total_spd.mul_ratio(1, count_as_divisor(count)).normalise()),
            ),
    {
        let divided_spd = total_spd.mul_ratio(1, count_as_divisor(count));
        let dot = Rotation::from_orientation(vehicle_position.orientation).rotate(
            Vec3::from_ints(1, 0, 0),
        ).dot(divided_spd.normalise());
        Vec3::from_ints(1, 0, 0).scale(divided_spd.norme()).scale(dot)
    }

    /// The rate of turning `turn_spd` with what each of the equipment
    /// `on_ground` gives it when it drives the vehicle at `final_spd`, flat
    /// on the ground.
    pub open spec fn ground_drive(
        static_locomotion: &StaticLocomotion,
        vehicle_stats: &VehicleStats,
        vehicle_position: &VehiclePosition,
        equipment: Seq<LocomotionEquipment>,
        on_ground: Seq<usize>,
        final_spd: Vec3,
        turn_spd: Orientation,
    ) -> Orientation
        decreases on_ground.len(),
    {
        if on_ground.len() == 0 {
            turn_spd
        } else {
            let eq = equipment[on_ground.last() as int];
            Self::ground_drive(
                static_locomotion,
                vehicle_stats,
                vehicle_position,
                equipment,
                on_ground.drop_last(),
                final_spd,
                turn_spd,
            ).add(
                eq.motion(
                    &static_locomotion.equipment[eq.static_equipment as int],
                    vehicle_stats,
                    vehicle_position,
                    final_spd.norme(),
                    final_spd.normalise(),
                    MotionApplication::FlatAlong2AxisFromEquipment { removed: Coord::Z },
                ).1,
            )
        }
    }

    /// What one tick changes for the equipment and for the vehicle's speed:
    /// the equipment after the tick, the change of the vehicle's speed, and
    /// the change of its rate of turning. Where some equipment stands on its
    /// ground and the vehicle's speed after the change is not negligible,
    /// each of them adds to the rate of turning what driving the vehicle at
    /// its share of that speed gives it.
    pub open spec fn changes(
        &self,
        static_locomotion: &StaticLocomotion,
        world: &GameMap,
        vehicle_stats: &VehicleStats,
        vehicle_position: &VehiclePosition,
    ) -> (Seq<LocomotionEquipment>, Vec3, Orientation) {
        let pass = self.equipment_pass(
            static_locomotion,
            world,
            vehicle_stats,
            vehicle_position,
            self.equipment.len() as int,
        );
        let total_spd = vehicle_position.spd.add(pass.spd_change);
        if pass.on_ground.len() > 0 && total_spd.norme().raw > NEGLIGIBLE_LENGTH {
            (
                pass.equipment,
                pass.spd_change,
                Self::ground_drive(
                    static_locomotion,
                    vehicle_stats,
                    vehicle_position,
                    pass.equipment,
                    pass.on_ground,
                    Self::ground_speed(vehicle_position, total_spd, pass.on_ground.len() as usize),
                    pass.turn_spd_change,
                ),
            )
        } else {
            (pass.equipment, pass.spd_change, pass.turn_spd_change)
        }
    }

    /// The events of one tick of the equipment: one that replaces the
    /// equipment by what it is after the tick, one that forgets the driver's
    /// actions if there were any, and one that adds to the vehicle's speed
    /// and rate of turning what the equipment gives them. None of them
    /// names who asked for it.
    pub fn compute_vehicle_and_locomotion_changes<ID>(
        &self,
        self_id: usize,
        static_locomotion: &StaticLocomotion,
        world: &GameMap,
        vehicle_stats: &VehicleStats,
        vehicle_position: &VehiclePosition,
    ) -> (r: LocomotionChanges<ID>)
        requires
            self.fits(static_locomotion),
            static_locomotion.supported(),
        ensures
            r.equipment.id == self_id && r.equipment.source.is_none(),
            r.equipment.update matches LocomotionUpdate::UpdateEverything(new_eqs) && new_eqs@
                == self.changes(static_locomotion, world, vehicle_stats, vehicle_position).0,
            r.flush.is_some() == (self.driver_actions.len() > 0),
            r.flush matches Some(flush) ==> flush.id == self_id && flush.source.is_none()
                && flush.update is FlushActions,
            r.speed.id == self_id && r.speed.source.is_none(),
            r.speed.update == VehiclePosUpdate::AddToEverySpeed(
                self.changes(static_locomotion, world, vehicle_stats, vehicle_position).1,
                self.changes(static_locomotion, world, vehicle_stats, vehicle_position).2,
            ),
    {
        let mut vehicle_spd_change = Vec3::zero();
        let mut vehicle_turn_spd_change = Orientation::zero();
        let vehicle_rotat = Rotation::from_orientation(vehicle_position.orientation);
        let mut new_eqs: Vec<LocomotionEquipment> = Vec::new();
        let mut on_ground_eqs: Vec<usize> = Vec::new();
        let mut i: usize = 0;
        while i < self.equipment.len()
            invariant
                i <= self.equipment.len(),
                self.fits(static_locomotion),
                static_locomotion.supported(),
                vehicle_rotat == Rotation::from_orientation(vehicle_position.orientation),
                (EquipmentPass {
                    equipment: new_eqs@,
                    on_ground: on_ground_eqs@,
                    spd_change: vehicle_spd_change,
                    turn_spd_change: vehicle_turn_spd_change,
                }) == self.equipment_pass(
                    static_locomotion,
                    world,
                    vehicle_stats,
                    vehicle_position,
                    i as int,
                ),
                new_eqs.len() == i,
                forall|k: int|
                    0 <= k < i ==> (#[trigger] new_eqs[k]).static_equipment
                        == self.equipment[k].static_equipment,
                forall|k: int| 0 <= k < on_ground_eqs.len() ==> #[trigger] on_ground_eqs[k] < i,
            decreases self.equipment.len() - i,
        {
            let eq = &self.equipment[i];
            let static_type = &static_locomotion.equipment[eq.static_equipment];
            let after = eq.compute_activations_and_update_equipment(
                static_type,
                world,
                vehicle_stats,
                vehicle_position,
                &self.driver_actions,
            );
            match after.0.compute_on_ground_if_relevant(
                static_type,
                world,
                vehicle_stats,
                vehicle_position,
            ) {
                Some(on_ground) => {
                    if on_ground {
                        on_ground_eqs.push(i);
                    }
                },
                None => {},
            }
            vehicle_spd_change = vehicle_spd_change.add(vehicle_rotat.rotate(after.1));
            vehicle_turn_spd_change = vehicle_turn_spd_change.add(after.2);
            new_eqs.push(after.0);
            i += 1;
        }
        let total_spd = vehicle_position.spd.add(vehicle_spd_change);
        if on_ground_eqs.len() > 0 && total_spd.norme().raw > NEGLIGIBLE_LENGTH {
            let final_spd = Self::ground_speed(vehicle_position, total_spd, on_ground_eqs.len());
            let ghost start = vehicle_turn_spd_change;
            let mut k: usize = 0;
            while k < on_ground_eqs.len()
                invariant
                    k <= on_ground_eqs.len(),
                    static_locomotion.supported(),
                    forall|j: int|
                        0 <= j < new_eqs.len() ==> (#[trigger] new_eqs[j]).static_equipment
                            < static_locomotion.equipment.len(),
                    forall|j: int|
                        0 <= j < on_ground_eqs.len() ==> #[trigger] on_ground_eqs[j]
                            < new_eqs.len(),
                    vehicle_turn_spd_change == Self::ground_drive(
                        static_locomotion,
                        vehicle_stats,
                        vehicle_position,
                        new_eqs@,
                        on_ground_eqs@.take(k as int),
                        final_spd,
                        start,
                    ),
                decreases on_ground_eqs.len() - k,
            {
                proof {
                    assert(on_ground_eqs@.take(k + 1).drop_last() =~= on_ground_eqs@.take(
                        k as int,
                    ));
                }
                let ground = on_ground_eqs[k];
                let eq = &new_eqs[ground];
                let given = eq.compute_vehicle_speed_vector_and_turn_spd_change(
                    &static_locomotion.equipment[eq.static_equipment],
                    world,
                    vehicle_stats,
                    vehicle_position,
                    final_spd.norme(),
                    final_spd.normalise(),
                    MotionApplication::FlatAlong2AxisFromEquipment { removed: Coord::Z },
                );
                vehicle_turn_spd_change = vehicle_turn_spd_change.add(given.1);
                k += 1;
            }
            proof {
                assert(on_ground_eqs@.take(k as int) =~= on_ground_eqs@);
            }
        }
        let flush = if self.driver_actions.len() > 0 {
            Some(LocomotionEvent::new(self_id, None, LocomotionUpdate::FlushActions))
        } else {
            None
        };
        LocomotionChanges {
            equipment: LocomotionEvent::new(
                self_id,
                None,
                LocomotionUpdate::UpdateEverything(new_eqs),
            ),
            flush,
            speed: VehiclePosEvent::new(
                self_id,
                None,
                VehiclePosUpdate::AddToEverySpeed(vehicle_spd_change, vehicle_turn_spd_change),
            ),
        }
    }

    /// What the pass over the first `upto` equipment comes to when each
    /// meets the terrain.
    pub open spec fn terrain_pass(
        &self,
        static_locomotion: &StaticLocomotion,
        world: &GameMap,
        vehicle_stats: &VehicleStats,
        vehicle_position: &VehiclePosition,
        constants: &PhysicsConstants,
        upto: int,
    ) -> TerrainPass
        decreases upto,
    {
        if upto <= 0 {
            TerrainPass {
                ground_spd_add: Vec3::zero(),
                nonground_spd_add: Vec3::zero(),
                standing: 0,
                turn_spd: vehicle_position.turn_spd,
            }
        } else {
            let before = self.terrain_pass(
                static_locomotion,
                world,
                vehicle_stats,
                vehicle_position,
                constants,
                upto - 1,
            );
            let eq = self.equipment[upto - 1];
            let given = eq.collision(
                &static_locomotion.equipment[eq.static_equipment as int],
                world,
                vehicle_stats,
                vehicle_position,
                constants,
            );
            if given.2 {
                TerrainPass {
                    ground_spd_add: before.ground_spd_add.add(given.0),
                    nonground_spd_add: before.nonground_spd_add,
                    standing: before.standing + 1,
                    turn_spd: before.turn_spd.add(given.1),
                }
            } else {
                TerrainPass {
                    ground_spd_add: before.ground_spd_add,
                    nonground_spd_add: before.nonground_spd_add.add(given.0),
                    standing: before.standing,
                    turn_spd: before.turn_spd.add(given.1),
                }
            }
        }
    }

    /// The vehicle's speed and rate of turning after one tick of physics.
    ///
    /// The speed is the old speed damped by the resistance of the air, plus
    /// the mean of what the equipment that stands gives it, plus the sum of
    /// what the other equipment gives it. The rate of turning is the old
    /// rate plus all that the equipment gives it, damped by the resistance
    /// of the air and that of turning.
    pub open spec fn physics(
        &self,
        static_locomotion: &StaticLocomotion,
        world: &GameMap,
        vehicle_stats: &VehicleStats,
        vehicle_position: &VehiclePosition,
        constants: &PhysicsConstants,
    ) -> (Vec3, Orientation) {
        let pass = self.terrain_pass(
            static_locomotion,
            world,
            vehicle_stats,
            vehicle_position,
            constants,
            self.equipment.len() as int,
        );
        let ground = if pass.standing > 0 {
            pass.ground_spd_add.mul_ratio(1, count_as_divisor(pass.standing as usize))
        } else {
            pass.ground_spd_add
        };
        (
            vehicle_position.spd.scale(constants.air_resistance).add(
                ground.add(pass.nonground_spd_add),
            ),
            pass.turn_spd.scale(constants.air_resistance.mul(constants.turn_resistance)),
        )
    }

    /// The events of one tick of physics: one that moves the vehicle by its
    /// new speed and turns it by its new rate of turning, one that replaces
    /// its speed and rate of turning by the new ones, both in the name of
    /// `source`, and one that replaces the hull's collider by the collider
    /// of the type `static_type` at the new pose.
    pub fn compute_vehicle_physics<ID: Copy>(
        &self,
        self_id: usize,
        source: Option<ID>,
        static_locomotion: &StaticLocomotion,
        static_type: &StaticVehicleEntity,
        world: &GameMap,
        vehicle_stats: &VehicleStats,
        vehicle_position: &VehiclePosition,
        constants: &PhysicsConstants,
    ) -> (r: PhysicsChanges<ID>)
        requires
            self.fits(static_locomotion),
            static_locomotion.supported(),
        ensures
            r.pose.id == self_id && r.pose.source == source,
            r.pose.update == VehiclePosUpdate::UpdateEveryPos(
                vehicle_position.pos.add(
                    self.physics(
                        static_locomotion,
                        world,
                        vehicle_stats,
                        vehicle_position,
                        constants,
                    ).0,
                ),
                vehicle_position.orientation.add(
                    self.physics(
                        static_locomotion,
                        world,
                        vehicle_stats,
                        vehicle_position,
                        constants,
                    ).1,
                ),
            ),
            r.speed.id == self_id && r.speed.source == source,
            r.speed.update == VehiclePosUpdate::UpdateEverySpeed(
                self.physics(
                    static_locomotion,
                    world,
                    vehicle_stats,
                    vehicle_position,
                    constants,
                ).0,
                self.physics(
                    static_locomotion,
                    world,
                    vehicle_stats,
                    vehicle_position,
                    constants,
                ).1,
            ),
            r.collider.id == self_id && r.collider.source.is_none(),
            r.collider.update matches HullUpdate::UpdateCollider(collider) && collider@
                == static_type.hull.base_collider@.moved(
                vehicle_position.pos.add(
                    self.physics(
                        static_locomotion,
                        world,
                        vehicle_stats,
                        vehicle_position,
                        constants,
                    ).0,
                ),
                Rotation::from_orientation(
                    vehicle_position.orientation.add(
                        self.physics(
                            static_locomotion,
                            world,
                            vehicle_stats,
                            vehicle_position,
                            constants,
                        ).1,
                    ),
                ),
            ),
    {
        let mut new_vehicle_turn_spd = vehicle_position.turn_spd;
        let mut total_ground_spd_add = Vec3::zero();
        let mut total_nonground_spd_add = Vec3::zero();
        let mut total_nonzero: usize = 0;
        let mut i: usize = 0;
        while i < self.equipment.len()
            invariant
                i <= self.equipment.len(),
                self.fits(static_locomotion),
                static_locomotion.supported(),
                total_nonzero <= i,
                (TerrainPass {
                    ground_spd_add: total_ground_spd_add,
                    nonground_spd_add: total_nonground_spd_add,
                    standing: total_nonzero as nat,
                    turn_spd: new_vehicle_turn_spd,
                }) == self.terrain_pass(
                    static_locomotion,
                    world,
                    vehicle_stats,
                    vehicle_position,
                    constants,
                    i as int,
                ),
            decreases self.equipment.len() - i,
        {
            let eq = &self.equipment[i];
            let given = eq.collide_with_world(
                &static_locomotion.equipment[eq.static_equipment],
                world,
                vehicle_stats,
                vehicle_position,
                constants,
            );
            if given.2 {
                total_nonzero += 1;
                total_ground_spd_add = total_ground_spd_add.add(given.0);
            } else {
                total_nonground_spd_add = total_nonground_spd_add.add(given.0);
            }
            new_vehicle_turn_spd = new_vehicle_turn_spd.add(given.1);
            i += 1;
        }
        if total_nonzero > 0 {
            total_ground_spd_add = total_ground_spd_add.mul_ratio(
                1,
                count_as_divisor(total_nonzero),
            );
        }
        let new_vehicle_spd = vehicle_position.spd.scale(constants.air_resistance).add(
            total_ground_spd_add.add(total_nonground_spd_add),
        );
        let new_vehicle_turn_spd = new_vehicle_turn_spd.scale(
            constants.air_resistance.mul(constants.turn_resistance),
        );
        let new_pos = vehicle_position.pos.add(new_vehicle_spd);
        let new_orientation = vehicle_position.orientation.add(new_vehicle_turn_spd);
        PhysicsChanges {
            pose: VehiclePosEvent::new(
                self_id,
                source,
                VehiclePosUpdate::UpdateEveryPos(new_pos, new_orientation),
            ),
            speed: VehiclePosEvent::new(
                self_id,
                source,
                VehiclePosUpdate::UpdateEverySpeed(new_vehicle_spd, new_vehicle_turn_spd),
            ),
            collider: HullEvent::new(
                self_id,
                None,
                HullUpdate::UpdateCollider(
                    static_type.hull.base_collider.get_moved(new_pos, new_orientation),
                ),
            ),
        }
    }
}

/// A change of the equipment of a vehicle or of what its driver asked for.
#[derive(Debug)]
pub enum LocomotionUpdate {
    /// Replaces the equipment, one by one, as far as both lists go.
    UpdateEverything(Vec<LocomotionEquipment>),
    /// Replaces the equipment's own speeds and rates of turning.
    UpdateEverySpeed(Vec<(Vec3, Orientation)>),
    /// Adds to the equipment's own speeds and rates of turning.
    AddToEverySpeed(Vec<(Vec3, Orientation)>),
    /// Forgets what the driver asked for.
    FlushActions,
    /// Notes something the driver asks for.
    AddAction(Action, ActionResult),
}

/// A change of the locomotion of the vehicle `id`, with the identity of
/// whoever asked for it, if known.
#[derive(Debug)]
pub struct LocomotionEvent<ID> {
    pub id: usize,
    pub source: Option<ID>,
    pub update: LocomotionUpdate,
}

impl LocomotionEquipment {
    /// The equipment with its own speed and rate of turning replaced.
    #[verifier::allow_in_spec]
    pub fn with_speeds(self, speeds: (Vec3, Orientation)) -> LocomotionEquipment
        returns
            (LocomotionEquipment {
                current_local_speed: speeds.0,
                current_local_turn_speed: speeds.1,
                ..self
            }),
    {
        LocomotionEquipment {
            current_local_speed: speeds.0,
            current_local_turn_speed: speeds.1,
            ..self
        }
    }

    /// The equipment with `speeds` added to its own speed and rate of
    /// turning.
    #[verifier::allow_in_spec]
    pub fn with_added_speeds(self, speeds: (Vec3, Orientation)) -> LocomotionEquipment
        returns
            (LocomotionEquipment {
                current_local_speed: self.current_local_speed.add(speeds.0),
                current_local_turn_speed: self.current_local_turn_speed.add(speeds.1),
                ..self
            }),
    {
        LocomotionEquipment {
            current_local_speed: self.current_local_speed.add(speeds.0),
            current_local_turn_speed: self.current_local_turn_speed.add(speeds.1),
            ..self
        }
    }
}

impl LocomotionView {
    /// The locomotion after `update`. A list of changes reaches as far as
    /// it and the equipment both go; equipment beyond it stays as it is.
    pub open spec fn updated(self, update: LocomotionUpdate) -> LocomotionView {
        match update {
            LocomotionUpdate::UpdateEverything(updates) => LocomotionView {
                equipment: Seq::new(
                    self.equipment.len(),
                    |i: int|
                        if i < updates.len() {
                            updates[i]
                        } else {
                            self.equipment[i]
                        },
                ),
                driver_actions: self.driver_actions,
            },
            LocomotionUpdate::UpdateEverySpeed(updates) => LocomotionView {
                equipment: Seq::new(
                    self.equipment.len(),
                    |i: int|
                        if i < updates.len() {
                            self.equipment[i].with_speeds(updates[i])
                        } else {
                            self.equipment[i]
                        },
                ),
                driver_actions: self.driver_actions,
            },
            LocomotionUpdate::AddToEverySpeed(updates) => LocomotionView {
                equipment: Seq::new(
                    self.equipment.len(),
                    |i: int|
                        if i < updates.len() {
                            self.equipment[i].with_added_speeds(updates[i])
                        } else {
                            self.equipment[i]
                        },
                ),
                driver_actions: self.driver_actions,
            },
            LocomotionUpdate::FlushActions => LocomotionView {
                equipment: self.equipment,
                driver_actions: Seq::empty(),
            },
            LocomotionUpdate::AddAction(act, res) => LocomotionView {
                equipment: self.equipment,
                driver_actions: self.driver_actions.push((act, res)),
            },
        }
    }
}

impl Locomotion {
    /// Applies `update`.
    pub fn apply(&mut self, update: LocomotionUpdate)
        ensures
            final(self)@ == old(self)@.updated(update),
    {
        match update {
            LocomotionUpdate::UpdateEverything(updates) => {
                let mut i: usize = 0;
                while i < self.equipment.len() && i < updates.len()
                    invariant
                        i <= self.equipment.len(),
                        i <= updates.len(),
                        self.equipment.len() == old(self).equipment.len(),
                        self.driver_actions == old(self).driver_actions,
                        forall|k: int|
                            0 <= k < self.equipment.len() ==> #[trigger] self.equipment[k] == if k
                                < i {
                                updates[k]
                            } else {
                                old(self).equipment[k]
                            },
                    decreases self.equipment.len() - i,
                {
                    self.equipment.set(i, updates[i]);
                    i += 1;
                }
                assert(self@.equipment =~= old(self)@.updated(
                    LocomotionUpdate::UpdateEverything(updates),
                ).equipment);
            },
            LocomotionUpdate::UpdateEverySpeed(updates) => {
                let mut i: usize = 0;
                while i < self.equipment.len() && i < updates.len()
                    invariant
                        i <= self.equipment.len(),
                        i <= updates.len(),
                        self.equipment.len() == old(self).equipment.len(),
                        self.driver_actions == old(self).driver_actions,
                        forall|k: int|
                            0 <= k < self.equipment.len() ==> #[trigger] self.equipment[k] == if k
                                < i {
                                old(self).equipment[k].with_speeds(updates[k])
                            } else {
                                old(self).equipment[k]
                            },
                    decreases self.equipment.len() - i,
                {
                    let eq = self.equipment[i];
                    self.equipment.set(i, eq.with_speeds(updates[i]));
                    i += 1;
                }
                assert(self@.equipment =~= old(self)@.updated(
                    LocomotionUpdate::UpdateEverySpeed(updates),
                ).equipment);
            },
            LocomotionUpdate::AddToEverySpeed(updates) => {
                let mut i: usize = 0;
                while i < self.equipment.len() && i < updates.len()
                    invariant
                        i <= self.equipment.len(),
                        i <= updates.len(),
                        self.equipment.len() == old(self).equipment.len(),
                        self.driver_actions == old(self).driver_actions,
                        forall|k: int|
                            0 <= k < self.equipment.len() ==> #[trigger] self.equipment[k] == if k
                                < i {
                                old(self).equipment[k].with_added_speeds(updates[k])
                            } else {
                                old(self).equipment[k]
                            },
                    decreases self.equipment.len() - i,
                {
                    let eq = self.equipment[i];
                    self.equipment.set(i, eq.with_added_speeds(updates[i]));
                    i += 1;
                }
                assert(self@.equipment =~= old(self)@.updated(
                    LocomotionUpdate::AddToEverySpeed(updates),
                ).equipment);
            },
            LocomotionUpdate::FlushActions => {
                self.driver_actions.clear();
            },
            LocomotionUpdate::AddAction(act, res) => {
                self.driver_actions.push((act, res));
            },
        }
    }
}

impl<ID> LocomotionEvent<ID> {
    /// The event that applies `update` to the vehicle `id`.
    pub fn new(id: usize, source: Option<ID>, update: LocomotionUpdate) -> (r: LocomotionEvent<ID>)
        ensures
            r.id == id,
            r.source == source,
            r.update == update,
    {
        LocomotionEvent { id, source, update }
    }

    /// The vehicle that the change is for.
    pub fn get_id(&self) -> (r: usize)
        ensures
            r == self.id,
    {
        self.id
    }

    /// Who asked for the change, if known.
    pub fn get_source(&self) -> (r: &Option<ID>)
        ensures
            *r == self.source,
    {
        &self.source
    }

    /// Applies the change to the vehicle it is for, and to no other.
    pub fn apply_to_component(self, components: &mut Vec<Locomotion>)
        requires
            self.id < old(components).len(),
        ensures
            final(components).len() == old(components).len(),
            final(components)[self.id as int]@ == old(components)[self.id as int]@.updated(
                self.update,
            ),
            forall|i: int|
                0 <= i < old(components).len() && i != self.id ==> final(components)[i] == old(
                    components,
                )[i],
    {
        let mut target = components[self.id].clone();
        target.apply(self.update);
        components.set(self.id, target);
    }
}

/// The sum of `n` times the vector `v`, added one by one.
pub open spec fn repeated(v: Vec3, n: nat) -> Vec3
    decreases n,
{
    if n == 0 {
        Vec3::zero()
    } else {
        repeated(v, (n - 1) as nat).add(v)
    }
}

/// What gravity gives the speed of a vehicle through one equipment that
/// pushes at the centre of gravity: straight down in the world, seen from
/// the vehicle, at the strength of gravity over the mass.
pub open spec fn pull_of_gravity(
    vehicle_stats: &VehicleStats,
    vehicle_position: &VehiclePosition,
    constants: &PhysicsConstants,
) -> Vec3 {
    Rotation::from_orientation(vehicle_position.orientation.neg()).rotate(
        Vec3::from_ints(0, 0, -1i32).scale(constants.gravity),
    ).div(vehicle_stats.mass)
}

impl Locomotion {
    /// Whether every equipment bears load, pushes at the centre of gravity,
    /// and follows a path over the tick that reaches no solid terrain.
    pub open spec fn airborne(
        &self,
        static_locomotion: &StaticLocomotion,
        world: &GameMap,
        vehicle_position: &VehiclePosition,
    ) -> bool {
        forall|i: int|
            0 <= i < self.equipment.len() ==> {
                let eq = #[trigger] self.equipment[i];
                let static_type = static_locomotion.equipment[eq.static_equipment as int];
                &&& static_type.is_ground_equipment.is_some()
                &&& static_type.motion.application_point is CenterOfGravity
                &&& eq.swept_path(vehicle_position).end(world).final_coef >= COEF_ONE
            }
    }

    /// The pass over the terrain of a vehicle in the air: no equipment
    /// stands, each gives the speed the pull of gravity, and none gives the
    /// rate of turning anything.
    proof fn lemma_terrain_pass_in_the_air(
        &self,
        static_locomotion: &StaticLocomotion,
        world: &GameMap,
        vehicle_stats: &VehicleStats,
        vehicle_position: &VehiclePosition,
        constants: &PhysicsConstants,
        upto: int,
    )
        requires
            0 <= upto <= self.equipment.len(),
            self.airborne(static_locomotion, world, vehicle_position),
        ensures
            self.terrain_pass(
                static_locomotion,
                world,
                vehicle_stats,
                vehicle_position,
                constants,
                upto,
            ) == (TerrainPass {
                ground_spd_add: Vec3::zero(),
                nonground_spd_add: repeated(
                    pull_of_gravity(vehicle_stats, vehicle_position, constants),
                    upto as nat,
                ),
                standing: 0,
                turn_spd: vehicle_position.turn_spd,
            }),
        decreases upto,
    {
        if upto > 0 {
            self.lemma_terrain_pass_in_the_air(
                static_locomotion,
                world,
                vehicle_stats,
                vehicle_position,
                constants,
                upto - 1,
            );
            let eq = self.equipment[upto - 1];
            let static_type = &static_locomotion.equipment[eq.static_equipment as int];
            let given = eq.collision(
                static_type,
                world,
                vehicle_stats,
                vehicle_position,
                constants,
            );
            assert(given.0 == pull_of_gravity(vehicle_stats, vehicle_position, constants));
            assert(given.1 == Orientation::zero());
            assert(!given.2);
            assert(vehicle_position.turn_spd.add(Orientation::zero()) == vehicle_position.turn_spd)
                by {
                reveal(saturate);
            }
        }
    }
}

/// A vehicle in the air falls: where every equipment bears load, pushes at
/// the centre of gravity and reaches no solid terrain in the tick, the
/// vehicle's speed after the tick is its speed before, damped by the
/// resistance of the air, plus the pull of gravity once for each equipment;
/// and its rate of turning is the rate before, damped by the resistance of
/// the air and that of turning.
pub proof fn lemma_vehicle_in_the_air_falls(
    locomotion: &Locomotion,
    static_locomotion: &StaticLocomotion,
    world: &GameMap,
    vehicle_stats: &VehicleStats,
    vehicle_position: &VehiclePosition,
    constants: &PhysicsConstants,
)
    requires
        locomotion.airborne(static_locomotion, world, vehicle_position),
    ensures
        locomotion.physics(
            static_locomotion,
            world,
            vehicle_stats,
            vehicle_position,
            constants,
        ).0 == vehicle_position.spd.scale(constants.air_resistance).add(
            repeated(
                pull_of_gravity(vehicle_stats, vehicle_position, constants),
                locomotion.equipment.len() as nat,
            ),
        ),
        locomotion.physics(
            static_locomotion,
            world,
            vehicle_stats,
            vehicle_position,
            constants,
        ).1 == vehicle_position.turn_spd.scale(
            constants.air_resistance.mul(constants.turn_resistance),
        ),
{
    locomotion.lemma_terrain_pass_in_the_air(
        static_locomotion,
        world,
        vehicle_stats,
        vehicle_position,
        constants,
        locomotion.equipment.len() as int,
    );
    let pulls = repeated(
        pull_of_gravity(vehicle_stats, vehicle_position, constants),
        locomotion.equipment.len() as nat,
    );
    assert(Vec3::zero().add(pulls) == pulls) by {
        reveal(saturate);
    }
}

/// The pull of gravity on a vehicle that is not turned points straight
/// down, at the strength of gravity over the mass.
pub proof fn lemma_pull_of_gravity_upright(
    vehicle_stats: &VehicleStats,
    vehicle_position: &VehiclePosition,
    constants: &PhysicsConstants,
)
    requires
        vehicle_position.orientation == Orientation::zero(),
    ensures
        pull_of_gravity(vehicle_stats, vehicle_position, constants) == (Vec3 {
            x: Scalar::zero(),
            y: Scalar::zero(),
            z: constants.gravity.neg().div(vehicle_stats.mass),
        }),
{
    reveal(saturate);
    reveal(toward_zero);
    assert(Orientation::zero().neg() == Orientation::zero());
    lemma_zero_orientation_is_identity();
    let down = Vec3::from_ints(0, 0, -1i32).scale(constants.gravity);
    let g = constants.gravity.raw as int;
    assert(0 * g == 0);
    assert((-20480) * g == (-g) * 20480) by (nonlinear_arith);
    lemma_toward_zero_exact(-g, 20480);
    assert(down == Vec3 { x: Scalar::zero(), y: Scalar::zero(), z: constants.gravity.neg() });
    lemma_identity_rotates_nothing(down);
    assert(0 * 20480 == 0);
}

/// Equipment that bears no load is never counted as standing on the
/// ground: every equipment that the pass over the equipment notes as
/// standing is one of those passed over and bears load.
pub proof fn lemma_only_load_bearing_equipment_stands(
    locomotion: &Locomotion,
    static_locomotion: &StaticLocomotion,
    world: &GameMap,
    vehicle_stats: &VehicleStats,
    vehicle_position: &VehiclePosition,
    upto: int,
)
    requires
        0 <= upto <= locomotion.equipment.len(),
    ensures
        forall|k: int|
            0 <= k < locomotion.equipment_pass(
                static_locomotion,
                world,
                vehicle_stats,
                vehicle_position,
                upto,
            ).on_ground.len() ==> {
                let i = #[trigger] locomotion.equipment_pass(
                    static_locomotion,
                    world,
                    vehicle_stats,
                    vehicle_position,
                    upto,
                ).on_ground[k];
                &&& i < upto
                &&& locomotion.slot_of(static_locomotion, i as int).is_ground_equipment.is_some()
            },
    decreases upto,
{
    if upto > 0 {
        lemma_only_load_bearing_equipment_stands(
            locomotion,
            static_locomotion,
            world,
            vehicle_stats,
            vehicle_position,
            upto - 1,
        );
        let before = locomotion.equipment_pass(
            static_locomotion,
            world,
            vehicle_stats,
            vehicle_position,
            upto - 1,
        ).on_ground;
        let now = locomotion.equipment_pass(
            static_locomotion,
            world,
            vehicle_stats,
            vehicle_position,
            upto,
        ).on_ground;
        assert forall|k: int| 0 <= k < now.len() implies {
            let i = #[trigger] now[k];
            &&& i < upto
            &&& locomotion.slot_of(static_locomotion, i as int).is_ground_equipment.is_some()
        } by {
            if k < before.len() {
                assert(now[k] == before[k]);
            }
        }
    }
}

/// Equipment that bears no load gives the pass over the terrain nothing.
pub proof fn lemma_no_load_no_collision(
    equipment: LocomotionEquipment,
    static_type: &StaticLocomotionEquipment,
    world: &GameMap,
    vehicle_stats: &VehicleStats,
    vehicle_position: &VehiclePosition,
    constants: &PhysicsConstants,
)
    requires
        static_type.is_ground_equipment.is_none(),
    ensures
        equipment.collision(static_type, world, vehicle_stats, vehicle_position, constants) == (
            Vec3::zero(),
            Orientation::zero(),
            false,
        ),
{
}

} // verus!
