//! The default car: a box of four by two by one on four wheels, the two
//! middle ones of which drive and steer.

use crate::driver::colliders::{
    BoundingCollider, BoundingSphere, ComplexCollider, InternalCollider, SubCollider,
    SubColliderView, AABB,
};
use crate::geometry::rotation::{Orientation, PI};
use crate::geometry::vec3d::{Coord, Vec3};
use crate::scalar::Scalar;
use crate::vehicle::hull::StaticHull;
use crate::vehicle::locomotion::{
    ActivationOutput, ActivationRequirement, ActivationRequirements, ApplicationPoint,
    DriverAction, EqMotion, EqMotionKind, EqRecoil, EqRecoilKind, MotionApplication,
    StaticLocomotion, StaticLocomotionEquipment, SurfaceType,
};
use crate::vehicle::position::StaticVehiclePos;
use crate::vehicle::vehicle_stats::StaticVehicleStats;
use crate::vehicle::StaticVehicleEntity;
use vstd::prelude::*;

verus! {

/// The box of the default car.
#[verifier::allow_in_spec]
pub fn default_car_box() -> AABB
    returns
        (AABB { max: Vec3::from_ints(2, 1, 1), min: Vec3::from_ints(-2i32, -1i32, 0) }),
{
    AABB { max: Vec3::from_ints(2, 1, 1), min: Vec3::from_ints(-2, -1, 0) }
}

/// The motion of a wheel of the default car: forward, flat on the ground,
/// applied at the wheel.
#[verifier::allow_in_spec]
pub fn default_wheel_motion() -> EqMotion
    returns
        (EqMotion {
            kind: EqMotionKind::Switch,
            forward_vector: Vec3::from_ints(1, 0, 0),
            motion_application: MotionApplication::FlatAlong2AxisFromEquipment {
                removed: Coord::Z,
            },
            application_point: ApplicationPoint::CenterOfEquipment,
        }),
{
    EqMotion {
        kind: EqMotionKind::Switch,
        forward_vector: Vec3::from_ints(1, 0, 0),
        motion_application: MotionApplication::FlatAlong2AxisFromEquipment { removed: Coord::Z },
        application_point: ApplicationPoint::CenterOfEquipment,
    }
}

/// The surface that a wheel of the default car needs.
pub open spec fn on_ground() -> ActivationRequirement {
    ActivationRequirement::SurfaceContact(Some(SurfaceType::Ground))
}

/// Any throttle from full reverse to full forward.
pub open spec fn any_throttle() -> ActivationRequirement {
    ActivationRequirement::DriverAction(
        DriverAction::Throttle { from: Scalar::from_int(-1i32), to: Scalar::from_int(1) },
    )
}

/// Any turn from full left to full right.
pub open spec fn any_turn() -> ActivationRequirement {
    ActivationRequirement::DriverAction(
        DriverAction::HorizontalReorientation {
            from: Scalar::from_int(-1i32),
            to: Scalar::from_int(1),
        },
    )
}

/// Whether `slot` is the wheel with the number `i` of a car whose box is
/// `aabb`.
///
/// The wheel rests at the corner `i` of the lower face, in a sphere of
/// seven twentieths about it, bears load on ground and looks straight down.
/// The wheels 1 and 2 are driven by throttle and steered by turns about the
/// vertical axis, as long as they touch ground; the wheels 0 and 3 are
/// never activated.
pub open spec fn is_default_wheel(slot: &StaticLocomotionEquipment, aabb: AABB, i: int) -> bool {
    &&& slot.resting_local_position == aabb.ground_vertices()[i]
    &&& slot.max_self_rotation == Orientation::new(
        Scalar { raw: PI }.mul_ratio(1, 3),
        Scalar::zero(),
        Scalar::zero(),
    )
    &&& slot.motion == default_wheel_motion()
    &&& slot.recoil == (EqRecoil {
        kind: EqRecoilKind::InstantOnActivation,
        equipment_local_vector_towards_recoil: Vec3::zero(),
        max_recoil: Scalar::one(),
    })
    &&& slot.collider == BoundingCollider::BS(
        BoundingSphere { center: aabb.ground_vertices()[i], radius: Scalar::from_ratio(7, 20) },
    )
    &&& slot.down_dir.is_none()
    &&& slot.is_ground_equipment == Some(SurfaceType::Ground)
    &&& slot.drag_coefficients.len() == 0
    &&& if i == 1 || i == 2 {
        &&& slot.activation_requirements.len() == 2
        &&& slot.activation_requirements[0].requirements@ == seq![on_ground(), any_throttle()]
        &&& slot.activation_requirements[0].output == ActivationOutput::ActivateMotion
        &&& slot.activation_requirements[1].requirements@ == seq![on_ground(), any_turn()]
        &&& slot.activation_requirements[1].output == ActivationOutput::Turn(Coord::Z)
    } else {
        slot.activation_requirements.len() == 0
    }
}

/// The wheel with the number `i` of a car whose box is `aabb`.
fn default_wheel(aabb: &AABB, i: usize) -> (r: StaticLocomotionEquipment)
    requires
        i < 4,
    ensures
        is_default_wheel(&r, *aabb, i as int),
        r.supported(),
{
    let corners = aabb.get_ground_vertices();
    let mut activation_requirements: Vec<ActivationRequirements> = Vec::new();
    if i == 1 || i == 2 {
        let mut drive: Vec<ActivationRequirement> = Vec::new();
        drive.push(ActivationRequirement::SurfaceContact(Some(SurfaceType::Ground)));
        drive.push(
            ActivationRequirement::DriverAction(
                DriverAction::Throttle { from: Scalar::from_int(-1), to: Scalar::from_int(1) },
            ),
        );
        let mut steer: Vec<ActivationRequirement> = Vec::new();
        steer.push(ActivationRequirement::SurfaceContact(Some(SurfaceType::Ground)));
        steer.push(
            ActivationRequirement::DriverAction(
                DriverAction::HorizontalReorientation {
                    from: Scalar::from_int(-1),
                    to: Scalar::from_int(1),
                },
            ),
        );
        proof {
            assert(drive@ =~= seq![on_ground(), any_throttle()]);
            assert(steer@ =~= seq![on_ground(), any_turn()]);
        }
        activation_requirements.push(
            ActivationRequirements::new(drive, ActivationOutput::ActivateMotion),
        );
        activation_requirements.push(
            ActivationRequirements::new(steer, ActivationOutput::Turn(Coord::Z)),
        );
    }
    let r = StaticLocomotionEquipment {
        activation_requirements,
        resting_local_position: corners[i],
        max_self_rotation: Orientation::new(
            Scalar::from_raw(PI).mul_ratio(1, 3),
            Scalar::zero(),
            Scalar::zero(),
        ),
        motion: default_wheel_motion(),
        recoil: EqRecoil {
            kind: EqRecoilKind::InstantOnActivation,
            equipment_local_vector_towards_recoil: Vec3::zero(),
            max_recoil: Scalar::one(),
        },
        collider: BoundingCollider::BS(BoundingSphere::new(corners[i], Scalar::from_ratio(7, 20))),
        down_dir: None,
        is_ground_equipment: Some(SurfaceType::Ground),
        drag_coefficients: Vec::new(),
    };
    proof {
        assert forall|k: int| 0 <= k < r.activation_requirements.len() implies (
        #[trigger] r.activation_requirements[k]).supported() by {
            let reqs = r.activation_requirements[k].requirements@;
            assert(reqs.len() == 2);
            assert forall|j: int| 0 <= j < reqs.len() implies !(#[trigger] reqs[j]
                is HullPosition) by {
                if j == 0 {
                } else {
                }
            }
        }
    }
    r
}

/// The four wheels of a car whose box is `aabb`, one at each corner of its
/// lower face.
pub fn get_default_loco_equips(aabb: AABB) -> (r: Vec<StaticLocomotionEquipment>)
    ensures
        r.len() == 4,
        forall|i: int| 0 <= i < 4 ==> is_default_wheel(#[trigger] &r[i], aabb, i),
        forall|i: int| 0 <= i < 4 ==> (#[trigger] r[i]).supported(),
{
    let mut equipments: Vec<StaticLocomotionEquipment> = Vec::new();
    let mut i: usize = 0;
    while i < 4
        invariant
            i <= 4,
            equipments.len() == i,
            forall|k: int| 0 <= k < i ==> is_default_wheel(#[trigger] &equipments[k], aabb, k),
            forall|k: int| 0 <= k < i ==> (#[trigger] equipments[k]).supported(),
        decreases 4 - i,
    {
        equipments.push(default_wheel(&aabb, i));
        i += 1;
    }
    equipments
}

/// The default car: a mass of one and a hundred of nitro at most, a hull
/// that is its box, as a whole, as its only part and as the only shape of
/// that part, and four wheels.
pub fn get_default_car_type() -> (r: StaticVehicleEntity)
    ensures
        r.stats == (StaticVehicleStats {
            start_mass: Scalar::one(),
            max_nitro: Scalar::from_int(100),
        }),
        r.hull.base_collider@.global_aabb == default_car_box(),
        r.hull.base_collider@.sub_colliders == seq![
            SubColliderView {
                bounding_collider: BoundingCollider::AABB(default_car_box()),
                internal_colliders: seq![InternalCollider::AABB(default_car_box())],
            },
        ],
        r.locomotion.equipment.len() == 4,
        forall|i: int|
            0 <= i < 4 ==> is_default_wheel(
                #[trigger] &r.locomotion.equipment[i],
                default_car_box(),
                i,
            ),
        r.locomotion.supported(),
{
    let aabb = default_car_box();
    let loco_equipments = get_default_loco_equips(aabb);
    let mut internals: Vec<InternalCollider> = Vec::new();
    internals.push(InternalCollider::AABB(aabb));
    let mut subs: Vec<SubCollider> = Vec::new();
    subs.push(SubCollider::new(BoundingCollider::AABB(aabb), internals));
    let base_collider = ComplexCollider::new(aabb, subs);
    proof {
        assert(base_collider@.sub_colliders =~= seq![
            SubColliderView {
                bounding_collider: BoundingCollider::AABB(default_car_box()),
                internal_colliders: seq![InternalCollider::AABB(default_car_box())],
            },
        ]);
    }
    StaticVehicleEntity {
        position: StaticVehiclePos {  },
        stats: StaticVehicleStats { start_mass: Scalar::one(), max_nitro: Scalar::from_int(100) },
        hull: StaticHull { base_collider },
        locomotion: StaticLocomotion { equipment: loco_equipments },
    }
}

} // verus!
