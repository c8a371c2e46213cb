//! The hull of a vehicle: its collision shape, kept where the vehicle is.

use crate::driver::colliders::{ComplexCollider, ComplexColliderView, AABB};
use vstd::prelude::*;

verus! {

/// The hull of one vehicle.
#[derive(Debug)]
pub struct Hull {
    pub complex_collider: ComplexCollider,
}

/// The hull that all vehicles of a type start with, about the origin.
#[derive(Debug)]
pub struct StaticHull {
    pub base_collider: ComplexCollider,
}

/// A change of a vehicle's hull.
#[derive(Debug)]
pub enum HullUpdate {
    /// Replaces the collision shape.
    UpdateCollider(ComplexCollider),
    /// Replaces the box around the collision shape.
    UpdateColliderAABB(AABB),
}

impl Hull {
    /// The hull that a vehicle of the given type starts with.
    pub fn from_static(static_comp: &StaticHull) -> (r: Hull)
        ensures
            r.complex_collider@ == static_comp.base_collider@,
    {
        Hull { complex_collider: static_comp.base_collider.clone() }
    }
}

impl HullUpdate {
    /// Applies the change to `component`.
    pub fn apply_to_comp(self, component: &mut Hull)
        ensures
            final(component).complex_collider@ == match self {
                HullUpdate::UpdateCollider(collider) => collider@,
                HullUpdate::UpdateColliderAABB(aabb) => ComplexColliderView {
                    global_aabb: aabb,
                    sub_colliders: old(component).complex_collider@.sub_colliders,
                },
            },
    {
        match self {
            HullUpdate::UpdateCollider(collider) => component.complex_collider = collider,
            HullUpdate::UpdateColliderAABB(aabb) => component.complex_collider.set_aabb(aabb),
        }
    }
}

/// A change of the hull of the vehicle `id`, with the identity of whoever
/// asked for it, if known.
#[derive(Debug)]
pub struct HullEvent<ID> {
    pub id: usize,
    pub source: Option<ID>,
    pub update: HullUpdate,
}

impl<ID> HullEvent<ID> {
    /// The event that applies `update` to the vehicle `id`.
    pub fn new(id: usize, source: Option<ID>, update: HullUpdate) -> (r: HullEvent<ID>)
        ensures
            r.id == id,
            r.source == source,
            r.update == update,
    {
        HullEvent { id, source, update }
    }
}

} // verus!
