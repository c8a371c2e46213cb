//! The statistics of a driver.

use crate::scalar::Scalar;
use vstd::prelude::*;

verus! {

/// The statistics of one driver.
#[derive(Clone, Copy, Debug, PartialEq, Eq, Structural)]
pub struct Stats {
    pub static_type_id: usize,
    pub health: i32,
    pub damage: i32,
    pub stamina: i32,
    pub ground_speed: Scalar,
    pub jump_height: Scalar,
    pub personal_vehicle: Option<usize>,
}

/// A change of a driver's statistics.
#[derive(Clone, Copy, Debug, PartialEq, Eq, Structural)]
pub enum StatEventVariant {
    UpdateHealth(i32),
    UpdateDamage(i32),
    UpdateStamina(i32),
}

/// What all drivers of a type share of their statistics: nothing.
#[derive(Clone, Copy, Debug, PartialEq, Eq, Structural)]
pub struct StaticStats {
}

/// A change of the statistics of the driver `id`, with the identity of
/// whoever asked for it, if known.
#[derive(Debug)]
pub struct StatEvent<ID> {
    pub id: usize,
    pub source: Option<ID>,
    pub variant: StatEventVariant,
}

impl Stats {
    /// The statistics that a driver starts with: a fifth of a unit per tick
    /// on the ground, a jump of one unit, and nothing else.
    #[verifier::allow_in_spec]
    pub fn from_static(static_comp: &StaticStats) -> Stats
        returns
            (Stats {
                static_type_id: 0,
                health: 0,
                damage: 0,
                stamina: 0,
                jump_height: Scalar::one(),
                ground_speed: Scalar::from_ratio(1, 5),
                personal_vehicle: None,
            }),
    {
        Stats {
            static_type_id: 0,
            health: 0,
            damage: 0,
            stamina: 0,
            jump_height: Scalar::one(),
            ground_speed: Scalar::from_ratio(1, 5),
            personal_vehicle: None,
        }
    }

    /// The type of the driver.
    #[verifier::allow_in_spec]
    pub fn get_id(&self) -> usize
        returns
            self.static_type_id,
    {
        self.static_type_id
    }

    /// The statistics after `variant`.
    #[verifier::allow_in_spec]
    pub fn updated(self, variant: StatEventVariant) -> Stats
        returns
            (match variant {
                StatEventVariant::UpdateDamage(new_dmg) => Stats { damage: new_dmg, ..self },
                StatEventVariant::UpdateHealth(new_health) => Stats { health: new_health, ..self },
                StatEventVariant::UpdateStamina(new_stam) => Stats { stamina: new_stam, ..self },
            }),
    {
        match variant {
            StatEventVariant::UpdateDamage(new_dmg) => Stats { damage: new_dmg, ..self },
            StatEventVariant::UpdateHealth(new_health) => Stats { health: new_health, ..self },
            StatEventVariant::UpdateStamina(new_stam) => Stats { stamina: new_stam, ..self },
        }
    }
}

impl<ID> StatEvent<ID> {
    /// The event that applies `variant` to the driver `id`.
    pub fn new(id: usize, source: Option<ID>, variant: StatEventVariant) -> (r: StatEvent<ID>)
        ensures
            r.id == id,
            r.source == source,
            r.variant == variant,
    {
        StatEvent { id, source, variant }
    }

    /// The driver that the change is for.
    pub fn get_id(&self) -> (r: usize)
        ensures
            r == self.id,
    {
        self.id
    }

    /// Who asked for the change, if known.
    pub fn get_source(&self) -> (r: &Option<ID>)
        ensures
            *r == self.source,
    {
        &self.source
    }

    /// Applies the change to the driver it is for, and to no other.
    pub fn apply_to_component(self, components: &mut Vec<Stats>)
        requires
            self.id < old(components).len(),
        ensures
            final(components)@ == old(components)@.update(
                self.id as int,
                old(components)[self.id as int].updated(self.variant),
            ),
    {
        let current = components[self.id];
        components.set(self.id, current.updated(self.variant));
    }
}

} // verus!
