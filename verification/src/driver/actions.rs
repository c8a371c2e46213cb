//! What a driver asks of a vehicle.

use crate::scalar::Scalar;
use vstd::prelude::*;

verus! {

/// What an action asks for.
#[derive(Clone, Copy, Debug, PartialEq, Eq, Structural)]
pub enum ActionKind {
    /// Forward or backward drive, from minus one to one.
    Throttle(Scalar),
    /// A turn to the left or to the right, from minus one to one.
    Turn(Scalar),
    /// The use of nitro.
    ActivateNitro,
    /// Anything that moves no equipment.
    Other,
}

/// One action of a driver.
#[derive(Clone, Copy, Debug, PartialEq, Eq, Structural)]
pub struct Action {
    pub kind: ActionKind,
}

impl Action {
    /// The action that asks for `kind`.
    #[verifier::allow_in_spec]
    pub fn new(kind: ActionKind) -> Action
        returns
            (Action { kind }),
    {
        Action { kind }
    }

    /// What the action asks for.
    #[verifier::allow_in_spec]
    pub fn get_kind(&self) -> ActionKind
        returns
            self.kind,
    {
        self.kind
    }
}

/// What became of an action. The simulation of vehicles does not read it.
#[derive(Clone, Copy, Debug, PartialEq, Eq, Structural)]
pub enum ActionResult {
    Pending,
    Done,
}

} // verus!
