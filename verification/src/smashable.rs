//! Targets: spawned objects that can be struck exactly once.

use vstd::prelude::*;

use crate::SMASHABLE_SPAWN_BASE;
use crate::SMASHABLE_SPAWN_SPAN;
use crate::SMASHABLE_X_LEFT;
use crate::SMASHABLE_X_RIGHT;

verus! {

/// A target on the play field. Once deactivated it stays inactive forever:
/// nothing ever sets `active` back to true.
#[derive(Clone, Copy)]
pub struct Smashable {
    pub x: u32,
    pub y: u32,
    pub active: bool,
}

/// The same target with its `active` flag cleared.
pub open spec fn deactivated(s: Smashable) -> Smashable {
    Smashable { x: s.x, y: s.y, active: false }
}

/// What holds of every freshly spawned target: it is active, sits on one of
/// the two spawn lanes, and its height lies inside the spawn band.
pub open spec fn spawn_bounds(s: Smashable) -> bool {
    &&& s.active
    &&& (s.x == SMASHABLE_X_LEFT || s.x == SMASHABLE_X_RIGHT)
    &&& SMASHABLE_SPAWN_BASE <= s.y < SMASHABLE_SPAWN_BASE + SMASHABLE_SPAWN_SPAN
}

impl Smashable {
    /// Spawns a target: the height is drawn uniformly from the spawn band,
    /// the lane is a coin flip between the two lane positions.
    pub fn new() -> (s: Smashable)
        ensures
            spawn_bounds(s),
    {
        let frac: u32 = crate::rng::gen_below(SMASHABLE_SPAWN_SPAN);
        let left = crate::rng::gen_coin();
        Smashable::from_spawn(frac, left)
    }

    /// Places a target from the two random draws of a spawn: a height
    /// fraction inside the spawn band and a lane choice.
    pub fn from_spawn(frac: u32, left: bool) -> (s: Smashable)
        requires
            frac < SMASHABLE_SPAWN_SPAN,
        ensures
            s.active,
            s.x == (if left { SMASHABLE_X_LEFT } else { SMASHABLE_X_RIGHT }),
            s.y == SMASHABLE_SPAWN_BASE + frac,
    {
        Smashable {
            x: if left { SMASHABLE_X_LEFT } else { SMASHABLE_X_RIGHT },
            y: SMASHABLE_SPAWN_BASE + frac,
            active: true,
        }
    }

    /// Deactivates the target. Idempotent: on an inactive target this is a
    /// no-op.
    pub fn deactivate(&mut self)
        ensures
            *final(self) == deactivated(*old(self)),
    {
        self.active = false;
    }
}

/// Deactivating is idempotent: deactivating an already deactivated target
/// leaves it exactly as it is.
pub proof fn lemma_deactivate_idempotent(s: Smashable)
    ensures
        deactivated(deactivated(s)) == deactivated(s),
{
}

} // verus!
