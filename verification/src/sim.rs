//! The simulation: one player, a fixed batch of targets, per-tick updates
//! and collision resolution on hold release.

use vstd::prelude::*;

use crate::SMASHABLES_PER_SCREEN;
use crate::SMASHABLE_SIZE;
use crate::player::Player;
use crate::player::armed;
use crate::player::player_start;
use crate::smashable::Smashable;
use crate::smashable::deactivated;
use crate::smashable::spawn_bounds;

verus! {

/// Strict axis-aligned overlap between the player's strike region and a
/// target's square hitbox anchored at the target's position.
pub open spec fn strike_overlaps(p: Player, s: Smashable) -> bool {
    &&& p.h_x < s.x + SMASHABLE_SIZE
    &&& p.h_x + p.h_w > s.x
    &&& p.h_y < s.y + SMASHABLE_SIZE
    &&& p.h_y + p.h_h > s.y
}

/// What one collision-resolution pass by player `p` does to target `s`:
/// an active target overlapped by an armed strike is deactivated, any other
/// target is left exactly as it is.
pub open spec fn smash_outcome(p: Player, s: Smashable) -> Smashable {
    if s.active && armed(p.holding as int) && strike_overlaps(p, s) {
        deactivated(s)
    } else {
        s
    }
}

/// The whole simulation: the player and the insertion-ordered targets.
pub struct MainState {
    pub player: Player,
    pub smashables: Vec<Smashable>,
}

/// True iff the strike region of `p` strictly overlaps the hitbox of `s` on
/// both axes.
pub fn strike_hits(p: &Player, s: &Smashable) -> (r: bool)
    ensures
        r == strike_overlaps(*p, *s),
{
    (p.h_x as u64) < (s.x as u64) + (SMASHABLE_SIZE as u64) && (p.h_x as u64) + (p.h_w as u64) > (
    s.x as u64) && (p.h_y as u64) < (s.y as u64) + (SMASHABLE_SIZE as u64) && (p.h_y as u64) + (
    p.h_h as u64) > (s.y as u64)
}

impl MainState {
    /// A fresh simulation: the player at its start state and a full batch of
    /// randomly spawned targets.
    pub fn new() -> (st: MainState)
        ensures
            st.player == player_start(),
            st.smashables@.len() == SMASHABLES_PER_SCREEN,
            forall|i: int|
                0 <= i < st.smashables@.len() ==> spawn_bounds(#[trigger] st.smashables@[i]),
    {
        let mut smashables: Vec<Smashable> = Vec::new();
        let mut k: u32 = 0;
        while k < SMASHABLES_PER_SCREEN
            invariant
                k <= SMASHABLES_PER_SCREEN,
                smashables@.len() == k,
                forall|i: int|
                    0 <= i < smashables@.len() ==> spawn_bounds(#[trigger] smashables@[i]),
            decreases SMASHABLES_PER_SCREEN - k,
        {
            smashables.push(Smashable::new());
            k = k + 1;
        }
        MainState { player: Player::new(), smashables }
    }

    /// A simulation over a given batch of targets, with the player at its
    /// start state. Lets a caller place every target deterministically.
    pub fn with_smashables(smashables: Vec<Smashable>) -> (st: MainState)
        ensures
            st.player == player_start(),
            st.smashables@ == smashables@,
    {
        MainState { player: Player::new(), smashables }
    }

    /// One simulation tick: advances the player. Collisions are not resolved
    /// here; they are a discrete event at hold release.
    pub fn tick(&mut self)
        ensures
            old(self).player.holding == 0 ==> {
                &&& final(self).player.y == crate::player::walk_step(old(self).player.y as int)
                &&& final(self).player.h_y == final(self).player.y + crate::HITAREA_H
            },
            old(self).player.holding != 0 ==> final(self).player == old(self).player,
            final(self).player.x == old(self).player.x,
            final(self).player.h_x == old(self).player.h_x,
            final(self).player.h_w == old(self).player.h_w,
            final(self).player.h_h == old(self).player.h_h,
            final(self).player.holding == old(self).player.holding,
            final(self).smashables@ == old(self).smashables@,
    {
        self.player.update();
    }

    /// Hold input asserted for one step: begins or charges the player's hold.
    pub fn on_hold_input_start_or_continue(&mut self)
        ensures
            final(self).player.holding == crate::player::hold_step(old(self).player.holding as int),
            final(self).player.x == old(self).player.x,
            final(self).player.y == old(self).player.y,
            final(self).player.h_x == old(self).player.h_x,
            final(self).player.h_y == old(self).player.h_y,
            final(self).player.h_w == old(self).player.h_w,
            final(self).player.h_h == old(self).player.h_h,
            final(self).smashables@ == old(self).smashables@,
    {
        self.player.hold();
    }

    /// Hold input released: if the strike is armed, one collision-resolution
    /// pass deactivates every active target the strike region overlaps; then
    /// the hold ends. A hold that never armed deactivates nothing.
    pub fn on_hold_input_end(&mut self)
        ensures
            final(self).player.holding == 0,
            final(self).player.x == old(self).player.x,
            final(self).player.y == old(self).player.y,
            final(self).player.h_x == old(self).player.h_x,
            final(self).player.h_y == old(self).player.h_y,
            final(self).player.h_w == old(self).player.h_w,
            final(self).player.h_h == old(self).player.h_h,
            final(self).smashables@.len() == old(self).smashables@.len(),
            forall|i: int|
                0 <= i < old(self).smashables@.len() ==> final(self).smashables@[i]
                    == smash_outcome(old(self).player, old(self).smashables@[i]),
    {
        self.collision();
        self.player.unhold();
    }

    /// One collision-resolution pass: while the strike is armed, every
    /// active target whose hitbox the strike region overlaps is deactivated;
    /// every other target, and the player, is left unchanged.
    pub fn collision(&mut self)
        ensures
            final(self).player == old(self).player,
            final(self).smashables@.len() == old(self).smashables@.len(),
            forall|i: int|
                0 <= i < old(self).smashables@.len() ==> final(self).smashables@[i]
                    == smash_outcome(old(self).player, old(self).smashables@[i]),
    {
        let ghost p0 = self.player;
        let ghost s0 = self.smashables@;
        if self.player.is_strike_armed() {
            let n: usize = self.smashables.len();
            let mut i: usize = 0;
            while i < n
                invariant
                    self.player == p0,
                    armed(p0.holding as int),
                    n == s0.len(),
                    self.smashables@.len() == s0.len(),
                    i <= n,
                    forall|j: int|
                        0 <= j < i ==> self.smashables@[j] == smash_outcome(p0, s0[j]),
                    forall|j: int| i <= j < s0.len() ==> self.smashables@[j] == s0[j],
                decreases n - i,
            {
                if self.smashables[i].active && strike_hits(&self.player, &self.smashables[i]) {
                    self.smashables[i].active = false;
                }
                i = i + 1;
            }
        }
    }
}

/// Releasing a hold that never armed changes no target: when the hold charge
/// is at or below the minimum threshold, a collision pass maps every target
/// to itself.
pub proof fn lemma_unarmed_release_changes_nothing(p: Player, ts: Seq<Smashable>)
    requires
        p.holding <= crate::PLAYER_HOLDING_TIME_MIN,
    ensures
        forall|i: int| 0 <= i < ts.len() ==> smash_outcome(p, ts[i]) == ts[i],
{
}

/// An armed release that overlaps exactly one active target deactivates that
/// target and only that target.
pub proof fn lemma_armed_release_single_overlap(p: Player, ts: Seq<Smashable>, j: int)
    requires
        armed(p.holding as int),
        0 <= j < ts.len(),
        ts[j].active,
        strike_overlaps(p, ts[j]),
        forall|i: int|
            0 <= i < ts.len() && i != j ==> !(ts[i].active && strike_overlaps(p, ts[i])),
    ensures
        !smash_outcome(p, ts[j]).active,
        smash_outcome(p, ts[j]).x == ts[j].x,
        smash_outcome(p, ts[j]).y == ts[j].y,
        forall|i: int| 0 <= i < ts.len() && i != j ==> smash_outcome(p, ts[i]) == ts[i],
{
}

} // verus!
