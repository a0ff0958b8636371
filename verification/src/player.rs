//! The player: vertical motion along the track and the hold state machine.

use vstd::prelude::*;

use crate::HITAREA_H;
use crate::HITAREA_W;
use crate::PLAYER_HOLDING_SEED;
use crate::PLAYER_HOLDING_SPEED;
use crate::PLAYER_HOLDING_TIME_MAX;
use crate::PLAYER_HOLDING_TIME_MIN;
use crate::PLAYER_WALKING_SPEED;
use crate::PLAYER_X;
use crate::PLAYER_Y;
use crate::WINDOW_H;

verus! {

/// The player entity. `x`, `y` is its position; `h_x`, `h_y`, `h_w`, `h_h`
/// is the strike-region rectangle, whose vertical position tracks the
/// player's with a fixed offset; `holding` is the hold-charge accumulator in
/// tenths of a charge unit, 0 meaning "not holding".
#[derive(Clone, Copy)]
pub struct Player {
    pub x: u32,
    pub y: u32,
    pub h_x: u32,
    pub h_y: u32,
    pub h_w: u32,
    pub h_h: u32,
    pub holding: u32,
}

/// The player's start state.
pub open spec fn player_start() -> Player {
    Player {
        x: PLAYER_X,
        y: PLAYER_Y,
        h_x: PLAYER_X,
        h_y: (PLAYER_Y + HITAREA_H) as u32,
        h_w: HITAREA_W,
        h_h: HITAREA_H,
        holding: 0,
    }
}

/// One tick of idle walking: move down by the walking speed and wrap modulo
/// the track height.
pub open spec fn walk_step(y: int) -> int {
    (y + PLAYER_WALKING_SPEED) % (WINDOW_H as int)
}

/// One charge step of the hold accumulator: a fresh hold starts at the seed
/// value; a charging hold grows by the charge rate until it would exceed the
/// maximum, at which point it auto-releases to zero.
pub open spec fn hold_step(h: int) -> int {
    if h == 0 {
        PLAYER_HOLDING_SEED as int
    } else if h + PLAYER_HOLDING_SPEED > PLAYER_HOLDING_TIME_MAX {
        0
    } else {
        h + PLAYER_HOLDING_SPEED
    }
}

/// The strike region may cause collisions only strictly above the minimum
/// charge threshold.
pub open spec fn armed(h: int) -> bool {
    h > PLAYER_HOLDING_TIME_MIN
}

impl Player {
    /// A player at the start position, not holding.
    pub fn new() -> (p: Player)
        ensures
            p == player_start(),
    {
        Player {
            x: PLAYER_X,
            y: PLAYER_Y,
            h_x: PLAYER_X,
            h_y: PLAYER_Y + HITAREA_H,
            h_w: HITAREA_W,
            h_h: HITAREA_H,
            holding: 0,
        }
    }

    /// One simulation tick. While not holding, the player walks down the
    /// track, wrapping at its height, and the strike region follows at a
    /// fixed vertical offset; while holding, nothing moves.
    pub fn update(&mut self)
        ensures
            old(self).holding == 0 ==> {
                &&& final(self).y == walk_step(old(self).y as int)
                &&& final(self).h_y == final(self).y + HITAREA_H
            },
            old(self).holding != 0 ==> *final(self) == *old(self),
            final(self).x == old(self).x,
            final(self).h_x == old(self).h_x,
            final(self).h_w == old(self).h_w,
            final(self).h_h == old(self).h_h,
            final(self).holding == old(self).holding,
    {
        if self.holding == 0 {
            let wrapped: u64 = (self.y as u64 + PLAYER_WALKING_SPEED as u64) % (WINDOW_H as u64);
            self.y = wrapped as u32;
            self.h_y = self.y + HITAREA_H;
        }
    }

    /// One hold-input step: begins a hold at the seed value, or charges a
    /// running hold by the charge rate, auto-releasing once the accumulator
    /// would exceed the maximum.
    pub fn hold(&mut self)
        ensures
            final(self).holding == hold_step(old(self).holding as int),
            final(self).x == old(self).x,
            final(self).y == old(self).y,
            final(self).h_x == old(self).h_x,
            final(self).h_y == old(self).h_y,
            final(self).h_w == old(self).h_w,
            final(self).h_h == old(self).h_h,
    {
        if self.holding > 0 {
            let charged: u64 = self.holding as u64 + PLAYER_HOLDING_SPEED as u64;
            if charged > PLAYER_HOLDING_TIME_MAX as u64 {
                self.unhold();
            } else {
                self.holding = charged as u32;
            }
        } else {
            self.holding = PLAYER_HOLDING_SEED;
        }
    }

    /// Releases the hold. Idempotent.
    pub fn unhold(&mut self)
        ensures
            final(self).holding == 0,
            final(self).x == old(self).x,
            final(self).y == old(self).y,
            final(self).h_x == old(self).h_x,
            final(self).h_y == old(self).h_y,
            final(self).h_w == old(self).h_w,
            final(self).h_h == old(self).h_h,
    {
        self.holding = 0;
    }

    /// True iff the accumulated hold charge strictly exceeds the minimum
    /// threshold, making the strike region collision-eligible.
    pub fn is_strike_armed(&self) -> (r: bool)
        ensures
            r == armed(self.holding as int),
    {
        self.holding > PLAYER_HOLDING_TIME_MIN
    }
}

/// Charging is monotone up to the cap: one charge step on a running hold
/// either strictly increases the accumulator by exactly the charge rate, or,
/// once the cap would be exceeded, resets it to zero.
pub proof fn lemma_hold_charge_monotonic(h: int)
    requires
        0 < h,
    ensures
        h + PLAYER_HOLDING_SPEED <= PLAYER_HOLDING_TIME_MAX ==> hold_step(h) == h
            + PLAYER_HOLDING_SPEED,
        h + PLAYER_HOLDING_SPEED <= PLAYER_HOLDING_TIME_MAX ==> hold_step(h) > h,
        h + PLAYER_HOLDING_SPEED > PLAYER_HOLDING_TIME_MAX ==> hold_step(h) == 0,
{
}

} // verus!
