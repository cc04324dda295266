//! The player: a fixed column, a vertical row, and a vertical velocity.
//!
//! Velocity is stored in half-rows per physics tick, so that every value the
//! game ever uses (steps of one half, a cap of two rows, a flap impulse of
//! minus two and a half rows) is represented exactly: a stored value `v`
//! stands for `v / 2` rows per tick, truncated toward zero when the player
//! moves.

use vstd::prelude::*;

verus! {

/// Upper bound on the stored velocity: two rows per tick.
pub const VELOCITY_CAP_HALVES: i32 = 4;

/// The velocity a flap sets: two and a half rows per tick, upward.
pub const FLAP_VELOCITY_HALVES: i32 = -5;

#[derive(Clone, Copy, Debug, PartialEq, Eq, Structural)]
pub struct Player {
    /// Fixed horizontal screen column.
    pub x: i32,
    /// Vertical grid row; never negative.
    pub y: i32,
    /// Vertical speed in half-rows per physics tick; negative is upward.
    pub velocity_halves: i32,
}

/// The velocity after one application of gravity: one half-row faster
/// downward, unless the cap has been reached.
pub open spec fn grav_vel(v: int) -> int {
    if v < VELOCITY_CAP_HALVES {
        v + 1
    } else {
        v
    }
}

/// The whole-row movement a velocity of `v` half-rows produces, truncated
/// toward zero.
pub open spec fn row_delta(v: int) -> int {
    if v >= 0 {
        v / 2
    } else {
        -((-v) / 2)
    }
}

/// The row after one physics tick from row `y` at velocity `v`: gravity
/// applies first, then the player moves, then the row is clamped to zero.
pub open spec fn grav_y(y: int, v: int) -> int {
    let moved = y + row_delta(grav_vel(v));
    if moved < 0 {
        0
    } else {
        moved
    }
}

/// The velocity after `n` physics ticks with no intervening flap.
pub open spec fn grav_vel_n(v: int, n: nat) -> int
    decreases n,
{
    if n == 0 {
        v
    } else {
        grav_vel(grav_vel_n(v, (n - 1) as nat))
    }
}

/// The row after `n` physics ticks with no intervening flap.
pub open spec fn grav_y_n(y: int, v: int, n: nat) -> int
    decreases n,
{
    if n == 0 {
        y
    } else {
        grav_y(grav_y_n(y, v, (n - 1) as nat), grav_vel_n(v, (n - 1) as nat))
    }
}

/// After any number of physics ticks without an intervening flap, the
/// velocity never exceeds the cap and the row never goes negative.
pub proof fn lemma_gravity_bounded(y: int, v: int, n: nat)
    requires
        v <= VELOCITY_CAP_HALVES,
        0 <= y,
    ensures
        grav_vel_n(v, n) <= VELOCITY_CAP_HALVES,
        0 <= grav_y_n(y, v, n),
    decreases n,
{
    if n > 0 {
        lemma_gravity_bounded(y, v, (n - 1) as nat);
    }
}

impl Player {
    /// The row is on screen or below it, and the velocity lies between the
    /// flap impulse and the cap.
    pub open spec fn wf(self) -> bool {
        &&& 0 <= self.y
        &&& FLAP_VELOCITY_HALVES <= self.velocity_halves <= VELOCITY_CAP_HALVES
    }

    /// A player at rest at the given position.
    pub fn new(x: i32, y: i32) -> (r: Player)
        ensures
            r.x == x,
            r.y == y,
            r.velocity_halves == 0,
            0 <= y ==> r.wf(),
    {
        Player { x, y, velocity_halves: 0 }
    }

    /// One physics tick: gravity speeds the fall while the velocity is below
    /// the cap, the player moves by the whole rows the velocity covers, and
    /// the row is clamped to zero.
    pub fn gravity_and_move(&mut self)
        requires
            old(self).wf(),
            old(self).y <= i32::MAX - 2,
        ensures
            final(self).wf(),
            final(self).x == old(self).x,
            final(self).velocity_halves == grav_vel(old(self).velocity_halves as int),
            final(self).y == grav_y(old(self).y as int, old(self).velocity_halves as int),
    {
        if self.velocity_halves < VELOCITY_CAP_HALVES {
            self.velocity_halves = self.velocity_halves + 1;
        }
        let delta: i32 = if self.velocity_halves >= 0 {
            self.velocity_halves / 2
        } else {
            -((-self.velocity_halves) / 2)
        };
        self.y = self.y + delta;
        if self.y < 0 {
            self.y = 0;
        }
    }

    /// An instantaneous upward impulse: the velocity becomes exactly the flap
    /// value, whatever it was before.
    pub fn flap(&mut self)
        ensures
            final(self).x == old(self).x,
            final(self).y == old(self).y,
            final(self).velocity_halves == FLAP_VELOCITY_HALVES,
            old(self).wf() ==> final(self).wf(),
    {
        self.velocity_halves = FLAP_VELOCITY_HALVES;
    }
}

} // verus!
