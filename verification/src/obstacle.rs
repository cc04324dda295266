//! An obstacle: a vertical wall with a gap, scrolling one column leftward per
//! rendered frame. The gap's center is drawn at random when the obstacle is
//! created; the gap's height shrinks as the score grows, with a floor of two.

use crate::player::Player;
use crate::rng::new_rng;
use crate::rng::rng_range;
use crate::SCREEN_HEIGHT;
use vstd::prelude::*;

verus! {

/// Smallest row (inclusive) the gap's random center is drawn from.
pub const GAP_Y_MIN: i32 = 10;

/// Largest row (exclusive) the gap's random center is drawn from.
pub const GAP_Y_MAX: i32 = 40;

#[derive(Clone, Copy, Debug, PartialEq, Eq, Structural)]
pub struct Obstacle {
    /// Horizontal column; decreases by one each rendered frame.
    pub x: i32,
    /// Vertical center of the passable gap.
    pub gap_y: i32,
    /// Full height of the gap opening.
    pub size: i32,
}

/// The gap height an obstacle created at score `score` gets: `20 - score`,
/// with a floor of two.
pub open spec fn spec_obstacle_size(score: int) -> int {
    if 20 - score >= 2 {
        20 - score
    } else {
        2
    }
}

/// A newly created obstacle's size equals `max(2, 20 - score)`, hence it is
/// never below two, for every score a run can reach.
pub proof fn lemma_obstacle_size_floor(score: int)
    requires
        0 <= score,
    ensures
        spec_obstacle_size(score) >= 2,
        spec_obstacle_size(score) <= 20,
        20 - score >= 2 ==> spec_obstacle_size(score) == 20 - score,
        20 - score < 2 ==> spec_obstacle_size(score) == 2,
{
}

/// True iff a player at column `px`, row `py` collides with `o`: the columns
/// match and the row lies strictly outside the gap. The gap spans the rows
/// from `gap_y - size / 2` to `gap_y + size / 2`, both ends passable; an odd
/// size rounds asymmetrically.
pub open spec fn spec_hits(o: Obstacle, px: int, py: int) -> bool {
    &&& o.x == px
    &&& (py < o.gap_y - o.size / 2 || py > o.gap_y + o.size / 2)
}

/// A collision needs matching columns: whenever the obstacle's column differs
/// from the player's, there is no hit, whatever the rows are.
pub proof fn lemma_no_hit_when_x_differs(o: Obstacle, px: int, py: int)
    requires
        o.x != px,
    ensures
        !spec_hits(o, px, py),
{
}

impl Obstacle {
    /// The gap's center lies in the random draw's range and the gap's height
    /// is at least two and at most twenty.
    pub open spec fn wf(self) -> bool {
        &&& GAP_Y_MIN <= self.gap_y < GAP_Y_MAX
        &&& 2 <= self.size <= 20
    }

    /// A fresh obstacle at column `x`: the gap's center is drawn at random,
    /// the gap's height follows the current score.
    pub fn new(x: i32, score: i32) -> (r: Obstacle)
        requires
            0 <= score,
        ensures
            r.x == x,
            r.size == spec_obstacle_size(score as int),
            r.wf(),
    {
        let mut random = new_rng();
        let gap_y: i32 = rng_range(&mut random, GAP_Y_MIN, GAP_Y_MAX);
        let size: i32 = if score <= 18 {
            20 - score
        } else {
            2
        };
        Obstacle { x, gap_y, size }
    }

    /// One frame of scrolling: the obstacle moves one column leftward.
    pub fn advance(&mut self)
        requires
            old(self).x > i32::MIN,
        ensures
            final(self).x == old(self).x - 1,
            final(self).gap_y == old(self).gap_y,
            final(self).size == old(self).size,
            old(self).wf() ==> final(self).wf(),
    {
        self.x = self.x - 1;
    }

    /// True iff the wall of this obstacle covers the cell at its own column
    /// and row `y`: an on-screen row strictly above the gap or at the gap's
    /// lower edge and below. The drawing layer paints exactly these rows.
    pub fn is_wall_at(&self, y: i32) -> (r: bool)
        requires
            self.wf(),
        ensures
            r == (0 <= y < SCREEN_HEIGHT && (y < self.gap_y - self.size / 2
                || y >= self.gap_y + self.size / 2)),
    {
        let half_size: i32 = self.size / 2;
        0 <= y && y < SCREEN_HEIGHT && (y < self.gap_y - half_size || y >= self.gap_y + half_size)
    }

    /// True iff the player collides with this obstacle this frame.
    pub fn hit_obstacle(&self, player: &Player) -> (r: bool)
        requires
            self.wf(),
        ensures
            r == spec_hits(*self, player.x as int, player.y as int),
    {
        let half_size: i32 = self.size / 2;
        let does_x_match = self.x == player.x;
        let player_above_gap = player.y < self.gap_y - half_size;
        let player_below_gap = player.y > self.gap_y + half_size;
        does_x_match && (player_above_gap || player_below_gap)
    }
}

} // verus!
