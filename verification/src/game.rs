//! The game state and its mode machine: one player, two obstacles in flight,
//! the score, and the fixed-timestep accumulator that gates physics.

use crate::obstacle::spec_hits;
use crate::obstacle::spec_obstacle_size;
use crate::obstacle::Obstacle;
use crate::player::grav_vel;
use crate::player::grav_y;
use crate::player::Player;
use crate::player::FLAP_VELOCITY_HALVES;
use crate::FRAME_DURATION_MS;
use crate::PLAYER_START_Y;
use crate::PLAYER_X;
use crate::SCREEN_HEIGHT;
use crate::SCREEN_WIDTH;
use vstd::prelude::*;

verus! {

/// Which per-frame behavior runs; exactly one mode is active at a time.
#[derive(Clone, Copy, Debug, PartialEq, Eq, Structural)]
pub enum GameMode {
    Menu,
    Playing,
    GameOver,
    Pause,
    Quit,
}

/// The keys the game recognizes; every other key is a no-op.
#[derive(Clone, Copy, Debug, PartialEq, Eq, Structural)]
pub enum Key {
    P,
    Q,
    R,
    Space,
    Escape,
}

#[derive(Clone, Copy, Debug, PartialEq, Eq, Structural)]
pub struct State {
    pub player: Player,
    /// Milliseconds accumulated toward the next physics tick.
    pub frame_time: i32,
    /// The obstacle the player reaches next.
    pub obstacle_near: Obstacle,
    /// The obstacle already spawned further right.
    pub obstacle_far: Obstacle,
    pub mode: GameMode,
    /// Obstacles cleared this run.
    pub score: i32,
}

impl State {
    /// Well-formedness, preserved by every tick: the player sits at the fixed
    /// column with a bounded velocity and a non-negative row, both obstacles
    /// are well formed, the near obstacle has not passed the player, the far
    /// obstacle trails the near one by a bounded positive distance, the
    /// accumulator sits below its threshold, and the score is non-negative.
    pub open spec fn wf(self) -> bool {
        &&& self.player.wf()
        &&& self.player.x == PLAYER_X
        &&& self.obstacle_near.wf()
        &&& self.obstacle_far.wf()
        &&& self.obstacle_near.x >= PLAYER_X
        &&& 2 <= self.obstacle_far.x - self.obstacle_near.x <= SCREEN_WIDTH - 6
        &&& 0 <= self.frame_time <= FRAME_DURATION_MS
        &&& 0 <= self.score
    }

    /// A fresh game: menu mode, zero score, the player at the start position,
    /// the near obstacle at the right edge and the far one half a screen
    /// beyond it.
    pub fn new() -> (r: State)
        ensures
            r.wf(),
            r.mode is Menu,
            reset_fields(r),
    {
        State {
            player: Player::new(PLAYER_X, PLAYER_START_Y),
            frame_time: 0,
            obstacle_near: Obstacle::new(SCREEN_WIDTH, 0),
            obstacle_far: Obstacle::new(SCREEN_WIDTH + SCREEN_WIDTH / 2, 0),
            mode: GameMode::Menu,
            score: 0,
        }
    }

    /// A full reset of the run: player, accumulator, obstacles and score go
    /// back to their start values; the mode stays what it was.
    pub fn clean_state(&mut self)
        ensures
            reset_fields(*final(self)),
            final(self).mode == old(self).mode,
            final(self).wf(),
    {
        self.player = Player::new(PLAYER_X, PLAYER_START_Y);
        self.frame_time = 0;
        self.obstacle_near = Obstacle::new(SCREEN_WIDTH, 0);
        self.obstacle_far = Obstacle::new(SCREEN_WIDTH + SCREEN_WIDTH / 2, 0);
        self.score = 0;
    }

    /// A full reset followed by the jump into play.
    pub fn restart(&mut self)
        ensures
            reset_fields(*final(self)),
            final(self).mode is Playing,
            final(self).wf(),
    {
        self.clean_state();
        self.mode = GameMode::Playing;
    }

    /// One tick in the menu: P starts a run, Q asks to quit, any other key —
    /// or none — changes nothing. The run state is untouched either way.
    pub fn menu(&mut self, key: Option<Key>)
        ensures
            menu_rel(*old(self), key, *final(self)),
            old(self).wf() ==> final(self).wf(),
    {
        match key {
            Some(Key::P) => {
                self.mode = GameMode::Playing;
            },
            Some(Key::Q) => {
                self.mode = GameMode::Quit;
            },
            _ => {},
        }
    }

    /// One tick after death: R resets the run and plays again, Q resets it
    /// and returns to the menu, any other key changes nothing.
    pub fn dead(&mut self, key: Option<Key>)
        ensures
            dead_rel(*old(self), key, *final(self)),
            old(self).wf() ==> final(self).wf(),
            (key == Some(Key::R) || key == Some(Key::Q)) ==> final(self).wf(),
    {
        match key {
            Some(Key::R) => {
                self.restart();
            },
            Some(Key::Q) => {
                self.clean_state();
                self.mode = GameMode::Menu;
            },
            _ => {},
        }
    }

    /// One paused tick: Space resumes exactly where the run left off, Q
    /// resets the run and returns to the menu, any other key changes nothing.
    pub fn pause(&mut self, key: Option<Key>)
        ensures
            pause_rel(*old(self), key, *final(self)),
            old(self).wf() ==> final(self).wf(),
            key == Some(Key::Q) ==> final(self).wf(),
    {
        match key {
            Some(Key::Space) => {
                self.mode = GameMode::Playing;
            },
            Some(Key::Q) => {
                self.clean_state();
                self.mode = GameMode::Menu;
            },
            _ => {},
        }
    }

    /// One playing tick, as `play_rel` states it: accumulate time, fire at
    /// most one physics tick, handle Space and Escape, end the run on a miss,
    /// scroll both obstacles, and cycle them when the near one is passed.
    pub fn play(&mut self, key: Option<Key>, elapsed_ms: i32)
        requires
            old(self).wf(),
            0 <= elapsed_ms <= i32::MAX - FRAME_DURATION_MS,
            old(self).player.y <= i32::MAX - 2,
            old(self).score < i32::MAX,
        ensures
            final(self).wf(),
            play_rel(*old(self), key, elapsed_ms as int, *final(self)),
    {
        self.frame_time = self.frame_time + elapsed_ms;
        if self.frame_time > FRAME_DURATION_MS {
            self.frame_time = 0;
            self.player.gravity_and_move();
        }
        match key {
            Some(Key::Space) => {
                self.player.flap();
            },
            Some(Key::Escape) => {
                self.mode = GameMode::Pause;
            },
            _ => {},
        }
        if self.player.y > SCREEN_HEIGHT || self.obstacle_near.hit_obstacle(&self.player) {
            self.mode = GameMode::GameOver;
        }
        self.obstacle_near.advance();
        self.obstacle_far.advance();
        if self.player.x > self.obstacle_near.x {
            self.obstacle_near = self.obstacle_far;
            self.obstacle_far = Obstacle::new(SCREEN_WIDTH, self.score);
            self.score = self.score + 1;
        }
    }

    /// One driver tick: the current mode picks the behavior, and the result
    /// says whether the driver should stop its loop.
    pub fn tick(&mut self, key: Option<Key>, elapsed_ms: i32) -> (quit: bool)
        requires
            old(self).wf(),
            0 <= elapsed_ms <= i32::MAX - FRAME_DURATION_MS,
            old(self).player.y <= i32::MAX - 2,
            old(self).score < i32::MAX,
        ensures
            final(self).wf(),
            tick_rel(*old(self), key, elapsed_ms as int, *final(self), quit),
    {
        match self.mode {
            GameMode::Menu => {
                self.menu(key);
                false
            },
            GameMode::Playing => {
                self.play(key, elapsed_ms);
                false
            },
            GameMode::GameOver => {
                self.dead(key);
                false
            },
            GameMode::Pause => {
                self.pause(key);
                false
            },
            GameMode::Quit => true,
        }
    }
}

/// The mode after one menu tick with key `key`: play on P, quit on Q,
/// anything else changes nothing.
pub open spec fn menu_mode_after(m: GameMode, key: Option<Key>) -> GameMode {
    if key == Some(Key::P) {
        GameMode::Playing
    } else if key == Some(Key::Q) {
        GameMode::Quit
    } else {
        m
    }
}

/// The mode after one game-over tick: restart on R, back to the menu on Q,
/// anything else changes nothing.
pub open spec fn dead_mode_after(m: GameMode, key: Option<Key>) -> GameMode {
    if key == Some(Key::R) {
        GameMode::Playing
    } else if key == Some(Key::Q) {
        GameMode::Menu
    } else {
        m
    }
}

/// The mode after one paused tick: resume on Space, back to the menu on Q,
/// anything else changes nothing.
pub open spec fn pause_mode_after(m: GameMode, key: Option<Key>) -> GameMode {
    if key == Some(Key::Space) {
        GameMode::Playing
    } else if key == Some(Key::Q) {
        GameMode::Menu
    } else {
        m
    }
}

/// Everything but the mode is identical between `a` and `b`.
pub open spec fn same_fields_except_mode(a: State, b: State) -> bool {
    &&& b.player == a.player
    &&& b.frame_time == a.frame_time
    &&& b.obstacle_near == a.obstacle_near
    &&& b.obstacle_far == a.obstacle_far
    &&& b.score == a.score
}

/// What one menu tick does: the key may change the mode, nothing else moves.
pub open spec fn menu_rel(pre: State, key: Option<Key>, post: State) -> bool {
    &&& post.mode == menu_mode_after(pre.mode, key)
    &&& same_fields_except_mode(pre, post)
}

/// What one game-over tick does: R and Q fully reset the run, anything else
/// changes nothing.
pub open spec fn dead_rel(pre: State, key: Option<Key>, post: State) -> bool {
    &&& post.mode == dead_mode_after(pre.mode, key)
    &&& if key == Some(Key::R) || key == Some(Key::Q) {
        reset_fields(post)
    } else {
        same_fields_except_mode(pre, post)
    }
}

/// What one paused tick does: Q fully resets the run, Space resumes with the
/// run untouched, anything else changes nothing.
pub open spec fn pause_rel(pre: State, key: Option<Key>, post: State) -> bool {
    &&& post.mode == pause_mode_after(pre.mode, key)
    &&& if key == Some(Key::Q) {
        reset_fields(post)
    } else {
        same_fields_except_mode(pre, post)
    }
}

/// Whether the accumulated frame time crosses the threshold this tick, so
/// that exactly one physics tick fires.
pub open spec fn play_fires(pre: State, ms: int) -> bool {
    pre.frame_time + ms > FRAME_DURATION_MS
}

/// The player's row after one playing tick: moved by one physics tick if the
/// accumulator fired, otherwise unchanged.
pub open spec fn play_y_after(pre: State, ms: int) -> int {
    if play_fires(pre, ms) {
        grav_y(pre.player.y as int, pre.player.velocity_halves as int)
    } else {
        pre.player.y as int
    }
}

/// Whether this playing tick ends the run: the player leaves the screen
/// below, or collides with the near obstacle at its pre-scroll column.
pub open spec fn run_ends(pre: State, ms: int) -> bool {
    let y1 = play_y_after(pre, ms);
    ||| y1 > SCREEN_HEIGHT
    ||| spec_hits(pre.obstacle_near, pre.player.x as int, y1)
}

/// Whether this playing tick cycles the obstacles: after scrolling, the near
/// obstacle has fallen behind the player's column.
pub open spec fn play_cycles(pre: State) -> bool {
    pre.player.x > pre.obstacle_near.x - 1
}

/// What one playing tick does. The accumulator grows by the elapsed time and
/// fires at most one physics tick; Space flaps after gravity and Escape asks
/// for a pause; the run ends if the player is off screen or hits the near
/// obstacle; both obstacles scroll one column; and when the near one falls
/// behind the player, the far one takes its place, a fresh obstacle spawns at
/// the right edge from the current score, and the score counts one more.
pub open spec fn play_rel(pre: State, key: Option<Key>, ms: int, post: State) -> bool {
    let fires = play_fires(pre, ms);
    let y1 = play_y_after(pre, ms);
    let vel1 = if fires {
        grav_vel(pre.player.velocity_halves as int)
    } else {
        pre.player.velocity_halves as int
    };
    let vel2 = if key == Some(Key::Space) {
        FLAP_VELOCITY_HALVES as int
    } else {
        vel1
    };
    &&& post.frame_time == if fires {
        0int
    } else {
        pre.frame_time + ms
    }
    &&& post.player.x == pre.player.x
    &&& post.player.y == y1
    &&& post.player.velocity_halves == vel2
    &&& post.mode == (if run_ends(pre, ms) {
        GameMode::GameOver
    } else if key == Some(Key::Escape) {
        GameMode::Pause
    } else {
        pre.mode
    })
    &&& (play_cycles(pre) ==> {
        &&& post.obstacle_near.x == pre.obstacle_far.x - 1
        &&& post.obstacle_near.gap_y == pre.obstacle_far.gap_y
        &&& post.obstacle_near.size == pre.obstacle_far.size
        &&& post.obstacle_far.x == SCREEN_WIDTH
        &&& post.obstacle_far.size == spec_obstacle_size(pre.score as int)
        &&& post.obstacle_far.wf()
        &&& post.score == pre.score + 1
    })
    &&& (!play_cycles(pre) ==> {
        &&& post.obstacle_near.x == pre.obstacle_near.x - 1
        &&& post.obstacle_near.gap_y == pre.obstacle_near.gap_y
        &&& post.obstacle_near.size == pre.obstacle_near.size
        &&& post.obstacle_far.x == pre.obstacle_far.x - 1
        &&& post.obstacle_far.gap_y == pre.obstacle_far.gap_y
        &&& post.obstacle_far.size == pre.obstacle_far.size
        &&& post.score == pre.score
    })
}

/// What one tick does, whatever the mode: the current mode picks the
/// behavior, and the tick reports whether the program should stop.
pub open spec fn tick_rel(
    pre: State,
    key: Option<Key>,
    ms: int,
    post: State,
    quit: bool,
) -> bool {
    &&& quit == (pre.mode is Quit)
    &&& match pre.mode {
        GameMode::Menu => menu_rel(pre, key, post),
        GameMode::Playing => play_rel(pre, key, ms, post),
        GameMode::GameOver => dead_rel(pre, key, post),
        GameMode::Pause => pause_rel(pre, key, post),
        GameMode::Quit => post == pre,
    }
}

/// The (mode, key) pairs the mode machine reacts to; every other pair is a
/// no-op for the mode.
pub open spec fn key_listed(m: GameMode, key: Option<Key>) -> bool {
    match m {
        GameMode::Menu => key == Some(Key::P) || key == Some(Key::Q),
        GameMode::Playing => key == Some(Key::Space) || key == Some(Key::Escape),
        GameMode::GameOver => key == Some(Key::R) || key == Some(Key::Q),
        GameMode::Pause => key == Some(Key::Space) || key == Some(Key::Q),
        GameMode::Quit => false,
    }
}

/// The transition table is total: a key the current mode does not react to —
/// or no key at all — leaves the mode unchanged after one tick. The one
/// carve-out is a playing tick on which the run ends by itself, which no key
/// causes and none prevents.
pub proof fn lemma_unlisted_key_preserves_mode(
    pre: State,
    key: Option<Key>,
    ms: int,
    post: State,
    quit: bool,
)
    requires
        tick_rel(pre, key, ms, post, quit),
        !key_listed(pre.mode, key),
        pre.mode is Playing ==> !run_ends(pre, ms),
    ensures
        post.mode == pre.mode,
{
}

/// Resetting the run twice in a row yields the same observable state as
/// resetting it once: the same player, score, accumulator, and obstacle
/// columns and gap heights. Only the gap centers are drawn anew each time.
pub proof fn lemma_reset_idempotent(s0: State, s1: State, s2: State)
    requires
        reset_fields(s1),
        s1.mode == s0.mode,
        reset_fields(s2),
        s2.mode == s1.mode,
    ensures
        s2.mode == s0.mode,
        s2.player == s1.player,
        s2.frame_time == s1.frame_time,
        s2.score == s1.score,
        s2.obstacle_near.x == s1.obstacle_near.x,
        s2.obstacle_near.size == s1.obstacle_near.size,
        s2.obstacle_far.x == s1.obstacle_far.x,
        s2.obstacle_far.size == s1.obstacle_far.size,
{
}

/// Everything a full reset pins down: the player back at the start at rest,
/// accumulator and score cleared, and a fresh obstacle pair at the initial
/// columns with the score-zero gap height. The gap centers stay random.
pub open spec fn reset_fields(s: State) -> bool {
    &&& s.player.x == PLAYER_X
    &&& s.player.y == PLAYER_START_Y
    &&& s.player.velocity_halves == 0
    &&& s.frame_time == 0
    &&& s.score == 0
    &&& s.obstacle_near.x == SCREEN_WIDTH
    &&& s.obstacle_near.size == 20
    &&& s.obstacle_near.wf()
    &&& s.obstacle_far.x == SCREEN_WIDTH + SCREEN_WIDTH / 2
    &&& s.obstacle_far.size == 20
    &&& s.obstacle_far.wf()
}

} // verus!
