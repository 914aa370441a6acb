use vstd::prelude::*;

verus! {

/// Heights and velocities are counted in fifths of a cell, which makes the
/// gravity increment of 0.2 cells per step exact.
pub const SUBCELLS: i64 = 5;

/// Velocity gained per simulation step while falling slower than the cap.
pub const GRAVITY: i64 = 1;

/// Gravity stops adding once the velocity reaches this (2.0 cells per step).
pub const MAX_FALL_SPEED: i64 = 10;

/// Velocity removed by a flap (2.0 cells per step).
pub const FLAP_IMPULSE: i64 = 10;

/// Length of the player's animation cycle.
pub const ANIMATION_FRAMES: usize = 6;

/// The glider: a fixed horizontal lane, a height measured downwards from the
/// top row (in fifths of a cell), a velocity (positive means falling) and an
/// animation frame.
#[derive(Clone, Copy, Debug, PartialEq, Eq, Structural)]
pub struct Player {
    pub x: i32,
    pub y: i64,
    pub velocity: i64,
    pub frame: usize,
}

/// Velocity after gravity has been applied for one step.
pub open spec fn accelerated(v: int) -> int {
    if v < MAX_FALL_SPEED {
        v + GRAVITY
    } else {
        v
    }
}

impl Player {
    /// The player never rises above the top row, its velocity stays within
    /// one impulse upward and the fall cap downward, and the frame indexes the
    /// animation cycle.
    pub open spec fn wf(self) -> bool {
        &&& self.y >= 0
        &&& -FLAP_IMPULSE <= self.velocity <= MAX_FALL_SPEED
        &&& self.frame < ANIMATION_FRAMES
    }

    /// The player after one simulation step.
    pub open spec fn moved(self) -> Player {
        let v = accelerated(self.velocity as int);
        let y = self.y + v;
        Player {
            x: self.x,
            y: if y < 0 { 0 } else { y as i64 },
            velocity: v as i64,
            frame: ((self.frame + 1) % (ANIMATION_FRAMES as int)) as usize,
        }
    }

    /// The player after a flap: only a falling player is slowed.
    pub open spec fn flapped(self) -> Player {
        Player {
            velocity: if self.velocity > 0 {
                (self.velocity - FLAP_IMPULSE) as i64
            } else {
                self.velocity
            },
            ..self
        }
    }

    /// A resting player in lane `x`, `y` cells below the top row.
    pub fn new(x: i32, y: i32) -> (p: Player)
        requires
            y >= 0,
        ensures
            p.x == x,
            p.y == y * SUBCELLS,
            p.velocity == 0,
            p.frame == 0,
            p.wf(),
    {
        Player { x, y: y as i64 * SUBCELLS, velocity: 0, frame: 0 }
    }

    /// One simulation step: gravity, integration, the top-row floor, and the
    /// next animation frame.
    pub fn gravity_and_move(&mut self)
        requires
            old(self).wf(),
            old(self).y <= i64::MAX - MAX_FALL_SPEED,
        ensures
            *final(self) == old(self).moved(),
            final(self).wf(),
    {
        if self.velocity < MAX_FALL_SPEED {
            self.velocity = self.velocity + GRAVITY;
        }
        self.y = self.y + self.velocity;
        if self.y < 0 {
            self.y = 0;
        }
        self.frame = (self.frame + 1) % ANIMATION_FRAMES;
    }

    /// The jump command: takes one impulse off a falling player's velocity.
    pub fn flap(&mut self)
        requires
            old(self).wf(),
        ensures
            *final(self) == old(self).flapped(),
            final(self).wf(),
    {
        if self.velocity > 0 {
            self.velocity = self.velocity - FLAP_IMPULSE;
        }
    }

    /// Height in whole cells below the top row.
    pub fn row(&self) -> (r: i64)
        requires
            self.y >= 0,
        ensures
            r == self.y / SUBCELLS,
    {
        self.y / SUBCELLS
    }
}

/// Gravity alone never takes the velocity past the fall cap, and never lowers
/// it; a flap never raises it.
pub proof fn lemma_velocity_capped(p: Player)
    requires
        p.velocity <= MAX_FALL_SPEED,
    ensures
        p.moved().velocity <= MAX_FALL_SPEED,
        p.moved().velocity >= p.velocity,
        p.flapped().velocity <= p.velocity,
{
}

/// Whatever the state before, a step leaves the player at or below the top
/// row (as long as the new height is representable), and a flap does not
/// move it.
pub proof fn lemma_height_never_negative(p: Player)
    requires
        p.y + accelerated(p.velocity as int) <= i64::MAX,
    ensures
        p.moved().y >= 0,
        p.flapped().y == p.y,
{
}

} // verus!
