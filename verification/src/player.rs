//! Physical motion, one step per display frame: horizontal velocity is
//! rebuilt from the held keys, a latched jump sets the vertical launch
//! speed, and a fixed gravity pull is applied every frame.
//!
//! Velocities are whole numbers of units per nominal frame: the step
//! only ever adds the constants below, so no fractional value can arise.
//! Scaling the resulting velocity by the elapsed time to move the drawn
//! position is the render glue's part and happens outside the library.

use vstd::prelude::*;

verus! {

/// Horizontal speed contributed by a held Left or Right key.
pub const RUN_SPEED: i64 = 15;

/// Vertical speed at the moment a jump launches.
pub const JUMP_SPEED: i64 = 100;

/// Downward pull applied to the vertical velocity on every frame.
pub const GRAVITY: i64 = 3;

/// Horizontal velocity after a step: Left and Right each contribute
/// their side, both held cancel out, none held gives zero.
pub open spec fn stepped_velocity_x(left: bool, right: bool) -> int {
    (if left {
        -RUN_SPEED as int
    } else {
        0
    }) + (if right {
        RUN_SPEED as int
    } else {
        0
    })
}

/// Whether a step launches a jump: Up must be held while the latch is
/// still set.
pub open spec fn jump_launched(up: bool, can_jump: bool) -> bool {
    up && can_jump
}

/// Vertical velocity after a step: the launch speed replaces the old
/// velocity when a jump fires, and gravity is subtracted either way.
pub open spec fn stepped_velocity_y(vy: int, up: bool, can_jump: bool) -> int {
    (if jump_launched(up, can_jump) {
        JUMP_SPEED as int
    } else {
        vy
    }) - GRAVITY as int
}

/// The jump latch after a step: cleared by a launch, left cleared while
/// Up stays held, and re-armed only once Up is released.
pub open spec fn stepped_can_jump(up: bool, can_jump: bool) -> bool {
    if up {
        if can_jump {
            false
        } else {
            can_jump
        }
    } else {
        true
    }
}

/// The per-frame motion state: current velocity and the jump latch.
pub struct Player {
    pub velocity_x: i64,
    pub velocity_y: i64,
    pub can_jump: bool,
}

impl Player {
    /// A player starts at rest with the jump armed.
    pub fn new() -> (r: Player)
        ensures
            r.velocity_x == 0,
            r.velocity_y == 0,
            r.can_jump,
    {
        Player { velocity_x: 0, velocity_y: 0, can_jump: true }
    }

    /// Advance the velocity and the jump latch by one frame, from the
    /// held state of the three control keys.
    ///
    /// The lower bound on the old vertical velocity only keeps the
    /// gravity subtraction inside the machine range.
    pub fn step(&mut self, left: bool, right: bool, up: bool)
        requires
            old(self).velocity_y >= i64::MIN + GRAVITY,
        ensures
            final(self).velocity_x == stepped_velocity_x(left, right),
            final(self).velocity_y == stepped_velocity_y(
                old(self).velocity_y as int,
                up,
                old(self).can_jump,
            ),
            final(self).can_jump == stepped_can_jump(up, old(self).can_jump),
    {
        let mut d_velocity_x: i64 = 0;
        if left {
            d_velocity_x = d_velocity_x - RUN_SPEED;
        }
        if right {
            d_velocity_x = d_velocity_x + RUN_SPEED;
        }
        self.velocity_x = d_velocity_x;

        if up {
            if self.can_jump {
                self.can_jump = false;
                self.velocity_y = JUMP_SPEED;
            }
        } else {
            self.can_jump = true;
        }

        self.velocity_y = self.velocity_y - GRAVITY;
    }
}

/// With no keys held, one step zeroes the horizontal velocity and lowers
/// the vertical velocity by exactly the gravity constant.
pub proof fn lemma_idle_step(vy: int, can_jump: bool)
    ensures
        stepped_velocity_x(false, false) == 0,
        stepped_velocity_y(vy, false, can_jump) == vy - GRAVITY,
        stepped_can_jump(false, can_jump),
{
}

/// The jump latch over three frames: a first frame with Up held and the
/// latch set launches at the fixed speed and clears the latch; a second
/// frame with Up still held cannot launch again; a frame with Up
/// released re-arms the latch.
pub proof fn lemma_jump_latch(vy: int)
    ensures
        stepped_velocity_y(vy, true, true) == JUMP_SPEED - GRAVITY,
        !stepped_can_jump(true, true),
        stepped_velocity_y(
            stepped_velocity_y(vy, true, true),
            true,
            stepped_can_jump(true, true),
        ) == JUMP_SPEED - 2 * GRAVITY,
        !jump_launched(true, stepped_can_jump(true, true)),
        stepped_can_jump(false, stepped_can_jump(true, stepped_can_jump(true, true))),
{
}

} // verus!
