//! Procedural "wiggle" motion: the steerable speed and center of the
//! wander, and the discrete decisions of its per-frame step — which way
//! the held keys shift the center and how they scale the elapsed time
//! before it joins the time accumulator.
//!
//! The wander offset itself is a closed-form function of the accumulated
//! time built from sines and cosines; evaluating it is the render glue's
//! part and happens outside the library.

use vstd::prelude::*;

verus! {

/// How the elapsed time of one frame is scaled before it is accumulated.
#[derive(Clone, Copy, PartialEq, Eq, Structural, Debug)]
pub enum TimeScale {
    /// Neither Up nor Down held: the elapsed time counts as it is.
    Normal,
    /// Up held: the elapsed time counts double.
    Doubled,
    /// Down held: the elapsed time counts half.
    Halved,
}

/// The time scale chosen from the held keys; when Up and Down are held
/// together, Down wins the tie.
pub open spec fn chosen_time_scale(up: bool, down: bool) -> TimeScale {
    if down {
        TimeScale::Halved
    } else if up {
        TimeScale::Doubled
    } else {
        TimeScale::Normal
    }
}

/// Which way the wander center moves this frame, in steps of the current
/// speed: Left and Right each contribute their side and cancel when held
/// together.
pub open spec fn chosen_center_shift(left: bool, right: bool) -> int {
    (if left {
        -1int
    } else {
        0int
    }) + (if right {
        1int
    } else {
        0int
    })
}

/// Pick the time scale for one frame from the held state of Up and Down.
pub fn time_scale(up: bool, down: bool) -> (r: TimeScale)
    ensures
        r == chosen_time_scale(up, down),
        down ==> r == TimeScale::Halved,
{
    if down {
        TimeScale::Halved
    } else if up {
        TimeScale::Doubled
    } else {
        TimeScale::Normal
    }
}

/// Pick the direction of the wander center's shift for one frame from
/// the held state of Left and Right: -1, 0 or 1 speed steps.
pub fn center_shift(left: bool, right: bool) -> (r: i64)
    ensures
        r as int == chosen_center_shift(left, right),
        -1 <= r <= 1,
{
    let mut shift: i64 = 0;
    if left {
        shift = shift - 1;
    }
    if right {
        shift = shift + 1;
    }
    shift
}

/// Speed the wander steers with while Turbo has never been held, and
/// the value it falls back to the moment Turbo is released.
pub const BASE_SPEED: i64 = 5;

/// How much every frame with Turbo held adds to the steering speed.
pub const TURBO_INCREMENT: i64 = 1;

/// The steering speed after one frame: it grows without cap while Turbo
/// is held and snaps back to the base value on release.
pub open spec fn stepped_speed(speed: int, turbo: bool) -> int {
    if turbo {
        speed + TURBO_INCREMENT as int
    } else {
        BASE_SPEED as int
    }
}

/// The wander center after one frame: shifted sideways by the frame's
/// speed, in the direction Left and Right pick.
pub open spec fn stepped_center(center: int, left: bool, right: bool, speed: int) -> int {
    center + chosen_center_shift(left, right) * speed
}

/// The steerable part of the wander: the speed scalar and the center
/// the closed-form offset swings around.  The time accumulator and the
/// offset itself are elapsed-time arithmetic and stay with the render
/// glue.
pub struct Wander {
    pub speed: i64,
    pub center_x: i64,
}

impl Wander {
    /// The speed never falls below its base value: it is only ever
    /// reset to the base or pushed further up.
    pub open spec fn wf(self) -> bool {
        self.speed >= BASE_SPEED
    }

    /// A wander starts centered with the base speed.
    pub fn new() -> (r: Wander)
        ensures
            r.speed == BASE_SPEED,
            r.center_x == 0,
            r.wf(),
    {
        Wander { speed: BASE_SPEED, center_x: 0 }
    }

    /// Advance the speed and the center by one frame from the held
    /// state of the steering keys.
    ///
    /// The bounds on the old state only keep the uncapped speed and the
    /// shifted center inside the machine range.
    pub fn step(&mut self, left: bool, right: bool, turbo: bool)
        requires
            old(self).wf(),
            old(self).speed + TURBO_INCREMENT <= i64::MAX,
            old(self).center_x + old(self).speed + TURBO_INCREMENT <= i64::MAX,
            old(self).center_x - old(self).speed - TURBO_INCREMENT >= i64::MIN,
        ensures
            final(self).speed == stepped_speed(old(self).speed as int, turbo),
            final(self).center_x == stepped_center(
                old(self).center_x as int,
                left,
                right,
                final(self).speed as int,
            ),
            final(self).wf(),
    {
        if turbo {
            self.speed = self.speed + TURBO_INCREMENT;
        } else {
            self.speed = BASE_SPEED;
        }

        if left && !right {
            self.center_x = self.center_x - self.speed;
        } else if right && !left {
            self.center_x = self.center_x + self.speed;
        }

        proof {
            let s = self.speed as int;
            if left && !right {
                assert(chosen_center_shift(left, right) * s == (-1int) * s);
            } else if right && !left {
                assert(chosen_center_shift(left, right) * s == 1int * s);
            } else {
                assert(chosen_center_shift(left, right) * s == 0int * s);
            }
        }
    }
}

} // verus!
