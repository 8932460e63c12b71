//! Input, motion and frame-synchronization core of a small interactive
//! canvas client.
//!
//! The library tracks which control keys are currently held, advances a
//! per-frame motion model from that set, and decides when the drawing
//! surface has to be resized.  The event and rendering plumbing around it
//! lives outside the library and exchanges plain values with it.

pub mod keyboard;
pub mod player;
pub mod surface;
pub mod wiggle;
