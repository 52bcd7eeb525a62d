//! Per-frame character simulation for a 2D platformer.
//!
//! The crate turns discrete player intent (movement axis, jump/run requests)
//! into physical motion, derives an animation state from that motion, advances
//! a repeating frame timer, and resolves the current state to a renderable
//! visual. All quantities are fixed-point integers:
//!
//! * intent components are thousandths of a unit vector (per-mille),
//! * speeds are thousandths of a world unit per second (milli-units/s),
//! * velocities are millionths of a world unit per second (micro-units/s),
//! * positions are billionths of a world unit (nano-units),
//! * durations are whole milliseconds.
//!
//! With these scales every step of the simulation is exact integer
//! arithmetic: a velocity is an intent times a speed, and a position delta is
//! a velocity times a millisecond count.

pub mod animation;
pub mod laws;
pub mod movement;
pub mod pipeline;
pub mod player;
pub mod sprite;
