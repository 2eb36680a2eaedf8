//! A monophonic envelope-driven voice engine: multi-stage envelopes made of
//! curve points, the generators that walk them, and the note state machine
//! that triggers and releases them.
//!
//! Times are whole microseconds; envelope values and curve biases are fixed
//! point, with `UNIT` standing for 1.0.

use vstd::prelude::*;

pub mod curve;
pub mod envelope;
pub mod extensions;
pub mod shape;
pub mod voice;
pub mod zoom;

verus! {

/// Fixed-point scale of envelope values, positions and curve biases.
pub const UNIT: u32 = 1_000_000;

} // verus!
