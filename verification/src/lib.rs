//! Timing engine for animating a value change as an *out* segment (the prior
//! value leaves) followed by an *in* segment (the new value arrives).
//!
//! The crate models time as integer ticks and progress as an exact fraction,
//! so that segment selection, local progress, and the per-identity driver
//! state machine carry full functional contracts. Effect callbacks are held
//! opaquely by the data model and run by the embedding GUI layer.

pub mod anim;
pub mod driver;
pub mod progress;
