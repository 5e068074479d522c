//! Verified core of a 2D mesh renderer: pipeline keys, pipeline
//! specialization, per-frame extraction, uniform aggregation, bind group
//! assembly and the draw command sequence, all over plain values.

pub mod assets;
pub mod bind_group;
pub mod draw;
pub mod extract;
pub mod gpu;
pub mod key;
pub mod pipeline;
pub mod specialized;
pub mod uniform;
