//! Synthesis of `Debug` formatting procedures with per-field and per-variant
//! annotations, and the text those procedures produce.
pub mod laws;
pub mod model;
pub mod render;
pub mod synth;

pub use synth::{debug_extras, debug_extras_impl};
