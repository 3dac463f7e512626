//! Resolution of `name:type` field lists into schema descriptors for model
//! generation, and the step-by-step plan that drives rendering and the build.

pub mod schema_type;
pub mod resolve;
pub mod generation;
