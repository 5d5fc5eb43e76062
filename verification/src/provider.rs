//! Provider-facing descriptors (data) and strategies (behavior).

pub mod descriptor;
pub mod strategy;
