//! Instances: their model, the registry's ordering and their status.

pub mod model;
pub mod registry;
pub mod status;
