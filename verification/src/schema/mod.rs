//! Schemas: the model, its validation and the SQL plans generated from it.

pub mod apply;
pub mod model;
pub mod plan;
pub mod validate;
