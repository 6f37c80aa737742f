//! dbnest: cozy local databases in seconds.
//!
//! The verified core of the `dbnest` tool: the engine and instance model,
//! schema validation, SQL planning, the instance registry's ordering, status
//! decisions and the helpers that build connection URLs and docker commands.

pub mod engine;
pub mod text;
pub mod error;
pub mod schema;
pub mod paths;
pub mod instance;
pub mod ids;
pub mod runtime;
pub mod sqlite;
pub mod instance_ops;
pub mod cli;

pub use engine::Engine;
pub use error::{DbnestError, Result};
pub use instance::model::{
    Backend, ConnectionInfo, ContainerInfo, Instance, InstanceSpec, InstanceSummary, PostgresSpec,
    SqliteInfo, SqliteSpec, Status,
};
pub use instance::registry::Registry;
pub use instance::status::{InstanceStatus, InstanceStatusReport};
pub use instance_ops::stop_instance;
