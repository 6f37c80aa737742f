use vstd::prelude::*;

use crate::engine::Engine;
use crate::paths::FsPath;

verus! {

/// What to provision.
#[derive(Debug)]
pub struct InstanceSpec {
    pub engine: Engine,
    pub sqlite: Option<SqliteSpec>,
    pub postgres: Option<PostgresSpec>,
}

/// Options of a SQLite instance.
#[derive(Debug)]
pub struct SqliteSpec {
    /// The database file; when absent, dbnest manages a file itself.
    pub path: Option<FsPath>,
}

/// Options of a PostgreSQL instance.
#[derive(Debug)]
pub struct PostgresSpec {
    pub user: String,
    pub password: String,
    pub db: String,
    pub image: Option<String>,
}

/// A provisioned database instance, as the registry records it.
///
/// `created_at` is the creation instant in nanoseconds since the Unix epoch.
#[derive(Debug)]
pub struct Instance {
    pub id: String,
    pub engine: Engine,
    pub backend: Backend,
    pub created_at: i128,
    pub connection: ConnectionInfo,
    pub sqlite: Option<SqliteInfo>,
    pub container: Option<ContainerInfo>,
}

/// How an instance runs.
#[derive(Clone, Copy, Debug, PartialEq, Eq, Structural)]
pub enum Backend {
    Embedded,
    Container,
}

/// How to connect to an instance.
#[derive(Debug)]
pub struct ConnectionInfo {
    pub database_url: String,
    pub host: Option<String>,
    pub port: Option<u16>,
    pub database: Option<String>,
    pub user: Option<String>,
}

/// Where a SQLite instance keeps its data.
#[derive(Debug)]
pub struct SqliteInfo {
    /// Absolute path of the database file.
    pub path: FsPath,
    /// True if the file is managed by dbnest and can be deleted on rm.
    pub managed: bool,
}

/// The container a PostgreSQL instance runs in.
#[derive(Debug)]
pub struct ContainerInfo {
    pub runtime: String,
    pub container_id: String,
    pub image: String,
}

/// One line of the instance listing.
#[derive(Debug)]
pub struct InstanceSummary {
    pub id: String,
    pub engine: Engine,
    pub backend: Backend,
    pub created_at: i128,
    pub database_url: String,
    pub status: Status,
}

/// The status shown in the instance listing.
#[derive(Clone, Copy, Debug, PartialEq, Eq, Structural)]
pub enum Status {
    Running,
    Stopped,
    Unknown,
}

/// Whether `s` is the summary of `inst` with status `status`.
pub open spec fn summarizes(s: InstanceSummary, inst: Instance, status: Status) -> bool {
    &&& s.id@ == inst.id@
    &&& s.engine == inst.engine
    &&& s.backend == inst.backend
    &&& s.created_at == inst.created_at
    &&& s.database_url@ == inst.connection.database_url@
    &&& s.status == status
}

impl Instance {
    /// The instance's line in the listing, with status `Unknown`.
    pub fn summary(&self) -> (s: InstanceSummary)
        ensures
            summarizes(s, *self, Status::Unknown),
    {
        InstanceSummary {
            id: self.id.clone(),
            engine: self.engine,
            backend: self.backend,
            created_at: self.created_at,
            database_url: self.connection.database_url.clone(),
            status: Status::Unknown,
        }
    }
}

} // verus!
