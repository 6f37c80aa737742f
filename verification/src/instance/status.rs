use vstd::prelude::*;

use crate::engine::Engine;
use crate::instance::model::Instance;
use crate::paths::FsPath;
use crate::text::str_eq;

verus! {

/// The health of an instance.
#[derive(Clone, Copy, Debug, PartialEq, Eq, Structural)]
pub enum InstanceStatus {
    Running,
    Stopped,
    Unhealthy,
    Missing,
    Unknown,
}

/// What a status report says besides the status.
#[derive(Debug)]
pub enum StatusDetails {
    /// A remark, such as that status checks are not available.
    Note(String),
    /// Why the status could not be determined.
    Error(String),
    /// The database file of a SQLite instance.
    SqliteFile { path: FsPath, file_exists: bool, managed: bool },
    /// Docker does not know the container.
    ContainerMissing { container_id: String },
    /// The container runs; whether the database answered.
    ContainerRunning { container_id: String, can_connect: bool },
    /// The container exists in another docker state.
    ContainerState { container_id: String, docker_state: String },
}

/// The status report of one instance.
#[derive(Debug)]
pub struct InstanceStatusReport {
    pub id: String,
    pub engine: Engine,
    pub status: InstanceStatus,
    pub details: StatusDetails,
}

/// What has to be observed outside to report the status of an instance.
#[derive(Debug)]
pub enum StatusProbe {
    /// Whether this file exists.
    FileExists(FsPath),
    /// The docker state of this container.
    DockerState(String),
    /// Nothing.
    Nothing,
}

/// Whether `r` reports on `inst` with `status`.
pub open spec fn reports(r: InstanceStatusReport, inst: Instance, status: InstanceStatus) -> bool {
    r.id@ == inst.id@ && r.engine == inst.engine && r.status == status
}

/// The status of a SQLite instance: without file information it is unknown,
/// otherwise running when its file exists and missing when it does not.
pub open spec fn sqlite_status_of(inst: Instance, file_exists: bool) -> InstanceStatus {
    if inst.sqlite is None {
        InstanceStatus::Unknown
    } else if file_exists {
        InstanceStatus::Running
    } else {
        InstanceStatus::Missing
    }
}

/// A SQLite instance with file information is running exactly when its file
/// exists and missing when it does not, whether or not dbnest manages the
/// file.
pub proof fn lemma_sqlite_status_by_file(inst: Instance, file_exists: bool, docker_state: Option<Seq<char>>, can_connect: bool)
    requires
        inst.engine == Engine::Sqlite,
        inst.sqlite is Some,
    ensures
        file_exists ==> status_of(inst, file_exists, docker_state, can_connect) == InstanceStatus::Running,
        !file_exists ==> status_of(inst, file_exists, docker_state, can_connect) == InstanceStatus::Missing,
        file_exists ==> sqlite_status_of(inst, file_exists) == InstanceStatus::Running,
        !file_exists ==> sqlite_status_of(inst, file_exists) == InstanceStatus::Missing,
{
}

/// Two SQLite instances with file information, whose files both exist or
/// both do not, get the same status: nothing else about them (the managed
/// flag, the path, the id) counts.
pub proof fn lemma_sqlite_status_ignores_managed(a: Instance, b: Instance, file_exists: bool)
    requires
        a.sqlite is Some,
        b.sqlite is Some,
    ensures
        sqlite_status_of(a, file_exists) == sqlite_status_of(b, file_exists),
{
}

/// The status of a PostgreSQL instance: without container information it is
/// unknown; a container docker does not know is missing; a running container
/// is running when the database answers and unhealthy when it does not; a
/// container in any other state is stopped.
pub open spec fn postgres_status_of(inst: Instance, docker_state: Option<Seq<char>>, can_connect: bool) -> InstanceStatus {
    if inst.container is None {
        InstanceStatus::Unknown
    } else {
        match docker_state {
            None => InstanceStatus::Missing,
            Some(s) => if s == "running"@ {
                if can_connect { InstanceStatus::Running } else { InstanceStatus::Unhealthy }
            } else {
                InstanceStatus::Stopped
            },
        }
    }
}

/// The status of any instance, from what was observed of it.
pub open spec fn status_of(inst: Instance, file_exists: bool, docker_state: Option<Seq<char>>, can_connect: bool) -> InstanceStatus {
    match inst.engine {
        Engine::Sqlite => sqlite_status_of(inst, file_exists),
        Engine::Postgres => postgres_status_of(inst, docker_state, can_connect),
        Engine::Mysql => InstanceStatus::Unknown,
    }
}

/// The character views of an optional string.
pub open spec fn opt_view(o: Option<String>) -> Option<Seq<char>> {
    match o {
        Some(s) => Some(s@),
        None => None,
    }
}

/// The details a SQLite report carries.
pub open spec fn sqlite_details_ok(d: StatusDetails, inst: Instance, file_exists: bool) -> bool {
    match inst.sqlite {
        None => d matches StatusDetails::Error(m) && m@ == "missing sqlite info"@,
        Some(info) => d matches StatusDetails::SqliteFile { path, file_exists: e, managed }
            && path@ == info.path@ && e == file_exists && managed == info.managed,
    }
}

/// The details a PostgreSQL report carries.
pub open spec fn postgres_details_ok(d: StatusDetails, inst: Instance, docker_state: Option<Seq<char>>, can_connect: bool) -> bool {
    match inst.container {
        None => d matches StatusDetails::Error(m) && m@ == "missing container info"@,
        Some(c) => match docker_state {
            None => d matches StatusDetails::ContainerMissing { container_id } && container_id@ == c.container_id@,
            Some(s) => if s == "running"@ {
                d matches StatusDetails::ContainerRunning { container_id, can_connect: cc }
                    && container_id@ == c.container_id@ && cc == can_connect
            } else {
                d matches StatusDetails::ContainerState { container_id, docker_state: ds }
                    && container_id@ == c.container_id@ && ds@ == s
            },
        },
    }
}

/// What must be observed to report on `inst`: the SQLite file of a SQLite
/// instance, the container of a PostgreSQL instance, else nothing.
pub fn status_probe(inst: &Instance) -> (p: StatusProbe)
    ensures
        inst.engine == Engine::Sqlite && inst.sqlite is Some ==> (p matches StatusProbe::FileExists(f)
            && f@ == inst.sqlite->0.path@),
        inst.engine == Engine::Postgres && inst.container is Some ==> (p matches StatusProbe::DockerState(c)
            && c@ == inst.container->0.container_id@),
        !(inst.engine == Engine::Sqlite && inst.sqlite is Some) && !(inst.engine == Engine::Postgres
            && inst.container is Some) ==> p is Nothing,
{
    match inst.engine {
        Engine::Sqlite => match &inst.sqlite {
            Some(info) => StatusProbe::FileExists(info.path.duplicate()),
            None => StatusProbe::Nothing,
        },
        Engine::Postgres => match &inst.container {
            Some(c) => StatusProbe::DockerState(c.container_id.clone()),
            None => StatusProbe::Nothing,
        },
        Engine::Mysql => StatusProbe::Nothing,
    }
}

/// Whether a container in this docker state needs a connection check: only
/// a running one does.
pub fn needs_connection_check(docker_state: &Option<String>) -> (r: bool)
    ensures
        r == (opt_view(*docker_state) == Some("running"@)),
{
    match docker_state {
        Some(s) => str_eq(s.as_str(), "running"),
        None => false,
    }
}

/// The report on a SQLite instance whose file does or does not exist.
pub fn sqlite_status(inst: &Instance, file_exists: bool) -> (r: InstanceStatusReport)
    ensures
        reports(r, *inst, sqlite_status_of(*inst, file_exists)),
        sqlite_details_ok(r.details, *inst, file_exists),
{
    match &inst.sqlite {
        None => InstanceStatusReport {
            id: inst.id.clone(),
            engine: inst.engine,
            status: InstanceStatus::Unknown,
            details: StatusDetails::Error(String::from_str("missing sqlite info")),
        },
        Some(info) => InstanceStatusReport {
            id: inst.id.clone(),
            engine: inst.engine,
            status: if file_exists { InstanceStatus::Running } else { InstanceStatus::Missing },
            details: StatusDetails::SqliteFile {
                path: info.path.duplicate(),
                file_exists,
                managed: info.managed,
            },
        },
    }
}

/// The report on a PostgreSQL instance, given the docker state of its
/// container (`None` when docker does not know it) and whether the database
/// answered.
pub fn postgres_status(inst: &Instance, docker_state: Option<String>, can_connect: bool) -> (r: InstanceStatusReport)
    ensures
        reports(r, *inst, postgres_status_of(*inst, opt_view(docker_state), can_connect)),
        postgres_details_ok(r.details, *inst, opt_view(docker_state), can_connect),
{
    match &inst.container {
        None => InstanceStatusReport {
            id: inst.id.clone(),
            engine: inst.engine,
            status: InstanceStatus::Unknown,
            details: StatusDetails::Error(String::from_str("missing container info")),
        },
        Some(c) => match docker_state {
            None => InstanceStatusReport {
                id: inst.id.clone(),
                engine: inst.engine,
                status: InstanceStatus::Missing,
                details: StatusDetails::ContainerMissing { container_id: c.container_id.clone() },
            },
            Some(state) => {
                if str_eq(state.as_str(), "running") {
                    InstanceStatusReport {
                        id: inst.id.clone(),
                        engine: inst.engine,
                        status: if can_connect { InstanceStatus::Running } else { InstanceStatus::Unhealthy },
                        details: StatusDetails::ContainerRunning {
                            container_id: c.container_id.clone(),
                            can_connect,
                        },
                    }
                } else {
                    InstanceStatusReport {
                        id: inst.id.clone(),
                        engine: inst.engine,
                        status: InstanceStatus::Stopped,
                        details: StatusDetails::ContainerState {
                            container_id: c.container_id.clone(),
                            docker_state: state,
                        },
                    }
                }
            },
        },
    }
}

/// The report on any instance, from what was observed of it: whether its
/// SQLite file exists, the docker state of its container and whether its
/// database answered. Observations that do not concern the instance are
/// ignored.
pub fn status_for_instance(inst: &Instance, file_exists: bool, docker_state: Option<String>, can_connect: bool) -> (r: InstanceStatusReport)
    ensures
        reports(r, *inst, status_of(*inst, file_exists, opt_view(docker_state), can_connect)),
        inst.engine == Engine::Sqlite ==> sqlite_details_ok(r.details, *inst, file_exists),
        inst.engine == Engine::Postgres ==> postgres_details_ok(r.details, *inst, opt_view(docker_state), can_connect),
        inst.engine == Engine::Mysql ==> (r.details matches StatusDetails::Note(m) && m@ == "mysql status not implemented yet"@),
{
    match inst.engine {
        Engine::Sqlite => sqlite_status(inst, file_exists),
        Engine::Postgres => postgres_status(inst, docker_state, can_connect),
        Engine::Mysql => InstanceStatusReport {
            id: inst.id.clone(),
            engine: inst.engine,
            status: InstanceStatus::Unknown,
            details: StatusDetails::Note(String::from_str("mysql status not implemented yet")),
        },
    }
}

} // verus!
