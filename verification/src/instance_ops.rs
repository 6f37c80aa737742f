//! The decisions of the instance operations: provisioning, listing, stopping
//! and removing.

use vstd::prelude::*;

use crate::engine::Engine;
use crate::error::{DbnestError, Result};
use crate::instance::model::{summarizes, Instance, InstanceSummary, Status};

verus! {

/// How an instance of an engine is provisioned.
#[derive(Clone, Copy, Debug, PartialEq, Eq, Structural)]
pub enum ProvisionRoute {
    /// An embedded SQLite file.
    Embedded,
    /// A server in a docker container.
    Docker,
}

/// How an engine is provisioned: SQLite as an embedded file, PostgreSQL in
/// docker; MySQL has no provisioning yet and reports that docker is not
/// available.
pub fn provision_route(engine: Engine) -> (r: Result<ProvisionRoute>)
    ensures
        engine == Engine::Sqlite ==> r == Ok::<ProvisionRoute, DbnestError>(ProvisionRoute::Embedded),
        engine == Engine::Postgres ==> r == Ok::<ProvisionRoute, DbnestError>(ProvisionRoute::Docker),
        engine == Engine::Mysql ==> r matches Err(DbnestError::DockerNotAvailable),
{
    match engine {
        Engine::Sqlite => Ok(ProvisionRoute::Embedded),
        Engine::Postgres => Ok(ProvisionRoute::Docker),
        Engine::Mysql => Err(DbnestError::DockerNotAvailable),
    }
}

/// The status shown in the listing: a SQLite instance runs when its file
/// exists and is unknown otherwise; any other instance is unknown.
pub open spec fn listed_status(inst: Instance, file_exists: bool) -> Status {
    if inst.sqlite is Some && file_exists { Status::Running } else { Status::Unknown }
}

/// In the listing, an instance with SQLite information is running exactly
/// when its file exists, whether or not dbnest manages the file; an
/// instance without is unknown.
pub proof fn lemma_listing_status(inst: Instance, file_exists: bool)
    ensures
        inst.sqlite is Some && file_exists ==> listed_status(inst, file_exists) == Status::Running,
        inst.sqlite is Some && !file_exists ==> listed_status(inst, file_exists) == Status::Unknown,
        inst.sqlite is None ==> listed_status(inst, file_exists) == Status::Unknown,
{
}

/// Two instances with SQLite information whose files both exist, or both do
/// not, are listed with the same status: the managed flag does not count.
pub proof fn lemma_listing_ignores_managed(a: Instance, b: Instance, file_exists: bool)
    requires
        a.sqlite is Some,
        b.sqlite is Some,
    ensures
        listed_status(a, file_exists) == listed_status(b, file_exists),
{
}

/// The listing line of an instance, given whether its SQLite file exists.
pub fn list_entry(inst: &Instance, file_exists: bool) -> (s: InstanceSummary)
    ensures
        summarizes(s, *inst, listed_status(*inst, file_exists)),
{
    let mut s = inst.summary();
    if inst.sqlite.is_some() {
        s.status = if file_exists { Status::Running } else { Status::Unknown };
    }
    s
}

/// Stops an instance. Nothing needs stopping yet, so this always succeeds.
pub fn stop_instance(_id: &str) -> (r: Result<()>)
    ensures
        r is Ok,
{
    Ok(())
}

/// Whether removing `inst` deletes its database file: only a SQLite file
/// that dbnest manages and that exists.
pub open spec fn deletes_file(inst: Instance, file_exists: bool) -> bool {
    inst.engine == Engine::Sqlite && inst.sqlite is Some && inst.sqlite->0.managed && file_exists
}

/// Whether removing `inst` deletes its database file, given whether the file
/// exists.
pub fn removes_managed_file(inst: &Instance, file_exists: bool) -> (r: bool)
    ensures
        r == deletes_file(*inst, file_exists),
{
    if inst.engine == Engine::Sqlite {
        match &inst.sqlite {
            Some(s) => s.managed && file_exists,
            None => false,
        }
    } else {
        false
    }
}

/// The id of the container an instance runs in, if it runs in one.
pub open spec fn container_of(inst: Instance) -> Option<String> {
    match inst.container {
        Some(c) => Some(c.container_id),
        None => None,
    }
}

/// What removing an instance takes besides its registry record.
#[derive(Debug)]
pub struct Removal {
    /// Delete the SQLite file (and its directory when empty).
    pub delete_file: bool,
    /// Remove this docker container.
    pub remove_container: Option<String>,
}

/// `removal` is what `rm` takes for `inst`, given whether its file exists:
/// its managed SQLite file; a container is left as it is.
pub open spec fn removes(removal: Removal, inst: Instance, file_exists: bool) -> bool {
    &&& removal.delete_file == deletes_file(inst, file_exists)
    &&& removal.remove_container is None
}

/// `removal` is what rolling back the new instance `inst` takes: its managed
/// SQLite file, and the container it was just started in.
pub open spec fn rolls_back(removal: Removal, inst: Instance, file_exists: bool) -> bool {
    &&& removal.delete_file == deletes_file(inst, file_exists)
    &&& removal.remove_container == container_of(inst)
}

/// `rm` never deletes a file dbnest does not manage, and never touches a
/// container: it deletes the file exactly of a SQLite instance whose file
/// dbnest manages and which exists.
pub proof fn lemma_rm_keeps_unmanaged_files(removal: Removal, inst: Instance, file_exists: bool)
    requires
        removes(removal, inst, file_exists),
    ensures
        removal.delete_file ==> inst.sqlite is Some && inst.sqlite->0.managed,
        removal.delete_file <==> (inst.engine == Engine::Sqlite && inst.sqlite is Some
            && inst.sqlite->0.managed && file_exists),
        removal.remove_container is None,
{
}

/// A rollback deletes the same files as `rm` (never one dbnest does not
/// manage) and removes the container of the instance, if it has one.
pub proof fn lemma_rollback_keeps_unmanaged_files(removal: Removal, inst: Instance, file_exists: bool)
    requires
        rolls_back(removal, inst, file_exists),
    ensures
        removal.delete_file <==> (inst.engine == Engine::Sqlite && inst.sqlite is Some
            && inst.sqlite->0.managed && file_exists),
        inst.container is None ==> removal.remove_container is None,
        inst.container matches Some(c) ==> removal.remove_container == Some(c.container_id),
{
}

/// What `rm` takes for `inst` besides its registry record: its managed
/// SQLite file when that exists. The container of an instance is not
/// touched.
pub fn removal_of(inst: &Instance, file_exists: bool) -> (r: Removal)
    ensures
        removes(r, *inst, file_exists),
{
    Removal { delete_file: removes_managed_file(inst, file_exists), remove_container: None }
}

/// What rolling back the new instance `inst` takes besides its registry
/// record: its managed SQLite file when that exists, and its container when
/// it runs in one.
pub fn rollback_of(inst: &Instance, file_exists: bool) -> (r: Removal)
    ensures
        rolls_back(r, *inst, file_exists),
{
    let remove_container = match &inst.container {
        Some(c) => Some(c.container_id.clone()),
        None => None,
    };
    Removal { delete_file: removes_managed_file(inst, file_exists), remove_container }
}

/// The step after a new instance had a schema applied to it.
#[derive(Debug)]
pub enum UpStep {
    /// The schema is in place (or none was asked for): the instance stays.
    Done(Instance),
    /// The schema failed: the instance `id` is removed again, as `removal`
    /// says, and `error` is reported.
    RollBack { id: String, removal: Removal, error: DbnestError },
}

/// Decides what `up` does once the schema step `applied` has run on the new
/// instance `inst`: keep it when the step succeeded; else remove it again,
/// its container and managed file included, and report the step's error.
pub fn after_schema(inst: Instance, applied: Result<()>, file_exists: bool) -> (r: UpStep)
    ensures
        applied is Ok ==> r == UpStep::Done(inst),
        applied matches Err(e) ==> r matches UpStep::RollBack { id, removal, error }
            && id == inst.id && error == e && rolls_back(removal, inst, file_exists),
{
    match applied {
        Ok(()) => UpStep::Done(inst),
        Err(error) => {
            let removal = rollback_of(&inst, file_exists);
            UpStep::RollBack { id: inst.id, removal, error }
        },
    }
}

/// The instance read from the registry, or `InstanceNotFound(id)` when it
/// could not be read.
pub fn read_or_not_found(id: &str, read: Result<Instance>) -> (r: Result<Instance>)
    ensures
        read is Ok ==> r == read,
        read is Err ==> (r matches Err(DbnestError::InstanceNotFound(m)) && m@ == id@),
{
    match read {
        Ok(inst) => Ok(inst),
        Err(_) => Err(DbnestError::InstanceNotFound(id.to_owned())),
    }
}

} // verus!
