use vstd::prelude::*;

use crate::engine::Engine;
use crate::error::{is_invalid_argument, DbnestError, Result};
use crate::instance::model::Instance;
use crate::paths::FsPath;

verus! {

/// Where a plan is applied to a PostgreSQL instance: its connection URL; an
/// instance of another engine is refused.
pub fn postgres_apply_target(inst: &Instance) -> (r: Result<String>)
    ensures
        inst.engine == Engine::Postgres ==> r == Ok::<String, DbnestError>(inst.connection.database_url),
        inst.engine != Engine::Postgres ==> is_invalid_argument(r, "instance is not postgres"@),
{
    if inst.engine != Engine::Postgres {
        return Err(DbnestError::InvalidArgument(String::from_str("instance is not postgres")));
    }
    Ok(inst.connection.database_url.clone())
}

/// Where a plan is applied to a SQLite instance: its database file; an
/// instance without SQLite information is refused.
pub fn sqlite_apply_target(inst: &Instance) -> (r: Result<FsPath>)
    ensures
        inst.sqlite matches Some(s) ==> (r matches Ok(p) && p@ == s.path@),
        inst.sqlite is None ==> is_invalid_argument(r, "instance is not sqlite"@),
{
    match &inst.sqlite {
        Some(s) => Ok(s.path.duplicate()),
        None => Err(DbnestError::InvalidArgument(String::from_str("instance is not sqlite"))),
    }
}

} // verus!
