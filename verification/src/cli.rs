//! The command line: its arguments and the decisions taken from them before
//! any work is done.

use vstd::prelude::*;

use crate::engine::Engine;
use crate::error::{is_invalid_argument, DbnestError, Result};
use crate::instance::model::{InstanceSpec, PostgresSpec, SqliteSpec};
use crate::instance::status::InstanceStatusReport;
use crate::instance_ops::stop_instance;
use crate::paths::FsPath;
use crate::text::str_eq;

verus! {

/// The command line: global flags and a subcommand.
#[derive(Debug)]
pub struct Root {
    pub json: bool,
    pub cmd: Cmd,
}

/// The subcommands.
#[derive(Debug)]
pub enum Cmd {
    Up(UpArgs),
    Ls(LsArgs),
    Stop(StopArgs),
    Rm(RmArgs),
    Plan(PlanArgs),
    Apply(ApplyArgs),
    Status(StatusArgs),
}

/// `up <engine>`: provision an instance.
#[derive(Debug)]
pub struct UpArgs {
    pub engine: String,
    /// SQLite file path (only for sqlite); if omitted, dbnest manages a file
    /// under its data directory.
    pub path: Option<FsPath>,
    pub user: Option<String>,
    pub password: Option<String>,
    pub db: Option<String>,
    pub image: Option<String>,
    pub schema: Option<FsPath>,
}

/// `status [<id>] [--all]`.
#[derive(Debug)]
pub struct StatusArgs {
    /// Instance id (omit when using --all).
    pub id: Option<String>,
    /// Show status for all instances.
    pub all: bool,
}

/// The outcome of `status`: one report or all of them.
#[derive(Debug)]
pub enum StatusResult {
    One(InstanceStatusReport),
    Many(Vec<InstanceStatusReport>),
}

/// Which instances `status` reports on.
#[derive(Debug)]
pub enum StatusTarget {
    All,
    One(String),
}

/// `ls`.
#[derive(Debug)]
pub struct LsArgs {}

/// `stop <id>`.
#[derive(Debug)]
pub struct StopArgs {
    pub id: String,
}

/// `rm <id>`.
#[derive(Debug)]
pub struct RmArgs {
    pub id: String,
}

/// `plan <engine> --schema <path>`.
#[derive(Debug)]
pub struct PlanArgs {
    pub engine: String,
    pub schema: FsPath,
}

/// `apply --id <id> --schema <path>`.
#[derive(Debug)]
pub struct ApplyArgs {
    pub id: String,
    pub schema: FsPath,
}

// ---------------------------------------------------------------------------
// Engine names
// ---------------------------------------------------------------------------

/// The lowercase form of a string (`str::to_lowercase`), by the Unicode
/// lowercase mapping.
pub uninterp spec fn lowercase(s: Seq<char>) -> Seq<char>;

/// Lowercases a string (`str::to_lowercase`).
#[verifier::external_body]
fn to_lowercase(s: &str) -> (r: String)
    ensures
        r@ == lowercase(s@),
{
    s.to_lowercase()
}

/// The engine a lowercase name stands for.
pub open spec fn engine_of_name(lower: Seq<char>) -> Option<Engine> {
    if lower == "sqlite"@ {
        Some(Engine::Sqlite)
    } else if lower == "postgres"@ || lower == "pg"@ {
        Some(Engine::Postgres)
    } else if lower == "mysql"@ {
        Some(Engine::Mysql)
    } else {
        None
    }
}

/// The message for an engine name that is not known.
pub open spec fn msg_unknown_engine(given: Seq<char>) -> Seq<char> {
    "Unknown engine '"@ + given + "'. Expected: sqlite|postgres|mysql"@
}

/// The engine named by `lower`, the lowercase form of the name `given` on
/// the command line: `sqlite`, `postgres` or `pg`, `mysql`; any other name
/// is an error that quotes `given`.
pub fn engine_from_name(lower: &str, given: &str) -> (r: Result<Engine>)
    ensures
        engine_of_name(lower@) matches Some(e) ==> r == Ok::<Engine, DbnestError>(e),
        engine_of_name(lower@) is None ==> is_invalid_argument(r, msg_unknown_engine(given@)),
{
    if str_eq(lower, "sqlite") {
        Ok(Engine::Sqlite)
    } else if str_eq(lower, "postgres") || str_eq(lower, "pg") {
        Ok(Engine::Postgres)
    } else if str_eq(lower, "mysql") {
        Ok(Engine::Mysql)
    } else {
        let mut m = String::from_str("Unknown engine '");
        m.append(given);
        m.append("'. Expected: sqlite|postgres|mysql");
        Err(DbnestError::InvalidArgument(m))
    }
}

/// The engine named on the command line, in any letter case.
pub fn parse_engine(s: &str) -> (r: Result<Engine>)
    ensures
        engine_of_name(lowercase(s@)) matches Some(e) ==> r == Ok::<Engine, DbnestError>(e),
        engine_of_name(lowercase(s@)) is None ==> is_invalid_argument(r, msg_unknown_engine(s@)),
{
    let lower = to_lowercase(s);
    engine_from_name(lower.as_str(), s)
}

// ---------------------------------------------------------------------------
// What each command asks for
// ---------------------------------------------------------------------------

impl UpArgs {
    /// The instance `up` asks for, and the schema to apply to it.
    ///
    /// SQLite takes the path; PostgreSQL needs user, password and database,
    /// checked in that order; MySQL takes nothing.
    pub fn run(self) -> (r: Result<(InstanceSpec, Option<FsPath>)>)
        ensures
            engine_of_name(lowercase(self.engine@)) is None ==> is_invalid_argument(r, msg_unknown_engine(self.engine@)),
            engine_of_name(lowercase(self.engine@)) == Some(Engine::Sqlite) ==> (r matches Ok(v)
                && v.0.engine == Engine::Sqlite && v.0.sqlite == Some(SqliteSpec { path: self.path })
                && v.0.postgres is None && v.1 == self.schema),
            engine_of_name(lowercase(self.engine@)) == Some(Engine::Mysql) ==> (r matches Ok(v)
                && v.0.engine == Engine::Mysql && v.0.sqlite is None && v.0.postgres is None && v.1 == self.schema),
            engine_of_name(lowercase(self.engine@)) == Some(Engine::Postgres) ==> {
                if self.user is None {
                    is_invalid_argument(r, "--user is required for postgres"@)
                } else if self.password is None {
                    is_invalid_argument(r, "--password is required for postgres"@)
                } else if self.db is None {
                    is_invalid_argument(r, "--db is required for postgres"@)
                } else {
                    r matches Ok(v) && v.0.engine == Engine::Postgres && v.0.sqlite is None
                        && v.0.postgres == Some(PostgresSpec {
                            user: self.user->0,
                            password: self.password->0,
                            db: self.db->0,
                            image: self.image,
                        }) && v.1 == self.schema
                }
            },
    {
        let engine = match parse_engine(self.engine.as_str()) {
            Ok(e) => e,
            Err(e) => return Err(e),
        };
        let spec = match engine {
            Engine::Sqlite => InstanceSpec { engine, sqlite: Some(SqliteSpec { path: self.path }), postgres: None },
            Engine::Postgres => {
                let user = match self.user {
                    Some(u) => u,
                    None => return Err(DbnestError::InvalidArgument(String::from_str("--user is required for postgres"))),
                };
                let password = match self.password {
                    Some(p) => p,
                    None => return Err(DbnestError::InvalidArgument(String::from_str("--password is required for postgres"))),
                };
                let db = match self.db {
                    Some(d) => d,
                    None => return Err(DbnestError::InvalidArgument(String::from_str("--db is required for postgres"))),
                };
                InstanceSpec {
                    engine,
                    sqlite: None,
                    postgres: Some(PostgresSpec { user, password, db, image: self.image }),
                }
            },
            Engine::Mysql => InstanceSpec { engine, sqlite: None, postgres: None },
        };
        Ok((spec, self.schema))
    }
}

impl StatusArgs {
    /// Which instances `status` reports on: all with `--all`, else the one
    /// whose id is given; without either it is an error.
    pub fn run(self) -> (r: Result<StatusTarget>)
        ensures
            self.all ==> r matches Ok(StatusTarget::All),
            !self.all && self.id is Some ==> (r matches Ok(StatusTarget::One(id)) && id == self.id->0),
            !self.all && self.id is None ==> is_invalid_argument(r, "provide <id> or use --all"@),
    {
        if self.all {
            Ok(StatusTarget::All)
        } else {
            match self.id {
                Some(id) => Ok(StatusTarget::One(id)),
                None => Err(DbnestError::InvalidArgument(String::from_str("provide <id> or use --all"))),
            }
        }
    }
}

impl StopArgs {
    /// Stops the instance; this always succeeds.
    pub fn run(self) -> (r: Result<()>)
        ensures
            r is Ok,
    {
        stop_instance(self.id.as_str())
    }
}

impl PlanArgs {
    /// The engine to plan for and the schema to plan from.
    pub fn run(self) -> (r: Result<(Engine, FsPath)>)
        ensures
            engine_of_name(lowercase(self.engine@)) matches Some(e) ==> (r matches Ok(v) && v.0 == e && v.1 == self.schema),
            engine_of_name(lowercase(self.engine@)) is None ==> is_invalid_argument(r, msg_unknown_engine(self.engine@)),
    {
        match parse_engine(self.engine.as_str()) {
            Ok(e) => Ok((e, self.schema)),
            Err(e) => Err(e),
        }
    }
}

} // verus!
