//! Embedded SQLite instances: the checks, the database path, the URL and the
//! instance record.

use vstd::prelude::*;

use crate::engine::Engine;
use crate::error::{is_invalid_argument, DbnestError, Result};
use crate::instance::model::{Backend, ConnectionInfo, Instance, InstanceSpec, SqliteInfo};
use crate::paths::{portable_path, FsPath};
use crate::text::{join, push_char};

verus! {

/// The text of a path, as `Path::to_string_lossy` gives it.
///
/// A path of a single piece is that piece's text. A portable path reads as
/// its pieces joined by the platform's separator (`PathBuf::push` puts one
/// separator before a relative piece unless the path ends in one), so with
/// backslashes read as slashes it is its pieces joined by `/`. Nothing is
/// stated of other paths of several pieces.
#[verifier::external_body]
fn path_text(p: &FsPath) -> (r: String)
    ensures
        p@.len() == 1 ==> r@ == p@[0],
        portable_path(p@) ==> forward_slashes(r@) == join(p@, "/"@),
{
    p.segments.iter().collect::<std::path::PathBuf>().to_string_lossy().into_owned()
}

/// `s` with every backslash turned into a slash.
pub open spec fn forward_slashes(s: Seq<char>) -> Seq<char> {
    s.map_values(|c: char| if c == '\\' { '/' } else { c })
}

/// The SQLite URL of a file whose path reads `text`.
pub open spec fn sqlite_url_of(text: Seq<char>) -> Seq<char> {
    "sqlite:///"@ + forward_slashes(text)
}

/// The SQLite URL of a file whose path reads `text`: `sqlite:///` followed by
/// the path with backslashes turned into slashes.
pub fn sqlite_url_from_text(text: &str) -> (r: String)
    ensures
        r@ == sqlite_url_of(text@),
{
    let mut r = String::from_str("sqlite:///");
    let ghost start = r@;
    let n = text.unicode_len();
    let mut i: usize = 0;
    while i < n
        invariant
            n == text@.len(),
            i <= n,
            r@ =~= start + forward_slashes(text@.take(i as int)),
        decreases n - i,
    {
        let c = text.get_char(i);
        push_char(&mut r, if c == '\\' { '/' } else { c });
        i += 1;
        assert(forward_slashes(text@.take(i as int)) =~= forward_slashes(text@.take(i - 1)).push(if c == '\\' { '/' } else { c }));
    }
    assert(text@.take(n as int) =~= text@);
    r
}

/// The SQLite URL of the database file at `path`.
pub fn to_sqlite_url(path: &FsPath) -> (r: String)
    ensures
        path@.len() == 1 ==> r@ == sqlite_url_of(path@[0]),
        portable_path(path@) ==> r@ == "sqlite:///"@ + join(path@, "/"@),
{
    let text = path_text(path);
    sqlite_url_from_text(text.as_str())
}

/// Checks a request for a SQLite instance: it must ask for SQLite. Returns
/// the database path asked for, if any.
pub fn check_sqlite_spec(spec: InstanceSpec) -> (r: Result<Option<FsPath>>)
    ensures
        spec.engine != Engine::Sqlite ==> is_invalid_argument(r, "provision_sqlite called with non-sqlite engine"@),
        spec.engine == Engine::Sqlite ==> (r matches Ok(p) && p == match spec.sqlite {
            Some(s) => s.path,
            None => None,
        }),
{
    if spec.engine != Engine::Sqlite {
        return Err(DbnestError::InvalidArgument(String::from_str("provision_sqlite called with non-sqlite engine")));
    }
    match spec.sqlite {
        Some(s) => Ok(s.path),
        None => Ok(None),
    }
}

/// Where the database file of a new SQLite instance goes, and whether dbnest
/// manages it: the managed default when no path is given; the given path
/// when it is absolute (`is_absolute`, as `Path::is_absolute` finds it);
/// else the given path joined onto the current directory `cwd`, whose error
/// is returned when it could not be determined.
pub fn resolve_sqlite_path(
    managed_default: FsPath,
    user_path: Option<FsPath>,
    is_absolute: bool,
    cwd: Result<FsPath>,
) -> (r: Result<(FsPath, bool)>)
    ensures
        user_path is None ==> (r matches Ok(v) && v.0 == managed_default && v.1),
        user_path is Some && is_absolute ==> (r matches Ok(v) && v.0 == user_path->0 && !v.1),
        user_path is Some && !is_absolute ==> match cwd {
            Ok(c) => r matches Ok(v) && v.0@ == c@ + user_path->0@ && !v.1,
            Err(e) => r == Err::<(FsPath, bool), DbnestError>(e),
        },
{
    match user_path {
        None => Ok((managed_default, true)),
        Some(p) => {
            if is_absolute {
                Ok((p, false))
            } else {
                match cwd {
                    Ok(c) => Ok((c.join_path(&p), false)),
                    Err(e) => Err(e),
                }
            }
        },
    }
}

/// The registry record of a SQLite instance whose database file is `path`.
pub fn sqlite_instance(id: String, created_at: i128, path: FsPath, managed: bool) -> (inst: Instance)
    ensures
        inst.id == id,
        inst.engine == Engine::Sqlite,
        inst.backend == Backend::Embedded,
        inst.created_at == created_at,
        path@.len() == 1 ==> inst.connection.database_url@ == sqlite_url_of(path@[0]),
        portable_path(path@) ==> inst.connection.database_url@ == "sqlite:///"@ + join(path@, "/"@),
        inst.connection.host is None,
        inst.connection.port is None,
        inst.connection.database is None,
        inst.connection.user is None,
        inst.sqlite matches Some(s) && s.path == path && s.managed == managed,
        inst.container is None,
{
    let database_url = to_sqlite_url(&path);
    Instance {
        id,
        engine: Engine::Sqlite,
        backend: Backend::Embedded,
        created_at,
        connection: ConnectionInfo { database_url, host: None, port: None, database: None, user: None },
        sqlite: Some(SqliteInfo { path, managed }),
        container: None,
    }
}

} // verus!
