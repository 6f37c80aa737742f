//! PostgreSQL in docker: the checks before provisioning, the docker command,
//! the connection URL and the instance record.

use vstd::prelude::*;

use crate::engine::Engine;
use crate::error::{is_invalid_argument, DbnestError, Result};
use crate::instance::model::{Backend, ConnectionInfo, ContainerInfo, Instance, InstanceSpec, PostgresSpec};
use crate::text::{decimal, decimal_string, join, join_strings, strings};
use vstd::string::StringSliceAdditionalSpecFns;
use vstd::utf8::encode_utf8;

verus! {

// ---------------------------------------------------------------------------
// Percent-encoding
// ---------------------------------------------------------------------------

/// A byte that percent-encoding leaves as it is: an ASCII letter or digit,
/// `-`, `.`, `_` or `~`.
pub open spec fn unreserved(b: u8) -> bool {
    (48 <= b <= 57) || (65 <= b <= 90) || (97 <= b <= 122) || b == 45 || b == 46 || b == 95 || b == 126
}

/// An uppercase hexadecimal digit.
pub open spec fn hex_upper(d: int) -> char {
    if d < 10 { (48 + d) as char } else { (55 + d) as char }
}

/// One byte percent-encoded: unreserved bytes as themselves, any other byte
/// as `%` and two uppercase hexadecimal digits.
pub open spec fn percent_encode_byte(b: u8) -> Seq<char> {
    if unreserved(b) {
        seq![b as char]
    } else {
        seq!['%', hex_upper(b as int / 16), hex_upper(b as int % 16)]
    }
}

/// Bytes percent-encoded one after the other.
pub open spec fn percent_encode(bytes: Seq<u8>) -> Seq<char>
    decreases bytes.len(),
{
    if bytes.len() == 0 {
        Seq::empty()
    } else {
        percent_encode(bytes.drop_last()) + percent_encode_byte(bytes.last())
    }
}

/// Percent-encoded text holds only unreserved characters and `%`: in
/// particular no `:`, `@` or `/`, so an encoded user or password cannot
/// change how a URL splits into its parts.
pub proof fn lemma_percent_encode_safe(bytes: Seq<u8>)
    ensures
        forall|i: int| 0 <= i < percent_encode(bytes).len() ==> {
            let c = #[trigger] percent_encode(bytes)[i];
            c != ':' && c != '@' && c != '/'
        },
    decreases bytes.len(),
{
    if bytes.len() > 0 {
        lemma_percent_encode_safe(bytes.drop_last());
        let prev = percent_encode(bytes.drop_last());
        let tail = percent_encode_byte(bytes.last());
        assert forall|i: int| 0 <= i < percent_encode(bytes).len() implies {
            let c = #[trigger] percent_encode(bytes)[i];
            c != ':' && c != '@' && c != '/'
        } by {
            if i < prev.len() {
                assert(percent_encode(bytes)[i] == prev[i]);
            } else {
                assert(percent_encode(bytes)[i] == tail[i - prev.len()]);
            }
        }
    }
}

/// Percent-encodes the UTF-8 bytes of `s` (`urlencoding::encode`): every byte
/// except ASCII letters, digits, `-`, `.`, `_` and `~` becomes `%XX` with
/// uppercase hexadecimal digits.
#[verifier::external_body]
fn url_encode(s: &str) -> (r: String)
    ensures
        r@ == percent_encode(s.spec_bytes()),
{
    urlencoding::encode(s).into_owned()
}

// ---------------------------------------------------------------------------
// Values of a PostgreSQL container
// ---------------------------------------------------------------------------

/// The image used when none is given.
pub open spec fn default_image() -> Seq<char> {
    "postgres:16-alpine"@
}

/// The URL to connect to database `db` as `user` on `127.0.0.1:port`; user
/// and password are percent-encoded.
pub open spec fn postgres_url_of(user: Seq<char>, password: Seq<char>, port: u16, db: Seq<char>) -> Seq<char> {
    "postgres://"@ + percent_encode(encode_utf8(user)) + ":"@ + percent_encode(encode_utf8(password))
        + "@127.0.0.1:"@ + decimal(port as nat) + "/"@ + db
}

/// A connection URL splits where a URL parser splits it: after
/// `postgres://` comes the percent-encoded user, which holds no `:`, `@` or
/// `/`; then `:` and the percent-encoded password, which holds none of them
/// either; the first `@` of the URL is the one that ends the password, so a
/// user or password holding `@`, `:` or `/` cannot move the host.
pub proof fn lemma_postgres_url_splits(user: Seq<char>, password: Seq<char>, port: u16, db: Seq<char>)
    ensures ({
        let url = postgres_url_of(user, password, port, db);
        let eu = percent_encode(encode_utf8(user));
        let ep = percent_encode(encode_utf8(password));
        let at: int = (12 + eu.len() + ep.len()) as int;
        &&& ("postgres://"@ + eu + ":"@).is_prefix_of(url)
        &&& url.len() > at
        &&& url[11 + eu.len() as int] == ':'
        &&& url[at] == '@'
        &&& forall|i: int| 11 <= i < 11 + eu.len() ==> #[trigger] url[i] != ':' && url[i] != '@' && url[i] != '/'
        &&& forall|i: int| 11 <= i < at ==> #[trigger] url[i] != '@' && url[i] != '/'
    }),
{
    let url = postgres_url_of(user, password, port, db);
    let eu = percent_encode(encode_utf8(user));
    let ep = percent_encode(encode_utf8(password));
    let at: int = (12 + eu.len() + ep.len()) as int;
    lemma_percent_encode_safe(encode_utf8(user));
    lemma_percent_encode_safe(encode_utf8(password));
    reveal_strlit("postgres://");
    reveal_strlit(":");
    reveal_strlit("@127.0.0.1:");
    let head = "postgres://"@ + eu + ":"@;
    assert(url.subrange(0, head.len() as int) =~= head);
    assert forall|i: int| 11 <= i < 11 + eu.len() implies #[trigger] url[i] != ':' && url[i] != '@' && url[i] != '/' by {
        assert(url[i] == eu[i - 11]);
    }
    assert forall|i: int| 11 <= i < at implies #[trigger] url[i] != '@' && url[i] != '/' by {
        if i < 11 + eu.len() {
            assert(url[i] == eu[i - 11]);
        } else if i > 11 + eu.len() {
            assert(url[i] == ep[i - 12 - eu.len()]);
        }
    }
}

/// The name of the container of instance `id`.
pub open spec fn container_name_of(id: Seq<char>) -> Seq<char> {
    "dbnest-postgres-"@ + id
}

/// The arguments of the `docker run` that starts the container: detached,
/// named, labelled as managed by dbnest, with the database's user, password
/// and name in its environment, and port 5432 published on `127.0.0.1:port`.
pub open spec fn docker_run_args_of(id: Seq<char>, name: Seq<char>, pg: PostgresSpec, image: Seq<char>, port: u16) -> Seq<Seq<char>> {
    seq![
        "run"@, "-d"@, "--name"@, name,
        "--label"@, "dbnest.managed=true"@,
        "--label"@, "dbnest.id="@ + id,
        "--label"@, "dbnest.engine=postgres"@,
        "-e"@, "POSTGRES_USER="@ + pg.user@,
        "-e"@, "POSTGRES_PASSWORD="@ + pg.password@,
        "-e"@, "POSTGRES_DB="@ + pg.db@,
        "-p"@, "127.0.0.1:"@ + decimal(port as nat) + ":5432"@,
        image
    ]
}

/// The `docker run` command as shown in an error.
pub open spec fn docker_run_display_of(name: Seq<char>, port: u16, image: Seq<char>) -> Seq<char> {
    "docker run -d --name "@ + name + " -p 127.0.0.1:"@ + decimal(port as nat) + ":5432 "@ + image
}

/// Checks a request for a PostgreSQL instance before anything is started:
/// it must ask for PostgreSQL, docker must be available, and user, password
/// and database must be given. Returns those settings.
pub fn check_postgres_spec(spec: InstanceSpec, docker_available: bool) -> (r: Result<PostgresSpec>)
    ensures
        spec.engine != Engine::Postgres ==> is_invalid_argument(r, "provision_postgres_docker called for non-postgres"@),
        spec.engine == Engine::Postgres && !docker_available ==> r matches Err(DbnestError::DockerNotAvailable),
        spec.engine == Engine::Postgres && docker_available && spec.postgres is None
            ==> is_invalid_argument(r, "postgres spec missing (user/password/db)"@),
        spec.engine == Engine::Postgres && docker_available && spec.postgres is Some
            ==> r == Ok::<PostgresSpec, DbnestError>(spec.postgres->0),
{
    if spec.engine != Engine::Postgres {
        return Err(DbnestError::InvalidArgument(String::from_str("provision_postgres_docker called for non-postgres")));
    }
    if !docker_available {
        return Err(DbnestError::DockerNotAvailable);
    }
    match spec.postgres {
        Some(pg) => Ok(pg),
        None => Err(DbnestError::InvalidArgument(String::from_str("postgres spec missing (user/password/db)"))),
    }
}

/// Whether docker is available, as an error when it is not.
pub fn ensure_docker_available(docker_available: bool) -> (r: Result<()>)
    ensures
        docker_available <==> r is Ok,
        !docker_available ==> r matches Err(DbnestError::DockerNotAvailable),
{
    if docker_available { Ok(()) } else { Err(DbnestError::DockerNotAvailable) }
}

/// The image to run: the one given, else `postgres:16-alpine`.
pub fn postgres_image(image: Option<String>) -> (r: String)
    ensures
        image is Some ==> r == image->0,
        image is None ==> r@ == default_image(),
{
    match image {
        Some(i) => i,
        None => String::from_str("postgres:16-alpine"),
    }
}

/// The name of the container of instance `id`: `dbnest-postgres-<id>`.
pub fn container_name(id: &str) -> (r: String)
    ensures
        r@ == container_name_of(id@),
{
    let mut r = String::from_str("dbnest-postgres-");
    r.append(id);
    r
}

fn concat(a: &str, b: &str) -> (r: String)
    ensures
        r@ == a@ + b@,
{
    let mut r = a.to_owned();
    r.append(b);
    r
}

/// The arguments of the `docker run` that starts the container of instance
/// `id`.
pub fn docker_run_args(id: &str, name: &str, pg: &PostgresSpec, image: &str, port: u16) -> (r: Vec<String>)
    ensures
        strings(r@) == docker_run_args_of(id@, name@, *pg, image@, port),
{
    let port_text = decimal_string(port as u64);
    let mut published = concat("127.0.0.1:", port_text.as_str());
    published.append(":5432");
    let mut r: Vec<String> = Vec::new();
    r.push(String::from_str("run"));
    r.push(String::from_str("-d"));
    r.push(String::from_str("--name"));
    r.push(name.to_owned());
    r.push(String::from_str("--label"));
    r.push(String::from_str("dbnest.managed=true"));
    r.push(String::from_str("--label"));
    r.push(concat("dbnest.id=", id));
    r.push(String::from_str("--label"));
    r.push(String::from_str("dbnest.engine=postgres"));
    r.push(String::from_str("-e"));
    r.push(concat("POSTGRES_USER=", pg.user.as_str()));
    r.push(String::from_str("-e"));
    r.push(concat("POSTGRES_PASSWORD=", pg.password.as_str()));
    r.push(String::from_str("-e"));
    r.push(concat("POSTGRES_DB=", pg.db.as_str()));
    r.push(String::from_str("-p"));
    r.push(published);
    r.push(image.to_owned());
    assert(strings(r@) =~= docker_run_args_of(id@, name@, *pg, image@, port));
    r
}

/// The `docker run` command as shown when it fails:
/// `docker run -d --name <name> -p 127.0.0.1:<port>:5432 <image>`.
pub fn docker_run_display(name: &str, port: u16, image: &str) -> (r: String)
    ensures
        r@ == docker_run_display_of(name@, port, image@),
{
    let mut r = String::from_str("docker run -d --name ");
    r.append(name);
    r.append(" -p 127.0.0.1:");
    let p = decimal_string(port as u64);
    r.append(p.as_str());
    r.append(":5432 ");
    r.append(image);
    r
}

/// The error of a failed `docker run`, with the hint to check that docker is
/// running.
pub fn docker_run_failed(command: String, stderr: String) -> (e: DbnestError)
    ensures
        e matches DbnestError::DockerCommandFailed { command: c, stderr: s, hint: h }
            && c == command && s == stderr
            && h@ == "Check Docker is running (try `docker ps`). On Windows/macOS ensure Docker Desktop is started."@,
{
    DbnestError::DockerCommandFailed {
        command,
        stderr,
        hint: String::from_str("Check Docker is running (try `docker ps`). On Windows/macOS ensure Docker Desktop is started."),
    }
}

/// The error of a failed docker command: the command as `docker` followed by
/// its arguments separated by spaces, what it wrote to stderr, and a hint.
pub fn docker_command_failed(args: &Vec<String>, stderr: String, hint: &str) -> (e: DbnestError)
    ensures
        e matches DbnestError::DockerCommandFailed { command: c, stderr: s, hint: h }
            && c@ == "docker "@ + join(strings(args@), " "@) && s == stderr && h@ == hint@,
{
    let mut command = String::from_str("docker ");
    let joined = join_strings(args, " ");
    command.append(joined.as_str());
    DbnestError::DockerCommandFailed { command, stderr, hint: hint.to_owned() }
}

/// The URL to connect to database `db` as `user` with `password` on
/// `127.0.0.1:port`:
/// `postgres://<user>:<password>@127.0.0.1:<port>/<db>`, with user and
/// password percent-encoded.
pub fn postgres_url(user: &str, password: &str, port: u16, db: &str) -> (r: String)
    ensures
        r@ == postgres_url_of(user@, password@, port, db@),
{
    let mut r = String::from_str("postgres://");
    let u = url_encode(user);
    r.append(u.as_str());
    r.append(":");
    let p = url_encode(password);
    r.append(p.as_str());
    r.append("@127.0.0.1:");
    let port_text = decimal_string(port as u64);
    r.append(port_text.as_str());
    r.append("/");
    r.append(db);
    r
}

/// The registry record of a PostgreSQL instance started in container
/// `container_id` from `image`, listening on `127.0.0.1:port`.
pub fn postgres_instance(id: String, created_at: i128, pg: PostgresSpec, port: u16, container_id: String, image: String) -> (inst: Instance)
    ensures
        inst.id == id,
        inst.engine == Engine::Postgres,
        inst.backend == Backend::Container,
        inst.created_at == created_at,
        inst.connection.database_url@ == postgres_url_of(pg.user@, pg.password@, port, pg.db@),
        inst.connection.host matches Some(h) && h@ == "127.0.0.1"@,
        inst.connection.port == Some(port),
        inst.connection.database == Some(pg.db),
        inst.connection.user == Some(pg.user),
        inst.sqlite is None,
        inst.container matches Some(c) && c.runtime@ == "docker"@ && c.container_id == container_id && c.image == image,
{
    let database_url = postgres_url(pg.user.as_str(), pg.password.as_str(), port, pg.db.as_str());
    Instance {
        id,
        engine: Engine::Postgres,
        backend: Backend::Container,
        created_at,
        connection: ConnectionInfo {
            database_url,
            host: Some(String::from_str("127.0.0.1")),
            port: Some(port),
            database: Some(pg.db),
            user: Some(pg.user),
        },
        sqlite: None,
        container: Some(ContainerInfo { runtime: String::from_str("docker"), container_id, image }),
    }
}

// ---------------------------------------------------------------------------
// Waiting for a new server to accept connections
// ---------------------------------------------------------------------------

/// How many times a new server is tried before giving up.
pub const READY_ATTEMPTS: u32 = 60;

/// How long to wait after a failed try, in milliseconds.
pub const READY_WAIT_MILLIS: u64 = 250;

/// What to do after a try to connect to a new server.
#[derive(Clone, Copy, Debug, PartialEq, Eq, Structural)]
pub enum ReadyStep {
    /// The server answered: it is ready.
    Ready,
    /// Wait, then try again.
    WaitAndRetry,
    /// Wait, then give up: the server did not become ready in time.
    WaitAndGiveUp,
}

/// The next step after try number `attempts` (counting from one) answered
/// `connected`: done when it connected; after a failed try always a wait,
/// then another try while fewer than `READY_ATTEMPTS` tries were made, else
/// the end.
pub fn ready_step(attempts: u32, connected: bool) -> (r: ReadyStep)
    ensures
        connected ==> r == ReadyStep::Ready,
        !connected && attempts < READY_ATTEMPTS ==> r == ReadyStep::WaitAndRetry,
        !connected && attempts >= READY_ATTEMPTS ==> r == ReadyStep::WaitAndGiveUp,
{
    if connected {
        ReadyStep::Ready
    } else if attempts < READY_ATTEMPTS {
        ReadyStep::WaitAndRetry
    } else {
        ReadyStep::WaitAndGiveUp
    }
}

/// The error of a server that did not accept a connection in time.
pub fn not_ready_error() -> (e: DbnestError)
    ensures
        is_invalid_argument::<()>(Err(e), "postgres did not become ready in time"@),
{
    DbnestError::InvalidArgument(String::from_str("postgres did not become ready in time"))
}

} // verus!
