use vstd::prelude::*;

use crate::error::{is_invalid_argument, DbnestError, Result};
use crate::text::strings;

verus! {

/// A filesystem path, held as the sequence of pieces it was built from: the
/// first piece is a path as the operating system gave it, each further piece
/// was joined onto the path before it (`Path::join`).
#[derive(Debug)]
pub struct FsPath {
    pub segments: Vec<String>,
}

impl View for FsPath {
    type V = Seq<Seq<char>>;

    open spec fn view(&self) -> Seq<Seq<char>> {
        strings(self.segments@)
    }
}

impl FsPath {
    /// The path given by the text `p`.
    pub fn new(p: &str) -> (r: FsPath)
        ensures
            r@ == seq![p@],
    {
        let mut segments = Vec::new();
        segments.push(p.to_owned());
        assert(strings(segments@) =~= seq![p@]);
        FsPath { segments }
    }

    /// A copy of this path.
    pub fn duplicate(&self) -> (r: FsPath)
        ensures
            r@ == self@,
    {
        let mut segments: Vec<String> = Vec::new();
        let n = self.segments.len();
        let mut i: usize = 0;
        while i < n
            invariant
                n == self.segments@.len(),
                i <= n,
                strings(segments@) =~= strings(self.segments@).take(i as int),
            decreases n - i,
        {
            let ghost prev = segments@;
            segments.push(self.segments[i].clone());
            proof {
                assert(strings(segments@) =~= strings(prev).push(self.segments@[i as int]@));
                assert(strings(self.segments@).take(i + 1) =~= strings(self.segments@).take(i as int).push(self.segments@[i as int]@));
            }
            i += 1;
        }
        assert(strings(self.segments@).take(n as int) =~= strings(self.segments@));
        FsPath { segments }
    }

    /// This path with `piece` joined onto it.
    pub fn join(&self, piece: &str) -> (r: FsPath)
        ensures
            r@ == self@.push(piece@),
    {
        let mut r = self.duplicate();
        let ghost prev = r.segments@;
        r.segments.push(piece.to_owned());
        assert(strings(r.segments@) =~= strings(prev).push(piece@));
        r
    }

    /// This path with every piece of `other` joined onto it in turn.
    pub fn join_path(&self, other: &FsPath) -> (r: FsPath)
        ensures
            r@ == self@ + other@,
    {
        let mut r = self.duplicate();
        let n = other.segments.len();
        let mut i: usize = 0;
        while i < n
            invariant
                n == other.segments@.len(),
                i <= n,
                r@ =~= self@ + other@.take(i as int),
            decreases n - i,
        {
            let ghost prev = r.segments@;
            r.segments.push(other.segments[i].clone());
            proof {
                assert(strings(r.segments@) =~= strings(prev).push(other.segments@[i as int]@));
                assert(other@.take(i + 1) =~= other@.take(i as int).push(other@[i as int]));
            }
            i += 1;
        }
        assert(other@.take(n as int) =~= other@);
        r
    }
}

/// A piece that is one ordinary path component on every platform: an ASCII
/// letter or digit, followed by ASCII letters, digits, `-`, `_` and `.`.
pub open spec fn plain_piece(s: Seq<char>) -> bool {
    &&& s.len() > 0
    &&& ascii_alphanumeric(s[0])
    &&& forall|i: int| 0 <= i < s.len() ==> ascii_alphanumeric(#[trigger] s[i]) || s[i] == '-' || s[i] == '_' || s[i] == '.'
}

/// An ASCII letter or digit.
pub open spec fn ascii_alphanumeric(c: char) -> bool {
    ('0' <= c && c <= '9') || ('a' <= c && c <= 'z') || ('A' <= c && c <= 'Z')
}

/// A path whose text reads the same on every platform up to the separator:
/// a first piece that holds no backslash and no colon and does not end in a
/// slash, then only plain pieces.
pub open spec fn portable_path(p: Seq<Seq<char>>) -> bool {
    &&& p.len() >= 1
    &&& p[0].len() > 0
    &&& p[0].last() != '/'
    &&& forall|j: int| 0 <= j < p[0].len() ==> #[trigger] p[0][j] != '\\' && p[0][j] != ':'
    &&& forall|i: int| 1 <= i < p.len() ==> plain_piece(#[trigger] p[i])
}

/// `p` is `base` with only plain pieces joined onto it.
pub open spec fn extends_with_plain_pieces(p: Seq<Seq<char>>, base: Seq<Seq<char>>) -> bool {
    &&& base.len() <= p.len()
    &&& p.take(base.len() as int) == base
    &&& forall|i: int| base.len() <= i < p.len() ==> plain_piece(#[trigger] p[i])
}

/// `p` and `base` share their first `k` pieces, both have a piece at `k`,
/// those two pieces differ, and every piece of either from `k` on is plain.
pub open spec fn diverge_at(p: Seq<Seq<char>>, base: Seq<Seq<char>>, k: int) -> bool {
    &&& 0 <= k < p.len()
    &&& k < base.len()
    &&& p.take(k) == base.take(k)
    &&& p[k] != base[k]
    &&& forall|i: int| k <= i < p.len() ==> plain_piece(#[trigger] p[i])
    &&& forall|i: int| k <= i < base.len() ==> plain_piece(#[trigger] base[i])
}

/// `p` leaves `base` at some piece: from a shared start, the two go on by
/// different plain pieces.
pub open spec fn diverges_from(p: Seq<Seq<char>>, base: Seq<Seq<char>>) -> bool {
    exists|k: int| #[trigger] diverge_at(p, base, k)
}

/// The text cut at each `/` (an empty text is one empty part).
pub open spec fn split_slash(t: Seq<char>) -> Seq<Seq<char>>
    decreases t.len(),
{
    if t.len() == 0 {
        seq![Seq::empty()]
    } else {
        let prev = split_slash(t.drop_last());
        if t.last() == '/' {
            prev.push(Seq::empty())
        } else {
            prev.update(prev.len() - 1, prev.last().push(t.last()))
        }
    }
}

/// Whether a path text starts at the root (`/`), and the parts after that.
pub open spec fn text_parts(t: Seq<char>) -> (bool, Seq<Seq<char>>) {
    if t.len() > 0 && t[0] == '/' {
        (true, split_slash(t.drop_first()))
    } else {
        (false, split_slash(t))
    }
}

/// A path whose text is plain components separated by single slashes,
/// starting at the root or not, with plain pieces joined onto it: on every
/// platform its components are an optional root and those plain parts.
pub open spec fn clean_path(p: Seq<Seq<char>>) -> bool {
    &&& p.len() >= 1
    &&& forall|i: int| 0 <= i < text_parts(p[0]).1.len() ==> plain_piece(#[trigger] text_parts(p[0]).1[i])
    &&& forall|i: int| 1 <= i < p.len() ==> plain_piece(#[trigger] p[i])
}

/// Whether a clean path starts at the root.
pub open spec fn clean_rooted(p: Seq<Seq<char>>) -> bool {
    text_parts(p[0]).0
}

/// The normal components of a clean path, in order.
pub open spec fn clean_components(p: Seq<Seq<char>>) -> Seq<Seq<char>> {
    text_parts(p[0]).1 + p.subrange(1, p.len() as int)
}

/// Whether the clean path `p` lies under the clean path `base`: both start at
/// the root or neither does, and the components of `base` begin those of `p`.
pub open spec fn clean_starts_with(p: Seq<Seq<char>>, base: Seq<Seq<char>>) -> bool {
    &&& clean_rooted(p) == clean_rooted(base)
    &&& clean_components(base).len() <= clean_components(p).len()
    &&& clean_components(p).take(clean_components(base).len() as int) == clean_components(base)
}

/// Whether `p` lies under `base` by the platform's path rules
/// (`Path::starts_with`: `base` is a prefix of `p`, whole components only).
///
/// Stated: a path built from `base` by joining plain relative pieces onto it
/// (`Path::push` extends a path by a relative piece) lies under `base`, and
/// so does `base` itself; a path that goes on from a start it shares with
/// `base` by another plain component than `base` does not (a plain piece is
/// one `Normal` component, and components are compared whole). Of two
/// clean paths, whose texts every platform splits the same way (a leading
/// `/` is the root, each plain part between slashes one component), the
/// answer is whether the components of `base` begin those of `p`. Nothing
/// is stated of other paths: they follow the path rules of the platform the
/// program runs on.
#[verifier::external_body]
fn path_starts_with(p: &FsPath, base: &FsPath) -> (r: bool)
    ensures
        extends_with_plain_pieces(p@, base@) ==> r,
        diverges_from(p@, base@) ==> !r,
        clean_path(p@) && clean_path(base@) ==> r == clean_starts_with(p@, base@),
{
    let to_buf = |f: &FsPath| f.segments.iter().collect::<std::path::PathBuf>();
    to_buf(p).starts_with(to_buf(base))
}

/// The operating system's data directory for an application
/// (`directories::ProjectDirs::from`, then `data_dir`).
///
/// Nothing is stated of the result: it depends on the platform and the
/// environment.
#[verifier::external_body]
fn project_data_dir(qualifier: &str, organization: &str, application: &str) -> (r: Option<FsPath>)
{
    directories::ProjectDirs::from(qualifier, organization, application)
        .map(|p| FsPath::new(&p.data_dir().to_string_lossy()))
}

/// The application identity whose data directory dbnest uses: qualifier
/// `dev`, organization `dbnest`, application `dbnest`.
pub fn data_dir_identity() -> (r: (String, String, String))
    ensures
        r.0@ == "dev"@,
        r.1@ == "dbnest"@,
        r.2@ == "dbnest"@,
{
    (String::from_str("dev"), String::from_str("dbnest"), String::from_str("dbnest"))
}

/// The directories dbnest keeps its data in.
#[derive(Debug)]
pub struct Dirs {
    pub base: FsPath,
    pub instances: FsPath,
    pub sqlite: FsPath,
}

/// The directory of instance metadata under `base`.
pub open spec fn instances_dir(base: Seq<Seq<char>>) -> Seq<Seq<char>> {
    base.push("instances"@)
}

/// The directory of managed SQLite files under `base`.
pub open spec fn sqlite_dir(base: Seq<Seq<char>>) -> Seq<Seq<char>> {
    base.push("sqlite"@)
}

/// The name of the metadata file of instance `id`.
pub open spec fn instance_file_name(id: Seq<char>) -> Seq<char> {
    id + ".json"@
}

impl Dirs {
    /// The directories under `base`: `instances` and `sqlite` inside it.
    pub fn from_base(base: FsPath) -> (r: Dirs)
        ensures
            r.base@ == base@,
            r.instances@ == instances_dir(base@),
            r.sqlite@ == sqlite_dir(base@),
    {
        let instances = base.join("instances");
        let sqlite = base.join("sqlite");
        Dirs { base, instances, sqlite }
    }

    /// The directories under the operating system's data directory for
    /// dbnest, the application `data_dir_identity` names; an error when that
    /// directory cannot be determined.
    pub fn for_app() -> (r: Result<Dirs>)
        ensures
            r is Err ==> is_invalid_argument(r, "cannot determine OS data directory"@),
            r matches Ok(d) ==> d.instances@ == instances_dir(d.base@) && d.sqlite@ == sqlite_dir(d.base@),
    {
        let (qualifier, organization, application) = data_dir_identity();
        Dirs::from_data_dir(project_data_dir(qualifier.as_str(), organization.as_str(), application.as_str()))
    }

    /// The directories under a data directory, when there is one.
    pub fn from_data_dir(data_dir: Option<FsPath>) -> (r: Result<Dirs>)
        ensures
            data_dir is None <==> r is Err,
            r is Err ==> is_invalid_argument(r, "cannot determine OS data directory"@),
            r matches Ok(d) ==> d.base@ == data_dir->0@ && d.instances@ == instances_dir(data_dir->0@)
                && d.sqlite@ == sqlite_dir(data_dir->0@),
    {
        match data_dir {
            Some(base) => Ok(Dirs::from_base(base)),
            None => Err(DbnestError::InvalidArgument(String::from_str("cannot determine OS data directory"))),
        }
    }

    /// The metadata file of instance `id`: `<instances>/<id>.json`.
    pub fn instance_file(&self, id: &str) -> (r: FsPath)
        ensures
            r@ == self.instances@.push(instance_file_name(id@)),
    {
        let mut name = id.to_owned();
        name.append(".json");
        self.instances.join(name.as_str())
    }

    /// The directory of the managed SQLite file of instance `id`.
    pub fn managed_sqlite_dir(&self, id: &str) -> (r: FsPath)
        ensures
            r@ == self.sqlite@.push(id@),
    {
        self.sqlite.join(id)
    }

    /// The managed SQLite file of instance `id`:
    /// `<sqlite>/<id>/database.sqlite`.
    pub fn managed_sqlite_file(&self, id: &str) -> (r: FsPath)
        ensures
            r@ == self.sqlite@.push(id@).push("database.sqlite"@),
    {
        self.managed_sqlite_dir(id).join("database.sqlite")
    }

    /// The lock file that serialises writes to the registry.
    pub fn lock_file(&self) -> (r: FsPath)
        ensures
            r@ == self.base@.push(".registry.lock"@),
    {
        self.base.join(".registry.lock")
    }

    /// Whether `p` lies under the base directory, by whole components. A
    /// path made by joining plain pieces onto the base, such as a managed
    /// SQLite file with a plain id, or the base itself, always does; a path
    /// that leaves the base's pieces for another plain piece (a sibling
    /// directory, whatever its name starts with) never does. Of clean paths
    /// it is exactly whether the base's components begin the path's.
    pub fn is_within_base(&self, p: &FsPath) -> (r: bool)
        ensures
            extends_with_plain_pieces(p@, self.base@) ==> r,
            diverges_from(p@, self.base@) ==> !r,
            clean_path(p@) && clean_path(self.base@) ==> r == clean_starts_with(p@, self.base@),
    {
        path_starts_with(p, &self.base)
    }
}

} // verus!
