use vstd::multiset::Multiset;
use vstd::prelude::*;

use crate::instance::model::Instance;
use crate::paths::{instance_file_name, Dirs, FsPath};

verus! {

/// The registry of instances: one JSON file per instance under the
/// `instances` directory.
#[derive(Debug)]
pub struct Registry {
    dirs: Dirs,
}

impl Registry {
    /// A registry kept in `dirs`.
    pub fn with_dirs(dirs: Dirs) -> (r: Registry)
        ensures
            r.spec_dirs() == dirs,
    {
        Registry { dirs }
    }

    /// The directories of this registry.
    pub closed spec fn spec_dirs(&self) -> Dirs {
        self.dirs
    }

    /// The directories of this registry.
    pub fn dirs(&self) -> (r: &Dirs)
        ensures
            r == self.spec_dirs(),
    {
        &self.dirs
    }

    /// The metadata file of instance `id`.
    pub fn instance_path(&self, id: &str) -> (r: FsPath)
        ensures
            r@ == self.spec_dirs().instances@.push(instance_file_name(id@)),
    {
        self.dirs.instance_file(id)
    }
}

// ---------------------------------------------------------------------------
// Which files are instance metadata
// ---------------------------------------------------------------------------

/// The extension of a file name, as `Path::extension` documents it: none for
/// `..` (which names no file) and when the name has no `.` other than a
/// leading one, else what follows the last `.`.
pub open spec fn extension(name: Seq<char>) -> Option<Seq<char>> {
    if name != ".."@ && exists|i: int| 0 < i < name.len() && name[i] == '.' {
        let i = choose|i: int| 0 < i < name.len() && name[i] == '.' && forall|j: int| i < j < name.len() ==> name[j] != '.';
        Some(name.subrange(i + 1, name.len() as int))
    } else {
        None
    }
}

/// Whether a file name has the extension `json`.
pub fn has_json_extension(name: &str) -> (r: bool)
    ensures
        r == (extension(name@) == Some("json"@)),
{
    if crate::text::str_eq(name, "..") {
        return false;
    }
    let n = name.unicode_len();
    let mut i = n;
    while i > 1
        invariant
            n == name@.len(),
            i <= n,
            forall|j: int| i <= j < n ==> name@[j] != '.',
            name@ != ".."@,
        decreases i,
    {
        if name.get_char(i - 1) == '.' {
            let last = i - 1;
            assert(0 < last < name@.len() && name@[last as int] == '.');
            let ghost k = choose|k: int| 0 < k < name@.len() && name@[k] == '.' && forall|j: int| k < j < name@.len() ==> name@[j] != '.';
            assert(k == last) by {
                if k < last {
                    assert(name@[last as int] != '.');
                }
                if k > last {
                    assert(name@[k] != '.');
                }
            }
            let ext = name.substring_char(i, n);
            return str_eq_json(ext);
        }
        i -= 1;
    }
    proof {
        if exists|k: int| 0 < k < name@.len() && name@[k] == '.' {
            let k = choose|k: int| 0 < k < name@.len() && name@[k] == '.';
            assert(name@[k] != '.');
        }
    }
    false
}

fn str_eq_json(s: &str) -> (r: bool)
    ensures
        r == (s@ == "json"@),
{
    crate::text::str_eq(s, "json")
}

// ---------------------------------------------------------------------------
// The order of the listing: newest first
// ---------------------------------------------------------------------------

/// `x` placed into `sorted` after the entries created strictly later than it
/// and before the rest.
pub open spec fn insert_by_age(sorted: Seq<Instance>, x: Instance) -> Seq<Instance>
    decreases sorted.len(),
{
    if sorted.len() == 0 {
        seq![x]
    } else if sorted[0].created_at > x.created_at {
        seq![sorted[0]] + insert_by_age(sorted.drop_first(), x)
    } else {
        seq![x] + sorted
    }
}

/// The instances ordered newest first; instances created at the same instant
/// keep their relative order (a stable sort by descending creation time).
pub open spec fn newest_first(s: Seq<Instance>) -> Seq<Instance>
    decreases s.len(),
{
    if s.len() == 0 {
        Seq::empty()
    } else {
        insert_by_age(newest_first(s.drop_first()), s[0])
    }
}

/// No entry was created later than an entry before it.
pub open spec fn sorted_newest_first(s: Seq<Instance>) -> bool {
    forall|i: int, j: int| 0 <= i < j < s.len() ==> s[i].created_at >= s[j].created_at
}

/// The entries of `s` created at instant `t`, in order.
pub open spec fn created_at_instant(s: Seq<Instance>, t: i128) -> Seq<Instance>
    decreases s.len(),
{
    if s.len() == 0 {
        Seq::empty()
    } else {
        (if s[0].created_at == t { seq![s[0]] } else { Seq::empty() }) + created_at_instant(s.drop_first(), t)
    }
}

proof fn lemma_insert_by_age_facts(sorted: Seq<Instance>, x: Instance)
    requires
        sorted_newest_first(sorted),
    ensures
        sorted_newest_first(insert_by_age(sorted, x)),
        insert_by_age(sorted, x).len() == sorted.len() + 1,
        insert_by_age(sorted, x).to_multiset() == sorted.to_multiset().insert(x),
        forall|t: i128| #[trigger] created_at_instant(insert_by_age(sorted, x), t)
            == if x.created_at == t { seq![x] + created_at_instant(sorted, t) } else { created_at_instant(sorted, t) },
    decreases sorted.len(),
{
    broadcast use vstd::seq_lib::group_to_multiset_ensures;
    let r = insert_by_age(sorted, x);
    if sorted.len() == 0 {
        assert(r =~= seq![x]);
        assert forall|t: i128| #[trigger] created_at_instant(r, t)
            == if x.created_at == t { seq![x] + created_at_instant(sorted, t) } else { created_at_instant(sorted, t) } by {
            assert(r.drop_first() =~= Seq::<Instance>::empty());
            assert(created_at_instant(sorted, t) =~= Seq::<Instance>::empty());
            assert(created_at_instant(r.drop_first(), t) =~= Seq::<Instance>::empty());
        }
        assert(sorted =~= Seq::<Instance>::empty());
        assert(r.to_multiset() =~= Multiset::<Instance>::empty().insert(x)) by {
            broadcast use vstd::seq_lib::group_to_multiset_ensures;
            assert(r =~= Seq::<Instance>::empty().push(x));
        }
    } else if sorted[0].created_at > x.created_at {
        let rest = sorted.drop_first();
        assert(sorted_newest_first(rest)) by {
            assert forall|i: int, j: int| 0 <= i < j < rest.len() implies rest[i].created_at >= rest[j].created_at by {
                assert(rest[i] == sorted[i + 1] && rest[j] == sorted[j + 1]);
            }
        }
        lemma_insert_by_age_facts(rest, x);
        let ir = insert_by_age(rest, x);
        assert(r == seq![sorted[0]] + ir);
        assert forall|i: int, j: int| 0 <= i < j < r.len() implies r[i].created_at >= r[j].created_at by {
            if i == 0 {
                assert(r[j] == ir[j - 1]);
                // every entry of ir is an entry of rest or x
                lemma_insert_by_age_member(rest, x, j - 1);
                if ir[j - 1] != x {
                    let k = choose|k: int| 0 <= k < rest.len() && rest[k] == ir[j - 1];
                    assert(rest[k] == sorted[k + 1]);
                }
            } else {
                assert(r[i] == ir[i - 1] && r[j] == ir[j - 1]);
            }
        }
        assert(r.drop_first() =~= ir);
        assert forall|t: i128| #[trigger] created_at_instant(r, t)
            == if x.created_at == t { seq![x] + created_at_instant(sorted, t) } else { created_at_instant(sorted, t) } by {
            assert(created_at_instant(ir, t) == if x.created_at == t { seq![x] + created_at_instant(rest, t) } else { created_at_instant(rest, t) });
            if x.created_at == t {
                assert(sorted[0].created_at != t);
                assert(created_at_instant(r, t) =~= Seq::<Instance>::empty() + created_at_instant(ir, t));
                assert(created_at_instant(sorted, t) =~= Seq::<Instance>::empty() + created_at_instant(rest, t));
            }
        }
        assert(r.to_multiset() =~= sorted.to_multiset().insert(x)) by {
            broadcast use vstd::seq_lib::group_to_multiset_ensures;
            lemma_multiset_cons(sorted[0], ir);
            lemma_multiset_cons(sorted[0], rest);
            assert(sorted =~= seq![sorted[0]] + rest);
            assert(ir.to_multiset() == rest.to_multiset().insert(x));
            assert(sorted.to_multiset() =~= rest.to_multiset().insert(sorted[0]));
        }
    } else {
        assert(r == seq![x] + sorted);
        assert forall|i: int, j: int| 0 <= i < j < r.len() implies r[i].created_at >= r[j].created_at by {
            if i == 0 {
                assert(r[j] == sorted[j - 1]);
                assert(sorted[0].created_at >= sorted[j - 1].created_at);
            } else {
                assert(r[i] == sorted[i - 1] && r[j] == sorted[j - 1]);
            }
        }
        assert(r.drop_first() =~= sorted);
        assert forall|t: i128| #[trigger] created_at_instant(r, t)
            == if x.created_at == t { seq![x] + created_at_instant(sorted, t) } else { created_at_instant(sorted, t) } by {
            if x.created_at != t {
                assert(created_at_instant(r, t) =~= Seq::<Instance>::empty() + created_at_instant(sorted, t));
            }
        }
        assert(r.to_multiset() =~= sorted.to_multiset().insert(x)) by {
            broadcast use vstd::seq_lib::group_to_multiset_ensures;
            lemma_multiset_cons(x, sorted);
        }
    }
}

proof fn lemma_multiset_cons(x: Instance, s: Seq<Instance>)
    ensures
        (seq![x] + s).to_multiset() =~= s.to_multiset().insert(x),
    decreases s.len(),
{
    broadcast use vstd::seq_lib::group_to_multiset_ensures;
    if s.len() == 0 {
        assert(seq![x] + s =~= Seq::<Instance>::empty().push(x));
    } else {
        let p = s.drop_last();
        lemma_multiset_cons(x, p);
        assert(seq![x] + s =~= (seq![x] + p).push(s.last()));
        assert(s =~= p.push(s.last()));
    }
}

proof fn lemma_insert_by_age_member(sorted: Seq<Instance>, x: Instance, j: int)
    requires
        0 <= j < insert_by_age(sorted, x).len(),
        insert_by_age(sorted, x).len() == sorted.len() + 1,
    ensures
        insert_by_age(sorted, x)[j] == x || exists|k: int| 0 <= k < sorted.len() && sorted[k] == insert_by_age(sorted, x)[j],
    decreases sorted.len(),
{
    let r = insert_by_age(sorted, x);
    if sorted.len() == 0 {
    } else if sorted[0].created_at > x.created_at {
        let rest = sorted.drop_first();
        if j == 0 {
            assert(sorted[0] == r[0]);
        } else {
            lemma_insert_by_age_len(rest, x);
            lemma_insert_by_age_member(rest, x, j - 1);
            if r[j] != x {
                let k = choose|k: int| 0 <= k < rest.len() && rest[k] == insert_by_age(rest, x)[j - 1];
                assert(sorted[k + 1] == r[j]);
            }
        }
    } else {
        if j > 0 {
            assert(sorted[j - 1] == r[j]);
        }
    }
}

proof fn lemma_insert_by_age_len(sorted: Seq<Instance>, x: Instance)
    ensures
        insert_by_age(sorted, x).len() == sorted.len() + 1,
    decreases sorted.len(),
{
    if sorted.len() > 0 && sorted[0].created_at > x.created_at {
        lemma_insert_by_age_len(sorted.drop_first(), x);
    }
}

/// The listing order: entries appear newest first, the listing holds exactly
/// the given entries, and entries created at the same instant keep the order
/// in which they were found.
pub proof fn lemma_newest_first(s: Seq<Instance>)
    ensures
        sorted_newest_first(newest_first(s)),
        newest_first(s).to_multiset() == s.to_multiset(),
        forall|t: i128| #[trigger] created_at_instant(newest_first(s), t) == created_at_instant(s, t),
    decreases s.len(),
{
    if s.len() == 0 {
        assert(newest_first(s) =~= s);
    } else {
        let rest = s.drop_first();
        lemma_newest_first(rest);
        lemma_insert_by_age_facts(newest_first(rest), s[0]);
        assert(s =~= seq![s[0]] + rest);
        lemma_multiset_cons(s[0], rest);
        assert forall|t: i128| #[trigger] created_at_instant(newest_first(s), t) == created_at_instant(s, t) by {
            assert(created_at_instant(newest_first(rest), t) == created_at_instant(rest, t));
            if s[0].created_at == t {
                assert(created_at_instant(s, t) =~= seq![s[0]] + created_at_instant(rest, t));
            } else {
                assert(created_at_instant(s, t) =~= Seq::<Instance>::empty() + created_at_instant(rest, t));
            }
        }
    }
}

/// Where `x` goes in `sorted`: after the entries created strictly later.
proof fn lemma_insert_by_age_split(sorted: Seq<Instance>, x: Instance, p: int)
    requires
        0 <= p <= sorted.len(),
        forall|k: int| 0 <= k < p ==> sorted[k].created_at > x.created_at,
        p == sorted.len() || sorted[p].created_at <= x.created_at,
    ensures
        insert_by_age(sorted, x) =~= sorted.take(p) + seq![x] + sorted.skip(p),
    decreases sorted.len(),
{
    if sorted.len() == 0 {
    } else if p == 0 {
    } else {
        let rest = sorted.drop_first();
        assert forall|k: int| 0 <= k < p - 1 implies rest[k].created_at > x.created_at by {
            assert(rest[k] == sorted[k + 1]);
        }
        if p < sorted.len() {
            assert(rest[p - 1] == sorted[p]);
        }
        lemma_insert_by_age_split(rest, x, p - 1);
        assert(rest.take(p - 1) =~= sorted.take(p).drop_first());
        assert(rest.skip(p - 1) =~= sorted.skip(p));
    }
}

/// Orders instances newest first, as the registry lists them; instances
/// created at the same instant keep their order.
pub fn order_newest_first(instances: Vec<Instance>) -> (r: Vec<Instance>)
    ensures
        r@ == newest_first(instances@),
        sorted_newest_first(r@),
        r@.to_multiset() == instances@.to_multiset(),
{
    let ghost s = instances@;
    let mut rest = instances;
    let mut out: Vec<Instance> = Vec::new();
    while rest.len() > 0
        invariant
            rest@ =~= s.take(rest@.len() as int),
            rest@.len() <= s.len(),
            out@ == newest_first(s.skip(rest@.len() as int)),
        decreases rest@.len(),
    {
        let ghost k = rest@.len() as int;
        let x = rest.pop().unwrap();
        assert(x == s[k - 1]);
        assert(s.skip(k - 1).drop_first() =~= s.skip(k));
        assert(s.skip(k - 1)[0] == x);
        let n = out.len();
        let mut p: usize = 0;
        while p < n && out[p].created_at > x.created_at
            invariant
                n == out@.len(),
                p <= n,
                forall|q: int| 0 <= q < p ==> out@[q].created_at > x.created_at,
            decreases n - p,
        {
            p += 1;
        }
        proof {
            lemma_insert_by_age_split(out@, x, p as int);
        }
        out.insert(p, x);
        assert(out@ =~= newest_first(s.skip(k - 1)));
    }
    assert(s.skip(0) =~= s);
    proof {
        lemma_newest_first(s);
    }
    out
}

} // verus!
