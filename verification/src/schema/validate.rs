use vstd::prelude::*;

use crate::error::{is_invalid_argument, DbnestError, Result};
use crate::schema::model::{column_names, strings, table_names, Column, Index, Schema, Table};

verus! {

// ---------------------------------------------------------------------------
// What a valid schema is
// ---------------------------------------------------------------------------

/// No two entries of `s` are equal.
pub open spec fn all_distinct(s: Seq<Seq<char>>) -> bool {
    forall|i: int, j: int| 0 <= i < j < s.len() ==> s[i] != s[j]
}

/// The number of primary-key columns.
pub open spec fn pk_count(cols: Seq<Column>) -> nat
    decreases cols.len(),
{
    if cols.len() == 0 {
        0
    } else {
        pk_count(cols.drop_last()) + if cols.last().primary_key { 1nat } else { 0nat }
    }
}

/// An index is well formed over a table with columns `known` when it names at
/// least one column and every column it names exists.
pub open spec fn index_well_formed(idx: Index, known: Seq<Seq<char>>) -> bool {
    &&& idx.columns@.len() > 0
    &&& forall|k: int| 0 <= k < idx.columns@.len() ==> known.contains(#[trigger] strings(idx.columns@)[k])
}

/// A table is well formed when it has columns, no two of them share a name, at
/// most one is a primary key, and all its indexes are well formed.
pub open spec fn table_well_formed(t: Table) -> bool {
    &&& t.columns@.len() > 0
    &&& all_distinct(column_names(t.columns@))
    &&& pk_count(t.columns@) <= 1
    &&& forall|i: int| 0 <= i < t.indexes@.len() ==> index_well_formed(#[trigger] t.indexes@[i], column_names(t.columns@))
}

/// A schema is well formed when it has tables, no two of them share a name,
/// and every table is well formed.
pub open spec fn schema_well_formed(s: Schema) -> bool {
    &&& s.tables@.len() > 0
    &&& all_distinct(table_names(s.tables@))
    &&& forall|i: int| 0 <= i < s.tables@.len() ==> table_well_formed(#[trigger] s.tables@[i])
}

// ---------------------------------------------------------------------------
// Which error validation reports
// ---------------------------------------------------------------------------

pub open spec fn msg_no_tables() -> Seq<char> {
    "schema has no tables"@
}

pub open spec fn msg_duplicate_table(name: Seq<char>) -> Seq<char> {
    "duplicate table name '"@ + name + "'"@
}

pub open spec fn msg_no_columns(table: Seq<char>) -> Seq<char> {
    "table '"@ + table + "' has no columns"@
}

pub open spec fn msg_duplicate_column(col: Seq<char>, table: Seq<char>) -> Seq<char> {
    "duplicate column '"@ + col + "' in table '"@ + table + "'"@
}

pub open spec fn msg_multiple_pk(table: Seq<char>) -> Seq<char> {
    "table '"@ + table + "' has multiple primary keys (v1 supports only single-column PK)"@
}

pub open spec fn msg_index_no_columns(index: Seq<char>, table: Seq<char>) -> Seq<char> {
    "index '"@ + index + "' on table '"@ + table + "' has no columns"@
}

pub open spec fn msg_unknown_column(index: Seq<char>, table: Seq<char>, col: Seq<char>) -> Seq<char> {
    "index '"@ + index + "' on table '"@ + table + "' references unknown column '"@ + col + "'"@
}

/// The position of the first entry of `s` that repeats an earlier entry.
pub open spec fn first_repeat(s: Seq<Seq<char>>) -> Option<int>
    decreases s.len(),
{
    if s.len() == 0 {
        None
    } else {
        match first_repeat(s.drop_last()) {
            Some(j) => Some(j),
            None => if s.drop_last().contains(s.last()) { Some(s.len() - 1) } else { None },
        }
    }
}

/// The position of the first entry of `refs` that is not in `known`.
pub open spec fn first_unknown(refs: Seq<Seq<char>>, known: Seq<Seq<char>>) -> Option<int>
    decreases refs.len(),
{
    if refs.len() == 0 {
        None
    } else {
        match first_unknown(refs.drop_last(), known) {
            Some(j) => Some(j),
            None => if known.contains(refs.last()) { None } else { Some(refs.len() - 1) },
        }
    }
}

/// The error reported for one index of table `table` with columns `known`.
pub open spec fn index_error(idx: Index, known: Seq<Seq<char>>, table: Seq<char>) -> Option<Seq<char>> {
    if idx.columns@.len() == 0 {
        Some(msg_index_no_columns(idx.name@, table))
    } else {
        match first_unknown(strings(idx.columns@), known) {
            Some(k) => Some(msg_unknown_column(idx.name@, table, strings(idx.columns@)[k])),
            None => None,
        }
    }
}

/// The error reported for the first faulty index of a sequence.
pub open spec fn indexes_error(idxs: Seq<Index>, known: Seq<Seq<char>>, table: Seq<char>) -> Option<Seq<char>>
    decreases idxs.len(),
{
    if idxs.len() == 0 {
        None
    } else {
        match indexes_error(idxs.drop_last(), known, table) {
            Some(e) => Some(e),
            None => index_error(idxs.last(), known, table),
        }
    }
}

/// The error reported for a table: no columns, then the first repeated column
/// name, then more than one primary key, then the first faulty index.
pub open spec fn table_error(t: Table) -> Option<Seq<char>> {
    let names = column_names(t.columns@);
    if t.columns@.len() == 0 {
        Some(msg_no_columns(t.name@))
    } else if first_repeat(names) is Some {
        Some(msg_duplicate_column(names[first_repeat(names)->0], t.name@))
    } else if pk_count(t.columns@) > 1 {
        Some(msg_multiple_pk(t.name@))
    } else {
        indexes_error(t.indexes@, names, t.name@)
    }
}

/// The error reported for a sequence of tables: tables are checked in order,
/// each first on its own, then for a name that an earlier table has.
pub open spec fn tables_error(ts: Seq<Table>) -> Option<Seq<char>>
    decreases ts.len(),
{
    if ts.len() == 0 {
        None
    } else {
        match tables_error(ts.drop_last()) {
            Some(e) => Some(e),
            None => match table_error(ts.last()) {
                Some(e) => Some(e),
                None => if table_names(ts.drop_last()).contains(ts.last().name@) {
                    Some(msg_duplicate_table(ts.last().name@))
                } else {
                    None
                },
            },
        }
    }
}

/// The error that validating `s` reports, if any.
pub open spec fn schema_error(s: Schema) -> Option<Seq<char>> {
    if s.tables@.len() == 0 {
        Some(msg_no_tables())
    } else {
        tables_error(s.tables@)
    }
}

// ---------------------------------------------------------------------------
// Lemmas: the reported error is absent exactly on well-formed schemas
// ---------------------------------------------------------------------------

proof fn lemma_first_repeat_none(s: Seq<Seq<char>>)
    ensures
        first_repeat(s) is None <==> all_distinct(s),
    decreases s.len(),
{
    if s.len() > 0 {
        let p = s.drop_last();
        lemma_first_repeat_none(p);
        if all_distinct(s) {
            assert(all_distinct(p)) by {
                assert forall|i: int, j: int| 0 <= i < j < p.len() implies p[i] != p[j] by {
                    assert(p[i] == s[i] && p[j] == s[j]);
                }
            }
            if p.contains(s.last()) {
                let k = choose|k: int| 0 <= k < p.len() && p[k] == s.last();
                assert(s[k] == s[s.len() - 1]);
            }
        }
        if first_repeat(s) is None {
            assert forall|i: int, j: int| 0 <= i < j < s.len() implies s[i] != s[j] by {
                if j < s.len() - 1 {
                    assert(p[i] == s[i] && p[j] == s[j]);
                } else {
                    assert(p[i] == s[i]);
                    if s[i] == s[j] {
                        assert(p.contains(s.last()));
                    }
                }
            }
        }
    }
}

proof fn lemma_first_unknown_none(refs: Seq<Seq<char>>, known: Seq<Seq<char>>)
    ensures
        first_unknown(refs, known) is None <==> (forall|k: int| 0 <= k < refs.len() ==> known.contains(#[trigger] refs[k])),
        first_unknown(refs, known) matches Some(j) ==> 0 <= j < refs.len(),
    decreases refs.len(),
{
    if refs.len() > 0 {
        let p = refs.drop_last();
        lemma_first_unknown_none(p, known);
        if forall|k: int| 0 <= k < refs.len() ==> known.contains(#[trigger] refs[k]) {
            assert forall|k: int| 0 <= k < p.len() implies known.contains(#[trigger] p[k]) by {
                assert(p[k] == refs[k]);
            }
            assert(known.contains(refs[refs.len() - 1]));
        }
        if first_unknown(refs, known) is None {
            assert forall|k: int| 0 <= k < refs.len() implies known.contains(#[trigger] refs[k]) by {
                if k < refs.len() - 1 {
                    assert(p[k] == refs[k]);
                }
            }
        }
    }
}

proof fn lemma_indexes_error_none(idxs: Seq<Index>, known: Seq<Seq<char>>, table: Seq<char>)
    ensures
        indexes_error(idxs, known, table) is None <==> (forall|i: int| 0 <= i < idxs.len() ==> index_well_formed(#[trigger] idxs[i], known)),
    decreases idxs.len(),
{
    if idxs.len() > 0 {
        let p = idxs.drop_last();
        lemma_indexes_error_none(p, known, table);
        let last = idxs.last();
        lemma_first_unknown_none(strings(last.columns@), known);
        assert(index_error(last, known, table) is None <==> index_well_formed(last, known));
        if forall|i: int| 0 <= i < idxs.len() ==> index_well_formed(#[trigger] idxs[i], known) {
            assert forall|i: int| 0 <= i < p.len() implies index_well_formed(#[trigger] p[i], known) by {
                assert(p[i] == idxs[i]);
            }
            assert(index_well_formed(idxs[idxs.len() - 1], known));
        }
        if indexes_error(idxs, known, table) is None {
            assert forall|i: int| 0 <= i < idxs.len() implies index_well_formed(#[trigger] idxs[i], known) by {
                if i < idxs.len() - 1 {
                    assert(p[i] == idxs[i]);
                }
            }
        }
    }
}

proof fn lemma_table_error_none(t: Table)
    ensures
        table_error(t) is None <==> table_well_formed(t),
{
    lemma_first_repeat_none(column_names(t.columns@));
    lemma_indexes_error_none(t.indexes@, column_names(t.columns@), t.name@);
}

proof fn lemma_tables_error_none(ts: Seq<Table>)
    ensures
        tables_error(ts) is None <==> (all_distinct(table_names(ts))
            && forall|i: int| 0 <= i < ts.len() ==> table_well_formed(#[trigger] ts[i])),
    decreases ts.len(),
{
    if ts.len() > 0 {
        let p = ts.drop_last();
        lemma_tables_error_none(p);
        lemma_table_error_none(ts.last());
        assert(table_names(p) =~= table_names(ts).drop_last());
        lemma_first_repeat_none(table_names(ts));
        lemma_first_repeat_none(table_names(p));
        let good = all_distinct(table_names(ts)) && forall|i: int| 0 <= i < ts.len() ==> table_well_formed(#[trigger] ts[i]);
        if good {
            assert forall|i: int| 0 <= i < p.len() implies table_well_formed(#[trigger] p[i]) by {
                assert(p[i] == ts[i]);
            }
            assert(table_well_formed(ts[ts.len() - 1]));
            assert(table_names(ts).last() == ts.last().name@);
        }
        if tables_error(ts) is None {
            assert forall|i: int| 0 <= i < ts.len() implies table_well_formed(#[trigger] ts[i]) by {
                if i < ts.len() - 1 {
                    assert(p[i] == ts[i]);
                }
            }
            assert(table_names(ts).last() == ts.last().name@);
        }
    }
}

/// Validation succeeds exactly on the schemas that are well formed: at least
/// one table, distinct table names, and in every table at least one column,
/// distinct column names, at most one primary key, and indexes that name at
/// least one column and only columns of their table.
pub proof fn lemma_schema_error_none(s: Schema)
    ensures
        schema_error(s) is None <==> schema_well_formed(s),
{
    lemma_tables_error_none(s.tables@);
}

// ---------------------------------------------------------------------------
// Executable validation
// ---------------------------------------------------------------------------

/// Checks a schema before SQL is planned from it.
///
/// Succeeds exactly on well-formed schemas; otherwise reports, as
/// `InvalidArgument`, the first problem found, tables checked in order.
pub fn validate_schema(schema: &Schema) -> (r: Result<()>)
    ensures
        r is Ok <==> schema_error(*schema) is None,
        r is Ok <==> schema_well_formed(*schema),
        r is Err ==> is_invalid_argument(r, schema_error(*schema)->0),
{
    proof {
        lemma_schema_error_none(*schema);
    }
    let n = schema.tables.len();
    if n == 0 {
        return Err(DbnestError::InvalidArgument(String::from_str("schema has no tables")));
    }
    let ghost ts = schema.tables@;
    let mut i: usize = 0;
    while i < n
        invariant
            n == ts.len(),
            ts == schema.tables@,
            0 < n,
            i <= n,
            tables_error(ts.take(i as int)) is None,
            schema_error(*schema) is None <==> schema_well_formed(*schema),
        decreases n - i,
    {
        let t = &schema.tables[i];
        assert(ts.take(i + 1).drop_last() =~= ts.take(i as int));
        assert(ts.take(i + 1).last() == ts[i as int]);
        match validate_table(t) {
            Err(e) => {
                proof {
                    lemma_tables_error_prefix(ts, i + 1);
                }
                return Err(e);
            },
            Ok(()) => {},
        }
        let mut j: usize = 0;
        while j < i
            invariant
                i < n,
                n == ts.len(),
                ts == schema.tables@,
                j <= i,
                t == ts[i as int],
                forall|k: int| 0 <= k < j ==> ts[k].name@ != t.name@,
                tables_error(ts.take(i as int)) is None,
                table_error(ts[i as int]) is None,
                ts.take(i + 1).drop_last() =~= ts.take(i as int),
                ts.take(i + 1).last() == ts[i as int],
                schema_error(*schema) is None <==> schema_well_formed(*schema),
            decreases i - j,
        {
            if schema.tables[j].name == t.name {
                let mut m = String::from_str("duplicate table name '");
                m.append(t.name.as_str());
                m.append("'");
                proof {
                    assert(table_names(ts.take(i as int))[j as int] == t.name@);
                    assert(table_names(ts.take(i as int)).contains(t.name@));
                    assert(tables_error(ts.take(i + 1)) == Some(msg_duplicate_table(t.name@)));
                    lemma_tables_error_prefix(ts, i + 1);
                }
                return Err(DbnestError::InvalidArgument(m));
            }
            j += 1;
        }
        proof {
            if table_names(ts.take(i as int)).contains(t.name@) {
                let k = choose|k: int| 0 <= k < i && table_names(ts.take(i as int))[k] == t.name@;
                assert(ts[k].name@ == t.name@);
            }
        }
        i += 1;
    }
    assert(ts.take(n as int) =~= ts);
    Ok(())
}

/// Checks one table: it has columns, no repeated column name, at most one
/// primary key, and indexes over existing columns.
pub fn validate_table(t: &Table) -> (r: Result<()>)
    ensures
        r is Ok <==> table_error(*t) is None,
        r is Err ==> is_invalid_argument(r, table_error(*t)->0),
{
    let n = t.columns.len();
    if n == 0 {
        let mut m = String::from_str("table '");
        m.append(t.name.as_str());
        m.append("' has no columns");
        return Err(DbnestError::InvalidArgument(m));
    }
    let ghost cols = t.columns@;
    let ghost names = column_names(cols);
    let mut pk: usize = 0;
    let mut i: usize = 0;
    while i < n
        invariant
            n == cols.len(),
            cols == t.columns@,
            names == column_names(cols),
            i <= n,
            first_repeat(names.take(i as int)) is None,
            pk == pk_count(cols.take(i as int)),
            pk <= i,
        decreases n - i,
    {
        let c = &t.columns[i];
        assert(names.take(i + 1).drop_last() =~= names.take(i as int));
        assert(names.take(i + 1).last() == c.name@);
        assert(cols.take(i + 1).drop_last() =~= cols.take(i as int));
        let mut j: usize = 0;
        while j < i
            invariant
                i < n,
                n == cols.len(),
                cols == t.columns@,
                names == column_names(cols),
                j <= i,
                c == cols[i as int],
                forall|k: int| 0 <= k < j ==> cols[k].name@ != c.name@,
                first_repeat(names.take(i as int)) is None,
                names.take(i + 1).drop_last() =~= names.take(i as int),
                names.take(i + 1).last() == c.name@,
                n > 0,
            decreases i - j,
        {
            if t.columns[j].name == c.name {
                let mut m = String::from_str("duplicate column '");
                m.append(c.name.as_str());
                m.append("' in table '");
                m.append(t.name.as_str());
                m.append("'");
                proof {
                    assert(names.take(i as int)[j as int] == c.name@);
                    assert(names.take(i as int).contains(c.name@));
                    assert(first_repeat(names.take(i + 1)) == Some(i as int));
                    lemma_first_repeat_prefix(names, i + 1);
                    assert(names[i as int] == c.name@);
                }
                return Err(DbnestError::InvalidArgument(m));
            }
            j += 1;
        }
        proof {
            if names.take(i as int).contains(c.name@) {
                let k = choose|k: int| 0 <= k < i && names.take(i as int)[k] == c.name@;
                assert(cols[k].name@ == c.name@);
            }
        }
        if c.primary_key {
            pk += 1;
        }
        i += 1;
    }
    assert(names.take(n as int) =~= names);
    assert(cols.take(n as int) =~= cols);
    if pk > 1 {
        let mut m = String::from_str("table '");
        m.append(t.name.as_str());
        m.append("' has multiple primary keys (v1 supports only single-column PK)");
        return Err(DbnestError::InvalidArgument(m));
    }
    let ghost idxs = t.indexes@;
    let ni = t.indexes.len();
    let mut k: usize = 0;
    while k < ni
        invariant
            ni == idxs.len(),
            idxs == t.indexes@,
            n == cols.len(),
            cols == t.columns@,
            names == column_names(cols),
            k <= ni,
            indexes_error(idxs.take(k as int), names, t.name@) is None,
            first_repeat(names) is None,
            pk_count(cols) <= 1,
            n > 0,
        decreases ni - k,
    {
        let idx = &t.indexes[k];
        assert(idxs.take(k + 1).drop_last() =~= idxs.take(k as int));
        assert(idxs.take(k + 1).last() == idx);
        match validate_index(idx, t) {
            Err(e) => {
                proof {
                    lemma_indexes_error_prefix(idxs, names, t.name@, k + 1);
                }
                return Err(e);
            },
            Ok(()) => {},
        }
        k += 1;
    }
    assert(idxs.take(ni as int) =~= idxs);
    Ok(())
}

proof fn lemma_first_repeat_prefix(s: Seq<Seq<char>>, m: int)
    requires
        0 <= m <= s.len(),
        first_repeat(s.take(m)) is Some,
    ensures
        first_repeat(s) == first_repeat(s.take(m)),
    decreases s.len(),
{
    if m == s.len() {
        assert(s.take(m) =~= s);
    } else {
        assert(s.drop_last().take(m) =~= s.take(m));
        lemma_first_repeat_prefix(s.drop_last(), m);
    }
}

proof fn lemma_indexes_error_prefix(idxs: Seq<Index>, known: Seq<Seq<char>>, table: Seq<char>, m: int)
    requires
        0 <= m <= idxs.len(),
        indexes_error(idxs.take(m), known, table) is Some,
    ensures
        indexes_error(idxs, known, table) == indexes_error(idxs.take(m), known, table),
    decreases idxs.len(),
{
    if m == idxs.len() {
        assert(idxs.take(m) =~= idxs);
    } else {
        assert(idxs.drop_last().take(m) =~= idxs.take(m));
        lemma_indexes_error_prefix(idxs.drop_last(), known, table, m);
    }
}

proof fn lemma_tables_error_prefix(ts: Seq<Table>, m: int)
    requires
        0 <= m <= ts.len(),
        tables_error(ts.take(m)) is Some,
    ensures
        tables_error(ts) == tables_error(ts.take(m)),
    decreases ts.len(),
{
    if m == ts.len() {
        assert(ts.take(m) =~= ts);
    } else {
        assert(ts.drop_last().take(m) =~= ts.take(m));
        lemma_tables_error_prefix(ts.drop_last(), m);
    }
}

/// Checks one index of table `t`.
fn validate_index(idx: &Index, t: &Table) -> (r: Result<()>)
    ensures
        r is Ok <==> index_error(*idx, column_names(t.columns@), t.name@) is None,
        r is Err ==> is_invalid_argument(r, index_error(*idx, column_names(t.columns@), t.name@)->0),
{
    let ghost names = column_names(t.columns@);
    let ghost refs = strings(idx.columns@);
    let nc = idx.columns.len();
    if nc == 0 {
        let mut m = String::from_str("index '");
        m.append(idx.name.as_str());
        m.append("' on table '");
        m.append(t.name.as_str());
        m.append("' has no columns");
        return Err(DbnestError::InvalidArgument(m));
    }
    let mut q: usize = 0;
    while q < nc
        invariant
            nc == idx.columns@.len(),
            refs == strings(idx.columns@),
            names == column_names(t.columns@),
            q <= nc,
            first_unknown(refs.take(q as int), names) is None,
        decreases nc - q,
    {
        let col = &idx.columns[q];
        assert(refs.take(q + 1).drop_last() =~= refs.take(q as int));
        assert(refs.take(q + 1).last() == col@);
        if !column_exists(t, col) {
            let mut m = String::from_str("index '");
            m.append(idx.name.as_str());
            m.append("' on table '");
            m.append(t.name.as_str());
            m.append("' references unknown column '");
            m.append(col.as_str());
            m.append("'");
            proof {
                lemma_first_unknown_none(refs, names);
                lemma_first_unknown_extend(refs, names, q as int);
            }
            return Err(DbnestError::InvalidArgument(m));
        }
        q += 1;
    }
    assert(refs.take(nc as int) =~= refs);
    Ok(())
}

proof fn lemma_first_unknown_extend(refs: Seq<Seq<char>>, known: Seq<Seq<char>>, q: int)
    requires
        0 <= q < refs.len(),
        first_unknown(refs.take(q), known) is None,
        !known.contains(refs[q]),
    ensures
        first_unknown(refs, known) == Some(q),
    decreases refs.len(),
{
    if q < refs.len() - 1 {
        let p = refs.drop_last();
        assert(p.take(q) =~= refs.take(q));
        assert(p[q] == refs[q]);
        lemma_first_unknown_extend(p, known, q);
    } else {
        assert(refs.drop_last() =~= refs.take(q));
    }
}

/// Whether table `t` has a column named `name`.
fn column_exists(t: &Table, name: &String) -> (r: bool)
    ensures
        r == column_names(t.columns@).contains(name@),
{
    let n = t.columns.len();
    let mut i: usize = 0;
    while i < n
        invariant
            n == t.columns@.len(),
            i <= n,
            forall|k: int| 0 <= k < i ==> t.columns@[k].name@ != name@,
        decreases n - i,
    {
        if t.columns[i].name == *name {
            assert(column_names(t.columns@)[i as int] == name@);
            return true;
        }
        i += 1;
    }
    proof {
        if column_names(t.columns@).contains(name@) {
            let k = choose|k: int| 0 <= k < n && column_names(t.columns@)[k] == name@;
            assert(t.columns@[k].name@ == name@);
        }
    }
    false
}

} // verus!
