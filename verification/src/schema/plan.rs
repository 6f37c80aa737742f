use vstd::prelude::*;

use crate::engine::Engine;
use crate::error::{is_invalid_argument, DbnestError, Result};
use crate::schema::model::{Column, Index, LogicalType, Schema, Table};
use crate::schema::validate::{schema_error, validate_schema};
use crate::text::{strings, join, join_strings, push_char, str_eq};

verus! {

/// A list of SQL statements to run in order.
#[derive(Clone, Debug)]
pub struct SqlPlan {
    pub statements: Vec<String>,
}

/// The SQL dialects a schema can be planned for.
#[derive(Clone, Copy, Debug, PartialEq, Eq, Structural)]
pub enum SqlDialect {
    Postgres,
    Sqlite,
}

// ---------------------------------------------------------------------------
// The statements a plan holds
// ---------------------------------------------------------------------------

/// `s` with every double quote doubled.
pub open spec fn escape_quotes(s: Seq<char>) -> Seq<char>
    decreases s.len(),
{
    if s.len() == 0 {
        Seq::empty()
    } else {
        escape_quotes(s.drop_last()) + if s.last() == '"' { seq!['"', '"'] } else { seq![s.last()] }
    }
}

/// A quoted SQL identifier: `s` in double quotes, inner quotes doubled.
pub open spec fn quoted(s: Seq<char>) -> Seq<char> {
    seq!['"'] + escape_quotes(s) + seq!['"']
}

/// The PostgreSQL type of a logical column type.
pub open spec fn postgres_type(t: LogicalType) -> Seq<char> {
    match t {
        LogicalType::String => "TEXT"@,
        LogicalType::Int64 => "BIGINT"@,
        LogicalType::Bool => "BOOLEAN"@,
        LogicalType::Uuid => "UUID"@,
        LogicalType::Timestamp => "TIMESTAMPTZ"@,
    }
}

/// The PostgreSQL default expression: `now` becomes `NOW()`, any other text
/// stands as it is.
pub open spec fn postgres_default(d: Seq<char>) -> Seq<char> {
    if d == "now"@ { "NOW()"@ } else { d }
}

/// The SQLite type of a logical column type: SQLite stores text, integers
/// and booleans (as integers), and keeps UUIDs and timestamps as text.
pub open spec fn sqlite_type(t: LogicalType) -> Seq<char> {
    match t {
        LogicalType::String => "TEXT"@,
        LogicalType::Int64 => "INTEGER"@,
        LogicalType::Bool => "INTEGER"@,
        LogicalType::Uuid => "TEXT"@,
        LogicalType::Timestamp => "TEXT"@,
    }
}

/// The SQLite default expression: `now` becomes `CURRENT_TIMESTAMP`, any
/// other text stands as it is.
pub open spec fn sqlite_default(d: Seq<char>) -> Seq<char> {
    if d == "now"@ { "CURRENT_TIMESTAMP"@ } else { d }
}

/// The column type of a logical type in a dialect.
pub open spec fn dialect_type(dialect: SqlDialect, t: LogicalType) -> Seq<char> {
    match dialect {
        SqlDialect::Postgres => postgres_type(t),
        SqlDialect::Sqlite => sqlite_type(t),
    }
}

/// The default expression of a schema default in a dialect.
pub open spec fn dialect_default(dialect: SqlDialect, d: Seq<char>) -> Seq<char> {
    match dialect {
        SqlDialect::Postgres => postgres_default(d),
        SqlDialect::Sqlite => sqlite_default(d),
    }
}

/// The definition of one column inside `CREATE TABLE`.
pub open spec fn column_sql(dialect: SqlDialect, c: Column) -> Seq<char> {
    quoted(c.name@) + " "@ + dialect_type(dialect, c.col_type)
        + (if c.primary_key { " PRIMARY KEY"@ } else { Seq::empty() })
        + (if c.unique && !c.primary_key { " UNIQUE"@ } else { Seq::empty() })
        + (if !c.nullable && !c.primary_key { " NOT NULL"@ } else { Seq::empty() })
        + (match c.default {
            Some(d) => " DEFAULT "@ + dialect_default(dialect, d@),
            None => Seq::empty(),
        })
}

/// The column definitions of a sequence of columns.
pub open spec fn column_sqls(dialect: SqlDialect, cols: Seq<Column>) -> Seq<Seq<char>> {
    cols.map_values(|c: Column| column_sql(dialect, c))
}

/// Each name quoted.
pub open spec fn quoted_all(names: Seq<Seq<char>>) -> Seq<Seq<char>> {
    names.map_values(|c: Seq<char>| quoted(c))
}

/// The `CREATE INDEX` statements of indexes of table `table`.
pub open spec fn index_sqls(idxs: Seq<Index>, table: Seq<char>) -> Seq<Seq<char>> {
    idxs.map_values(|i: Index| create_index_sql(i, table))
}

/// A column's definition opens with its quoted name, a space and its type in
/// the dialect: in PostgreSQL `TEXT`, `BIGINT`, `BOOLEAN`, `UUID` or
/// `TIMESTAMPTZ` (the types `map_type` gives), in SQLite `TEXT`, `INTEGER`,
/// `INTEGER`, `TEXT` or `TEXT` (the types `map_sqlite_type` gives), for
/// string, 64-bit integer, boolean, UUID and timestamp columns.
pub proof fn lemma_column_type_names(c: Column)
    ensures
        (quoted(c.name@) + " "@ + postgres_type(c.col_type)).is_prefix_of(column_sql(SqlDialect::Postgres, c)),
        (quoted(c.name@) + " "@ + sqlite_type(c.col_type)).is_prefix_of(column_sql(SqlDialect::Sqlite, c)),
        (quoted(c.name@) + " "@ + match c.col_type {
            LogicalType::String => "TEXT"@,
            LogicalType::Int64 => "BIGINT"@,
            LogicalType::Bool => "BOOLEAN"@,
            LogicalType::Uuid => "UUID"@,
            LogicalType::Timestamp => "TIMESTAMPTZ"@,
        }).is_prefix_of(column_sql(SqlDialect::Postgres, c)),
        (quoted(c.name@) + " "@ + match c.col_type {
            LogicalType::String => "TEXT"@,
            LogicalType::Int64 => "INTEGER"@,
            LogicalType::Bool => "INTEGER"@,
            LogicalType::Uuid => "TEXT"@,
            LogicalType::Timestamp => "TEXT"@,
        }).is_prefix_of(column_sql(SqlDialect::Sqlite, c)),
{
    let pg = quoted(c.name@) + " "@ + postgres_type(c.col_type);
    let sl = quoted(c.name@) + " "@ + sqlite_type(c.col_type);
    let pg_all = column_sql(SqlDialect::Postgres, c);
    let sl_all = column_sql(SqlDialect::Sqlite, c);
    assert(pg_all.subrange(0, pg.len() as int) =~= pg);
    assert(sl_all.subrange(0, sl.len() as int) =~= sl);
}

/// The `CREATE TABLE` statement of a table.
pub open spec fn create_table_sql(dialect: SqlDialect, t: Table) -> Seq<char> {
    "CREATE TABLE IF NOT EXISTS "@ + quoted(t.name@) + " (\n  "@
        + join(column_sqls(dialect, t.columns@), ",\n  "@) + "\n);"@
}

/// The `CREATE INDEX` statement of an index of table `table`.
pub open spec fn create_index_sql(idx: Index, table: Seq<char>) -> Seq<char> {
    "CREATE "@ + (if idx.unique { "UNIQUE "@ } else { Seq::empty() }) + "INDEX IF NOT EXISTS "@
        + quoted(idx.name@) + " ON "@ + quoted(table) + " ("@
        + join(quoted_all(strings(idx.columns@)), ", "@) + ");"@
}

/// The statements of one table: its `CREATE TABLE`, then one `CREATE INDEX`
/// per index, in order.
pub open spec fn table_statements(dialect: SqlDialect, t: Table) -> Seq<Seq<char>> {
    seq![create_table_sql(dialect, t)] + index_sqls(t.indexes@, t.name@)
}

/// The statements of a sequence of tables, table after table.
pub open spec fn plan_statements(dialect: SqlDialect, ts: Seq<Table>) -> Seq<Seq<char>>
    decreases ts.len(),
{
    if ts.len() == 0 {
        Seq::empty()
    } else {
        plan_statements(dialect, ts.drop_last()) + table_statements(dialect, ts.last())
    }
}

/// The number of statements planned for a sequence of tables.
pub open spec fn statement_count(ts: Seq<Table>) -> nat
    decreases ts.len(),
{
    if ts.len() == 0 {
        0
    } else {
        statement_count(ts.drop_last()) + 1 + ts.last().indexes@.len()
    }
}

/// A plan has one `CREATE TABLE` per table plus one `CREATE INDEX` per index.
pub proof fn lemma_plan_statement_count(dialect: SqlDialect, ts: Seq<Table>)
    ensures
        plan_statements(dialect, ts).len() == statement_count(ts),
    decreases ts.len(),
{
    if ts.len() > 0 {
        lemma_plan_statement_count(dialect, ts.drop_last());
    }
}

/// Quoting is injective: two identifiers quote alike only when they are equal.
pub proof fn lemma_quoted_injective(a: Seq<char>, b: Seq<char>)
    requires
        quoted(a) == quoted(b),
    ensures
        a == b,
{
    assert(escape_quotes(a) =~= quoted(a).subrange(1, quoted(a).len() - 1));
    assert(escape_quotes(b) =~= quoted(b).subrange(1, quoted(b).len() - 1));
    lemma_escape_injective(a, b);
}

proof fn lemma_escape_len(s: Seq<char>)
    ensures
        escape_quotes(s).len() >= s.len(),
    decreases s.len(),
{
    if s.len() > 0 {
        lemma_escape_len(s.drop_last());
    }
}

/// Reading `escape_quotes(s)` from the back recovers `s`: a quote at the end
/// always comes from a doubled quote.
proof fn lemma_escape_injective(a: Seq<char>, b: Seq<char>)
    requires
        escape_quotes(a) == escape_quotes(b),
    ensures
        a == b,
    decreases a.len() + b.len(),
{
    if a.len() == 0 || b.len() == 0 {
        lemma_escape_len(a);
        lemma_escape_len(b);
        if a.len() > 0 {
            lemma_escape_len(a.drop_last());
        }
        if b.len() > 0 {
            lemma_escape_len(b.drop_last());
        }
    } else {
        let ea = escape_quotes(a.drop_last());
        let eb = escape_quotes(b.drop_last());
        let ta = if a.last() == '"' { seq!['"', '"'] } else { seq![a.last()] };
        let tb = if b.last() == '"' { seq!['"', '"'] } else { seq![b.last()] };
        assert(escape_quotes(a) == ea + ta);
        assert(escape_quotes(b) == eb + tb);
        let e = escape_quotes(a);
        assert(e.last() == ta.last());
        assert(e.last() == tb.last());
        assert(a.last() == b.last());
        assert(ta == tb);
        assert(ea =~= e.subrange(0, e.len() - ta.len()));
        assert(eb =~= e.subrange(0, e.len() - tb.len()));
        lemma_escape_injective(a.drop_last(), b.drop_last());
        assert(a =~= a.drop_last().push(a.last()));
        assert(b =~= b.drop_last().push(b.last()));
    }
}

// ---------------------------------------------------------------------------
// Executable planning
// ---------------------------------------------------------------------------

/// Quotes an SQL identifier: wraps it in double quotes and doubles any double
/// quote inside.
pub fn quote_ident(s: &str) -> (r: String)
    ensures
        r@ == quoted(s@),
{
    let n = s.unicode_len();
    let mut r = String::new();
    push_char(&mut r, '"');
    let mut i: usize = 0;
    while i < n
        invariant
            n == s@.len(),
            i <= n,
            r@ == seq!['"'] + escape_quotes(s@.take(i as int)),
        decreases n - i,
    {
        let c = s.get_char(i);
        assert(s@.take(i + 1).drop_last() =~= s@.take(i as int));
        if c == '"' {
            push_char(&mut r, '"');
            push_char(&mut r, '"');
        } else {
            push_char(&mut r, c);
        }
        i += 1;
        assert(r@ =~= seq!['"'] + escape_quotes(s@.take(i as int)));
    }
    assert(s@.take(n as int) =~= s@);
    push_char(&mut r, '"');
    r
}

/// The PostgreSQL type of a logical column type.
pub fn map_type(t: &LogicalType) -> (r: &'static str)
    ensures
        r@ == postgres_type(*t),
{
    match t {
        LogicalType::String => "TEXT",
        LogicalType::Int64 => "BIGINT",
        LogicalType::Bool => "BOOLEAN",
        LogicalType::Uuid => "UUID",
        LogicalType::Timestamp => "TIMESTAMPTZ",
    }
}

/// The PostgreSQL default expression for a schema default.
pub fn map_default(def: &str) -> (r: String)
    ensures
        r@ == postgres_default(def@),
{
    if str_eq(def, "now") {
        String::from_str("NOW()")
    } else {
        def.to_owned()
    }
}

/// The SQLite type of a logical column type.
pub fn map_sqlite_type(t: &LogicalType) -> (r: &'static str)
    ensures
        r@ == sqlite_type(*t),
{
    match t {
        LogicalType::String => "TEXT",
        LogicalType::Int64 => "INTEGER",
        LogicalType::Bool => "INTEGER",
        LogicalType::Uuid => "TEXT",
        LogicalType::Timestamp => "TEXT",
    }
}

/// The SQLite default expression for a schema default.
pub fn map_sqlite_default(def: &str) -> (r: String)
    ensures
        r@ == sqlite_default(def@),
{
    if str_eq(def, "now") {
        String::from_str("CURRENT_TIMESTAMP")
    } else {
        def.to_owned()
    }
}

fn dialect_type_name(dialect: SqlDialect, t: &LogicalType) -> (r: &'static str)
    ensures
        r@ == dialect_type(dialect, *t),
{
    match dialect {
        SqlDialect::Postgres => map_type(t),
        SqlDialect::Sqlite => map_sqlite_type(t),
    }
}

fn dialect_default_expr(dialect: SqlDialect, def: &str) -> (r: String)
    ensures
        r@ == dialect_default(dialect, def@),
{
    match dialect {
        SqlDialect::Postgres => map_default(def),
        SqlDialect::Sqlite => map_sqlite_default(def),
    }
}

fn column_definition(dialect: SqlDialect, c: &Column) -> (r: String)
    ensures
        r@ == column_sql(dialect, *c),
{
    let mut s = quote_ident(c.name.as_str());
    push_char(&mut s, ' ');
    s.append(dialect_type_name(dialect, &c.col_type));
    let ghost s0 = s@;
    proof {
        reveal_strlit(" ");
    }
    assert(s0 =~= quoted(c.name@) + " "@ + dialect_type(dialect, c.col_type));
    if c.primary_key {
        s.append(" PRIMARY KEY");
    }
    let ghost s1 = s@;
    assert(s1 =~= s0 + (if c.primary_key { " PRIMARY KEY"@ } else { Seq::empty() }));
    if c.unique && !c.primary_key {
        s.append(" UNIQUE");
    }
    let ghost s2 = s@;
    assert(s2 =~= s1 + (if c.unique && !c.primary_key { " UNIQUE"@ } else { Seq::empty() }));
    if !c.nullable && !c.primary_key {
        s.append(" NOT NULL");
    }
    let ghost s3 = s@;
    assert(s3 =~= s2 + (if !c.nullable && !c.primary_key { " NOT NULL"@ } else { Seq::empty() }));
    match &c.default {
        Some(d) => {
            s.append(" DEFAULT ");
            let m = dialect_default_expr(dialect, d.as_str());
            s.append(m.as_str());
            assert(s@ =~= s3 + (" DEFAULT "@ + dialect_default(dialect, d@)));
        },
        None => {
            assert(s@ =~= s3 + Seq::<char>::empty());
        },
    }
    s
}

fn create_table(dialect: SqlDialect, t: &Table) -> (r: String)
    ensures
        r@ == create_table_sql(dialect, *t),
{
    let mut cols: Vec<String> = Vec::new();
    let n = t.columns.len();
    let mut i: usize = 0;
    while i < n
        invariant
            n == t.columns@.len(),
            i <= n,
            strings(cols@) =~= column_sqls(dialect, t.columns@.take(i as int)),
        decreases n - i,
    {
        let d = column_definition(dialect, &t.columns[i]);
        let ghost prev = cols@;
        cols.push(d);
        proof {
            assert(t.columns@.take(i + 1) =~= t.columns@.take(i as int).push(t.columns@[i as int]));
            assert(cols@ =~= prev.push(d));
            assert(strings(cols@) =~= strings(prev).push(d@));
            assert(column_sqls(dialect, t.columns@.take(i + 1)) =~= column_sqls(dialect, t.columns@.take(i as int)).push(column_sql(dialect, t.columns@[i as int])));
        }
        i += 1;
    }
    assert(t.columns@.take(n as int) =~= t.columns@);
    let mut s = String::from_str("CREATE TABLE IF NOT EXISTS ");
    let q = quote_ident(t.name.as_str());
    s.append(q.as_str());
    s.append(" (\n  ");
    let body = join_strings(&cols, ",\n  ");
    s.append(body.as_str());
    s.append("\n);");
    s
}

fn create_index(idx: &Index, table: &str) -> (r: String)
    ensures
        r@ == create_index_sql(*idx, table@),
{
    let mut cols: Vec<String> = Vec::new();
    let n = idx.columns.len();
    let mut i: usize = 0;
    while i < n
        invariant
            n == idx.columns@.len(),
            i <= n,
            strings(cols@) =~= quoted_all(strings(idx.columns@).take(i as int)),
        decreases n - i,
    {
        let q = quote_ident(idx.columns[i].as_str());
        let ghost prev = cols@;
        cols.push(q);
        proof {
            assert(strings(idx.columns@).take(i + 1) =~= strings(idx.columns@).take(i as int).push(idx.columns@[i as int]@));
            assert(cols@ =~= prev.push(q));
            assert(strings(cols@) =~= strings(prev).push(q@));
            assert(quoted_all(strings(idx.columns@).take(i + 1)) =~= quoted_all(strings(idx.columns@).take(i as int)).push(quoted(idx.columns@[i as int]@)));
        }
        i += 1;
    }
    assert(strings(idx.columns@).take(n as int) =~= strings(idx.columns@));
    let mut s = String::from_str("CREATE ");
    if idx.unique {
        s.append("UNIQUE ");
    }
    s.append("INDEX IF NOT EXISTS ");
    let qn = quote_ident(idx.name.as_str());
    s.append(qn.as_str());
    s.append(" ON ");
    let qt = quote_ident(table);
    s.append(qt.as_str());
    s.append(" (");
    let body = join_strings(&cols, ", ");
    s.append(body.as_str());
    s.append(");");
    assert(s@ =~= create_index_sql(*idx, table@));
    s
}

/// Plans the statements that create a schema in `dialect`: for each table
/// in order, its `CREATE TABLE IF NOT EXISTS`, then a `CREATE INDEX IF NOT
/// EXISTS` for each of its indexes.
fn plan_for(dialect: SqlDialect, schema: &Schema) -> (plan: SqlPlan)
    ensures
        strings(plan.statements@) == plan_statements(dialect, schema.tables@),
        plan.statements@.len() == statement_count(schema.tables@),
{
    let ghost ts = schema.tables@;
    let mut stmts: Vec<String> = Vec::new();
    let n = schema.tables.len();
    let mut i: usize = 0;
    while i < n
        invariant
            n == ts.len(),
            ts == schema.tables@,
            i <= n,
            strings(stmts@) =~= plan_statements(dialect, ts.take(i as int)),
        decreases n - i,
    {
        let t = &schema.tables[i];
        assert(ts.take(i + 1).drop_last() =~= ts.take(i as int));
        let ghost before = strings(stmts@);
        let c = create_table(dialect, t);
        let ghost prev0 = stmts@;
        stmts.push(c);
        assert(stmts@ =~= prev0.push(c));
        assert(t.indexes@.take(0) =~= Seq::<Index>::empty());
        let ni = t.indexes.len();
        let mut k: usize = 0;
        while k < ni
            invariant
                ni == t.indexes@.len(),
                k <= ni,
                strings(stmts@) =~= before + seq![create_table_sql(dialect, *t)] + index_sqls(t.indexes@.take(k as int), t.name@),
            decreases ni - k,
        {
            let s = create_index(&t.indexes[k], t.name.as_str());
            let ghost prev = stmts@;
            stmts.push(s);
            proof {
                assert(t.indexes@.take(k + 1) =~= t.indexes@.take(k as int).push(t.indexes@[k as int]));
                assert(stmts@ =~= prev.push(s));
                assert(strings(stmts@) =~= strings(prev).push(s@));
                assert(index_sqls(t.indexes@.take(k + 1), t.name@) =~= index_sqls(t.indexes@.take(k as int), t.name@).push(create_index_sql(t.indexes@[k as int], t.name@)));
            }
            k += 1;
        }
        assert(t.indexes@.take(ni as int) =~= t.indexes@);
        i += 1;
    }
    assert(ts.take(n as int) =~= ts);
    proof {
        lemma_plan_statement_count(dialect, ts);
    }
    SqlPlan { statements: stmts }
}

/// Plans the PostgreSQL statements that create a schema: for each table in
/// order, its `CREATE TABLE IF NOT EXISTS`, then a `CREATE INDEX IF NOT
/// EXISTS` for each of its indexes.
pub fn plan_postgres(schema: &Schema) -> (plan: SqlPlan)
    ensures
        strings(plan.statements@) == plan_statements(SqlDialect::Postgres, schema.tables@),
        plan.statements@.len() == statement_count(schema.tables@),
{
    plan_for(SqlDialect::Postgres, schema)
}

/// Plans the SQLite statements that create a schema: the same statements as
/// for PostgreSQL, with SQLite's column types and `CURRENT_TIMESTAMP` for a
/// `now` default.
pub fn plan_sqlite(schema: &Schema) -> (plan: SqlPlan)
    ensures
        strings(plan.statements@) == plan_statements(SqlDialect::Sqlite, schema.tables@),
        plan.statements@.len() == statement_count(schema.tables@),
{
    plan_for(SqlDialect::Sqlite, schema)
}

/// Validates a schema and plans it for `engine`: the validation error when
/// the schema is not well formed; else the PostgreSQL or SQLite plan; MySQL
/// has no SQL generator.
pub fn plan_for_engine(engine: Engine, schema: &Schema) -> (r: Result<SqlPlan>)
    ensures
        schema_error(*schema) matches Some(m) ==> is_invalid_argument(r, m),
        schema_error(*schema) is None && engine == Engine::Postgres
            ==> (r matches Ok(plan) && strings(plan.statements@) == plan_statements(SqlDialect::Postgres, schema.tables@)),
        schema_error(*schema) is None && engine == Engine::Sqlite
            ==> (r matches Ok(plan) && strings(plan.statements@) == plan_statements(SqlDialect::Sqlite, schema.tables@)),
        schema_error(*schema) is None && engine == Engine::Mysql
            ==> is_invalid_argument(r, "no SQL generator for engine 'mysql'"@),
{
    match validate_schema(schema) {
        Ok(()) => {},
        Err(e) => return Err(e),
    }
    match engine {
        Engine::Postgres => Ok(plan_postgres(schema)),
        Engine::Sqlite => Ok(plan_sqlite(schema)),
        Engine::Mysql => Err(DbnestError::InvalidArgument(String::from_str("no SQL generator for engine 'mysql'"))),
    }
}

} // verus!
