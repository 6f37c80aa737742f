use dbnest::schema::model::{Column, Index, LogicalType, Schema, Table};
use dbnest::schema::plan::{
    map_default, map_sqlite_default, map_sqlite_type, map_type, plan_for_engine, plan_postgres, plan_sqlite,
    quote_ident,
};
use dbnest::schema::validate::validate_schema;
use dbnest::{DbnestError, Engine};

fn col(name: &str, t: LogicalType) -> Column {
    Column {
        name: name.to_string(),
        col_type: t,
        primary_key: false,
        unique: false,
        nullable: true,
        default: None,
    }
}

#[test]
fn postgres_plan_contains_expected_types_and_defaults() {
    let mut id = col("id", LogicalType::Uuid);
    id.primary_key = true;
    let mut created_at = col("created_at", LogicalType::Timestamp);
    created_at.default = Some("now".to_string());
    let mut active = col("active", LogicalType::Bool);
    active.nullable = false;
    let schema = Schema {
        tables: vec![Table {
            name: "users".to_string(),
            columns: vec![id, created_at, active],
            indexes: vec![],
        }],
    };

    validate_schema(&schema).unwrap();
    let plan = plan_postgres(&schema);

    let joined = plan.statements.join("\n");
    assert!(joined.contains("UUID"), "uuid should map to UUID in postgres");
    assert!(
        joined.contains("TIMESTAMPTZ"),
        "timestamp should map to TIMESTAMPTZ in postgres"
    );
    assert!(
        joined.contains("DEFAULT NOW()"),
        "now should map to NOW() in postgres"
    );
    assert!(
        joined.contains("\"active\" BOOLEAN"),
        "bool should map to BOOLEAN in postgres"
    );
}

fn users_schema() -> Schema {
    let mut id = col("id", LogicalType::Uuid);
    id.primary_key = true;
    let mut email = col("email", LogicalType::String);
    email.unique = true;
    email.nullable = false;
    let mut created_at = col("created_at", LogicalType::Timestamp);
    created_at.default = Some("now".to_string());
    Schema {
        tables: vec![Table {
            name: "users".to_string(),
            columns: vec![id, email, created_at],
            indexes: vec![Index {
                name: "idx_users_email".to_string(),
                columns: vec!["email".to_string()],
                unique: true,
            }],
        }],
    }
}

#[test]
fn postgres_plan_exact_statements() {
    let plan = plan_postgres(&users_schema());
    assert_eq!(plan.statements.len(), 2);
    assert_eq!(
        plan.statements[0],
        "CREATE TABLE IF NOT EXISTS \"users\" (\n  \"id\" UUID PRIMARY KEY,\n  \"email\" TEXT UNIQUE NOT NULL,\n  \"created_at\" TIMESTAMPTZ DEFAULT NOW()\n);"
    );
    assert_eq!(
        plan.statements[1],
        "CREATE UNIQUE INDEX IF NOT EXISTS \"idx_users_email\" ON \"users\" (\"email\");"
    );
}

#[test]
fn postgres_plan_non_unique_multi_column_index() {
    let mut schema = users_schema();
    schema.tables[0].indexes = vec![Index {
        name: "i".to_string(),
        columns: vec!["id".to_string(), "email".to_string()],
        unique: false,
    }];
    let plan = plan_postgres(&schema);
    assert_eq!(
        plan.statements[1],
        "CREATE INDEX IF NOT EXISTS \"i\" ON \"users\" (\"id\", \"email\");"
    );
}

#[test]
fn postgres_plan_counts_tables_and_indexes() {
    let mut schema = users_schema();
    let mut t2 = schema.tables[0].clone();
    t2.name = "other".to_string();
    t2.indexes = vec![];
    schema.tables.push(t2);
    let plan = plan_postgres(&schema);
    assert_eq!(plan.statements.len(), 3);
    assert!(plan.statements[2].starts_with("CREATE TABLE IF NOT EXISTS \"other\""));
}

#[test]
fn quote_ident_doubles_inner_quotes() {
    assert_eq!(quote_ident("users"), "\"users\"");
    assert_eq!(quote_ident("a\"b"), "\"a\"\"b\"");
    assert_eq!(quote_ident(""), "\"\"");
    assert_eq!(quote_ident("bad table"), "\"bad table\"");
}

#[test]
fn map_type_and_default() {
    assert_eq!(map_type(&LogicalType::String), "TEXT");
    assert_eq!(map_type(&LogicalType::Int64), "BIGINT");
    assert_eq!(map_type(&LogicalType::Bool), "BOOLEAN");
    assert_eq!(map_type(&LogicalType::Uuid), "UUID");
    assert_eq!(map_type(&LogicalType::Timestamp), "TIMESTAMPTZ");
    assert_eq!(map_default("now"), "NOW()");
    assert_eq!(map_default("0"), "0");
    assert_eq!(map_default("NOW"), "NOW");
}

fn invalid(r: Result<(), DbnestError>) -> String {
    match r {
        Err(DbnestError::InvalidArgument(m)) => m,
        other => panic!("expected InvalidArgument, got {:?}", other),
    }
}

#[test]
fn validate_accepts_users_schema() {
    assert!(validate_schema(&users_schema()).is_ok());
}

#[test]
fn validate_rejects_empty_schema() {
    let s = Schema { tables: vec![] };
    assert_eq!(invalid(validate_schema(&s)), "schema has no tables");
}

#[test]
fn validate_rejects_duplicate_table() {
    let mut s = users_schema();
    let t = s.tables[0].clone();
    s.tables.push(t);
    assert_eq!(invalid(validate_schema(&s)), "duplicate table name 'users'");
}

#[test]
fn validate_rejects_table_without_columns() {
    let mut s = users_schema();
    s.tables[0].columns.clear();
    assert_eq!(invalid(validate_schema(&s)), "table 'users' has no columns");
}

#[test]
fn validate_rejects_duplicate_column() {
    let mut s = users_schema();
    let c = col("email", LogicalType::String);
    s.tables[0].columns.push(c);
    assert_eq!(
        invalid(validate_schema(&s)),
        "duplicate column 'email' in table 'users'"
    );
}

#[test]
fn validate_rejects_two_primary_keys() {
    let mut s = users_schema();
    s.tables[0].columns[1].primary_key = true;
    assert_eq!(
        invalid(validate_schema(&s)),
        "table 'users' has multiple primary keys (v1 supports only single-column PK)"
    );
}

#[test]
fn validate_rejects_index_without_columns() {
    let mut s = users_schema();
    s.tables[0].indexes[0].columns.clear();
    assert_eq!(
        invalid(validate_schema(&s)),
        "index 'idx_users_email' on table 'users' has no columns"
    );
}

#[test]
fn validate_rejects_unknown_index_column() {
    let mut s = users_schema();
    s.tables[0].indexes[0].columns = vec!["email".to_string(), "nope".to_string(), "gone".to_string()];
    assert_eq!(
        invalid(validate_schema(&s)),
        "index 'idx_users_email' on table 'users' references unknown column 'nope'"
    );
}

#[test]
fn validate_reports_first_table_problem_first() {
    let mut s = users_schema();
    let mut bad = s.tables[0].clone();
    bad.name = "second".to_string();
    bad.columns.clear();
    s.tables.push(bad);
    let dup = s.tables[0].clone();
    s.tables.push(dup);
    assert_eq!(invalid(validate_schema(&s)), "table 'second' has no columns");
}

#[test]
fn sqlite_plan_contains_expected_statements() {
    let schema = users_schema();
    validate_schema(&schema).unwrap();
    let plan = plan_sqlite(&schema);

    let joined = plan.statements.join("\n");
    assert!(
        joined.contains("CREATE TABLE IF NOT EXISTS"),
        "missing CREATE TABLE"
    );
    assert!(
        joined.contains("\"users\""),
        "missing users table identifier"
    );
    assert!(
        joined.contains("\"email\" TEXT"),
        "missing email column mapping to TEXT"
    );
    assert!(
        joined.contains("DEFAULT CURRENT_TIMESTAMP"),
        "missing now->CURRENT_TIMESTAMP mapping"
    );
    assert!(
        joined.contains("CREATE UNIQUE INDEX IF NOT EXISTS"),
        "missing unique index creation"
    );
}

#[test]
fn sqlite_plan_exact_statements() {
    let plan = plan_sqlite(&users_schema());
    assert_eq!(plan.statements.len(), 2);
    assert_eq!(
        plan.statements[0],
        "CREATE TABLE IF NOT EXISTS \"users\" (\n  \"id\" TEXT PRIMARY KEY,\n  \"email\" TEXT UNIQUE NOT NULL,\n  \"created_at\" TEXT DEFAULT CURRENT_TIMESTAMP\n);"
    );
    assert_eq!(
        plan.statements[1],
        "CREATE UNIQUE INDEX IF NOT EXISTS \"idx_users_email\" ON \"users\" (\"email\");"
    );
}

#[test]
fn sqlite_and_postgres_plans_share_index_statements() {
    let schema = users_schema();
    let a = plan_sqlite(&schema);
    let b = plan_postgres(&schema);
    assert_eq!(a.statements.len(), b.statements.len());
    assert_eq!(a.statements[1], b.statements[1]);
    assert_ne!(a.statements[0], b.statements[0]);
}

#[test]
fn sqlite_type_and_default() {
    assert_eq!(map_sqlite_type(&LogicalType::String), "TEXT");
    assert_eq!(map_sqlite_type(&LogicalType::Int64), "INTEGER");
    assert_eq!(map_sqlite_type(&LogicalType::Bool), "INTEGER");
    assert_eq!(map_sqlite_type(&LogicalType::Uuid), "TEXT");
    assert_eq!(map_sqlite_type(&LogicalType::Timestamp), "TEXT");
    assert_eq!(map_sqlite_default("now"), "CURRENT_TIMESTAMP");
    assert_eq!(map_sqlite_default("0"), "0");
    assert_eq!(map_sqlite_default("NOW"), "NOW");
}

#[test]
fn plan_for_engine_validates_then_picks_generator() {
    let schema = users_schema();
    assert_eq!(plan_for_engine(Engine::Sqlite, &schema).unwrap().statements, plan_sqlite(&schema).statements);
    assert_eq!(plan_for_engine(Engine::Postgres, &schema).unwrap().statements, plan_postgres(&schema).statements);
    assert!(matches!(
        plan_for_engine(Engine::Mysql, &schema),
        Err(DbnestError::InvalidArgument(ref m)) if m == "no SQL generator for engine 'mysql'"
    ));
    let empty = Schema { tables: vec![] };
    assert!(matches!(
        plan_for_engine(Engine::Sqlite, &empty),
        Err(DbnestError::InvalidArgument(ref m)) if m == "schema has no tables"
    ));
}
