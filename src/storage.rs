use vstd::prelude::*;
use crate::columns::{ColumnDef, ColumnType};
use crate::fields::{entry_models, FieldMap};
use crate::schema::{column_type_from_name, column_type_named};
use crate::sql::{decimal_of, push_decimal, push_separated, separated};
use crate::text::{contains, has_infix, has_prefix, starts_with, to_upper, trim, trimmed_of, upper_of};
use crate::value::{DbValue, Val};

verus! {

/// A failure of the storage backend. The text is the backend's own message
/// or the table that the failure concerns.
#[derive(Debug, Clone)]
pub enum DatabaseError {
    ConnectionError(String),
    QueryError(String),
    TableAlreadyExists(String),
    TableNotFound(String),
    InvalidColumnType(String),
    TransactionError(String),
    DatabaseError(String),
    Other(String),
}

/// The text that a failure carries.
pub open spec fn error_text(e: DatabaseError) -> Seq<char> {
    match e {
        DatabaseError::ConnectionError(s) => s@,
        DatabaseError::QueryError(s) => s@,
        DatabaseError::TableAlreadyExists(s) => s@,
        DatabaseError::TableNotFound(s) => s@,
        DatabaseError::InvalidColumnType(s) => s@,
        DatabaseError::TransactionError(s) => s@,
        DatabaseError::DatabaseError(s) => s@,
        DatabaseError::Other(s) => s@,
    }
}

/// The heading of a failure's message.
pub open spec fn error_heading(e: DatabaseError) -> Seq<char> {
    match e {
        DatabaseError::ConnectionError(_) => "Connection error: "@,
        DatabaseError::QueryError(_) => "Query error: "@,
        DatabaseError::TableAlreadyExists(_) => "Table already exists: "@,
        DatabaseError::TableNotFound(_) => "Table not found: "@,
        DatabaseError::InvalidColumnType(_) => "Invalid column type: "@,
        DatabaseError::TransactionError(_) => "Transaction error: "@,
        DatabaseError::DatabaseError(_) => "Database error: "@,
        DatabaseError::Other(_) => "Other error: "@,
    }
}

impl DatabaseError {
    /// The message of the failure: its heading, then its text.
    pub fn message(&self) -> (r: String)
        ensures
            r@ == error_heading(*self) + error_text(*self),
    {
        let (heading, text) = match self {
            DatabaseError::ConnectionError(s) => ("Connection error: ", s),
            DatabaseError::QueryError(s) => ("Query error: ", s),
            DatabaseError::TableAlreadyExists(s) => ("Table already exists: ", s),
            DatabaseError::TableNotFound(s) => ("Table not found: ", s),
            DatabaseError::InvalidColumnType(s) => ("Invalid column type: ", s),
            DatabaseError::TransactionError(s) => ("Transaction error: ", s),
            DatabaseError::DatabaseError(s) => ("Database error: ", s),
            DatabaseError::Other(s) => ("Other error: ", s),
        };
        let mut r = String::from_str(heading);
        r.append(text.as_str());
        r
    }
}

/// A statement for the backend and the values bound to its numbered
/// parameters, in order.
#[derive(Debug)]
pub struct Statement {
    pub sql: String,
    pub params: Vec<DbValue>,
}

pub open spec fn param_models(s: Statement) -> Seq<Val> {
    s.params@.map_values(|v: DbValue| v@)
}

/// A fully read query result: the columns and the rows.
#[derive(Debug)]
pub struct QueryResult {
    pub columns: Vec<(String, ColumnType)>,
    pub rows: Vec<Vec<DbValue>>,
}

pub open spec fn sql_type(t: ColumnType) -> Seq<char> {
    match t {
        ColumnType::Integer => "INTEGER"@,
        ColumnType::Real => "REAL"@,
        ColumnType::Text => "TEXT"@,
        ColumnType::Blob => "BLOB"@,
        ColumnType::Boolean => "INTEGER"@,
        ColumnType::Timestamp => "INTEGER"@,
    }
}

/// The SQL type that stores a column type; booleans and timestamps are integers.
pub fn column_type_to_sql(col_type: &ColumnType) -> (r: &'static str)
    ensures
        r@ == sql_type(*col_type),
{
    match col_type {
        ColumnType::Integer => "INTEGER",
        ColumnType::Real => "REAL",
        ColumnType::Text => "TEXT",
        ColumnType::Blob => "BLOB",
        ColumnType::Boolean => "INTEGER",
        ColumnType::Timestamp => "INTEGER",
    }
}

/// The definition of one column in a `CREATE TABLE` statement.
pub open spec fn column_sql(c: ColumnDef) -> Seq<char> {
    c.name@ + " "@ + sql_type(c.col_type) + (if c.primary_key {
        " PRIMARY KEY"@
    } else {
        Seq::empty()
    }) + (if !c.nullable && !c.primary_key {
        " NOT NULL"@
    } else {
        Seq::empty()
    }) + (if c.unique && !c.primary_key {
        " UNIQUE"@
    } else {
        Seq::empty()
    }) + match c.default_value {
        Some(d) => " DEFAULT "@ + d@,
        None => Seq::empty(),
    }
}

pub open spec fn create_table_sql(table: Seq<char>, columns: Seq<ColumnDef>) -> Seq<char> {
    "CREATE TABLE "@ + table + " ("@ + separated(columns.map_values(|c: ColumnDef| column_sql(c)), ", "@)
        + ")"@
}

fn column_definition_sql(col: &ColumnDef) -> (r: String)
    ensures
        r@ == column_sql(*col),
{
    proof {
        reveal_strlit("");
    }
    let mut def = String::from_str(col.name.as_str());
    def.append(" ");
    def.append(column_type_to_sql(&col.col_type));
    if col.primary_key {
        def.append(" PRIMARY KEY");
    }
    if !col.nullable && !col.primary_key {
        def.append(" NOT NULL");
    }
    if col.unique && !col.primary_key {
        def.append(" UNIQUE");
    }
    if let Some(d) = &col.default_value {
        def.append(" DEFAULT ");
        def.append(d.as_str());
    }
    assert(def@ =~= column_sql(*col));
    def
}

/// The `CREATE TABLE` statement for a table with the given columns; each
/// constraint is written as declared.
pub fn build_create_table_sql(table_name: &str, columns: &Vec<ColumnDef>) -> (r: String)
    ensures
        r@ == create_table_sql(table_name@, columns@),
{
    let mut defs: Vec<String> = Vec::new();
    let mut i: usize = 0;
    while i < columns.len()
        invariant
            i <= columns.len(),
            defs.len() == i,
            forall|k: int| 0 <= k < i ==> (#[trigger] defs@[k])@ == column_sql(columns@[k]),
        decreases columns.len() - i,
    {
        defs.push(column_definition_sql(&columns[i]));
        i = i + 1;
    }
    let mut sql = String::from_str("CREATE TABLE ");
    sql.append(table_name);
    sql.append(" (");
    push_separated(&mut sql, &defs, ", ");
    sql.append(")");
    assert(defs@.map_values(|s: String| s@) =~= columns@.map_values(|c: ColumnDef| column_sql(c)));
    sql
}

pub open spec fn drop_table_sql(table: Seq<char>) -> Seq<char> {
    "DROP TABLE IF EXISTS "@ + table
}

/// The statement that drops a table if it is there.
pub fn build_drop_table_sql(table_name: &str) -> (r: String)
    ensures
        r@ == drop_table_sql(table_name@),
{
    let mut sql = String::from_str("DROP TABLE IF EXISTS ");
    sql.append(table_name);
    sql
}

pub open spec fn delete_sql(table: Seq<char>, predicate: Seq<char>) -> Seq<char> {
    "DELETE FROM "@ + table + " WHERE "@ + predicate
}

/// The statement that deletes the rows that `predicate` selects.
pub fn build_delete_sql(table_name: &str, predicate: &str) -> (r: String)
    ensures
        r@ == delete_sql(table_name@, predicate@),
{
    let mut sql = String::from_str("DELETE FROM ");
    sql.append(table_name);
    sql.append(" WHERE ");
    sql.append(predicate);
    sql
}

/// The numbered parameter for position `i`, counting from 1.
pub open spec fn placeholder(i: nat) -> Seq<char> {
    "?"@ + decimal_of(i + 1)
}

pub open spec fn placeholders(n: nat) -> Seq<Seq<char>> {
    Seq::new(n, |i: int| placeholder(i as nat))
}

pub open spec fn assignments(keys: Seq<Seq<char>>) -> Seq<Seq<char>> {
    Seq::new(keys.len(), |i: int| keys[i] + " = "@ + placeholder(i as nat))
}

pub open spec fn insert_sql(table: Seq<char>, keys: Seq<Seq<char>>) -> Seq<char> {
    "INSERT INTO "@ + table + " ("@ + separated(keys, ", "@) + ") VALUES ("@ + separated(
        placeholders(keys.len()),
        ", "@,
    ) + ")"@
}

pub open spec fn update_sql(table: Seq<char>, keys: Seq<Seq<char>>, predicate: Seq<char>) -> Seq<
    char,
> {
    "UPDATE "@ + table + " SET "@ + separated(assignments(keys), ", "@) + " WHERE "@ + predicate
}

pub open spec fn keys_of(s: Seq<(Seq<char>, Val)>) -> Seq<Seq<char>> {
    s.map_values(|e: (Seq<char>, Val)| e.0)
}

pub open spec fn values_of(s: Seq<(Seq<char>, Val)>) -> Seq<Val> {
    s.map_values(|e: (Seq<char>, Val)| e.1)
}

/// The keys and the values of a row, in order.
fn split_fields(values: FieldMap<DbValue>) -> (r: (Vec<String>, Vec<DbValue>))
    ensures
        r.0@.map_values(|s: String| s@) == keys_of(entry_models(values.entries())),
        r.1@.map_values(|v: DbValue| v@) == values_of(entry_models(values.entries())),
{
    let ghost src = values.entries();
    let mut rest = values.into_entries();
    let mut keys: Vec<String> = Vec::new();
    let mut vals: Vec<DbValue> = Vec::new();
    while rest.len() > 0
        invariant
            keys.len() == vals.len(),
            keys.len() + rest.len() == src.len(),
            forall|k: int|
                0 <= k < rest@.len() ==> (#[trigger] rest@[k]).0@ == src[keys.len() + k].0
                    && rest@[k].1 == src[keys.len() + k].1,
            forall|k: int| 0 <= k < keys.len() ==> (#[trigger] keys@[k])@ == src[k].0,
            forall|k: int| 0 <= k < vals.len() ==> (#[trigger] vals@[k])@ == src[k].1@,
        decreases rest.len(),
    {
        let (k, v) = rest.remove(0);
        keys.push(k);
        vals.push(v);
    }
    assert(keys@.map_values(|s: String| s@) =~= keys_of(entry_models(src)));
    assert(vals@.map_values(|v: DbValue| v@) =~= values_of(entry_models(src)));
    (keys, vals)
}

/// The numbered parameters `?1` to `?n`.
fn placeholder_list(n: usize) -> (r: Vec<String>)
    ensures
        r@.map_values(|s: String| s@) == placeholders(n as nat),
{
    let mut out: Vec<String> = Vec::new();
    let mut i: usize = 0;
    while i < n
        invariant
            i <= n,
            out.len() == i,
            forall|k: int| 0 <= k < i ==> (#[trigger] out@[k])@ == placeholder(k as nat),
        decreases n - i,
    {
        let mut p = String::from_str("?");
        push_decimal(&mut p, (i + 1) as u64);
        out.push(p);
        i = i + 1;
    }
    assert(out@.map_values(|s: String| s@) =~= placeholders(n as nat));
    out
}

/// The statement that inserts one row. A row with no values is refused.
pub fn insert_statement(table_name: &str, values: FieldMap<DbValue>) -> (r: Result<
    Statement,
    DatabaseError,
>)
    ensures
        values.entries().len() == 0 <==> r is Err,
        r matches Err(e) ==> (e matches DatabaseError::QueryError(m) && m@ == "No values provided"@),
        r matches Ok(s) ==> s.sql@ == insert_sql(table_name@, keys_of(entry_models(values.entries())))
            && param_models(s) == values_of(entry_models(values.entries())),
{
    if values.is_empty() {
        return Err(DatabaseError::QueryError(String::from_str("No values provided")));
    }
    let ghost models = entry_models(values.entries());
    let (keys, params) = split_fields(values);
    let marks = placeholder_list(keys.len());
    let mut sql = String::from_str("INSERT INTO ");
    sql.append(table_name);
    sql.append(" (");
    push_separated(&mut sql, &keys, ", ");
    sql.append(") VALUES (");
    push_separated(&mut sql, &marks, ", ");
    sql.append(")");
    proof {
        assert(keys_of(models).len() == keys@.len());
    }
    Ok(Statement { sql, params })
}

/// The statement that sets the given values on the rows that `predicate`
/// selects. An update with no values is refused.
pub fn update_statement(table_name: &str, values: FieldMap<DbValue>, predicate: &str) -> (r: Result<
    Statement,
    DatabaseError,
>)
    ensures
        values.entries().len() == 0 <==> r is Err,
        r matches Err(e) ==> (e matches DatabaseError::QueryError(m) && m@ == "No values provided"@),
        r matches Ok(s) ==> s.sql@ == update_sql(
            table_name@,
            keys_of(entry_models(values.entries())),
            predicate@,
        ) && param_models(s) == values_of(entry_models(values.entries())),
{
    if values.is_empty() {
        return Err(DatabaseError::QueryError(String::from_str("No values provided")));
    }
    let ghost models = entry_models(values.entries());
    let (keys, params) = split_fields(values);
    let ghost key_text = keys@.map_values(|s: String| s@);
    let mut sets: Vec<String> = Vec::new();
    let mut i: usize = 0;
    while i < keys.len()
        invariant
            i <= keys.len(),
            sets.len() == i,
            key_text == keys@.map_values(|s: String| s@),
            forall|k: int|
                0 <= k < i ==> (#[trigger] sets@[k])@ == key_text[k] + " = "@ + placeholder(
                    k as nat,
                ),
        decreases keys.len() - i,
    {
        let mut a = String::from_str(keys[i].as_str());
        a.append(" = ?");
        push_decimal(&mut a, (i + 1) as u64);
        proof {
            reveal_strlit(" = ?");
            reveal_strlit(" = ");
            reveal_strlit("?");
            assert(a@ =~= key_text[i as int] + " = "@ + placeholder(i as nat));
        }
        sets.push(a);
        i = i + 1;
    }
    assert(sets@.map_values(|s: String| s@) =~= assignments(key_text));
    let mut sql = String::from_str("UPDATE ");
    sql.append(table_name);
    sql.append(" SET ");
    push_separated(&mut sql, &sets, ", ");
    sql.append(" WHERE ");
    sql.append(predicate);
    Ok(Statement { sql, params })
}

/// A statement that changes rows rather than reads them: after white space
/// is trimmed, it begins with `INSERT`, `UPDATE` or `DELETE` in any letter case.
pub open spec fn is_mutating(sql: Seq<char>) -> bool {
    let u = upper_of(trimmed_of(sql));
    has_prefix(u, "INSERT"@) || has_prefix(u, "UPDATE"@) || has_prefix(u, "DELETE"@)
}

/// Whether a statement changes rows rather than reads them.
pub fn is_mutating_statement(sql: &str) -> (r: bool)
    ensures
        r == is_mutating(sql@),
{
    let upper = to_upper(trim(sql));
    let u = upper.as_str();
    starts_with(u, "INSERT") || starts_with(u, "UPDATE") || starts_with(u, "DELETE")
}

/// The uniform result of a statement that changed rows: one column
/// `affected_rows` of integers, and one row with the count.
pub fn affected_rows_result(affected: u64) -> (r: QueryResult)
    ensures
        r.columns@.len() == 1,
        r.columns@[0].0@ == "affected_rows"@,
        r.columns@[0].1 == ColumnType::Integer,
        r.rows@.len() == 1,
        r.rows@[0]@.len() == 1,
        r.rows@[0]@[0]@ == Val::Integer(affected as i64),
{
    let mut columns: Vec<(String, ColumnType)> = Vec::new();
    columns.push((String::from_str("affected_rows"), ColumnType::Integer));
    let mut row: Vec<DbValue> = Vec::new();
    row.push(DbValue::Integer(affected as i64));
    let mut rows: Vec<Vec<DbValue>> = Vec::new();
    rows.push(row);
    QueryResult { columns, rows }
}

/// The column type that a declared SQL type stands for; text when it names none.
pub fn column_type_from_decl(decl: &str) -> (r: ColumnType)
    ensures
        column_type_named(upper_of(decl@)) matches Some(t) ==> r == t,
        column_type_named(upper_of(decl@)) is None ==> r == ColumnType::Text,
{
    match column_type_from_name(decl) {
        Some(t) => t,
        None => ColumnType::Text,
    }
}

/// Classifies a failure of `CREATE TABLE`: a database error whose message
/// says the table already exists is a conflict on the table; any other
/// failure is passed on with its message.
pub fn create_table_error(table_name: &str, from_database: bool, message: String) -> (r:
    DatabaseError)
    ensures
        from_database && has_infix(message@, "already exists"@) ==> (r matches DatabaseError::TableAlreadyExists(t) && t@ == table_name@),
        !(from_database && has_infix(message@, "already exists"@)) ==> (r matches DatabaseError::DatabaseError(m) && m@ == message@),
{
    if from_database && contains(message.as_str(), "already exists") {
        DatabaseError::TableAlreadyExists(String::from_str(table_name))
    } else {
        DatabaseError::DatabaseError(message)
    }
}

} // verus!
