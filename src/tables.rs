//! The allow-listed tables and the statements of the table layer. Table names are
//! checked against the allow-list before any statement is built; values are always
//! bound as parameters.
use vstd::prelude::*;
use crate::json::{join, owned};
use crate::values::Cell;

verus! {

/// The tables that requests may reach.
#[derive(Clone, Copy, Debug, PartialEq, Eq, Structural)]
pub enum Table {
    Admin,
    Pages,
    Articles,
    Calendar,
    Songs,
    Users,
}

/// The SQL name of each allowed table.
pub open spec fn table_name(t: Table) -> Seq<char> {
    match t {
        Table::Admin => "admin"@,
        Table::Pages => "pages"@,
        Table::Articles => "articles"@,
        Table::Calendar => "calendar"@,
        Table::Songs => "songs"@,
        Table::Users => "users"@,
    }
}

/// The allowed table whose name is exactly `s`, if any.
pub open spec fn table_spec(s: Seq<char>) -> Option<Table> {
    if s == "admin"@ { Some(Table::Admin) }
    else if s == "pages"@ { Some(Table::Pages) }
    else if s == "articles"@ { Some(Table::Articles) }
    else if s == "calendar"@ { Some(Table::Calendar) }
    else if s == "songs"@ { Some(Table::Songs) }
    else if s == "users"@ { Some(Table::Users) }
    else { None }
}

impl Table {
    /// The table's SQL name.
    pub fn name(&self) -> (r: &'static str)
        ensures
            r@ == table_name(*self),
    {
        match self {
            Table::Admin => "admin",
            Table::Pages => "pages",
            Table::Articles => "articles",
            Table::Calendar => "calendar",
            Table::Songs => "songs",
            Table::Users => "users",
        }
    }
}

/// Whether `a` and `b` hold the same characters.
fn same_text(a: &str, b: &str) -> (r: bool)
    ensures
        r == (a@ == b@),
{
    a.to_owned() == b.to_owned()
}

/// Looks a table name up in the allow-list; any other name is refused.
pub fn check_table(table: &str) -> (r: Option<Table>)
    ensures
        r == table_spec(table@),
        r matches Some(t) ==> table_name(t) == table@,
{
    if same_text(table, "admin") { Some(Table::Admin) }
    else if same_text(table, "pages") { Some(Table::Pages) }
    else if same_text(table, "articles") { Some(Table::Articles) }
    else if same_text(table, "calendar") { Some(Table::Calendar) }
    else if same_text(table, "songs") { Some(Table::Songs) }
    else if same_text(table, "users") { Some(Table::Users) }
    else { None }
}

/// How a statement's values are bound.
#[derive(Clone, Debug)]
pub enum Params {
    /// No values.
    Empty,
    /// Values bound by name.
    Named(Vec<(String, String)>),
    /// Values bound by position, in order.
    Positional(Vec<String>),
}

/// A statement ready for the driver: its text and its bound values.
#[derive(Clone, Debug)]
pub struct Statement {
    pub sql: String,
    pub params: Params,
}

/// Why the table layer refused to build a statement.
#[derive(Clone, Copy, Debug, PartialEq, Eq, Structural)]
pub enum DbError {
    /// The table is not on the allow-list.
    TableNotAllowed,
    /// An insert named no column, or columns and values differ in number.
    ArityMismatch,
    /// A lookup that must find a value found none of the expected shape.
    NoValue,
}

/// `SELECT * FROM t WHERE c LIKE :value`.
pub open spec fn like_sql(t: Seq<char>, c: Seq<char>) -> Seq<char> {
    "SELECT * FROM "@ + t + " WHERE "@ + c + " LIKE :value"@
}

/// The rows of `table` whose `column` matches the pattern `value` under `LIKE`.
pub fn get_like(table: &str, column: &str, value: &str) -> (r: Result<Statement, DbError>)
    ensures
        table_spec(table@) is None <==> r is Err,
        r matches Err(e) ==> e == DbError::TableNotAllowed,
        r matches Ok(s) ==> s.sql@ == like_sql(table@, column@),
        r matches Ok(s) ==> (s.params matches Params::Named(p)
            && p@.len() == 1 && p@[0].0@ == "value"@ && p@[0].1@ == value@),
{
    match check_table(table) {
        None => Err(DbError::TableNotAllowed),
        Some(t) => {
            let sql = join(join(join(join(owned("SELECT * FROM "), t.name()), " WHERE "), column), " LIKE :value");
            let mut p: Vec<(String, String)> = Vec::new();
            p.push((owned("value"), owned(value)));
            Ok(Statement { sql, params: Params::Named(p) })
        },
    }
}

/// `SELECT (c) FROM t`.
pub open spec fn some_sql(t: Seq<char>, c: Seq<char>) -> Seq<char> {
    "SELECT ("@ + t + ") FROM "@ + c
}

/// One column of every row of `table`.
pub fn get_some(table: &str, column: &str) -> (r: Result<Statement, DbError>)
    ensures
        table_spec(table@) is None <==> r is Err,
        r matches Err(e) ==> e == DbError::TableNotAllowed,
        r matches Ok(s) ==> s.sql@ == some_sql(column@, table@) && s.params is Empty,
{
    match check_table(table) {
        None => Err(DbError::TableNotAllowed),
        Some(t) => {
            let sql = join(join(join(owned("SELECT ("), column), ") FROM "), t.name());
            Ok(Statement { sql, params: Params::Empty })
        },
    }
}

/// `SELECT * FROM t`, with ` ORDER BY id` when the caller relies on the order.
pub open spec fn all_sql(t: Seq<char>, ordered: bool) -> Seq<char> {
    "SELECT * FROM "@ + t + if ordered { " ORDER BY id"@ } else { ""@ }
}

/// Every row of `table`, by ascending id when `ordered`.
pub fn get_all_rows(table: &str, ordered: bool) -> (r: Result<Statement, DbError>)
    ensures
        table_spec(table@) is None <==> r is Err,
        r matches Err(e) ==> e == DbError::TableNotAllowed,
        r matches Ok(s) ==> s.sql@ == all_sql(table@, ordered) && s.params is Empty,
{
    match check_table(table) {
        None => Err(DbError::TableNotAllowed),
        Some(t) => {
            let base = join(owned("SELECT * FROM "), t.name());
            proof {
                reveal_strlit("");
                assert(base@ + ""@ =~= base@);
            }
            let sql = if ordered { join(base, " ORDER BY id") } else { base };
            Ok(Statement { sql, params: Params::Empty })
        },
    }
}

/// `SHOW COLUMNS FROM t`.
pub open spec fn columns_sql(t: Seq<char>) -> Seq<char> {
    "SHOW COLUMNS FROM "@ + t
}

/// The names and types of the columns of `table`, in the order of its rows.
pub fn get_column_details(table: &str) -> (r: Result<Statement, DbError>)
    ensures
        table_spec(table@) is None <==> r is Err,
        r matches Err(e) ==> e == DbError::TableNotAllowed,
        r matches Ok(s) ==> s.sql@ == columns_sql(table@) && s.params is Empty,
{
    match check_table(table) {
        None => Err(DbError::TableNotAllowed),
        Some(t) => Ok(Statement { sql: join(owned("SHOW COLUMNS FROM "), t.name()), params: Params::Empty }),
    }
}

/// The column list of an insert: the names separated by `, `.
pub open spec fn comma_list(names: Seq<Seq<char>>) -> Seq<char>
    decreases names.len(),
{
    if names.len() == 0 {
        Seq::empty()
    } else if names.len() == 1 {
        names[0]
    } else {
        comma_list(names.drop_last()) + ", "@ + names.last()
    }
}

/// `n` placeholders separated by commas (for `n >= 1`).
pub open spec fn placeholders(n: nat) -> Seq<char>
    decreases n,
{
    if n <= 1 {
        "?"@
    } else {
        "?,"@ + placeholders((n - 1) as nat)
    }
}

/// `INSERT INTO t (c1, c2) VALUES (?,?)`.
pub open spec fn insert_sql(t: Seq<char>, names: Seq<Seq<char>>) -> Seq<char> {
    "INSERT INTO "@ + t + " ("@ + comma_list(names) + ") VALUES ("@ + placeholders(names.len()) + ")"@
}

/// A new row of `table` with `values` in the columns `titles`, paired by position.
pub fn insert_row(table: &str, titles: &Vec<String>, values: &Vec<String>) -> (r: Result<Statement, DbError>)
    ensures
        table_spec(table@) is None ==> r == Err::<Statement, DbError>(DbError::TableNotAllowed),
        table_spec(table@) is Some && (titles@.len() == 0 || titles@.len() != values@.len())
            ==> r == Err::<Statement, DbError>(DbError::ArityMismatch),
        r is Ok <==> table_spec(table@) is Some && titles@.len() > 0 && titles@.len() == values@.len(),
        r matches Ok(s) ==> s.sql@ == insert_sql(table@, titles@.map_values(|t: String| t@))
            && (s.params matches Params::Positional(v) && v@ == values@),
{
    let t = match check_table(table) {
        None => return Err(DbError::TableNotAllowed),
        Some(t) => t,
    };
    if titles.len() == 0 || titles.len() != values.len() {
        return Err(DbError::ArityMismatch);
    }
    let ghost names = titles@.map_values(|t: String| t@);
    let mut list = titles[0].clone();
    let mut marks = owned("?");
    proof {
        reveal_strlit("?");
        reveal_strlit("?,");
    }
    let mut i: usize = 1;
    assert(names.subrange(0, 1).drop_last() == names.subrange(0, 0));
    while i < titles.len()
        invariant
            1 <= i <= titles@.len(),
            names == titles@.map_values(|t: String| t@),
            list@ == comma_list(names.subrange(0, i as int)),
            marks@ == placeholders(i as nat),
        decreases titles@.len() - i,
    {
        list = join(join(list, ", "), titles[i].as_str());
        marks = join(marks, ",?");
        proof {
            let next = names.subrange(0, i + 1);
            assert(next.drop_last() == names.subrange(0, i as int));
            lemma_placeholders_push(i as nat);
        }
        i += 1;
    }
    assert(names.subrange(0, titles@.len() as int) == names);
    let sql = join(join(join(join(join(owned("INSERT INTO "), t.name()), " ("), list.as_str()), ") VALUES ("), marks.as_str());
    let sql = join(sql, ")");
    Ok(Statement { sql, params: Params::Positional(copy_strings(values)) })
}

/// An element-wise copy of a list of strings.
pub fn copy_strings(v: &Vec<String>) -> (r: Vec<String>)
    ensures
        r@ == v@,
{
    let mut r: Vec<String> = Vec::new();
    let mut i: usize = 0;
    while i < v.len()
        invariant
            i <= v@.len(),
            r@ == v@.subrange(0, i as int),
        decreases v@.len() - i,
    {
        r.push(v[i].clone());
        i += 1;
    }
    assert(v@.subrange(0, v@.len() as int) == v@);
    r
}

proof fn lemma_placeholders_push(n: nat)
    requires
        n >= 1,
    ensures
        placeholders(n) + ",?"@ == placeholders(n + 1),
    decreases n,
{
    reveal_strlit("?");
    reveal_strlit("?,");
    reveal_strlit(",?");
    if n == 1 {
        assert("?"@ + ",?"@ =~= "?,"@ + "?"@);
    } else {
        lemma_placeholders_push((n - 1) as nat);
        assert("?,"@ + placeholders((n - 1) as nat) + ",?"@ =~= "?,"@ + (placeholders((n - 1) as nat) + ",?"@));
    }
}

/// `UPDATE t SET c = :value WHERE w = :wherevalue`.
pub open spec fn update_sql(t: Seq<char>, w: Seq<char>, c: Seq<char>) -> Seq<char> {
    "UPDATE "@ + t + " SET "@ + c + " = :value WHERE "@ + w + " = :wherevalue"@
}

/// Sets column `name` to `value` in the rows of `table` whose `where_name` is `where_value`.
pub fn change_row_where(table: &str, where_name: &str, where_value: &str, name: &str, value: &str) -> (r: Result<Statement, DbError>)
    ensures
        table_spec(table@) is None <==> r is Err,
        r matches Err(e) ==> e == DbError::TableNotAllowed,
        r matches Ok(s) ==> s.sql@ == update_sql(table@, where_name@, name@),
        r matches Ok(s) ==> (s.params matches Params::Named(p)
            && p@.len() == 2 && p@[0].0@ == "value"@ && p@[0].1@ == value@
            && p@[1].0@ == "wherevalue"@ && p@[1].1@ == where_value@),
{
    match check_table(table) {
        None => Err(DbError::TableNotAllowed),
        Some(t) => {
            let sql = join(join(join(join(join(join(owned("UPDATE "), t.name()), " SET "), name), " = :value WHERE "), where_name), " = :wherevalue");
            let mut p: Vec<(String, String)> = Vec::new();
            p.push((owned("value"), owned(value)));
            p.push((owned("wherevalue"), owned(where_value)));
            Ok(Statement { sql, params: Params::Named(p) })
        },
    }
}

/// `DELETE FROM t WHERE w = :wherevalue`.
pub open spec fn delete_sql(t: Seq<char>, w: Seq<char>) -> Seq<char> {
    "DELETE FROM "@ + t + " WHERE "@ + w + " = :wherevalue"@
}

/// Removes the rows of `table` whose `where_name` is `where_value`.
pub fn delete_row_where(table: &str, where_name: &str, where_value: &str) -> (r: Result<Statement, DbError>)
    ensures
        table_spec(table@) is None <==> r is Err,
        r matches Err(e) ==> e == DbError::TableNotAllowed,
        r matches Ok(s) ==> s.sql@ == delete_sql(table@, where_name@),
        r matches Ok(s) ==> (s.params matches Params::Named(p)
            && p@.len() == 1 && p@[0].0@ == "wherevalue"@ && p@[0].1@ == where_value@),
{
    match check_table(table) {
        None => Err(DbError::TableNotAllowed),
        Some(t) => {
            let sql = join(join(join(join(owned("DELETE FROM "), t.name()), " WHERE "), where_name), " = :wherevalue");
            let mut p: Vec<(String, String)> = Vec::new();
            p.push((owned("wherevalue"), owned(where_value)));
            Ok(Statement { sql, params: Params::Named(p) })
        },
    }
}

/// `SELECT MAX(id) FROM t` or `SELECT MIN(id) FROM t`.
pub open spec fn extreme_id_sql(t: Seq<char>, largest: bool) -> Seq<char> {
    (if largest { "SELECT MAX(id) FROM "@ } else { "SELECT MIN(id) FROM "@ }) + t
}

/// The largest id of `table`.
pub fn get_max_id(table: &str) -> (r: Result<Statement, DbError>)
    ensures
        table_spec(table@) is None <==> r is Err,
        r matches Err(e) ==> e == DbError::TableNotAllowed,
        r matches Ok(s) ==> s.sql@ == extreme_id_sql(table@, true) && s.params is Empty,
{
    match check_table(table) {
        None => Err(DbError::TableNotAllowed),
        Some(t) => Ok(Statement { sql: join(owned("SELECT MAX(id) FROM "), t.name()), params: Params::Empty }),
    }
}

/// The smallest id of `table`.
pub fn get_min_id(table: &str) -> (r: Result<Statement, DbError>)
    ensures
        table_spec(table@) is None <==> r is Err,
        r matches Err(e) ==> e == DbError::TableNotAllowed,
        r matches Ok(s) ==> s.sql@ == extreme_id_sql(table@, false) && s.params is Empty,
{
    match check_table(table) {
        None => Err(DbError::TableNotAllowed),
        Some(t) => Ok(Statement { sql: join(owned("SELECT MIN(id) FROM "), t.name()), params: Params::Empty }),
    }
}

/// Whether a lookup found anything: some row with at least one value.
pub fn row_exists(rows: &Vec<Vec<Cell>>) -> (r: bool)
    ensures
        r == exists|i: int| 0 <= i < rows@.len() && rows@[i]@.len() > 0,
{
    let mut i: usize = 0;
    while i < rows.len()
        invariant
            i <= rows@.len(),
            forall|j: int| 0 <= j < i ==> rows@[j]@.len() == 0,
        decreases rows@.len() - i,
    {
        if rows[i].len() > 0 {
            return true;
        }
        i += 1;
    }
    false
}

/// The integer that an aggregate lookup returned in its first value.
pub open spec fn scalar_id(rows: Seq<Vec<Cell>>) -> Option<i32> {
    if rows.len() > 0 && rows[0]@.len() > 0 {
        match rows[0]@[0] {
            Cell::Int(n) => if i32::MIN <= n <= i32::MAX { Some(n as i32) } else { None },
            Cell::UInt(n) => if n <= i32::MAX { Some(n as i32) } else { None },
            _ => None,
        }
    } else {
        None
    }
}

/// Reads the id that `MAX(id)` or `MIN(id)` returned; an empty table has none.
pub fn read_id(rows: &Vec<Vec<Cell>>) -> (r: Result<i32, DbError>)
    ensures
        r matches Ok(n) ==> scalar_id(rows@) == Some(n),
        r is Err ==> scalar_id(rows@) is None,
{
    if rows.len() == 0 || rows[0].len() == 0 {
        return Err(DbError::NoValue);
    }
    match &rows[0][0] {
        Cell::Int(n) => if i32::MIN as i64 <= *n && *n <= i32::MAX as i64 { Ok(*n as i32) } else { Err(DbError::NoValue) },
        Cell::UInt(n) => if *n <= i32::MAX as u64 { Ok(*n as i32) } else { Err(DbError::NoValue) },
        _ => Err(DbError::NoValue),
    }
}

/// The id that moves a row past every other: one more than the largest id, if
/// that still fits.
pub fn id_after(max_id: i32) -> (r: Option<i32>)
    ensures
        max_id < i32::MAX ==> r == Some((max_id + 1) as i32),
        max_id == i32::MAX ==> r is None,
{
    if max_id < i32::MAX { Some(max_id + 1) } else { None }
}

/// The id that moves a row before every other: one less than the smallest id, if
/// that still fits.
pub fn id_before(min_id: i32) -> (r: Option<i32>)
    ensures
        min_id > i32::MIN ==> r == Some((min_id - 1) as i32),
        min_id == i32::MIN ==> r is None,
{
    if min_id > i32::MIN { Some(min_id - 1) } else { None }
}

} // verus!
