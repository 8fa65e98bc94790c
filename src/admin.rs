//! The operations of the administration pages: browsing tables, reordering,
//! adding, changing and deleting rows, mailing the members and hashing passwords.
use vstd::prelude::*;
use crate::account::{field, missing_field, queue_change_email, queue_delete_email, Mail};
use crate::form::FieldMap;
use crate::json::{json_array, json_bool, json_object, json_string, json_string_array, join, message, message_json, object, owned, json_text, array, quoted_all, views, pair_views};
use crate::session::{admin_of, attr_is, hash, is_admin, opt_session, scrypt_accepts, Session};
use crate::tables::{change_row_where, delete_row_where, get_all_rows, get_column_details, get_like, get_max_id, get_min_id, get_some, id_after, id_before, insert_row, table_spec, update_sql, delete_sql, Statement, Params};
use crate::validation::check_password;
use vstd::utf8::encode_utf8;
use crate::values::{decimal, int_text, render_row, render_row_spec, Cell, CoerceError};

verus! {

/// What a row operation asks of the caller.
pub enum RowAction {
    /// Send this reply; nothing else happens.
    Reply(String),
    /// Run the statement, then send the reply.
    Run(Statement, String),
    /// Send the mail, then the reply.
    Mail(Mail, String),
}

/// The reply when an administrator acts on another administrator's row.
pub open spec fn not_authorized() -> Seq<char> {
    "{\"authorized\":false,\"success\":false}"@
}

/// The reply when an administrator's own row change waits for a mailed code.
pub open spec fn confirm_by_mail(email: Seq<char>) -> Seq<char> {
    object(seq![("authorized"@, "true"@), ("email"@, json_text(email)), ("success"@, "false"@)])
}

/// The reply to a table name that is not on the allow-list.
pub open spec fn table_refused() -> Seq<char> {
    "{\"success\":false}"@
}

fn confirm_reply(email: &str) -> (r: String)
    ensures
        r@ == confirm_by_mail(email@),
{
    let mut f: Vec<(String, String)> = Vec::new();
    f.push((owned("authorized"), json_bool(true)));
    f.push((owned("email"), json_string(email)));
    f.push((owned("success"), json_bool(false)));
    proof {
        reveal_strlit("true");
        reveal_strlit("false");
        assert(pair_views(f@) =~= seq![("authorized"@, "true"@), ("email"@, json_text(email@)), ("success"@, "false"@)]);
    }
    json_object(&f)
}

/// The message that reports a row operation.
pub open spec fn row_message(verb: Seq<char>, id: Seq<char>) -> Seq<char> {
    "Successfully "@ + verb + " row "@ + id + "."@
}

/// What a row change owes, for an administrator's session `old` that becomes
/// `new`: another administrator's row is refused; the administrator's own address
/// goes through a mailed code; any other change of an allowed table is the update
/// of `name` to `value` in the row with `id`.
pub open spec fn change_row_spec(f: Map<Seq<char>, Seq<char>>, old: Session, new: Session, r: RowAction) -> bool {
    let has_all = f.contains_key("table"@) && f.contains_key("id"@) && f.contains_key("name"@) && f.contains_key("value"@);
    &&& new.id == old.id
    &&& !(r is Mail) ==> new.attrs@ == old.attrs@
    &&& f.contains_key("table"@) && f["table"@] == "admin"@ && f.contains_key("id"@) && !attr_is(old, "id"@, f["id"@])
        ==> (r matches RowAction::Reply(t) && t@ == not_authorized())
    &&& r matches RowAction::Run(s, t) ==> has_all && table_spec(f["table"@]) is Some
        && s.sql@ == update_sql(f["table"@], "id"@, f["name"@])
        && (s.params matches Params::Named(p) && p@.len() == 2 && p@[0].1@ == f["value"@] && p@[1].1@ == f["id"@])
        && (f["table"@] == "admin"@ ==> attr_is(old, "id"@, f["id"@]) && f["name"@] != "email"@)
        && t@ == object(seq![("message"@, json_text(row_message("updated"@, f["id"@]))), ("success"@, "true"@)])
    &&& has_all && table_spec(f["table"@]) is Some
        && (f["table"@] != "admin"@ || (attr_is(old, "id"@, f["id"@]) && f["name"@] != "email"@)) ==> r is Run
    &&& r matches RowAction::Mail(m, t) ==> has_all && f["table"@] == "admin"@
        && attr_is(old, "id"@, f["id"@]) && f["name"@] == "email"@
        && old.attrs@.contains_key("email"@) && t@ == confirm_by_mail(old.attrs@["email"@])
        && m.to@.len() == 1 && m.to@[0]@ == old.attrs@["email"@]
        && new.attrs@.contains_key("email_change_code"@)
        && new.attrs@ == old.attrs@.insert("email_change_code"@, new.attrs@["email_change_code"@]).insert("new_email"@, f["value"@])
    &&& has_all && f["table"@] == "admin"@ && attr_is(old, "id"@, f["id"@]) && f["name"@] == "email"@
        && old.attrs@.contains_key("email"@) ==> r is Mail
}

/// Changing one value of a row, for an administrator's session.
fn change_admin_row(fields: &FieldMap, session: &mut Session) -> (r: RowAction)
    ensures
        change_row_spec(fields@, *old(session), *final(session), r),
{
    let table = match field(fields, "table") { Ok(v) => v, Err(t) => return RowAction::Reply(t) };
    let id = match field(fields, "id") { Ok(v) => v, Err(t) => return RowAction::Reply(t) };
    let is_admin_table = table == owned("admin");
    if is_admin_table && !session.has("id", id.as_str()) {
        return RowAction::Reply(owned("{\"authorized\":false,\"success\":false}"));
    }
    let name = match field(fields, "name") { Ok(v) => v, Err(t) => return RowAction::Reply(t) };
    let value = match field(fields, "value") { Ok(v) => v, Err(t) => return RowAction::Reply(t) };
    proof {
        reveal_strlit("admin");
    }
    if is_admin_table && name == owned("email") {
        return match queue_change_email(session, value.as_str()) {
            Some((m, e)) => RowAction::Mail(m, confirm_reply(e.as_str())),
            None => RowAction::Reply(owned("{\"success\":false}")),
        };
    }
    let s = match change_row_where(table.as_str(), "id", id.as_str(), name.as_str(), value.as_str()) {
        Ok(s) => s,
        Err(_) => return RowAction::Reply(owned("{\"success\":false}")),
    };
    let text = join(join(owned("Successfully updated row "), id.as_str()), ".");
    let mut f: Vec<(String, String)> = Vec::new();
    f.push((owned("message"), json_string(text.as_str())));
    f.push((owned("success"), json_bool(true)));
    proof {
        reveal_strlit("true");
        reveal_strlit("Successfully ");
        reveal_strlit("updated");
        reveal_strlit(" row ");
        reveal_strlit(".");
        reveal_strlit("Successfully updated row ");
        assert(text@ =~= row_message("updated"@, id@));
        assert(pair_views(f@) =~= seq![("message"@, json_text(row_message("updated"@, id@))), ("success"@, "true"@)]);
    }
    RowAction::Run(s, json_object(&f))
}

/// Changing one value of a row. Only an administrator may: any other session,
/// or none, gets `{}` and nothing else happens. A row of the `admin` table may
/// only be changed by its own administrator, and a change of its address goes
/// through a mailed code.
pub fn change_row(fields: &FieldMap, session: &mut Option<Session>) -> (r: RowAction)
    ensures
        !is_admin(*old(session)) ==> (r matches RowAction::Reply(t) && t@ == "{}"@) && *final(session) == *old(session),
        is_admin(*old(session)) ==> (*final(session)) is Some
            && change_row_spec(fields@, (*old(session))->Some_0, (*final(session))->Some_0, r),
{
    match session {
        Some(s) => {
            if !s.has("admin", "1") {
                return RowAction::Reply(owned("{}"));
            }
            change_admin_row(fields, s)
        },
        None => RowAction::Reply(owned("{}")),
    }
}

/// What a row deletion owes, for an administrator's session `old` that becomes
/// `new`: another administrator's row is refused; the administrator's own row
/// goes through a mailed code; a row of any other allowed table is deleted by id.
pub open spec fn delete_row_spec(f: Map<Seq<char>, Seq<char>>, old: Session, new: Session, r: RowAction) -> bool {
    &&& new.id == old.id
    &&& !(r is Mail) ==> new.attrs@ == old.attrs@
    &&& f.contains_key("table"@) && f["table"@] == "admin"@ && f.contains_key("id"@) && !attr_is(old, "id"@, f["id"@])
        ==> (r matches RowAction::Reply(t) && t@ == not_authorized())
    &&& r matches RowAction::Run(s, t) ==> f.contains_key("table"@) && f.contains_key("id"@)
        && f["table"@] != "admin"@ && table_spec(f["table"@]) is Some
        && s.sql@ == delete_sql(f["table"@], "id"@)
        && (s.params matches Params::Named(p) && p@.len() == 1 && p@[0].1@ == f["id"@])
        && t@ == object(seq![("id"@, json_text(f["id"@])),
            ("message"@, json_text(row_message("deleted"@, f["id"@]))), ("success"@, "true"@)])
    &&& f.contains_key("table"@) && f.contains_key("id"@) && f["table"@] != "admin"@
        && table_spec(f["table"@]) is Some ==> r is Run
    &&& r matches RowAction::Mail(m, t) ==> f.contains_key("table"@) && f["table"@] == "admin"@
        && f.contains_key("id"@) && attr_is(old, "id"@, f["id"@])
        && old.attrs@.contains_key("email"@) && t@ == confirm_by_mail(old.attrs@["email"@])
        && m.to@.len() == 1 && m.to@[0]@ == old.attrs@["email"@]
        && new.attrs@.contains_key("delete_code"@)
        && new.attrs@ == old.attrs@.insert("delete_code"@, new.attrs@["delete_code"@])
    &&& f.contains_key("table"@) && f["table"@] == "admin"@ && f.contains_key("id"@)
        && attr_is(old, "id"@, f["id"@]) && old.attrs@.contains_key("email"@) ==> r is Mail
}

/// Deleting a row, for an administrator's session.
fn delete_admin_row(fields: &FieldMap, session: &mut Session) -> (r: RowAction)
    ensures
        delete_row_spec(fields@, *old(session), *final(session), r),
{
    let table = match field(fields, "table") { Ok(v) => v, Err(t) => return RowAction::Reply(t) };
    let id = match field(fields, "id") { Ok(v) => v, Err(t) => return RowAction::Reply(t) };
    if table == owned("admin") {
        if !session.has("id", id.as_str()) {
            return RowAction::Reply(owned("{\"authorized\":false,\"success\":false}"));
        }
        return match queue_delete_email(session) {
            Some((m, e)) => RowAction::Mail(m, confirm_reply(e.as_str())),
            None => RowAction::Reply(owned("{\"success\":false}")),
        };
    }
    let s = match delete_row_where(table.as_str(), "id", id.as_str()) {
        Ok(s) => s,
        Err(_) => return RowAction::Reply(owned("{\"success\":false}")),
    };
    let text = join(join(owned("Successfully deleted row "), id.as_str()), ".");
    let mut f: Vec<(String, String)> = Vec::new();
    f.push((owned("id"), json_string(id.as_str())));
    f.push((owned("message"), json_string(text.as_str())));
    f.push((owned("success"), json_bool(true)));
    proof {
        reveal_strlit("true");
        reveal_strlit("Successfully ");
        reveal_strlit("deleted");
        reveal_strlit(" row ");
        reveal_strlit(".");
        reveal_strlit("Successfully deleted row ");
        assert(text@ =~= row_message("deleted"@, id@));
        assert(pair_views(f@) =~= seq![("id"@, json_text(id@)),
            ("message"@, json_text(row_message("deleted"@, id@))), ("success"@, "true"@)]);
    }
    RowAction::Run(s, json_object(&f))
}

/// Deleting a row. Only an administrator may: any other session, or none, gets
/// `{}` and nothing else happens. A row of the `admin` table may only be deleted
/// by its own administrator, through a mailed code.
pub fn delete_row(fields: &FieldMap, session: &mut Option<Session>) -> (r: RowAction)
    ensures
        !is_admin(*old(session)) ==> (r matches RowAction::Reply(t) && t@ == "{}"@) && *final(session) == *old(session),
        is_admin(*old(session)) ==> (*final(session)) is Some
            && delete_row_spec(fields@, (*old(session))->Some_0, (*final(session))->Some_0, r),
{
    match session {
        Some(s) => {
            if !s.has("admin", "1") {
                return RowAction::Reply(owned("{}"));
            }
            delete_admin_row(fields, s)
        },
        None => RowAction::Reply(owned("{}")),
    }
}

/// The lookup that starts a move: the largest id of the table for a move to the
/// end, the smallest for a move to the start. A move is best effort: the id is
/// read and then written without isolation, so two moves in the same table at
/// the same time can pick the same new id.
pub fn move_row_lookup(fields: &FieldMap, session: Option<&Session>, to_end: bool) -> (r: Result<Statement, String>)
    ensures
        !is_admin(opt_session(session)) ==> (r matches Err(t) && t@ == "{}"@),
        is_admin(opt_session(session)) && fields@.contains_key("table"@) && table_spec(fields@["table"@]) is Some <==> r is Ok,
        r matches Ok(s) ==> s.sql@ == crate::tables::extreme_id_sql(fields@["table"@], to_end),
{
    if !admin_of(session) {
        return Err(owned("{}"));
    }
    let table = field(fields, "table")?;
    let s = if to_end { get_max_id(table.as_str()) } else { get_min_id(table.as_str()) };
    match s {
        Ok(s) => Ok(s),
        Err(_) => Err(owned("{\"success\":false}")),
    }
}

/// The new id of a moved row and the statement that gives it: one past the
/// largest id for a move to the end, one before the smallest for a move to the
/// start. `extreme` is what the lookup of `move_row_lookup` returned.
pub fn move_row(fields: &FieldMap, session: Option<&Session>, extreme: i32, to_end: bool) -> (r: Result<(i32, Statement), String>)
    ensures
        !is_admin(opt_session(session)) ==> (r matches Err(t) && t@ == "{}"@),
        r matches Ok((n, s)) ==> (to_end ==> n == extreme + 1) && (!to_end ==> n == extreme - 1)
            && fields@.contains_key("table"@) && fields@.contains_key("id"@)
            && s.sql@ == update_sql(fields@["table"@], "id"@, "id"@)
            && (s.params matches Params::Named(p) && p@.len() == 2 && p@[0].1@ == decimal(n as int)
                && p@[1].1@ == fields@["id"@]),
        is_admin(opt_session(session)) && fields@.contains_key("table"@) && fields@.contains_key("id"@) && table_spec(fields@["table"@]) is Some
            && (to_end ==> extreme < i32::MAX) && (!to_end ==> extreme > i32::MIN) ==> r is Ok,
{
    if !admin_of(session) {
        return Err(owned("{}"));
    }
    let table = field(fields, "table")?;
    let id = field(fields, "id")?;
    let next = if to_end { id_after(extreme) } else { id_before(extreme) };
    let n = match next {
        Some(n) => n,
        None => return Err(owned("{\"success\":false}")),
    };
    let text = int_text(n as i64);
    match change_row_where(table.as_str(), "id", id.as_str(), "id", text.as_str()) {
        Ok(s) => Ok((n, s)),
        Err(_) => Err(owned("{\"success\":false}")),
    }
}

/// The lookup of a row by its id.
pub fn row_lookup(table: &str, id: i32) -> (r: Result<Statement, String>)
    ensures
        table_spec(table@) is Some <==> r is Ok,
        r matches Ok(s) ==> s.sql@ == crate::tables::like_sql(table@, "id"@)
            && (s.params matches Params::Named(p) && p@.len() == 1 && p@[0].1@ == decimal(id as int)),
{
    let text = int_text(id as i64);
    match get_like(table, "id", text.as_str()) {
        Ok(s) => Ok(s),
        Err(_) => Err(owned("{\"success\":false}")),
    }
}

/// The column names (first value) or types (second value) of a column listing.
pub open spec fn column_texts(details: Seq<Vec<Cell>>, at: int) -> Option<Seq<Seq<char>>>
    decreases details.len(),
{
    if details.len() == 0 {
        Some(Seq::empty())
    } else {
        match column_texts(details.drop_last(), at) {
            None => None,
            Some(init) => if details.last()@.len() > at && details.last()@[at] is Text {
                Some(init.push(details.last()@[at]->Text_0@))
            } else {
                None
            },
        }
    }
}

/// Reads one value, as text, of each row of a column listing: `at` 0 gives the
/// column names, 1 their SQL types.
pub fn column_field(details: &Vec<Vec<Cell>>, at: usize) -> (r: Result<Vec<String>, CoerceError>)
    ensures
        r is Ok <==> column_texts(details@, at as int) is Some,
        r matches Ok(v) ==> column_texts(details@, at as int) == Some(views(v@)),
{
    let mut out: Vec<String> = Vec::new();
    let mut i: usize = 0;
    while i < details.len()
        invariant
            i <= details@.len(),
            column_texts(details@.subrange(0, i as int), at as int) == Some(views(out@)),
        decreases details@.len() - i,
    {
        let ghost pre = details@.subrange(0, i + 1);
        assert(pre.drop_last() == details@.subrange(0, i as int));
        if at < details[i].len() {
            match &details[i][at] {
                Cell::Text(t) => {
                    out.push(t.clone());
                    assert(views(out@) =~= views(out@.drop_last()).push(out@.last()@));
                },
                _ => {
                    proof { lemma_column_prefix_fails(details@, at as int, i as int + 1); }
                    return Err(CoerceError::WrongShape);
                },
            }
        } else {
            proof { lemma_column_prefix_fails(details@, at as int, i as int + 1); }
            return Err(CoerceError::WrongShape);
        }
        i += 1;
    }
    assert(details@.subrange(0, details@.len() as int) == details@);
    Ok(out)
}

proof fn lemma_column_prefix_fails(details: Seq<Vec<Cell>>, at: int, n: int)
    requires
        0 < n <= details.len(),
        column_texts(details.subrange(0, n), at) is None,
    ensures
        column_texts(details, at) is None,
    decreases details.len() - n,
{
    if n < details.len() {
        assert(details.subrange(0, n + 1).drop_last() == details.subrange(0, n));
        lemma_column_prefix_fails(details, at, n + 1);
    } else {
        assert(details.subrange(0, n) == details);
    }
}

/// The SQL types of a table's columns, from its column listing.
pub fn get_column_types(details: &Vec<Vec<Cell>>) -> (r: Result<Vec<String>, CoerceError>)
    ensures
        r is Ok <==> column_texts(details@, 1) is Some,
        r matches Ok(v) ==> column_texts(details@, 1) == Some(views(v@)),
{
    column_field(details, 1)
}

/// The first row that a lookup by id found, rendered by the column types of its table.
pub fn return_row(types: &Vec<String>, rows: &Vec<Vec<Cell>>) -> (r: Result<Vec<String>, CoerceError>)
    ensures
        rows@.len() == 0 ==> r == Err::<Vec<String>, CoerceError>(CoerceError::MissingRow),
        rows@.len() > 0 ==> (r is Ok <==> render_row_spec(views(types@), rows@[0]@) is Some),
        r matches Ok(v) ==> rows@.len() > 0 && render_row_spec(views(types@), rows@[0]@) == Some(views(v@)),
{
    if rows.len() == 0 {
        return Err(CoerceError::MissingRow);
    }
    render_row(types, &rows[0])
}

/// The reply after a move, with the moved row as it now stands.
pub open spec fn moved_reply(id: Seq<char>, row: Seq<Seq<char>>, to_end: bool) -> Seq<char> {
    object(seq![
        ("message"@, json_text("Successfully moved row "@ + id + if to_end { " to end."@ } else { " to start."@ })),
        ("old_id"@, json_text(id)),
        ("row"@, array(quoted_all(row))),
        ("success"@, "true"@),
    ])
}

/// The reply after a move: the message, the old id and the row under its new id.
pub fn move_row_reply(fields: &FieldMap, row: &Vec<String>, to_end: bool) -> (r: String)
    ensures
        fields@.contains_key("id"@) ==> r@ == moved_reply(fields@["id"@], views(row@), to_end),
        !fields@.contains_key("id"@) ==> r@ == missing_field("id"@),
{
    let id = match field(fields, "id") { Ok(v) => v, Err(t) => return t };
    let text = join(join(owned("Successfully moved row "), id.as_str()), if to_end { " to end." } else { " to start." });
    let mut f: Vec<(String, String)> = Vec::new();
    f.push((owned("message"), json_string(text.as_str())));
    f.push((owned("old_id"), json_string(id.as_str())));
    f.push((owned("row"), json_string_array(row)));
    f.push((owned("success"), json_bool(true)));
    proof {
        reveal_strlit("true");
        assert(pair_views(f@) =~= seq![
            ("message"@, json_text("Successfully moved row "@ + id@ + if to_end { " to end."@ } else { " to start."@ })),
            ("old_id"@, json_text(id@)),
            ("row"@, array(quoted_all(views(row@)))),
            ("success"@, "true"@),
        ]);
    }
    json_object(&f)
}

/// The statements `get_database` runs: the table's column listing, then its rows
/// by ascending id.
pub fn database_lookup(fields: &FieldMap, session: Option<&Session>) -> (r: Result<(Statement, Statement), String>)
    ensures
        !is_admin(opt_session(session)) ==> (r matches Err(t) && t@ == "{\"success\":false}"@),
        is_admin(opt_session(session)) && fields@.contains_key("table"@) && table_spec(fields@["table"@]) is Some <==> r is Ok,
        r matches Ok((c, a)) ==> c.sql@ == crate::tables::columns_sql(fields@["table"@])
            && a.sql@ == crate::tables::all_sql(fields@["table"@], true),
        is_admin(opt_session(session)) && !fields@.contains_key("table"@) ==> (r matches Err(t) && t@ == missing_field("table"@)),
{
    if !admin_of(session) {
        return Err(owned("{\"success\":false}"));
    }
    let table = field(fields, "table")?;
    match (get_column_details(table.as_str()), get_all_rows(table.as_str(), true)) {
        (Ok(c), Ok(a)) => Ok((c, a)),
        _ => Err(owned("{\"success\":false}")),
    }
}

/// Whether every row renders by the column types; the rendered rows if so.
pub open spec fn render_rows_spec(types: Seq<Seq<char>>, rows: Seq<Vec<Cell>>) -> Option<Seq<Seq<Seq<char>>>>
    decreases rows.len(),
{
    if rows.len() == 0 {
        Some(Seq::empty())
    } else {
        match (render_rows_spec(types, rows.drop_last()), render_row_spec(types, rows.last()@)) {
            (Some(init), Some(last)) => Some(init.push(last)),
            _ => None,
        }
    }
}

/// A whole table for the administration pages: column names, rows rendered by
/// the column types, and the types, or `{"success":false}` when a value does not
/// fit its column.
pub fn get_database(session: Option<&Session>, details: &Vec<Vec<Cell>>, rows: &Vec<Vec<Cell>>) -> (r: String)
    ensures
        is_admin(opt_session(session)) && column_texts(details@, 0) is Some && column_texts(details@, 1) is Some
            && render_rows_spec(column_texts(details@, 1)->Some_0, rows@) is Some
            ==> r@ == object(seq![
                ("columns"@, array(quoted_all(column_texts(details@, 0)->Some_0))),
                ("rows"@, array(render_rows_spec(column_texts(details@, 1)->Some_0, rows@)->Some_0
                    .map_values(|row: Seq<Seq<char>>| array(quoted_all(row))))),
                ("success"@, "true"@),
                ("types"@, array(quoted_all(column_texts(details@, 1)->Some_0))),
            ]),
        !(is_admin(opt_session(session)) && column_texts(details@, 0) is Some && column_texts(details@, 1) is Some
            && render_rows_spec(column_texts(details@, 1)->Some_0, rows@) is Some)
            ==> r@ == "{\"success\":false}"@,
{
    if !admin_of(session) {
        return owned("{\"success\":false}");
    }
    let names = match column_field(details, 0) { Ok(v) => v, Err(_) => return owned("{\"success\":false}") };
    let types = match column_field(details, 1) { Ok(v) => v, Err(_) => return owned("{\"success\":false}") };
    let ghost tv = views(types@);
    let mut rendered: Vec<String> = Vec::new();
    let ghost mut acc: Seq<Seq<Seq<char>>> = Seq::empty();
    let mut i: usize = 0;
    while i < rows.len()
        invariant
            i <= rows@.len(),
            tv == views(types@),
            column_texts(details@, 1) == Some(tv),
            column_texts(details@, 0) == Some(views(names@)),
            render_rows_spec(tv, rows@.subrange(0, i as int)) == Some(acc),
            views(rendered@) == acc.map_values(|row: Seq<Seq<char>>| array(quoted_all(row))),
        decreases rows@.len() - i,
    {
        let ghost pre = rows@.subrange(0, i + 1);
        assert(pre.drop_last() == rows@.subrange(0, i as int));
        match render_row(&types, &rows[i]) {
            Ok(cells) => {
                let t = json_string_array(&cells);
                let ghost old_rendered = rendered@;
                let ghost old_acc = acc;
                rendered.push(t);
                proof {
                    assert(pre.last() == rows@[i as int]);
                    acc = acc.push(views(cells@));
                    assert(views(rendered@) =~= views(old_rendered).push(t@));
                    assert(acc.map_values(|row: Seq<Seq<char>>| array(quoted_all(row)))
                        =~= old_acc.map_values(|row: Seq<Seq<char>>| array(quoted_all(row))).push(array(quoted_all(views(cells@)))));
                }
            },
            Err(_) => {
                proof {
                    assert(pre.last() == rows@[i as int]);
                    assert(render_rows_spec(tv, pre) is None);
                    lemma_rows_prefix_fails(tv, rows@, i as int + 1);
                }
                return owned("{\"success\":false}");
            },
        }
        i += 1;
    }
    assert(rows@.subrange(0, rows@.len() as int) == rows@);
    let mut f: Vec<(String, String)> = Vec::new();
    f.push((owned("columns"), json_string_array(&names)));
    f.push((owned("rows"), json_array(&rendered)));
    f.push((owned("success"), json_bool(true)));
    f.push((owned("types"), json_string_array(&types)));
    proof {
        reveal_strlit("true");
        assert(pair_views(f@) =~= seq![
            ("columns"@, array(quoted_all(views(names@)))),
            ("rows"@, array(acc.map_values(|row: Seq<Seq<char>>| array(quoted_all(row))))),
            ("success"@, "true"@),
            ("types"@, array(quoted_all(tv))),
        ]);
    }
    json_object(&f)
}

proof fn lemma_rows_prefix_fails(types: Seq<Seq<char>>, rows: Seq<Vec<Cell>>, n: int)
    requires
        0 < n <= rows.len(),
        render_rows_spec(types, rows.subrange(0, n)) is None,
    ensures
        render_rows_spec(types, rows) is None,
    decreases rows.len() - n,
{
    if n < rows.len() {
        assert(rows.subrange(0, n + 1).drop_last() == rows.subrange(0, n));
        lemma_rows_prefix_fails(types, rows, n + 1);
    } else {
        assert(rows.subrange(0, n) == rows);
    }
}

/// The lookup of the titles of a table's rows.
pub fn row_titles_lookup(fields: &FieldMap, session: Option<&Session>) -> (r: Result<Statement, String>)
    ensures
        !is_admin(opt_session(session)) ==> (r matches Err(t) && t@ == "{}"@),
        is_admin(opt_session(session)) && fields@.contains_key("table"@) && table_spec(fields@["table"@]) is Some <==> r is Ok,
        r matches Ok(s) ==> s.sql@ == crate::tables::some_sql("title"@, fields@["table"@]),
{
    if !admin_of(session) {
        return Err(owned("{}"));
    }
    let table = field(fields, "table")?;
    match get_some(table.as_str(), "title") {
        Ok(s) => Ok(s),
        Err(_) => Err(owned("{}")),
    }
}

/// The titles of a table's rows: `{"table":...,"titles":[...]}`, or `{}` when a
/// title is not text.
pub fn get_row_titles(fields: &FieldMap, session: Option<&Session>, rows: &Vec<Vec<Cell>>) -> (r: String)
    ensures
        !is_admin(opt_session(session)) ==> r@ == "{}"@,
        is_admin(opt_session(session)) && fields@.contains_key("table"@) && column_texts(rows@, 0) is Some ==> r@ == object(seq![
            ("table"@, json_text(fields@["table"@])),
            ("titles"@, array(quoted_all(column_texts(rows@, 0)->Some_0))),
        ]),
        is_admin(opt_session(session)) && fields@.contains_key("table"@) && column_texts(rows@, 0) is None ==> r@ == "{}"@,
{
    if !admin_of(session) {
        return owned("{}");
    }
    let table = match field(fields, "table") { Ok(v) => v, Err(t) => return t };
    let titles = match column_field(rows, 0) { Ok(v) => v, Err(_) => return owned("{}") };
    let mut f: Vec<(String, String)> = Vec::new();
    f.push((owned("table"), json_string(table.as_str())));
    f.push((owned("titles"), json_string_array(&titles)));
    proof {
        assert(pair_views(f@) =~= seq![
            ("table"@, json_text(table@)),
            ("titles"@, array(quoted_all(views(titles@)))),
        ]);
    }
    json_object(&f)
}

/// The list of strings that serde_json reads from a JSON text, if it holds one.
pub uninterp spec fn json_string_list(s: Seq<char>) -> Option<Seq<Seq<char>>>;

/// Relies on `serde_json::from_str` into `Vec<String>`: the strings of a JSON
/// array of strings, or an error for any other text; the result depends on the
/// text alone.
#[verifier::external_body]
fn parse_string_list(s: &str) -> (r: Option<Vec<String>>)
    ensures
        r is Some <==> json_string_list(s@) is Some,
        r matches Some(v) ==> json_string_list(s@) == Some(views(v@)),
{
    serde_json::from_str::<Vec<String>>(s).ok()
}

/// The reply when the columns and values of a new row cannot be read or paired.
pub open spec fn unpaired_reply() -> Seq<char> {
    "{\"message\":\"The column names and values must be two JSON lists of strings of the same length.\",\"success\":false}"@
}

/// Adding a row: the fields `names` and `values` are JSON lists of strings,
/// paired by position; the insert statement, or the reply that refuses them.
pub fn add_row(fields: &FieldMap, session: Option<&Session>) -> (r: Result<Statement, String>)
    ensures
        !is_admin(opt_session(session)) ==> (r matches Err(t) && t@ == "{}"@),
        r matches Ok(s) ==> fields@.contains_key("table"@) && fields@.contains_key("names"@)
            && fields@.contains_key("values"@)
            && json_string_list(fields@["names"@]) is Some && json_string_list(fields@["values"@]) is Some
            && s.sql@ == crate::tables::insert_sql(fields@["table"@], json_string_list(fields@["names"@])->Some_0)
            && (s.params matches Params::Positional(v) && views(v@) == json_string_list(fields@["values"@])->Some_0),
        is_admin(opt_session(session)) && fields@.contains_key("table"@) && fields@.contains_key("names"@) && fields@.contains_key("values"@)
            && table_spec(fields@["table"@]) is Some
            && json_string_list(fields@["names"@]) is Some && json_string_list(fields@["values"@]) is Some
            && json_string_list(fields@["names"@])->Some_0.len() > 0
            && json_string_list(fields@["names"@])->Some_0.len() == json_string_list(fields@["values"@])->Some_0.len()
            ==> r is Ok,
        is_admin(opt_session(session)) && fields@.contains_key("table"@) && fields@.contains_key("names"@) && fields@.contains_key("values"@)
            && table_spec(fields@["table"@]) is Some
            && (json_string_list(fields@["names"@]) is None || json_string_list(fields@["values"@]) is None)
            ==> (r matches Err(t) && t@ == unpaired_reply()),
{
    if !admin_of(session) {
        return Err(owned("{}"));
    }
    let table = field(fields, "table")?;
    let names_text = field(fields, "names")?;
    let values_text = field(fields, "values")?;
    if crate::tables::check_table(table.as_str()).is_none() {
        return Err(owned("{\"success\":false}"));
    }
    let refusal = "{\"message\":\"The column names and values must be two JSON lists of strings of the same length.\",\"success\":false}";
    let names = match parse_string_list(names_text.as_str()) { Some(v) => v, None => return Err(owned(refusal)) };
    let values = match parse_string_list(values_text.as_str()) { Some(v) => v, None => return Err(owned(refusal)) };
    match insert_row(table.as_str(), &names, &values) {
        Ok(s) => {
            assert(names@.map_values(|t: String| t@) == views(names@));
            Ok(s)
        },
        Err(_) => Err(owned(refusal)),
    }
}

/// The reply when the data layer refused a new row: its error text, and failure.
pub fn add_row_failed(error: &str) -> (r: String)
    ensures
        r@ == object(seq![("message"@, json_text(error@)), ("success"@, "false"@)]),
{
    let mut f: Vec<(String, String)> = Vec::new();
    f.push((owned("message"), json_string(error)));
    f.push((owned("success"), json_bool(false)));
    proof {
        reveal_strlit("false");
        assert(pair_views(f@) =~= seq![("message"@, json_text(error@)), ("success"@, "false"@)]);
    }
    json_object(&f)
}

/// The reply after a row was added: its id, in the message, and the row.
pub fn add_row_reply(id: i32, row: &Vec<String>) -> (r: String)
    ensures
        r@ == object(seq![
            ("message"@, json_text(row_message("added"@, decimal(id as int)))),
            ("row"@, array(quoted_all(views(row@)))),
            ("success"@, "true"@),
        ]),
{
    let text = join(join(owned("Successfully added row "), int_text(id as i64).as_str()), ".");
    let mut f: Vec<(String, String)> = Vec::new();
    f.push((owned("message"), json_string(text.as_str())));
    f.push((owned("row"), json_string_array(row)));
    f.push((owned("success"), json_bool(true)));
    proof {
        reveal_strlit("true");
        reveal_strlit("Successfully ");
        reveal_strlit("added");
        reveal_strlit(" row ");
        reveal_strlit(".");
        reveal_strlit("Successfully added row ");
        assert(text@ =~= row_message("added"@, decimal(id as int)));
        assert(pair_views(f@) =~= seq![
            ("message"@, json_text(row_message("added"@, decimal(id as int)))),
            ("row"@, array(quoted_all(views(row@)))),
            ("success"@, "true"@),
        ]);
    }
    json_object(&f)
}

/// Whether a mail goes to every member rather than to one recipient.
pub fn wants_all_users(fields: &FieldMap) -> (r: bool)
    ensures
        r == (fields@.contains_key("recipients"@) && fields@["recipients"@] == "all_users"@),
{
    match fields.get("recipients") {
        Some(v) => v == owned("all_users"),
        None => false,
    }
}

/// Mailing from the administration pages: to every user and administrator,
/// whose addresses the caller looked up (`users`, `admins`), when `recipients`
/// is `all_users`, else to the one `recipient`.
pub fn send_email(fields: &FieldMap, session: Option<&Session>, users: &Vec<Vec<Cell>>, admins: &Vec<Vec<Cell>>) -> (r: Result<(Mail, String), String>)
    ensures
        !is_admin(opt_session(session)) ==> (r matches Err(t) && t@ == "{\"success\":false}"@),
        is_admin(opt_session(session)) && fields@.contains_key("subject"@) && fields@.contains_key("body"@)
            && (if fields@.contains_key("recipients"@) && fields@["recipients"@] == "all_users"@ {
                column_texts(users@, 0) is Some && column_texts(admins@, 0) is Some
            } else {
                fields@.contains_key("recipient"@)
            }) ==> r is Ok,
        r matches Ok((m, t)) ==> fields@.contains_key("subject"@) && fields@.contains_key("body"@)
            && m.subject@ == fields@["subject"@] && m.body@ == fields@["body"@]
            && t@ == "{\"success\":true}"@
            && (fields@.contains_key("recipients"@) && fields@["recipients"@] == "all_users"@
                ==> column_texts(users@, 0) is Some && column_texts(admins@, 0) is Some
                && views(m.to@) == column_texts(users@, 0)->Some_0 + column_texts(admins@, 0)->Some_0)
            && (!(fields@.contains_key("recipients"@) && fields@["recipients"@] == "all_users"@)
                ==> fields@.contains_key("recipient"@) && views(m.to@) == seq![fields@["recipient"@]]),
{
    if !admin_of(session) {
        return Err(owned("{\"success\":false}"));
    }
    let subject = field(fields, "subject")?;
    let body = field(fields, "body")?;
    let to = if wants_all_users(fields) {
        let mut a = match column_field(users, 0) { Ok(v) => v, Err(_) => return Err(owned("{\"success\":false}")) };
        let b = match column_field(admins, 0) { Ok(v) => v, Err(_) => return Err(owned("{\"success\":false}")) };
        let ghost va = views(a@);
        let mut i: usize = 0;
        while i < b.len()
            invariant
                i <= b@.len(),
                views(a@) == va + views(b@).subrange(0, i as int),
            decreases b@.len() - i,
        {
            let ghost before = a@;
            let x = b[i].clone();
            a.push(x);
            assert(a@ == before.push(b@[i as int]));
            assert(views(a@) =~= views(before).push(b@[i as int]@));
            assert(views(a@) =~= va + views(b@).subrange(0, i + 1));
            i += 1;
        }
        assert(views(b@).subrange(0, b@.len() as int) == views(b@));
        a
    } else {
        let one = field(fields, "recipient")?;
        let mut v: Vec<String> = Vec::new();
        v.push(one);
        assert(views(v@) =~= seq![v@[0]@]);
        v
    };
    Ok((Mail { to, subject, body }, owned("{\"success\":true}")))
}

/// Hashing a password for an administrator account: a password of the wrong
/// length gets the message that says so; otherwise `{"hash":...}` (or `{}` when
/// the system gives no randomness for the salt).
pub fn hash_password(fields: &FieldMap, session: Option<&Session>) -> (r: String)
    ensures
        !is_admin(opt_session(session)) ==> r@ == "{}"@,
        is_admin(opt_session(session)) && fields@.contains_key("password"@) && !(8 <= (encode_utf8(fields@["password"@]).len() as usize) <= 128)
            ==> r@ == message_json("Please use a password between 8 and 128 characters long."@),
        is_admin(opt_session(session)) && fields@.contains_key("password"@) && 8 <= (encode_utf8(fields@["password"@]).len() as usize) <= 128
            ==> r@ == "{}"@ || exists|h: Seq<char>| scrypt_accepts(fields@["password"@], h)
                && r@ == object(seq![("hash"@, json_text(h))]),
        is_admin(opt_session(session)) && !fields@.contains_key("password"@) ==> r@ == missing_field("password"@),
{
    if !admin_of(session) {
        return owned("{}");
    }
    let password = match field(fields, "password") { Ok(v) => v, Err(t) => return t };
    if let Some(t) = check_password(password.as_str()) {
        return message(t);
    }
    match hash(password.as_str()) {
        Some(h) => {
            let mut f: Vec<(String, String)> = Vec::new();
            f.push((owned("hash"), json_string(h.as_str())));
            assert(pair_views(f@) =~= seq![("hash"@, json_text(h@))]);
            json_object(&f)
        },
        None => owned("{}"),
    }
}

} // verus!
