//! The public pages: the current song article, calendar events, the image list
//! and the text pages, plus the mail account settings of the administrators.
use vstd::prelude::*;
use crate::account::field;
use crate::form::FieldMap;
use crate::json::{json_array, json_bool, json_object, json_string, json_string_array, join, object, owned, json_text, array, quoted_all, views, pair_views, bool_text};
use crate::session::{admin_of, is_admin, opt_session, Session};
use crate::tables::{change_row_where, get_like, insert_row, Statement, Params};
use crate::values::{date_text, decimal, int_text, iso_date, valid_date, Cell, CoerceError};

verus! {

/// The number of days from 1970-01-01 to a date of the proleptic Gregorian
/// calendar, counted in 400-year eras that start on March 1st.
pub open spec fn days_from_epoch(y: int, m: int, d: int) -> int {
    let yy = if m <= 2 { y - 1 } else { y };
    let era = yy / 400;
    let yoe = yy - era * 400;
    let doy = (153 * (if m > 2 { m - 3 } else { m + 9 }) + 2) / 5 + d - 1;
    let doe = yoe * 365 + yoe / 4 - yoe / 100 + doy;
    era * 146097 + doe - 719468
}

/// The Unix time of midnight (UTC) at the start of a date.
pub open spec fn unix_midnight(y: int, m: int, d: int) -> int {
    days_from_epoch(y, m, d) * 86400
}

/// Relies on `chrono::NaiveDate::from_ymd_opt`, `and_hms_opt(0, 0, 0)`,
/// `and_utc` and `timestamp`: the Unix time of the date's first second (86400
/// seconds a day since 1970-01-01, no leap seconds), for the dates that chrono
/// holds (`from_ymd_opt` is `None` on the others).
#[verifier::external_body]
fn midnight_timestamp(year: i32, month: u32, day: u32) -> (r: Option<i64>)
    ensures
        r is Some <==> valid_date(year as int, month as int, day as int),
        r matches Some(t) ==> t == unix_midnight(year as int, month as int, day as int),
{
    chrono::NaiveDate::from_ymd_opt(year, month, day)
        .and_then(|d| d.and_hms_opt(0, 0, 0))
        .map(|t| t.and_utc().timestamp())
}

/// When an article expires: the Unix time of its expiry date, its fourth value.
pub open spec fn article_expiry(row: Seq<Cell>) -> Option<int> {
    if row.len() > 3 {
        match row[3] {
            Cell::Date { year, month, day } => if valid_date(year as int, month as int, day as int) {
                Some(unix_midnight(year as int, month as int, day as int))
            } else {
                None
            },
            _ => None,
        }
    } else {
        None
    }
}

/// The scan over the first `n` articles: the latest expiry kept so far and the
/// article that set it. An article is kept when it expires after every kept one
/// and after `now`; `None` when an expiry cannot be read.
pub open spec fn scan_articles(rows: Seq<Vec<Cell>>, now: int, n: int) -> Option<(int, Option<int>)>
    decreases n,
{
    if n <= 0 {
        Some((0, None))
    } else {
        match scan_articles(rows, now, n - 1) {
            None => None,
            Some((e, k)) => match article_expiry(rows[n - 1]@) {
                None => None,
                Some(t) => if t > e && now < t { Some((t, Some(n - 1))) } else { Some((e, k)) },
            },
        }
    }
}

/// The current article: of the articles that have not expired at `now`, the
/// first one with the latest expiry. `Err` when an expiry cannot be read.
pub fn pick_article(rows: &Vec<Vec<Cell>>, now: u64) -> (r: Result<Option<usize>, CoerceError>)
    ensures
        scan_articles(rows@, now as int, rows@.len() as int) is None <==> r is Err,
        r matches Ok(k) ==> (match scan_articles(rows@, now as int, rows@.len() as int) {
            Some((_, kept)) => kept == match k { Some(i) => Some(i as int), None => None },
            None => false,
        }),
{
    let mut expiry: i64 = 0;
    let mut kept: Option<usize> = None;
    let mut i: usize = 0;
    while i < rows.len()
        invariant
            i <= rows@.len(),
            scan_articles(rows@, now as int, i as int) == Some((expiry as int, match kept { Some(j) => Some(j as int), None => None })),
            expiry >= 0,
        decreases rows@.len() - i,
    {
        let row = &rows[i];
        let t = if row.len() > 3 {
            match &row[3] {
                Cell::Date { year, month, day } => midnight_timestamp(*year, *month, *day),
                _ => None,
            }
        } else {
            None
        };
        let t = match t {
            Some(t) => t,
            None => {
                proof { lemma_scan_fails(rows@, now as int, i as int + 1); }
                return Err(CoerceError::WrongShape);
            },
        };
        if t > expiry && (now as i128) < (t as i128) {
            expiry = t;
            kept = Some(i);
        }
        i += 1;
    }
    Ok(kept)
}

proof fn lemma_scan_fails(rows: Seq<Vec<Cell>>, now: int, n: int)
    requires
        0 < n <= rows.len(),
        scan_articles(rows, now, n) is None,
    ensures
        scan_articles(rows, now, rows.len() as int) is None,
    decreases rows.len() - n,
{
    if n < rows.len() {
        lemma_scan_fails(rows, now, n + 1);
    }
}

/// The reply when no article is current.
pub open spec fn no_article() -> Seq<char> {
    "{\"title\":\"\"}"@
}

/// The reply when no article is current: `{"title":""}`.
pub fn no_article_reply() -> (r: String)
    ensures
        r@ == no_article(),
{
    owned("{\"title\":\"\"}")
}

/// The text values of a row at the given positions, if each is text.
pub open spec fn texts_at(row: Seq<Cell>, at: Seq<int>) -> Option<Seq<Seq<char>>>
    decreases at.len(),
{
    if at.len() == 0 {
        Some(Seq::empty())
    } else {
        match texts_at(row, at.drop_last()) {
            None => None,
            Some(init) => if 0 <= at.last() < row.len() && row[at.last()] is Text {
                Some(init.push(row[at.last()]->Text_0@))
            } else {
                None
            },
        }
    }
}

/// The text value at position `at` of a row.
fn text_at(row: &Vec<Cell>, at: usize) -> (r: Option<String>)
    ensures
        r is Some <==> at < row@.len() && row@[at as int] is Text,
        r matches Some(t) ==> t@ == row@[at as int]->Text_0@,
{
    if at < row.len() {
        match &row[at] {
            Cell::Text(t) => Some(t.clone()),
            _ => None,
        }
    } else {
        None
    }
}

/// The lookup of the songs of an article, by its title (its second value).
pub fn songs_lookup(article: &Vec<Cell>) -> (r: Result<Statement, CoerceError>)
    ensures
        r is Ok <==> article@.len() > 1 && article@[1] is Text,
        r matches Ok(s) ==> s.sql@ == crate::tables::like_sql("songs"@, "article"@)
            && (s.params matches Params::Named(p) && p@.len() == 1 && p@[0].1@ == article@[1]->Text_0@),
{
    let title = match text_at(article, 1) { Some(t) => t, None => return Err(CoerceError::WrongShape) };
    match get_like("songs", "article", title.as_str()) {
        Ok(s) => Ok(s),
        Err(_) => Err(CoerceError::WrongShape),
    }
}

/// A song as JSON: name, link and role, its second to fourth values.
pub open spec fn song_json(row: Seq<Cell>) -> Option<Seq<char>> {
    match texts_at(row, seq![1int, 2, 3]) {
        Some(t) => Some(object(seq![("name"@, json_text(t[0])), ("link"@, json_text(t[1])), ("role"@, json_text(t[2]))])),
        None => None,
    }
}

/// The JSON of every song, if each can be read.
pub open spec fn songs_json(rows: Seq<Vec<Cell>>) -> Option<Seq<Seq<char>>>
    decreases rows.len(),
{
    if rows.len() == 0 {
        Some(Seq::empty())
    } else {
        match (songs_json(rows.drop_last()), song_json(rows.last()@)) {
            (Some(init), Some(s)) => Some(init.push(s)),
            _ => None,
        }
    }
}

fn three_texts(row: &Vec<Cell>, a: usize, b: usize, c: usize) -> (r: Option<(String, String, String)>)
    ensures
        r is Some <==> texts_at(row@, seq![a as int, b as int, c as int]) is Some,
        r matches Some((x, y, z)) ==> texts_at(row@, seq![a as int, b as int, c as int]) == Some(seq![x@, y@, z@]),
{
    proof {
        reveal_with_fuel(texts_at, 4);
        assert(seq![a as int, b as int, c as int].drop_last() =~= seq![a as int, b as int]);
        assert(seq![a as int, b as int].drop_last() =~= seq![a as int]);
        assert(seq![a as int].drop_last() =~= Seq::<int>::empty());
    }
    let x = text_at(row, a)?;
    let y = text_at(row, b)?;
    let z = text_at(row, c)?;
    proof {
        assert(seq![x@].push(y@).push(z@) =~= seq![x@, y@, z@]);
    }
    Some((x, y, z))
}

/// The current article with its songs, as the song page reads it:
/// `{"title":...,"text":...,"songs":[{"name":...,"link":...,"role":...},...]}`.
pub fn songs_reply(article: &Vec<Cell>, songs: &Vec<Vec<Cell>>) -> (r: Result<String, CoerceError>)
    ensures
        r is Ok <==> article@.len() > 2 && article@[1] is Text && article@[2] is Text && songs_json(songs@) is Some,
        r matches Ok(t) ==> t@ == object(seq![
            ("title"@, json_text(article@[1]->Text_0@)),
            ("text"@, json_text(article@[2]->Text_0@)),
            ("songs"@, array(songs_json(songs@)->Some_0)),
        ]),
{
    let title = match text_at(article, 1) { Some(t) => t, None => return Err(CoerceError::WrongShape) };
    let text = match text_at(article, 2) { Some(t) => t, None => return Err(CoerceError::WrongShape) };
    let mut items: Vec<String> = Vec::new();
    let mut i: usize = 0;
    while i < songs.len()
        invariant
            i <= songs@.len(),
            songs_json(songs@.subrange(0, i as int)) == Some(views(items@)),
        decreases songs@.len() - i,
    {
        let ghost pre = songs@.subrange(0, i + 1);
        assert(pre.drop_last() == songs@.subrange(0, i as int));
        assert(pre.last() == songs@[i as int]);
        match three_texts(&songs[i], 1, 2, 3) {
            Some((name, link, role)) => {
                let mut f: Vec<(String, String)> = Vec::new();
                f.push((owned("name"), json_string(name.as_str())));
                f.push((owned("link"), json_string(link.as_str())));
                f.push((owned("role"), json_string(role.as_str())));
                assert(pair_views(f@) =~= seq![("name"@, json_text(name@)), ("link"@, json_text(link@)), ("role"@, json_text(role@))]);
                let ghost before = items@;
                items.push(json_object(&f));
                assert(views(items@) =~= views(before).push(items@.last()@));
            },
            None => {
                proof { lemma_songs_fail(songs@, i as int + 1); }
                return Err(CoerceError::WrongShape);
            },
        }
        i += 1;
    }
    assert(songs@.subrange(0, songs@.len() as int) == songs@);
    let mut f: Vec<(String, String)> = Vec::new();
    f.push((owned("title"), json_string(title.as_str())));
    f.push((owned("text"), json_string(text.as_str())));
    f.push((owned("songs"), json_array(&items)));
    assert(pair_views(f@) =~= seq![("title"@, json_text(title@)), ("text"@, json_text(text@)), ("songs"@, array(views(items@)))]);
    Ok(json_object(&f))
}

proof fn lemma_songs_fail(rows: Seq<Vec<Cell>>, n: int)
    requires
        0 < n <= rows.len(),
        songs_json(rows.subrange(0, n)) is None,
    ensures
        songs_json(rows) is None,
    decreases rows.len() - n,
{
    if n < rows.len() {
        assert(rows.subrange(0, n + 1).drop_last() == rows.subrange(0, n));
        lemma_songs_fail(rows, n + 1);
    } else {
        assert(rows.subrange(0, n) == rows);
    }
}

/// The id of an event, its first value, if it is an integer.
pub open spec fn event_id(row: Seq<Cell>) -> Option<int> {
    if row.len() > 0 {
        match row[0] {
            Cell::Int(n) => Some(n as int),
            Cell::UInt(n) => if n <= i64::MAX { Some(n as int) } else { None },
            _ => None,
        }
    } else {
        None
    }
}

/// An event as JSON: id, title, date, start and end time and notes.
pub open spec fn event_json(row: Seq<Cell>) -> Option<Seq<char>> {
    match (event_id(row), texts_at(row, seq![1int, 3, 4, 5])) {
        (Some(id), Some(t)) => if row[2] is Date && valid_date(row[2]->year as int, row[2]->month as int, row[2]->day as int) {
            Some(object(seq![
                ("id"@, decimal(id)),
                ("title"@, json_text(t[0])),
                ("date"@, json_text(iso_date(row[2]->year as int, row[2]->month as int, row[2]->day as int))),
                ("start_time"@, json_text(t[1])),
                ("end_time"@, json_text(t[2])),
                ("notes"@, json_text(t[3])),
            ]))
        } else {
            None
        },
        _ => None,
    }
}

/// The JSON of every event, if each can be read.
pub open spec fn events_json(rows: Seq<Vec<Cell>>) -> Option<Seq<Seq<char>>>
    decreases rows.len(),
{
    if rows.len() == 0 {
        Some(Seq::empty())
    } else {
        match (events_json(rows.drop_last()), event_json(rows.last()@)) {
            (Some(init), Some(s)) => Some(init.push(s)),
            _ => None,
        }
    }
}

/// The lookup of the events of a month: dates that match the field `year_month`.
pub fn calendar_lookup(fields: &FieldMap) -> (r: Result<Statement, String>)
    ensures
        r is Ok <==> fields@.contains_key("year_month"@),
        r matches Ok(s) ==> s.sql@ == crate::tables::like_sql("calendar"@, "date"@)
            && (s.params matches Params::Named(p) && p@.len() == 1 && p@[0].1@ == fields@["year_month"@]),
{
    let ym = field(fields, "year_month")?;
    match get_like("calendar", "date", ym.as_str()) {
        Ok(s) => Ok(s),
        Err(_) => Err(owned("[]")),
    }
}

fn event_item(row: &Vec<Cell>) -> (r: Option<String>)
    ensures
        r is Some <==> event_json(row@) is Some,
        r matches Some(t) ==> event_json(row@) == Some(t@),
{
    let id: i64 = if row.len() > 0 {
        match &row[0] {
            Cell::Int(n) => *n,
            Cell::UInt(n) => if *n <= i64::MAX as u64 { *n as i64 } else { return None },
            _ => return None,
        }
    } else {
        return None;
    };
    proof {
        reveal_with_fuel(texts_at, 5);
        assert(seq![1int, 3, 4, 5].drop_last() =~= seq![1int, 3, 4]);
        assert(seq![1int, 3, 4].drop_last() =~= seq![1int, 3]);
        assert(seq![1int, 3].drop_last() =~= seq![1int]);
        assert(seq![1int].drop_last() =~= Seq::<int>::empty());
    }
    let title = text_at(row, 1)?;
    let start = text_at(row, 3)?;
    let end = text_at(row, 4)?;
    let notes = text_at(row, 5)?;
    let date = match &row[2] {
        Cell::Date { year, month, day } => date_text(*year, *month, *day),
        _ => None,
    };
    let date = date?;
    let mut f: Vec<(String, String)> = Vec::new();
    f.push((owned("id"), int_text(id)));
    f.push((owned("title"), json_string(title.as_str())));
    f.push((owned("date"), json_string(date.as_str())));
    f.push((owned("start_time"), json_string(start.as_str())));
    f.push((owned("end_time"), json_string(end.as_str())));
    f.push((owned("notes"), json_string(notes.as_str())));
    proof {
        assert(seq![title@].push(start@).push(end@).push(notes@) =~= seq![title@, start@, end@, notes@]);
        assert(pair_views(f@) =~= seq![
            ("id"@, decimal(id as int)),
            ("title"@, json_text(title@)),
            ("date"@, json_text(date@)),
            ("start_time"@, json_text(start@)),
            ("end_time"@, json_text(end@)),
            ("notes"@, json_text(notes@)),
        ]);
    }
    Some(json_object(&f))
}

/// The events of a month as a JSON list, or `None` when a row cannot be read.
pub fn get_calendar_events(rows: &Vec<Vec<Cell>>) -> (r: Option<String>)
    ensures
        r is Some <==> events_json(rows@) is Some,
        r matches Some(t) ==> t@ == array(events_json(rows@)->Some_0),
{
    let mut items: Vec<String> = Vec::new();
    let mut i: usize = 0;
    while i < rows.len()
        invariant
            i <= rows@.len(),
            events_json(rows@.subrange(0, i as int)) == Some(views(items@)),
        decreases rows@.len() - i,
    {
        let ghost pre = rows@.subrange(0, i + 1);
        assert(pre.drop_last() == rows@.subrange(0, i as int));
        assert(pre.last() == rows@[i as int]);
        match event_item(&rows[i]) {
            Some(t) => {
                let ghost before = items@;
                items.push(t);
                assert(views(items@) =~= views(before).push(items@.last()@));
            },
            None => {
                proof { lemma_events_fail(rows@, i as int + 1); }
                return None;
            },
        }
        i += 1;
    }
    assert(rows@.subrange(0, rows@.len() as int) == rows@);
    Some(json_array(&items))
}

proof fn lemma_events_fail(rows: Seq<Vec<Cell>>, n: int)
    requires
        0 < n <= rows.len(),
        events_json(rows.subrange(0, n)) is None,
    ensures
        events_json(rows) is None,
    decreases rows.len() - n,
{
    if n < rows.len() {
        assert(rows.subrange(0, n + 1).drop_last() == rows.subrange(0, n));
        lemma_events_fail(rows, n + 1);
    } else {
        assert(rows.subrange(0, n) == rows);
    }
}

/// The image list: `{"images":[...]}` with the file names.
pub fn get_image_list(names: &Vec<String>) -> (r: String)
    ensures
        r@ == object(seq![("images"@, array(quoted_all(views(names@))))]),
{
    let mut f: Vec<(String, String)> = Vec::new();
    f.push((owned("images"), json_string_array(names)));
    assert(pair_views(f@) =~= seq![("images"@, array(quoted_all(views(names@))))]);
    json_object(&f)
}

/// The text that htmlescape decodes from HTML with character entities, if it can.
pub uninterp spec fn html_decoded(s: Seq<char>) -> Option<Seq<char>>;

/// Relies on `htmlescape::decode_html`: the text with its character entities
/// decoded, or an error for a malformed entity; a function of the text alone.
#[verifier::external_body]
fn decode_html(s: &str) -> (r: Option<String>)
    ensures
        r is Some <==> html_decoded(s@) is Some,
        r matches Some(t) ==> html_decoded(s@) == Some(t@),
{
    htmlescape::decode_html(s).ok()
}

/// The lookup of a text page by the field `page`.
pub fn page_lookup(fields: &FieldMap) -> (r: Result<Statement, String>)
    ensures
        r is Ok <==> fields@.contains_key("page"@),
        r matches Ok(s) ==> s.sql@ == "SELECT * FROM pages where topnav_id=:a"@
            && (s.params matches Params::Named(p) && p@.len() == 1 && p@[0].0@ == "a"@ && p@[0].1@ == fields@["page"@]),
{
    let page = field(fields, "page")?;
    let mut p: Vec<(String, String)> = Vec::new();
    p.push((owned("a"), page));
    Ok(Statement { sql: owned("SELECT * FROM pages where topnav_id=:a"), params: Params::Named(p) })
}

/// A text page: the HTML-decoded text, the second value of the first row found.
/// `None` when there is no such row or its text does not decode.
pub fn get_page(rows: &Vec<Vec<Cell>>) -> (r: Option<String>)
    ensures
        r is Some <==> rows@.len() > 0 && rows@[0]@.len() > 1 && rows@[0]@[1] is Text
            && html_decoded(rows@[0]@[1]->Text_0@) is Some,
        r matches Some(t) ==> html_decoded(rows@[0]@[1]->Text_0@) == Some(t@),
{
    if rows.len() == 0 {
        return None;
    }
    let text = text_at(&rows[0], 1)?;
    decode_html(text.as_str())
}

/// The mail token of the administrators: the fifth value of the first admin row
/// whose token is not empty text, when that value is itself text.
pub open spec fn refresh_token_spec(rows: Seq<Vec<Cell>>) -> Option<Seq<char>>
    decreases rows.len(),
{
    if rows.len() == 0 {
        None
    } else {
        let c = if rows[0]@.len() > 4 { rows[0]@[4] } else { Cell::Null };
        if c is Text && c->Text_0@.len() == 0 {
            refresh_token_spec(rows.drop_first())
        } else if c is Text {
            Some(c->Text_0@)
        } else {
            None
        }
    }
}

/// The mail token stored for the administrators, if any.
pub fn get_refresh_token(rows: &Vec<Vec<Cell>>) -> (r: Option<String>)
    ensures
        r matches Some(t) ==> refresh_token_spec(rows@) == Some(t@),
        r is None ==> refresh_token_spec(rows@) is None,
{
    let mut i: usize = 0;
    assert(rows@.subrange(0, rows@.len() as int) == rows@);
    while i < rows.len()
        invariant
            i <= rows@.len(),
            refresh_token_spec(rows@) == refresh_token_spec(rows@.subrange(i as int, rows@.len() as int)),
        decreases rows@.len() - i,
    {
        let ghost rest = rows@.subrange(i as int, rows@.len() as int);
        assert(rest[0] == rows@[i as int]);
        assert(rest.drop_first() == rows@.subrange(i + 1, rows@.len() as int));
        if rows[i].len() > 4 {
            match &rows[i][4] {
                Cell::Text(t) => {
                    if t.as_str().is_empty() {
                        i += 1;
                        continue;
                    }
                    return Some(t.clone());
                },
                _ => return None,
            }
        } else {
            return None;
        }
    }
    None
}

/// Whether mail can be sent: `{"working":...}`, true when a token is stored.
pub fn is_gmail_working(session: Option<&Session>, rows: &Vec<Vec<Cell>>) -> (r: String)
    ensures
        !is_admin(opt_session(session)) ==> r@ == "{\"working\":false}"@,
        is_admin(opt_session(session)) ==> r@ == object(seq![("working"@, bool_text(refresh_token_spec(rows@) is Some))]),
{
    if !admin_of(session) {
        return owned("{\"working\":false}");
    }
    let ok = get_refresh_token(rows).is_some();
    let mut f: Vec<(String, String)> = Vec::new();
    f.push((owned("working"), json_bool(ok)));
    assert(pair_views(f@) =~= seq![("working"@, bool_text(ok))]);
    json_object(&f)
}

/// The client id that serde_json reads from the OAuth client file, if it has one.
pub uninterp spec fn json_client_id(s: Seq<char>) -> Option<Seq<char>>;

/// Relies on `serde_json::from_str` into a `serde_json::Value` and on indexing
/// it by `client_id` with `as_str`: the top-level `client_id` string of the JSON
/// text, a function of the text alone.
#[verifier::external_body]
fn client_id_of(secret: &str) -> (r: Option<String>)
    ensures
        r is Some <==> json_client_id(secret@) is Some,
        r matches Some(t) ==> json_client_id(secret@) == Some(t@),
{
    match serde_json::from_str::<serde_json::Value>(secret) {
        Ok(v) => v["client_id"].as_str().map(|s| s.to_string()),
        Err(_) => None,
    }
}

/// The address of Google's consent page for the mail account, for a client id.
pub open spec fn auth_url(client_id: Seq<char>) -> Seq<char> {
    "https://accounts.google.com/o/oauth2/v2/auth?scope=https://mail.google.com/&include_granted_scopes=true&prompt=consent&redirect_uri=https://www.olmmcc.tk/admin/email/&response_type=code&client_id="@
        + client_id + "&access_type=offline"@
}

/// The reply with the consent page address, `{"url":...}`, for the client id in
/// the OAuth client file `secret`; `{"url":""}` when the file names none.
pub fn get_gmail_auth_url(session: Option<&Session>, secret: &str) -> (r: String)
    ensures
        is_admin(opt_session(session)) && json_client_id(secret@) is Some
            ==> r@ == object(seq![("url"@, json_text(auth_url(json_client_id(secret@)->Some_0)))]),
        !is_admin(opt_session(session)) || json_client_id(secret@) is None ==> r@ == "{\"url\":\"\"}"@,
{
    if !admin_of(session) {
        return owned("{\"url\":\"\"}");
    }
    let client_id = match client_id_of(secret) {
        Some(id) => id,
        None => return owned("{\"url\":\"\"}"),
    };
    let client_id = client_id.as_str();
    let url = join(join(owned("https://accounts.google.com/o/oauth2/v2/auth?scope=https://mail.google.com/&include_granted_scopes=true&prompt=consent&redirect_uri=https://www.olmmcc.tk/admin/email/&response_type=code&client_id="), client_id), "&access_type=offline");
    let mut f: Vec<(String, String)> = Vec::new();
    f.push((owned("url"), json_string(url.as_str())));
    assert(pair_views(f@) =~= seq![("url"@, json_text(auth_url(client_id@)))]);
    json_object(&f)
}

/// The address whose mail token a code is for: the signed-in administrator's.
/// `None` for any other session, or none, or one without an address; the code
/// is then not exchanged.
pub fn gmail_owner(session: Option<&Session>) -> (r: Option<String>)
    ensures
        r is Some <==> is_admin(opt_session(session)) && opt_session(session)->Some_0.attrs@.contains_key("email"@),
        r matches Some(e) ==> e@ == opt_session(session)->Some_0.attrs@["email"@],
{
    if !admin_of(session) {
        return None;
    }
    match session {
        Some(s) => s.get("email"),
        None => None,
    }
}

/// Storing a new mail token for the signed-in administrator: an update of the
/// administrator's row when the caller's lookup by address found one (`exists`),
/// else a new admin row with the address and the token. `None` for a session
/// that is not an administrator's, or has no address.
pub fn send_gmail_code(session: Option<&Session>, exists: bool, refresh_token: &str) -> (r: Option<Statement>)
    ensures
        r is Some <==> is_admin(opt_session(session)) && opt_session(session)->Some_0.attrs@.contains_key("email"@),
        r matches Some(s) ==> (exists ==> s.sql@ == crate::tables::update_sql("admin"@, "email"@, "refresh_token"@)
                && (s.params matches Params::Named(p) && p@.len() == 2 && p@[0].1@ == refresh_token@
                    && p@[1].1@ == opt_session(session)->Some_0.attrs@["email"@]))
            && (!exists ==> s.sql@ == crate::tables::insert_sql("admin"@, seq!["email"@, "refresh_token"@])
                && (s.params matches Params::Positional(v) && v@.len() == 2
                    && v@[0]@ == opt_session(session)->Some_0.attrs@["email"@] && v@[1]@ == refresh_token@)),
{
    let email = gmail_owner(session)?;
    proof { reveal_strlit("admin"); }
    if exists {
        change_row_where("admin", "email", email.as_str(), "refresh_token", refresh_token).ok()
    } else {
        let mut titles: Vec<String> = Vec::new();
        titles.push(owned("email"));
        titles.push(owned("refresh_token"));
        let mut values: Vec<String> = Vec::new();
        values.push(email);
        values.push(owned(refresh_token));
        assert(titles@.map_values(|t: String| t@) =~= seq!["email"@, "refresh_token"@]);
        insert_row("admin", &titles, &values).ok()
    }
}

} // verus!
