use olmmcc::admin::{
    add_row, add_row_failed, add_row_reply, change_row, database_lookup, delete_row, get_column_types, get_database, get_row_titles,
    hash_password, move_row, move_row_lookup, move_row_reply, return_row, row_lookup, row_titles_lookup, send_email, wants_all_users,
    RowAction,
};
use olmmcc::content::{
    get_calendar_events, get_gmail_auth_url, gmail_owner, get_image_list, get_page, get_refresh_token,
    is_gmail_working, no_article_reply, pick_article, send_gmail_code, songs_lookup, songs_reply,
};
use olmmcc::form::FieldMap;
use olmmcc::json::{json_string, message};
use olmmcc::session::Session;
use olmmcc::tables::{
    check_table, change_row_where, delete_row_where, get_all_rows, get_column_details, get_like, get_max_id,
    get_min_id, get_some, id_after, id_before, insert_row, read_id, row_exists, DbError, Params, Table,
};
use olmmcc::values::{int_text, coerce, column_kind, push_value, render_row, Cell, CoerceError, ColumnKind};

fn fields(pairs: &[(&str, &str)]) -> FieldMap {
    let mut m = FieldMap::new();
    for (k, v) in pairs {
        m.insert(k.to_string(), v.to_string());
    }
    m
}

fn session(id: &str, attrs: &[(&str, &str)]) -> Session {
    let mut s = Session::new(id.to_string());
    for (k, v) in attrs {
        s.set(k, v.to_string());
    }
    s
}

fn boss() -> Session {
    session("sid", &[("admin", "1"), ("id", "3")])
}

fn text(s: &str) -> Cell {
    Cell::Text(s.to_string())
}

fn strings(v: &[&str]) -> Vec<String> {
    v.iter().map(|s| s.to_string()).collect()
}

fn named(p: &Params) -> Vec<(String, String)> {
    match p {
        Params::Named(v) => v.clone(),
        _ => panic!("named values expected"),
    }
}

#[test]
fn allow_list() {
    for (n, t) in [("admin", Table::Admin), ("pages", Table::Pages), ("articles", Table::Articles),
        ("calendar", Table::Calendar), ("songs", Table::Songs), ("users", Table::Users)] {
        assert_eq!(check_table(n), Some(t));
        assert_eq!(t.name(), n);
    }
    for n in ["Users", "users;", "mysql.user", "", "users "] {
        assert_eq!(check_table(n), None);
    }
}

#[test]
fn statements_refuse_other_tables() {
    assert_eq!(get_like("secrets", "a", "b").err(), Some(DbError::TableNotAllowed));
    assert_eq!(get_some("secrets", "a").err(), Some(DbError::TableNotAllowed));
    assert_eq!(get_all_rows("x", true).err(), Some(DbError::TableNotAllowed));
    assert_eq!(get_column_details("x").err(), Some(DbError::TableNotAllowed));
    assert_eq!(change_row_where("x", "id", "1", "a", "b").err(), Some(DbError::TableNotAllowed));
    assert_eq!(delete_row_where("x", "id", "1").err(), Some(DbError::TableNotAllowed));
    assert_eq!(get_max_id("users; drop table users").err(), Some(DbError::TableNotAllowed));
    assert_eq!(get_min_id("x").err(), Some(DbError::TableNotAllowed));
}

#[test]
fn statement_texts() {
    let s = get_like("calendar", "date", "2020-03%").ok().unwrap();
    assert_eq!(s.sql, "SELECT * FROM calendar WHERE date LIKE :value");
    assert_eq!(named(&s.params), vec![("value".to_string(), "2020-03%".to_string())]);
    assert_eq!(get_some("songs", "title").ok().unwrap().sql, "SELECT (title) FROM songs");
    assert_eq!(get_all_rows("articles", true).ok().unwrap().sql, "SELECT * FROM articles ORDER BY id");
    assert_eq!(get_all_rows("admin", false).ok().unwrap().sql, "SELECT * FROM admin");
    assert_eq!(get_column_details("pages").ok().unwrap().sql, "SHOW COLUMNS FROM pages");
    let u = change_row_where("songs", "id", "4", "name", "x").ok().unwrap();
    assert_eq!(u.sql, "UPDATE songs SET name = :value WHERE id = :wherevalue");
    assert_eq!(named(&u.params), vec![("value".to_string(), "x".to_string()), ("wherevalue".to_string(), "4".to_string())]);
    assert_eq!(delete_row_where("songs", "id", "4").ok().unwrap().sql, "DELETE FROM songs WHERE id = :wherevalue");
    assert_eq!(get_max_id("songs").ok().unwrap().sql, "SELECT MAX(id) FROM songs");
    assert_eq!(get_min_id("songs").ok().unwrap().sql, "SELECT MIN(id) FROM songs");
}

#[test]
fn insert_pairs_columns_and_values() {
    let s = insert_row("songs", &strings(&["name", "link", "role"]), &strings(&["a", "b", "c"])).ok().unwrap();
    assert_eq!(s.sql, "INSERT INTO songs (name, link, role) VALUES (?,?,?)");
    let one = insert_row("songs", &strings(&["name"]), &strings(&["a"])).ok().unwrap();
    assert_eq!(one.sql, "INSERT INTO songs (name) VALUES (?)");
    assert_eq!(insert_row("songs", &strings(&["a", "b"]), &strings(&["a"])).err(), Some(DbError::ArityMismatch));
    assert_eq!(insert_row("songs", &strings(&[]), &strings(&[])).err(), Some(DbError::ArityMismatch));
    assert_eq!(insert_row("nope", &strings(&["a"]), &strings(&["a"])).err(), Some(DbError::TableNotAllowed));
}

#[test]
fn value_rendering() {
    assert_eq!(column_kind("date"), ColumnKind::Date);
    assert_eq!(column_kind("int(11)"), ColumnKind::Integer);
    assert_eq!(column_kind("bigint(20) unsigned"), ColumnKind::Integer);
    assert_eq!(column_kind("varchar(255)"), ColumnKind::Text);
    let d = Cell::Date { year: 2020, month: 3, day: 5 };
    assert_eq!(coerce(ColumnKind::Date, &d).ok(), Some("2020-03-05".to_string()));
    assert_eq!(coerce(ColumnKind::Date, &Cell::Date { year: 12, month: 12, day: 31 }).ok(), Some("0012-12-31".to_string()));
    assert_eq!(coerce(ColumnKind::Date, &Cell::Date { year: 2021, month: 2, day: 29 }).err(), Some(CoerceError::WrongShape));
    assert_eq!(coerce(ColumnKind::Date, &Cell::Date { year: 2020, month: 2, day: 29 }).ok(), Some("2020-02-29".to_string()));
    assert_eq!(coerce(ColumnKind::Integer, &Cell::Int(-42)).ok(), Some("-42".to_string()));
    assert_eq!(coerce(ColumnKind::Integer, &Cell::UInt(7)).ok(), Some("7".to_string()));
    assert_eq!(coerce(ColumnKind::Integer, &Cell::Int(1 << 40)).err(), Some(CoerceError::WrongShape));
    assert_eq!(coerce(ColumnKind::Text, &text("hi")).ok(), Some("hi".to_string()));
    assert_eq!(coerce(ColumnKind::Text, &Cell::Null).err(), Some(CoerceError::WrongShape));
    let mut row = Vec::new();
    assert!(push_value("int(11)", &Cell::Int(3), &mut row).is_ok());
    assert!(push_value("date", &Cell::Int(3), &mut row).is_err());
    assert_eq!(row, vec!["3".to_string()]);
}

#[test]
fn rows_render_by_position() {
    let types = strings(&["int(11)", "varchar(40)", "date"]);
    let row = vec![Cell::Int(10), text("x"), Cell::Date { year: 1999, month: 12, day: 1 }];
    assert_eq!(render_row(&types, &row).ok(), Some(strings(&["10", "x", "1999-12-01"])));
    assert_eq!(render_row(&strings(&["int"]), &row).err(), Some(CoerceError::NoColumnType));
    let details = vec![vec![text("id"), text("int(11)")], vec![text("title"), text("varchar(40)")]];
    assert_eq!(get_column_types(&details).ok(), Some(strings(&["int(11)", "varchar(40)"])));
}

#[test]
fn reorder_to_end_takes_max_plus_one() {
    // ids {2, 5, 9}: MAX(id) is 9
    let f = fields(&[("table", "songs"), ("id", "5")]);
    assert_eq!(move_row_lookup(&f, Some(&boss()), true).ok().unwrap().sql, "SELECT MAX(id) FROM songs");
    let max = read_id(&vec![vec![Cell::Int(9)]]).ok().unwrap();
    assert_eq!(id_after(max), Some(10));
    let (new_id, stmt) = move_row(&f, Some(&boss()), max, true).ok().unwrap();
    assert_eq!(new_id, 10);
    assert_eq!(stmt.sql, "UPDATE songs SET id = :value WHERE id = :wherevalue");
    assert_eq!(named(&stmt.params), vec![("value".to_string(), "10".to_string()), ("wherevalue".to_string(), "5".to_string())]);
    let fetch = row_lookup("songs", new_id).ok().unwrap();
    assert_eq!(named(&fetch.params), vec![("value".to_string(), "10".to_string())]);
    let types = strings(&["int(11)", "varchar(40)"]);
    let row = return_row(&types, &vec![vec![Cell::Int(10), text("Ave")]]).ok().unwrap();
    assert_eq!(row, strings(&["10", "Ave"]));
    assert_eq!(
        move_row_reply(&f, &row, true),
        "{\"message\":\"Successfully moved row 5 to end.\",\"old_id\":\"5\",\"row\":[\"10\",\"Ave\"],\"success\":true}"
    );
}

#[test]
fn reorder_to_start_takes_min_minus_one() {
    // ids {2, 5, 9}: MIN(id) is 2
    let f = fields(&[("table", "songs"), ("id", "9")]);
    assert_eq!(move_row_lookup(&f, Some(&boss()), false).ok().unwrap().sql, "SELECT MIN(id) FROM songs");
    let min = read_id(&vec![vec![Cell::Int(2)]]).ok().unwrap();
    assert_eq!(id_before(min), Some(1));
    let (new_id, _) = move_row(&f, Some(&boss()), min, false).ok().unwrap();
    assert_eq!(new_id, 1);
    let types = strings(&["int(11)"]);
    let row = return_row(&types, &vec![vec![Cell::Int(1)]]).ok().unwrap();
    assert_eq!(
        move_row_reply(&f, &row, false),
        "{\"message\":\"Successfully moved row 9 to start.\",\"old_id\":\"9\",\"row\":[\"1\"],\"success\":true}"
    );
}

#[test]
fn reorder_edges() {
    assert_eq!(id_after(i32::MAX), None);
    assert_eq!(id_before(i32::MIN), None);
    assert_eq!(id_before(0), Some(-1));
    assert_eq!(read_id(&vec![vec![Cell::Null]]).err(), Some(DbError::NoValue));
    assert_eq!(read_id(&vec![]).err(), Some(DbError::NoValue));
    assert!(move_row(&fields(&[("table", "songs"), ("id", "1")]), Some(&boss()), i32::MAX, true).is_err());
    assert_eq!(return_row(&strings(&["int"]), &vec![]).err(), Some(CoerceError::MissingRow));
    assert!(!row_exists(&vec![]));
    assert!(!row_exists(&vec![vec![]]));
    assert!(row_exists(&vec![vec![], vec![Cell::Null]]));
}

#[test]
fn change_row_on_other_admin_is_refused() {
    let mut s = Some(session("sid", &[("admin", "1"), ("id", "3"), ("email", "boss@example.org")]));
    let f = fields(&[("table", "admin"), ("id", "4"), ("name", "email"), ("value", "x@y.z")]);
    match change_row(&f, &mut s) {
        RowAction::Reply(t) => assert_eq!(t, "{\"authorized\":false,\"success\":false}"),
        _ => panic!("expected a refusal"),
    }
    assert_eq!(s.as_ref().unwrap().get("email_change_code"), None);
}

#[test]
fn change_row_own_admin_email_goes_by_mail() {
    let mut s = Some(session("sid", &[("admin", "1"), ("id", "3"), ("email", "boss@example.org")]));
    let f = fields(&[("table", "admin"), ("id", "3"), ("name", "email"), ("value", "new@y.z")]);
    match change_row(&f, &mut s) {
        RowAction::Mail(m, t) => {
            assert_eq!(t, "{\"authorized\":true,\"email\":\"boss@example.org\",\"success\":false}");
            assert_eq!(m.subject, "Verify your Email Change Request");
        }
        _ => panic!("expected a mail"),
    }
    assert_eq!(s.as_ref().unwrap().get("new_email"), Some("new@y.z".to_string()));
}

#[test]
fn change_row_updates_other_tables() {
    let mut s = Some(session("sid", &[("admin", "1"), ("id", "3")]));
    let f = fields(&[("table", "songs"), ("id", "12"), ("name", "role"), ("value", "alto")]);
    match change_row(&f, &mut s) {
        RowAction::Run(st, t) => {
            assert_eq!(st.sql, "UPDATE songs SET role = :value WHERE id = :wherevalue");
            assert_eq!(t, "{\"message\":\"Successfully updated row 12.\",\"success\":true}");
        }
        _ => panic!("expected a statement"),
    }
}

#[test]
fn delete_row_cases() {
    let mut s = Some(session("sid", &[("admin", "1"), ("id", "3"), ("email", "boss@example.org")]));
    match delete_row(&fields(&[("table", "admin"), ("id", "8")]), &mut s) {
        RowAction::Reply(t) => assert_eq!(t, "{\"authorized\":false,\"success\":false}"),
        _ => panic!("expected a refusal"),
    }
    match delete_row(&fields(&[("table", "calendar"), ("id", "8")]), &mut s) {
        RowAction::Run(st, t) => {
            assert_eq!(st.sql, "DELETE FROM calendar WHERE id = :wherevalue");
            assert_eq!(t, "{\"id\":\"8\",\"message\":\"Successfully deleted row 8.\",\"success\":true}");
        }
        _ => panic!("expected a statement"),
    }
    match delete_row(&fields(&[("table", "admin"), ("id", "3")]), &mut s) {
        RowAction::Mail(_, t) => assert_eq!(t, "{\"authorized\":true,\"email\":\"boss@example.org\",\"success\":false}"),
        _ => panic!("expected a mail"),
    }
    assert!(s.as_ref().unwrap().get("delete_code").is_some());
}

#[test]
fn add_row_reads_json_lists() {
    let f = fields(&[("table", "songs"), ("names", "[\"name\",\"link\"]"), ("values", "[\"Ave\",\"http://x\"]")]);
    let st = add_row(&f, Some(&boss())).ok().unwrap();
    assert_eq!(st.sql, "INSERT INTO songs (name, link) VALUES (?,?)");
    match st.params {
        Params::Positional(v) => assert_eq!(v, strings(&["Ave", "http://x"])),
        _ => panic!("positional values expected"),
    }
    let bad = fields(&[("table", "songs"), ("names", "name,link"), ("values", "[\"a\"]")]);
    assert_eq!(
        add_row(&bad, Some(&boss())).err(),
        Some("{\"message\":\"The column names and values must be two JSON lists of strings of the same length.\",\"success\":false}".to_string())
    );
    let uneven = fields(&[("table", "songs"), ("names", "[\"a\",\"b\"]"), ("values", "[\"a\"]")]);
    assert!(add_row(&uneven, Some(&boss())).is_err());
    assert_eq!(add_row_failed("Duplicate entry"), "{\"message\":\"Duplicate entry\",\"success\":false}");
    assert_eq!(
        add_row_reply(11, &strings(&["11", "Ave"])),
        "{\"message\":\"Successfully added row 11.\",\"row\":[\"11\",\"Ave\"],\"success\":true}"
    );
}

#[test]
fn database_and_titles() {
    let details = vec![vec![text("id"), text("int(11)")], vec![text("when"), text("date")]];
    let rows = vec![vec![Cell::Int(1), Cell::Date { year: 2019, month: 1, day: 2 }]];
    assert_eq!(
        get_database(Some(&boss()), &details, &rows),
        "{\"columns\":[\"id\",\"when\"],\"rows\":[[\"1\",\"2019-01-02\"]],\"success\":true,\"types\":[\"int(11)\",\"date\"]}"
    );
    assert_eq!(get_database(Some(&boss()), &details, &vec![vec![text("1")]]), "{\"success\":false}");
    assert_eq!(
        get_row_titles(&fields(&[("table", "songs")]), Some(&boss()), &vec![vec![text("A")], vec![text("B")]]),
        "{\"table\":\"songs\",\"titles\":[\"A\",\"B\"]}"
    );
}

#[test]
fn mail_recipients() {
    let f = fields(&[("recipients", "all_users"), ("subject", "S"), ("body", "B")]);
    assert!(wants_all_users(&f));
    let (m, t) = send_email(&f, Some(&boss()), &vec![vec![text("u@x")]], &vec![vec![text("a@x")]]).ok().unwrap();
    assert_eq!(m.to, strings(&["u@x", "a@x"]));
    assert_eq!((m.subject.as_str(), m.body.as_str(), t.as_str()), ("S", "B", "{\"success\":true}"));
    let f = fields(&[("recipients", "one"), ("recipient", "r@x"), ("subject", "S"), ("body", "B")]);
    let (m, _) = send_email(&f, Some(&boss()), &vec![], &vec![]).ok().unwrap();
    assert_eq!(m.to, strings(&["r@x"]));
}

#[test]
fn password_hashing() {
    assert_eq!(hash_password(&fields(&[("password", "short")]), Some(&boss())), message("Please use a password between 8 and 128 characters long."));
    let r = hash_password(&fields(&[("password", "long enough")]), Some(&boss()));
    assert!(r.starts_with("{\"hash\":\"$rscrypt$"));
}

#[test]
fn current_article_is_latest_unexpired() {
    let row = |title: &str, y: i32, m: u32, d: u32| vec![Cell::Int(1), text(title), text("t"), Cell::Date { year: y, month: m, day: d }];
    let now: u64 = 1_600_000_000; // September 2020
    let rows = vec![row("old", 2019, 1, 1), row("a", 2021, 1, 1), row("b", 2022, 5, 1), row("c", 2022, 5, 1), row("d", 2021, 6, 1)];
    assert_eq!(pick_article(&rows, now).ok(), Some(Some(2)));
    assert_eq!(pick_article(&vec![row("old", 2019, 1, 1)], now).ok(), Some(None));
    assert!(pick_article(&vec![vec![Cell::Int(1)]], now).is_err());
    assert_eq!(no_article_reply(), "{\"title\":\"\"}");
}

#[test]
fn article_expiry_is_midnight_utc() {
    // 2000-03-01T00:00:00Z is 951868800; the article expires then
    let row = vec![Cell::Int(1), text("a"), text("t"), Cell::Date { year: 2000, month: 3, day: 1 }];
    assert_eq!(pick_article(&vec![row.clone()], 951_868_799).ok(), Some(Some(0)));
    assert_eq!(pick_article(&vec![row], 951_868_800).ok(), Some(None));
    let epoch = vec![Cell::Int(1), text("a"), text("t"), Cell::Date { year: 1970, month: 1, day: 2 }];
    assert_eq!(pick_article(&vec![epoch.clone()], 86_399).ok(), Some(Some(0)));
    assert_eq!(pick_article(&vec![epoch], 86_400).ok(), Some(None));
}

#[test]
fn song_page() {
    let article = vec![Cell::Int(1), text("Spring"), text("We sing.")];
    assert_eq!(songs_lookup(&article).ok().unwrap().sql, "SELECT * FROM songs WHERE article LIKE :value");
    let songs = vec![vec![Cell::Int(1), text("Ave"), text("http://a"), text("alto"), text("Spring")]];
    assert_eq!(
        songs_reply(&article, &songs).ok().unwrap(),
        "{\"title\":\"Spring\",\"text\":\"We sing.\",\"songs\":[{\"name\":\"Ave\",\"link\":\"http://a\",\"role\":\"alto\"}]}"
    );
}

#[test]
fn calendar_events() {
    let rows = vec![vec![Cell::Int(4), text("Concert"), Cell::Date { year: 2020, month: 3, day: 14 }, text("19:00"), text("21:00"), text("")]];
    assert_eq!(
        get_calendar_events(&rows).unwrap(),
        "[{\"id\":4,\"title\":\"Concert\",\"date\":\"2020-03-14\",\"start_time\":\"19:00\",\"end_time\":\"21:00\",\"notes\":\"\"}]"
    );
    assert_eq!(get_calendar_events(&vec![]).unwrap(), "[]");
    assert!(get_calendar_events(&vec![vec![Cell::Int(4)]]).is_none());
}

#[test]
fn pages_and_images() {
    assert_eq!(get_page(&vec![vec![Cell::Int(1), text("Tom &amp; Jerry"), text("x")]]), Some("Tom & Jerry".to_string()));
    assert_eq!(get_page(&vec![]), None);
    assert_eq!(get_image_list(&strings(&["a.png", "b.jpg"])), "{\"images\":[\"a.png\",\"b.jpg\"]}");
    assert_eq!(json_string("tab\there"), "\"tab\\there\"");
}

#[test]
fn mail_account_settings() {
    let token_rows = vec![
        vec![text("a"), text("h"), Cell::Int(1), Cell::Int(0), text("")],
        vec![text("b"), text("h"), Cell::Int(2), Cell::Int(0), text("tok")],
    ];
    assert_eq!(get_refresh_token(&token_rows), Some("tok".to_string()));
    assert_eq!(is_gmail_working(Some(&boss()), &token_rows), "{\"working\":true}");
    let none = vec![vec![text("a"), text("h"), Cell::Int(1), Cell::Int(0), Cell::Null]];
    assert_eq!(is_gmail_working(Some(&boss()), &none), "{\"working\":false}");
    assert!(get_gmail_auth_url(Some(&boss()), "{\"client_id\":\"abc.apps\"}").ends_with("client_id=abc.apps&access_type=offline\"}"));
    assert!(get_gmail_auth_url(Some(&boss()), "{\"client_id\":\"abc\"}").starts_with("{\"url\":\"https://accounts.google.com/o/oauth2/v2/auth?"));
    assert_eq!(get_gmail_auth_url(Some(&boss()), "not json"), "{\"url\":\"\"}");
    assert_eq!(get_gmail_auth_url(Some(&boss()), "{\"web\":{}}"), "{\"url\":\"\"}");
    let s = session("sid", &[("email", "boss@example.org"), ("admin", "1")]);
    assert_eq!(send_gmail_code(Some(&s), true, "tok").unwrap().sql, "UPDATE admin SET refresh_token = :value WHERE email = :wherevalue");
    assert_eq!(send_gmail_code(Some(&s), false, "tok").unwrap().sql, "INSERT INTO admin (email, refresh_token) VALUES (?,?)");
    assert!(send_gmail_code(Some(&session("sid", &[("admin", "1")])), true, "tok").is_none());
}

#[test]
fn privileged_steps_refuse_non_admins() {
    let plain = session("sid", &[("admin", "0"), ("verified", "1"), ("id", "3"), ("email", "a@x")]);
    let f = fields(&[("table", "songs"), ("id", "5"), ("name", "role"), ("value", "alto"),
        ("names", "[\"a\"]"), ("values", "[\"b\"]"), ("recipient", "r@x"), ("subject", "S"), ("body", "B"),
        ("password", "long enough")]);
    for who in [Some(&plain), None] {
        assert_eq!(add_row(&f, who).err(), Some("{}".to_string()));
        assert_eq!(move_row_lookup(&f, who, true).err(), Some("{}".to_string()));
        assert_eq!(move_row(&f, who, 9, true).err(), Some("{}".to_string()));
        assert_eq!(row_titles_lookup(&f, who).err(), Some("{}".to_string()));
        assert_eq!(get_row_titles(&f, who, &vec![vec![text("A")]]), "{}");
        assert!(database_lookup(&f, who).is_err());
        assert_eq!(get_database(who, &vec![vec![text("id"), text("int")]], &vec![vec![Cell::Int(1)]]), "{\"success\":false}");
        assert_eq!(send_email(&f, who, &vec![], &vec![]).err(), Some("{\"success\":false}".to_string()));
        assert_eq!(hash_password(&f, who), "{}");
        assert_eq!(is_gmail_working(who, &vec![vec![text("a"), text("h"), Cell::Int(1), Cell::Int(0), text("t")]]), "{\"working\":false}");
        assert_eq!(get_gmail_auth_url(who, "{\"client_id\":\"abc\"}"), "{\"url\":\"\"}");
        assert!(gmail_owner(who).is_none());
        assert!(send_gmail_code(who, true, "tok").is_none());
    }
    for mut who in [Some(session("sid", &[("admin", "0"), ("id", "3"), ("email", "a@x")])), None] {
        match change_row(&f, &mut who) {
            RowAction::Reply(t) => assert_eq!(t, "{}"),
            _ => panic!("expected a refusal"),
        }
        match delete_row(&f, &mut who) {
            RowAction::Reply(t) => assert_eq!(t, "{}"),
            _ => panic!("expected a refusal"),
        }
    }
}

#[test]
fn change_row_binds_value_and_id() {
    let mut s = Some(boss());
    let f = fields(&[("table", "songs"), ("id", "12"), ("name", "role"), ("value", "alto")]);
    match change_row(&f, &mut s) {
        RowAction::Run(st, _) => assert_eq!(named(&st.params), vec![("value".to_string(), "alto".to_string()), ("wherevalue".to_string(), "12".to_string())]),
        _ => panic!("expected a statement"),
    }
}

#[test]
fn integers_in_decimal() {
    assert_eq!(int_text(0), "0");
    assert_eq!(int_text(9), "9");
    assert_eq!(int_text(10), "10");
    assert_eq!(int_text(-305), "-305");
    assert_eq!(int_text(i64::MAX), "9223372036854775807");
    assert_eq!(int_text(i64::MIN), "-9223372036854775808");
}
