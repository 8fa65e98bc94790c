use olmmcc::account::{
    account_email, change_email, send_change_email, change_subscription, delete_account, get_account, queue_change_email,
    refresh, send_delete_email, send_login_email, signup, success_reply, verify_account, admin_login_reply,
};
use olmmcc::form::FieldMap;
use olmmcc::guard::{authorize, capability, Capability};
use olmmcc::json::message;
use olmmcc::route::{route_of, Route};
use olmmcc::session::{
    admin_record, refresh_admin_session, refresh_user_session, user_record, AdminRecord, Session, UserRecord,
};
use olmmcc::tables::Params;
use olmmcc::validation::{check_email, check_password, check_subscription, subscription_policy};
use olmmcc::values::Cell;

fn fields(pairs: &[(&str, &str)]) -> FieldMap {
    let mut m = FieldMap::new();
    for (k, v) in pairs {
        m.insert(k.to_string(), v.to_string());
    }
    m
}

fn session(id: &str, attrs: &[(&str, &str)]) -> Session {
    let mut s = Session::new(id.to_string());
    for (k, v) in attrs {
        s.set(k, v.to_string());
    }
    s
}

fn user() -> UserRecord {
    UserRecord { email: "ann@example.org".to_string(), id: 7, subscription_policy: 2 }
}

fn admin(hash: &str) -> AdminRecord {
    AdminRecord { email: "boss@example.org".to_string(), password_hash: hash.to_string(), id: 3, subscription_policy: 1 }
}

fn attrs_of(s: &Session) -> Vec<(String, String)> {
    let mut v: Vec<(String, String)> = Vec::new();
    for (k, val) in s.attrs.entries() {
        v.retain(|(k2, _)| k2 != k);
        v.push((k.clone(), val.clone()));
    }
    v.sort();
    v
}

fn pairs(p: &[(&str, &str)]) -> Vec<(String, String)> {
    let mut v: Vec<(String, String)> = p.iter().map(|(a, b)| (a.to_string(), b.to_string())).collect();
    v.sort();
    v
}

#[test]
fn password_length_bounds() {
    assert!(check_password("1234567").is_some());
    assert_eq!(check_password("12345678"), None);
    assert_eq!(check_password(&"x".repeat(128)), None);
    assert_eq!(
        check_password(&"x".repeat(129)),
        Some("Please use a password between 8 and 128 characters long.")
    );
}

#[test]
fn email_checks() {
    assert_eq!(check_email("a@b.c", false), None);
    assert!(check_email("a@b.c", true).unwrap().starts_with("Sorry, your email address has already been registered."));
    let long = format!("{}@b.c", "a".repeat(61));
    assert_eq!(long.len(), 65);
    assert_eq!(
        check_email(&long, false),
        Some("Sorry, your email address is too long. Please use a different email address.")
    );
    let fits = format!("{}@b.c", "a".repeat(60));
    assert_eq!(check_email(&fits, false), None);
}

#[test]
fn subscription_policies() {
    for (s, n) in [("0", Some(0u8)), ("1", Some(1)), ("2", Some(2)), ("+2", Some(2)), ("-0", Some(0)), ("002", Some(2))] {
        assert_eq!(subscription_policy(s), n, "{}", s);
        assert_eq!(check_subscription(s), None);
    }
    for s in ["3", "-1", "", "+", "a", "1 ", "99999999999999999999"] {
        assert_eq!(subscription_policy(s), None, "{}", s);
        assert_eq!(check_subscription(s), Some("Invalid subscription policy!"));
    }
}

#[test]
fn signup_refuses_registered_email() {
    let r = signup("ann@example.org", true);
    assert_eq!(
        r.err(),
        Some("{\"message\":\"Sorry, your email address has already been registered. Please use a different email address or log in with your account.\"}".to_string())
    );
}

#[test]
fn signup_inserts_new_account() {
    let s = signup("ann@example.org", false).ok().unwrap();
    assert_eq!(s.sql, "INSERT INTO users (email, subscription_policy) VALUES (?,?)");
    match s.params {
        Params::Positional(v) => assert_eq!(v, vec!["ann@example.org".to_string(), "1".to_string()]),
        _ => panic!("positional values expected"),
    }
}

#[test]
fn account_email_is_lowercased() {
    assert_eq!(account_email(&fields(&[("email", "Ann@Example.ORG")])).ok(), Some("ann@example.org".to_string()));
    assert_eq!(
        account_email(&fields(&[])).err(),
        Some("{\"message\":\"The request is missing the field email.\"}".to_string())
    );
}

#[test]
fn refresh_user_session_branches() {
    let mut s = session("sid", &[("stale", "x")]);
    assert_eq!(refresh_user_session(&mut s, Some(user()), None, true), None);
    assert_eq!(
        attrs_of(&s),
        pairs(&[("id", "7"), ("verified", "1"), ("email", "ann@example.org"), ("admin", "0"), ("subscription_policy", "2")])
    );
    let mut s = session("sid", &[]);
    assert_eq!(refresh_user_session(&mut s, Some(user()), Some(admin("h")), false), None);
    assert_eq!(attrs_of(&s), pairs(&[("id", "7"), ("verified", "0"), ("not_verified_email", "ann@example.org")]));
    let mut s = session("sid", &[]);
    assert_eq!(refresh_user_session(&mut s, None, Some(admin("h")), false), None);
    assert_eq!(
        attrs_of(&s),
        pairs(&[("id", "3"), ("not_verified_admin", "1"), ("verified", "0"), ("not_verified_email", "boss@example.org")])
    );
    let mut s = session("sid", &[("id", "1")]);
    assert_eq!(
        refresh_user_session(&mut s, None, None, true),
        Some("This email address is not registered. Please create a new account.".to_string())
    );
    assert!(attrs_of(&s).is_empty());
}

#[test]
fn admin_login_with_wrong_password_sets_nothing() {
    let params = scrypt::ScryptParams::new(4, 8, 1).unwrap();
    let hash = scrypt::scrypt_simple("right password", &params).unwrap();
    let mut s = session("sid", &[("id", "9")]);
    assert_eq!(
        refresh_admin_session(&mut s, Some(admin(&hash)), Some("wrong password")),
        Some("Wrong password, please try again.".to_string())
    );
    assert!(attrs_of(&s).is_empty());
    let mut s = session("sid", &[]);
    assert_eq!(refresh_admin_session(&mut s, Some(admin(&hash)), Some("right password")), None);
    assert_eq!(attrs_of(&s), pairs(&[("id", "3"), ("email", "boss@example.org"), ("admin", "1"), ("subscription_policy", "1")]));
    assert_eq!(admin_login_reply(&s), "{\"session\":\"sid\"}");
}

#[test]
fn admin_session_without_account() {
    let mut s = session("sid", &[("admin", "1")]);
    assert_eq!(
        refresh_admin_session(&mut s, None, Some("pw")),
        Some("This account is not an administrator account.".to_string())
    );
    assert!(attrs_of(&s).is_empty());
}

#[test]
fn records_from_rows() {
    let row = vec![Cell::Text("a@b.c".to_string()), Cell::Int(4), Cell::UInt(1)];
    let u = user_record(&row).unwrap();
    assert_eq!((u.email.as_str(), u.id, u.subscription_policy), ("a@b.c", 4, 1));
    assert!(user_record(&vec![Cell::Text("a".to_string()), Cell::Text("4".to_string()), Cell::Int(1)]).is_none());
    let row = vec![Cell::Text("a@b.c".to_string()), Cell::Text("$h".to_string()), Cell::Int(2), Cell::Int(0)];
    let a = admin_record(&row).unwrap();
    assert_eq!((a.password_hash.as_str(), a.id), ("$h", 2));
}

#[test]
fn login_email_carries_code() {
    let mut s = session("sid", &[("verified", "0"), ("not_verified_email", "ann@example.org")]);
    let (mail, reply) = send_login_email(&mut s).ok().unwrap();
    let code = s.get("verification_code").unwrap();
    assert_eq!(code.len(), 16);
    assert!(code.chars().all(|c| c.is_ascii_alphanumeric()));
    assert_eq!(mail.to, vec!["ann@example.org".to_string()]);
    assert_eq!(mail.subject, "Verify Your Identity");
    assert!(mail.body.contains(&code));
    assert_eq!(reply, "{\"email\":\"ann@example.org\",\"session\":\"sid\"}");
    let mut s = session("sid", &[]);
    assert_eq!(send_login_email(&mut s).err(), Some("{\"success\":false}".to_string()));
}

#[test]
fn get_account_is_repeatable() {
    let s = session("sid", &[("verified", "1"), ("email", "ann@example.org"), ("admin", "0"), ("subscription_policy", "2")]);
    let f = fields(&[("session", "sid"), ("details", "email subscription_policy")]);
    let first = get_account(&f, Some(&s));
    let second = get_account(&f, Some(&s));
    assert_eq!(first, second);
    assert_eq!(first, "{\"email\":\"ann@example.org\",\"subscription_policy\":\"2\"}");
    let all = get_account(&fields(&[("details", "admin,email,subscription_policy")]), Some(&s));
    assert_eq!(get_account(&f, None), "{\"session\":\"none\"}");
    assert_eq!(get_account(&f, Some(&session("sid", &[("verified", "0")]))), "{\"session\":\"none\"}");
    assert_eq!(all, "{\"admin\":\"0\",\"email\":\"ann@example.org\",\"subscription_policy\":\"2\"}");
}

#[test]
fn guard_refuses_non_admin_sessions() {
    let admin_routes = [
        Route::HashPassword, Route::GetDatabase, Route::GetRowTitles, Route::MoveRowToEnd, Route::MoveRowToStart,
        Route::DeleteRow, Route::AddRow, Route::ChangeRow, Route::GetGmailAuthUrl, Route::IsGmailWorking,
        Route::SendGmailCode, Route::SendEmail,
    ];
    let plain = session("sid", &[("admin", "0"), ("verified", "1")]);
    let boss = session("sid", &[("admin", "1")]);
    for r in admin_routes {
        assert_eq!(capability(r), Capability::Admin);
        let refused = authorize(r, Some(&plain)).unwrap();
        assert_eq!(authorize(r, None), Some(refused.clone()));
        assert_eq!(authorize(r, Some(&boss)), None);
    }
    assert_eq!(authorize(Route::GetDatabase, None), Some("{\"success\":false}".to_string()));
    assert_eq!(authorize(Route::ChangeRow, Some(&plain)), Some("{}".to_string()));
    assert_eq!(authorize(Route::GetGmailAuthUrl, None), Some("{\"url\":\"\"}".to_string()));
    assert_eq!(authorize(Route::IsGmailWorking, None), Some("{\"working\":false}".to_string()));
}

#[test]
fn guard_for_member_and_open_routes() {
    let plain = session("sid", &[("verified", "1")]);
    assert_eq!(authorize(Route::GetAccount, None), Some("{\"session\":\"none\"}".to_string()));
    assert_eq!(authorize(Route::GetAccount, Some(&plain)), None);
    assert_eq!(authorize(Route::Login, None), None);
    assert_eq!(authorize(route_of("/get_songs").unwrap(), None), None);
    let pending = session("sid", &[("verified", "0")]);
    assert_eq!(authorize(Route::VerifyAccount, Some(&pending)), None);
    assert_eq!(authorize(Route::VerifyAccount, Some(&plain)), Some("{\"success\":false}".to_string()));
}

#[test]
fn change_subscription_records_policy() {
    let mut s = session("sid", &[("id", "7"), ("subscription_policy", "1")]);
    let (stmt, reply) = change_subscription(&fields(&[("subscription", "2")]), &mut s).ok().unwrap();
    assert_eq!(stmt.sql, "UPDATE users SET subscription_policy = :value WHERE id = :wherevalue");
    match stmt.params {
        Params::Named(v) => assert_eq!(v, vec![("value".to_string(), "2".to_string()), ("wherevalue".to_string(), "7".to_string())]),
        _ => panic!("named values expected"),
    }
    assert_eq!(reply, "{\"message\":\"You are now subscribed to receive emails and reminders.\"}");
    assert_eq!(s.get("subscription_policy"), Some("2".to_string()));
    let mut s = session("sid", &[("id", "7")]);
    assert_eq!(
        change_subscription(&fields(&[("subscription", "5")]), &mut s).err(),
        Some(message("Invalid subscription policy!"))
    );
    assert_eq!(s.get("subscription_policy"), None);
}

#[test]
fn change_of_address_round() {
    let mut s = session("sid", &[("id", "7"), ("email", "old@example.org"), ("verified", "1")]);
    let (mail, current) = queue_change_email(&mut s, "new@example.org").unwrap();
    assert_eq!(current, "old@example.org");
    assert_eq!(mail.to, vec!["old@example.org".to_string()]);
    let code = s.get("email_change_code").unwrap();
    assert!(mail.body.contains("new@example.org") && mail.body.contains(&code));
    assert_eq!(s.get("new_email"), Some("new@example.org".to_string()));
    assert_eq!(change_email(&fields(&[("code", "nope")]), &s).err(), Some("{\"success\":false}".to_string()));
    let (stmt, plan) = change_email(&fields(&[("code", &code)]), &s).ok().unwrap();
    assert_eq!(stmt.sql, "UPDATE users SET email = :value WHERE id = :wherevalue");
    match stmt.params {
        Params::Named(v) => assert_eq!(v, vec![("value".to_string(), "new@example.org".to_string()), ("wherevalue".to_string(), "7".to_string())]),
        _ => panic!("named values expected"),
    }
    assert!(!plan.admin && !plan.verified);
    assert_eq!((plan.column.as_str(), plan.value.as_str()), ("id", "7"));
}

#[test]
fn deletion_round() {
    let mut s = session("sid", &[("id", "3"), ("email", "boss@example.org"), ("admin", "1")]);
    let (mail, reply) = send_delete_email(&mut s).ok().unwrap();
    assert_eq!(reply, "{\"email\":\"boss@example.org\",\"success\":true}");
    assert_eq!(mail.subject, "Verify your Account Deletion Request");
    let code = s.get("delete_code").unwrap();
    assert!(delete_account(&fields(&[("code", "x")]), &s).is_err());
    let stmt = delete_account(&fields(&[("code", &code)]), &s).ok().unwrap();
    assert_eq!(stmt.sql, "DELETE FROM admin WHERE id = :wherevalue");
}

#[test]
fn code_steps_owe_success_and_refuse_outsiders() {
    let plain = session("sid", &[("id", "7"), ("delete_code", "D"), ("email_change_code", "E"), ("new_email", "n@x")]);
    assert!(delete_account(&fields(&[("code", "D")]), &plain).is_err());
    assert!(change_email(&fields(&[("code", "E")]), &plain).is_err());
    let mut plain = plain;
    assert_eq!(send_delete_email(&mut plain).err(), Some("{\"success\":false}".to_string()));
    let mut user = session("sid", &[("id", "7"), ("email", "a@x"), ("verified", "1")]);
    assert!(send_change_email(&fields(&[("email", "b@x")]), &mut user, true).is_err());
    let (mail, reply) = send_change_email(&fields(&[("email", "b@x")]), &mut user, false).ok().unwrap();
    assert_eq!(reply, "{\"email\":\"a@x\",\"success\":true}");
    assert_eq!(mail.to, vec!["a@x".to_string()]);
    assert_eq!(user.get("new_email"), Some("b@x".to_string()));
    let mut pending = session("sid", &[("id", "7"), ("email", "a@x"), ("verified", "0")]);
    assert_eq!(
        send_change_email(&fields(&[("email", "b@x")]), &mut pending, false).err(),
        Some("{\"success\":false}".to_string())
    );
}

#[test]
fn verification_round() {
    let s = session("sid", &[("verified", "0"), ("verification_code", "C0DE"), ("not_verified_email", "a@b.c"), ("not_verified_admin", "1")]);
    assert!(verify_account(&fields(&[("code", "c0de")]), &s).is_err());
    let plan = verify_account(&fields(&[("code", "C0DE")]), &s).ok().unwrap();
    assert!(plan.admin && plan.verified);
    assert_eq!((plan.column.as_str(), plan.value.as_str()), ("email", "a@b.c"));
    let plan = refresh(&session("sid", &[("id", "5"), ("verified", "1")])).unwrap();
    assert!(!plan.admin && plan.verified);
    assert!(refresh(&session("sid", &[])).is_none());
    assert_eq!(success_reply(false), "{\"success\":false}");
}
