//! The account operations: signing up and in, the session's account details,
//! subscription policy, changing the address and deleting the account. Each
//! function takes what the caller has looked up and says what to do next.
use vstd::prelude::*;
use crate::form::FieldMap;
use crate::json::{json_bool, json_object, json_string, join, message, message_json, object, owned, bool_text, json_text};
use crate::session::{generate_verification_code, is_admin, is_verified, member_of, opt_session, Session, attr_is};
use crate::tables::{change_row_where, delete_row_where, insert_row, Statement, update_sql, delete_sql, insert_sql, Params};
use crate::text::{chars_of, contains, find, lemma_find_from};
use vstd::utf8::encode_utf8;
use crate::validation::{check_email, email_taken, policy_of, subscription_policy};

verus! {

/// An email to send.
#[derive(Clone, Debug)]
pub struct Mail {
    pub to: Vec<String>,
    pub subject: String,
    pub body: String,
}

/// The reply to a request that lacks a field the operation reads.
pub open spec fn missing_field(name: Seq<char>) -> Seq<char> {
    message_json("The request is missing the field "@ + name + "."@)
}

/// The value of a field, or the reply that says it is missing.
pub fn field(fields: &FieldMap, name: &str) -> (r: Result<String, String>)
    ensures
        fields@.contains_key(name@) ==> (r matches Ok(v) && v@ == fields@[name@]),
        !fields@.contains_key(name@) ==> (r matches Err(t) && t@ == missing_field(name@)),
{
    match fields.get(name) {
        Some(v) => Ok(v),
        None => {
            let m = join(join(owned("The request is missing the field "), name), ".");
            Err(message(m.as_str()))
        },
    }
}

/// The lower-case form of a text, as Rust's `str::to_lowercase` gives it.
pub uninterp spec fn lower_of(s: Seq<char>) -> Seq<char>;

/// Relies on `str::to_lowercase`: the Unicode lower-case mapping of the text,
/// which depends on the text alone.
#[verifier::external_body]
fn lowercase(s: &str) -> (r: String)
    ensures
        r@ == lower_of(s@),
{
    s.to_lowercase()
}

/// The address a sign-up or sign-in names, in lower case.
pub fn account_email(fields: &FieldMap) -> (r: Result<String, String>)
    ensures
        fields@.contains_key("email"@) ==> (r matches Ok(e) && e@ == lower_of(fields@["email"@])),
        !fields@.contains_key("email"@) ==> (r matches Err(t) && t@ == missing_field("email"@)),
{
    let e = field(fields, "email")?;
    Ok(lowercase(e.as_str()))
}

/// The statement that opens a user account: the address and the policy, bound by position.
pub open spec fn signup_insert() -> Seq<char> {
    insert_sql("users"@, seq!["email"@, "subscription_policy"@])
}

/// Signing up: an address that is too long or already has an account gets the
/// message that says so, and nothing is inserted; otherwise the statement that
/// creates the account. `registered` is whether the caller's lookup of `email`
/// among the users found a row.
pub fn signup(email: &str, registered: bool) -> (r: Result<Statement, String>)
    ensures
        registered ==> (r matches Err(t) && (t@ == message_json(email_taken())
            || t@ == message_json(crate::validation::email_too_long()))),
        email.len() <= 64 && registered ==> (r matches Err(t) && t@ == message_json(email_taken())),
        r is Ok <==> email.len() <= 64 && !registered,
        r matches Ok(s) ==> s.sql@ == signup_insert()
            && (s.params matches Params::Positional(v) && v@.len() == 2 && v@[0]@ == email@ && v@[1]@ == "1"@),
{
    if let Some(t) = check_email(email, registered) {
        return Err(message(t));
    }
    let mut titles: Vec<String> = Vec::new();
    titles.push(owned("email"));
    titles.push(owned("subscription_policy"));
    let mut values: Vec<String> = Vec::new();
    values.push(owned(email));
    values.push(owned("1"));
    proof {
        reveal_strlit("users");
        assert(titles@.map_values(|t: String| t@) =~= seq!["email"@, "subscription_policy"@]);
    }
    match insert_row("users", &titles, &values) {
        Ok(s) => Ok(s),
        Err(_) => Err(message("The account could not be created.")),
    }
}

/// The text of the email that carries a sign-in code.
pub open spec fn login_mail_body(code: Seq<char>) -> Seq<char> {
    "Hello,\r\nTo verify your identity, please copy this code and return to OLMMCC's website: "@ + code
        + "\r\n\r\nThis message was sent by the OLMMCC automated system. If you received it in error please contact justus@olmmcc.tk"@
}

/// Sends a fresh code to the address that waits for verification: the code is
/// kept in the session, the mail carries it, and the reply names the session and
/// the address. A session without a pending address gets `{"success":false}`.
pub fn send_login_email(session: &mut Session) -> (r: Result<(Mail, String), String>)
    ensures
        final(session).id == old(session).id,
        !old(session).attrs@.contains_key("not_verified_email"@) ==> (r matches Err(t) && t@ == "{\"success\":false}"@
            && final(session).attrs@ == old(session).attrs@),
        old(session).attrs@.contains_key("not_verified_email"@) ==> (r matches Ok((m, t))
            && final(session).attrs@.contains_key("verification_code"@)
            && final(session).attrs@ == old(session).attrs@.insert("verification_code"@, final(session).attrs@["verification_code"@])
            && final(session).attrs@["verification_code"@].len() == 16
            && m.to@.len() == 1 && m.to@[0]@ == old(session).attrs@["not_verified_email"@]
            && m.subject@ == "Verify Your Identity"@
            && m.body@ == login_mail_body(final(session).attrs@["verification_code"@])
            && t@ == object(seq![("email"@, json_text(old(session).attrs@["not_verified_email"@])),
                ("session"@, json_text(old(session).id@))])),
{
    let email = match session.get("not_verified_email") {
        Some(e) => e,
        None => return Err(owned("{\"success\":false}")),
    };
    let code = generate_verification_code();
    let body = join(join(owned("Hello,\r\nTo verify your identity, please copy this code and return to OLMMCC's website: "), code.as_str()),
        "\r\n\r\nThis message was sent by the OLMMCC automated system. If you received it in error please contact justus@olmmcc.tk");
    session.set("verification_code", code);
    let mut to: Vec<String> = Vec::new();
    to.push(email.clone());
    let mut f: Vec<(String, String)> = Vec::new();
    f.push((owned("email"), json_string(email.as_str())));
    f.push((owned("session"), json_string(session.id.as_str())));
    let reply = json_object(&f);
    proof {
        assert(crate::json::pair_views(f@) =~= seq![("email"@, json_text(email@)), ("session"@, json_text(session.id@))]);
    }
    Ok((Mail { to, subject: owned("Verify Your Identity"), body }, reply))
}

/// Which account attributes `get_account` may reveal, in the order of the reply.
pub open spec fn account_vars() -> Seq<Seq<char>> {
    seq!["admin"@, "email"@, "subscription_policy"@]
}

/// The members of the account reply: each revealable attribute that `details`
/// names and that the session holds, with its value.
pub open spec fn account_members(details: Seq<char>, attrs: Map<Seq<char>, Seq<char>>, n: int) -> Seq<(Seq<char>, Seq<char>)>
    decreases n,
{
    if n <= 0 {
        Seq::empty()
    } else {
        let v = account_vars()[n - 1];
        let rest = account_members(details, attrs, n - 1);
        if contains(details, v) && attrs.contains_key(v) {
            rest.push((v, json_text(attrs[v])))
        } else {
            rest
        }
    }
}

/// The reply of `get_account` to a session that may see its account.
pub open spec fn account_reply(details: Seq<char>, attrs: Map<Seq<char>, Seq<char>>) -> Seq<char> {
    object(account_members(details, attrs, 3))
}

/// The account details that the field `details` asks for, out of the address,
/// the administrator flag and the subscription policy. Only a verified user or
/// an administrator may ask; any other session, or none, gets `{"session":"none"}`.
pub fn get_account(fields: &FieldMap, session: Option<&Session>) -> (r: String)
    ensures
        !(is_verified(opt_session(session)) || is_admin(opt_session(session))) ==> r@ == "{\"session\":\"none\"}"@,
        (is_verified(opt_session(session)) || is_admin(opt_session(session))) && fields@.contains_key("details"@)
            ==> r@ == account_reply(fields@["details"@], opt_session(session)->Some_0.attrs@),
        (is_verified(opt_session(session)) || is_admin(opt_session(session))) && !fields@.contains_key("details"@)
            ==> r@ == missing_field("details"@),
{
    if !member_of(session) {
        return owned("{\"session\":\"none\"}");
    }
    let session = match session {
        Some(s) => s,
        None => return owned("{\"session\":\"none\"}"),
    };
    let details = match field(fields, "details") {
        Ok(d) => d,
        Err(t) => return t,
    };
    let dchars = chars_of(details.as_str());
    let vars: [&str; 3] = ["admin", "email", "subscription_policy"];
    let mut f: Vec<(String, String)> = Vec::new();
    let mut i: usize = 0;
    proof {
        reveal_strlit("admin");
        reveal_strlit("email");
        reveal_strlit("subscription_policy");
    }
    while i < 3
        invariant
            i <= 3,
            dchars@ == details@,
            vars@ == seq!["admin", "email", "subscription_policy"],
            crate::json::pair_views(f@) == account_members(details@, session.attrs@, i as int),
        decreases 3 - i,
    {
        let var = vars[i];
        assert(var@ == account_vars()[i as int]);
        let pat = chars_of(var);
        let hit = find(&dchars, &pat, 0);
        proof { lemma_find_from(dchars@, pat@, 0); }
        if hit.is_some() {
            match session.get(var) {
                Some(v) => {
                    f.push((owned(var), json_string(v.as_str())));
                },
                None => {},
            }
        }
        proof {
            assert(crate::json::pair_views(f@) =~= account_members(details@, session.attrs@, i + 1));
        }
        i += 1;
    }
    json_object(&f)
}

/// Asking twice with the same request and the same, unchanged session gives the
/// same account reply, byte for byte.
pub proof fn lemma_get_account_repeatable(
    details: Seq<char>,
    attrs: Map<Seq<char>, Seq<char>>,
    first: Seq<char>,
    second: Seq<char>,
)
    requires
        first == account_reply(details, attrs),
        second == account_reply(details, attrs),
    ensures
        first == second,
{
}

/// The confirmation of each subscription policy.
pub open spec fn subscription_message(n: int) -> Seq<char> {
    if n == 0 {
        "You are now unsubscribed from receiving emails."@
    } else if n == 1 {
        "You are now subscribed to receive emails."@
    } else {
        "You are now subscribed to receive emails and reminders."@
    }
}

/// Changing the session's subscription policy: an invalid policy is refused
/// with a message and changes nothing; a valid one is recorded in the session,
/// and the statement that records it on the user's row is returned with the
/// confirmation.
pub fn change_subscription(fields: &FieldMap, session: &mut Session) -> (r: Result<(Statement, String), String>)
    ensures
        final(session).id == old(session).id,
        r is Err ==> final(session).attrs@ == old(session).attrs@,
        fields@.contains_key("subscription"@) && policy_of(fields@["subscription"@]) is None
            ==> (r matches Err(t) && t@ == message_json("Invalid subscription policy!"@)),
        r matches Ok((s, t)) ==> fields@.contains_key("subscription"@) && old(session).attrs@.contains_key("id"@)
            && policy_of(fields@["subscription"@]) is Some
            && s.sql@ == update_sql("users"@, "id"@, "subscription_policy"@)
            && (s.params matches Params::Named(p) && p@.len() == 2 && p@[0].1@ == fields@["subscription"@]
                && p@[1].1@ == old(session).attrs@["id"@])
            && final(session).attrs@ == old(session).attrs@.insert("subscription_policy"@, fields@["subscription"@])
            && t@ == message_json(subscription_message(policy_of(fields@["subscription"@])->Some_0)),
        fields@.contains_key("subscription"@) && policy_of(fields@["subscription"@]) is Some
            && old(session).attrs@.contains_key("id"@) ==> r is Ok,
{
    let sub = field(fields, "subscription")?;
    let n = match subscription_policy(sub.as_str()) {
        Some(n) => n,
        None => return Err(message("Invalid subscription policy!")),
    };
    let id = match session.get("id") {
        Some(id) => id,
        None => return Err(owned("{\"success\":false}")),
    };
    let s = match change_row_where("users", "id", id.as_str(), "subscription_policy", sub.as_str()) {
        Ok(s) => s,
        Err(_) => return Err(owned("{\"success\":false}")),
    };
    proof { reveal_strlit("users"); }
    session.set("subscription_policy", sub);
    let text = if n == 0 {
        "You are now unsubscribed from receiving emails."
    } else if n == 1 {
        "You are now subscribed to receive emails."
    } else {
        "You are now subscribed to receive emails and reminders."
    };
    Ok((s, message(text)))
}

/// The text of the email that confirms a change of address.
pub open spec fn change_mail_body(new_email: Seq<char>, code: Seq<char>) -> Seq<char> {
    "Hello,\r\nYou requested a change of your email address to "@ + new_email
        + ". Please copy this code and return to OLMMCC's website: "@ + code
        + "\r\n\r\nThis message was sent by the OLMMCC automated system. If you did not make this request please contact justus@olmmcc.tk"@
}

/// Starts a change of address: a fresh code and the new address are kept in the
/// session, and a mail with the code goes to the current address, which is
/// returned. `None`, with the session unchanged, when the session has no address.
pub fn queue_change_email(session: &mut Session, new_email: &str) -> (r: Option<(Mail, String)>)
    ensures
        final(session).id == old(session).id,
        !old(session).attrs@.contains_key("email"@) ==> r is None && final(session).attrs@ == old(session).attrs@,
        old(session).attrs@.contains_key("email"@) ==> (r matches Some((m, e))
            && e@ == old(session).attrs@["email"@]
            && final(session).attrs@.contains_key("email_change_code"@)
            && final(session).attrs@ == old(session).attrs@
                .insert("email_change_code"@, final(session).attrs@["email_change_code"@])
                .insert("new_email"@, new_email@)
            && final(session).attrs@["email_change_code"@].len() == 16
            && m.to@.len() == 1 && m.to@[0]@ == e@
            && m.subject@ == "Verify your Email Change Request"@
            && m.body@ == change_mail_body(new_email@, final(session).attrs@["email_change_code"@])),
{
    let email = session.get("email")?;
    let code = generate_verification_code();
    let body = join(join(join(join(owned("Hello,\r\nYou requested a change of your email address to "), new_email),
        ". Please copy this code and return to OLMMCC's website: "), code.as_str()),
        "\r\n\r\nThis message was sent by the OLMMCC automated system. If you did not make this request please contact justus@olmmcc.tk");
    session.set("email_change_code", code);
    proof {
        reveal_strlit("email_change_code");
        reveal_strlit("new_email");
        assert("email_change_code"@.len() != "new_email"@.len());
    }
    let ghost mid = session.attrs@;
    session.set("new_email", owned(new_email));
    assert(session.attrs@["email_change_code"@] == mid["email_change_code"@]);
    let mut to: Vec<String> = Vec::new();
    to.push(email.clone());
    Some((Mail { to, subject: owned("Verify your Email Change Request"), body }, email))
}

/// The text of the email that confirms the deletion of an account.
pub open spec fn delete_mail_body(code: Seq<char>) -> Seq<char> {
    "Hello,\r\nYou requested a deletion of your OLMMCC account. Please copy this code and return to OLMMCC's website: "@ + code
        + "\r\n\r\nThis message was sent by the OLMMCC automated system. If you did not make this request please contact justus@olmmcc.tk"@
}

/// Starts the deletion of the account: a fresh code is kept in the session and
/// mailed to the session's address, which is returned. `None`, with the session
/// unchanged, when the session has no address.
pub fn queue_delete_email(session: &mut Session) -> (r: Option<(Mail, String)>)
    ensures
        final(session).id == old(session).id,
        !old(session).attrs@.contains_key("email"@) ==> r is None && final(session).attrs@ == old(session).attrs@,
        old(session).attrs@.contains_key("email"@) ==> (r matches Some((m, e))
            && e@ == old(session).attrs@["email"@]
            && final(session).attrs@.contains_key("delete_code"@)
            && final(session).attrs@ == old(session).attrs@.insert("delete_code"@, final(session).attrs@["delete_code"@])
            && final(session).attrs@["delete_code"@].len() == 16
            && m.to@.len() == 1 && m.to@[0]@ == e@
            && m.subject@ == "Verify your Account Deletion Request"@
            && m.body@ == delete_mail_body(final(session).attrs@["delete_code"@])),
{
    let email = session.get("email")?;
    let code = generate_verification_code();
    let body = join(join(owned("Hello,\r\nYou requested a deletion of your OLMMCC account. Please copy this code and return to OLMMCC's website: "), code.as_str()),
        "\r\n\r\nThis message was sent by the OLMMCC automated system. If you did not make this request please contact justus@olmmcc.tk");
    session.set("delete_code", code);
    let mut to: Vec<String> = Vec::new();
    to.push(email.clone());
    Some((Mail { to, subject: owned("Verify your Account Deletion Request"), body }, email))
}

/// The reply that reports a queued mail: `{"email":...,"success":true}`.
pub open spec fn queued_reply(email: Seq<char>) -> Seq<char> {
    object(seq![("email"@, json_text(email)), ("success"@, "true"@)])
}

fn queued(email: &str) -> (r: String)
    ensures
        r@ == queued_reply(email@),
{
    let mut f: Vec<(String, String)> = Vec::new();
    f.push((owned("email"), json_string(email)));
    f.push((owned("success"), json_bool(true)));
    proof {
        reveal_strlit("true");
        assert(crate::json::pair_views(f@) =~= seq![("email"@, json_text(email@)), ("success"@, "true"@)]);
    }
    json_object(&f)
}

/// Asking to change the address of a verified session: any other session gets
/// `{"success":false}`; an address that is too long or already has an account
/// gets its message; otherwise the change is queued as `queue_change_email`
/// does. `registered` is whether the caller's lookup of the new address among
/// the users found a row.
pub fn send_change_email(fields: &FieldMap, session: &mut Session, registered: bool) -> (r: Result<(Mail, String), String>)
    ensures
        final(session).id == old(session).id,
        r is Err ==> final(session).attrs@ == old(session).attrs@,
        !attr_is(*old(session), "verified"@, "1"@) ==> (r matches Err(t) && t@ == "{\"success\":false}"@),
        fields@.contains_key("email"@) && registered ==> r is Err,
        attr_is(*old(session), "verified"@, "1"@) && fields@.contains_key("email"@)
            && (encode_utf8(fields@["email"@]).len() as usize) <= 64 && !registered
            && old(session).attrs@.contains_key("email"@) ==> r is Ok,
        r matches Ok((m, t)) ==> fields@.contains_key("email"@)
            && final(session).attrs@.contains_key("email_change_code"@)
            && final(session).attrs@ == old(session).attrs@
                .insert("email_change_code"@, final(session).attrs@["email_change_code"@])
                .insert("new_email"@, fields@["email"@])
            && final(session).attrs@["email_change_code"@].len() == 16
            && m.to@.len() == 1 && m.to@[0]@ == old(session).attrs@["email"@]
            && m.subject@ == "Verify your Email Change Request"@
            && m.body@ == change_mail_body(fields@["email"@], final(session).attrs@["email_change_code"@]),
        fields@.contains_key("email"@) && (encode_utf8(fields@["email"@]).len() as usize) > 64
            && attr_is(*old(session), "verified"@, "1"@)
            ==> (r matches Err(t) && t@ == message_json(crate::validation::email_too_long())),
        attr_is(*old(session), "verified"@, "1"@) && fields@.contains_key("email"@) && (encode_utf8(fields@["email"@]).len() as usize) <= 64 && registered
            ==> (r matches Err(t) && t@ == message_json(email_taken())),
        r matches Ok((m, t)) ==> old(session).attrs@.contains_key("email"@) && t@ == queued_reply(old(session).attrs@["email"@]),
{
    if !session.has("verified", "1") {
        return Err(owned("{\"success\":false}"));
    }
    let email = field(fields, "email")?;
    if let Some(t) = check_email(email.as_str(), registered) {
        return Err(message(t));
    }
    match queue_change_email(session, email.as_str()) {
        Some((m, current)) => Ok((m, queued(current.as_str()))),
        None => Err(owned("{\"success\":false}")),
    }
}

/// Asking to delete the account of the session: the deletion is queued. Only a
/// verified user or an administrator may ask; others get `{"success":false}`.
pub fn send_delete_email(session: &mut Session) -> (r: Result<(Mail, String), String>)
    ensures
        final(session).id == old(session).id,
        r is Err ==> final(session).attrs@ == old(session).attrs@,
        !member(*old(session)) ==> (r matches Err(t) && t@ == "{\"success\":false}"@),
        r matches Ok((m, t)) ==> old(session).attrs@.contains_key("email"@) && t@ == queued_reply(old(session).attrs@["email"@])
            && m.to@.len() == 1 && m.to@[0]@ == old(session).attrs@["email"@]
            && final(session).attrs@.contains_key("delete_code"@)
            && final(session).attrs@ == old(session).attrs@.insert("delete_code"@, final(session).attrs@["delete_code"@]),
        member(*old(session)) && old(session).attrs@.contains_key("email"@) ==> r is Ok,
{
    if !(session.has("verified", "1") || session.has("admin", "1")) {
        return Err(owned("{\"success\":false}"));
    }
    match queue_delete_email(session) {
        Some((m, current)) => Ok((m, queued(current.as_str()))),
        None => Err(owned("{\"success\":false}")),
    }
}

/// Whether a session belongs to a verified user or an administrator.
pub open spec fn member(s: Session) -> bool {
    attr_is(s, "verified"@, "1"@) || attr_is(s, "admin"@, "1"@)
}

/// A session to fill again from an account row, looked up by `column` = `value`
/// in the administrator table (`admin`) or in the user table.
#[derive(Clone, Debug)]
pub struct RefreshPlan {
    pub admin: bool,
    pub column: String,
    pub value: String,
    pub verified: bool,
}

/// Whether the session's attribute `name` equals the field `code`.
fn code_matches(fields: &FieldMap, session: &Session, name: &str) -> (r: bool)
    ensures
        r == (fields@.contains_key("code"@) && session.attrs@.contains_key(name@)
            && session.attrs@[name@] == fields@["code"@]),
{
    match (fields.get("code"), session.get(name)) {
        (Some(c), Some(v)) => c == v,
        _ => false,
    }
}

/// Completing a change of address with the mailed code. On a match, the
/// statement that writes the new address on the account's row (administrator or
/// user) and the lookup that fills the session again; otherwise, and for a
/// session that is neither a verified user's nor an administrator's, `{"success":false}`.
pub fn change_email(fields: &FieldMap, session: &Session) -> (r: Result<(Statement, RefreshPlan), String>)
    ensures
        !(member(*session) && fields@.contains_key("code"@) && attr_is(*session, "email_change_code"@, fields@["code"@]))
            ==> (r matches Err(t) && t@ == "{\"success\":false}"@),
        member(*session) && fields@.contains_key("code"@) && attr_is(*session, "email_change_code"@, fields@["code"@])
            && session.attrs@.contains_key("id"@) && session.attrs@.contains_key("new_email"@) ==> r is Ok,
        r matches Ok((s, p)) ==> (s.params matches Params::Named(q) && q@.len() == 2
            && q@[0].1@ == session.attrs@["new_email"@] && q@[1].1@ == session.attrs@["id"@]),
        r matches Ok((s, p)) ==> attr_is(*session, "email_change_code"@, fields@["code"@])
            && session.attrs@.contains_key("id"@) && session.attrs@.contains_key("new_email"@)
            && p.admin == attr_is(*session, "admin"@, "1"@)
            && s.sql@ == update_sql(if p.admin { "admin"@ } else { "users"@ }, "id"@, "email"@)
            && p.column@ == "id"@ && p.value@ == session.attrs@["id"@] && !p.verified,
{
    if !(session.has("verified", "1") || session.has("admin", "1")) {
        return Err(owned("{\"success\":false}"));
    }
    if !code_matches(fields, session, "email_change_code") {
        return Err(owned("{\"success\":false}"));
    }
    let (id, new_email) = match (session.get("id"), session.get("new_email")) {
        (Some(i), Some(n)) => (i, n),
        _ => return Err(owned("{\"success\":false}")),
    };
    let admin = session.has("admin", "1");
    let table = if admin { "admin" } else { "users" };
    proof {
        reveal_strlit("admin");
        reveal_strlit("users");
    }
    let s = match change_row_where(table, "id", id.as_str(), "email", new_email.as_str()) {
        Ok(s) => s,
        Err(_) => return Err(owned("{\"success\":false}")),
    };
    Ok((s, RefreshPlan { admin, column: owned("id"), value: id, verified: false }))
}

/// Completing the deletion of the account with the mailed code: on a match, the
/// statement that removes the account's row; otherwise, and for a session that
/// is neither a verified user's nor an administrator's, `{"success":false}`.
pub fn delete_account(fields: &FieldMap, session: &Session) -> (r: Result<Statement, String>)
    ensures
        !(member(*session) && fields@.contains_key("code"@) && attr_is(*session, "delete_code"@, fields@["code"@]))
            ==> (r matches Err(t) && t@ == "{\"success\":false}"@),
        member(*session) && fields@.contains_key("code"@) && attr_is(*session, "delete_code"@, fields@["code"@])
            && session.attrs@.contains_key("id"@) ==> r is Ok,
        r matches Ok(s) ==> attr_is(*session, "delete_code"@, fields@["code"@])
            && session.attrs@.contains_key("id"@)
            && s.sql@ == delete_sql(if attr_is(*session, "admin"@, "1"@) { "admin"@ } else { "users"@ }, "id"@)
            && (s.params matches Params::Named(p) && p@.len() == 1 && p@[0].1@ == session.attrs@["id"@]),
{
    if !(session.has("verified", "1") || session.has("admin", "1")) {
        return Err(owned("{\"success\":false}"));
    }
    if !code_matches(fields, session, "delete_code") {
        return Err(owned("{\"success\":false}"));
    }
    let id = match session.get("id") {
        Some(i) => i,
        None => return Err(owned("{\"success\":false}")),
    };
    let table = if session.has("admin", "1") { "admin" } else { "users" };
    proof {
        reveal_strlit("admin");
        reveal_strlit("users");
    }
    match delete_row_where(table, "id", id.as_str()) {
        Ok(s) => Ok(s),
        Err(_) => Err(owned("{\"success\":false}")),
    }
}

/// Completing a sign-in with the mailed code: on a match, the lookup by the
/// pending address that fills the session again, as an administrator's when the
/// pending account is one, else as a verified user's; otherwise, and for a
/// session that does not wait for a code, `{"success":false}`.
pub fn verify_account(fields: &FieldMap, session: &Session) -> (r: Result<RefreshPlan, String>)
    ensures
        !(attr_is(*session, "verified"@, "0"@) && fields@.contains_key("code"@)
            && attr_is(*session, "verification_code"@, fields@["code"@]))
            ==> (r matches Err(t) && t@ == "{\"success\":false}"@),
        attr_is(*session, "verified"@, "0"@) && fields@.contains_key("code"@)
            && attr_is(*session, "verification_code"@, fields@["code"@])
            && session.attrs@.contains_key("not_verified_email"@) ==> r is Ok,
        r matches Ok(p) ==> attr_is(*session, "verification_code"@, fields@["code"@])
            && session.attrs@.contains_key("not_verified_email"@)
            && p.admin == attr_is(*session, "not_verified_admin"@, "1"@)
            && p.column@ == "email"@ && p.value@ == session.attrs@["not_verified_email"@] && p.verified,
{
    if !session.has("verified", "0") {
        return Err(owned("{\"success\":false}"));
    }
    if !code_matches(fields, session, "verification_code") {
        return Err(owned("{\"success\":false}"));
    }
    let email = match session.get("not_verified_email") {
        Some(e) => e,
        None => return Err(owned("{\"success\":false}")),
    };
    let admin = session.has("not_verified_admin", "1");
    Ok(RefreshPlan { admin, column: owned("email"), value: email, verified: true })
}

/// Filling the session again from the user table by its id, keeping whether it
/// was verified. `None` when the session has no id.
pub fn refresh(session: &Session) -> (r: Option<RefreshPlan>)
    ensures
        session.attrs@.contains_key("id"@) <==> r is Some,
        r matches Some(p) ==> !p.admin && p.column@ == "id"@ && p.value@ == session.attrs@["id"@]
            && p.verified == attr_is(*session, "verified"@, "1"@),
{
    let id = session.get("id")?;
    Some(RefreshPlan { admin: false, column: owned("id"), value: id, verified: session.has("verified", "1") })
}

/// The reply to a successful administrator sign-in: `{"session":...}`.
pub fn admin_login_reply(session: &Session) -> (r: String)
    ensures
        r@ == object(seq![("session"@, json_text(session.id@))]),
{
    let mut f: Vec<(String, String)> = Vec::new();
    f.push((owned("session"), json_string(session.id.as_str())));
    proof {
        assert(crate::json::pair_views(f@) =~= seq![("session"@, json_text(session.id@))]);
    }
    json_object(&f)
}

/// The reply that reports success or failure alone: `{"success":...}`.
pub fn success_reply(ok: bool) -> (r: String)
    ensures
        r@ == object(seq![("success"@, bool_text(ok))]),
{
    let mut f: Vec<(String, String)> = Vec::new();
    f.push((owned("success"), json_bool(ok)));
    proof {
        assert(crate::json::pair_views(f@) =~= seq![("success"@, bool_text(ok))]);
    }
    json_object(&f)
}

} // verus!
