//! Sessions as the request logic sees them: an id and named string attributes.
//! The store that keeps them lies outside the library; a handler works on a
//! snapshot, which the caller writes back.
use vstd::prelude::*;
use crate::form::FieldMap;
use crate::json::owned;
use crate::values::{decimal, int_text, Cell};
use rand::Rng;

verus! {

/// A session: its id and its attributes.
pub struct Session {
    pub id: String,
    pub attrs: FieldMap,
}

/// Whether attribute `name` of `s` holds exactly `value`.
pub open spec fn attr_is(s: Session, name: Seq<char>, value: Seq<char>) -> bool {
    s.attrs@.contains_key(name) && s.attrs@[name] == value
}

/// Whether the session belongs to a signed-in administrator.
pub open spec fn is_admin(s: Option<Session>) -> bool {
    s matches Some(x) && attr_is(x, "admin"@, "1"@)
}

/// Whether the session belongs to a user who has confirmed the address.
pub open spec fn is_verified(s: Option<Session>) -> bool {
    s matches Some(x) && attr_is(x, "verified"@, "1"@)
}

/// Whether the session waits for a verification code.
pub open spec fn is_pending(s: Option<Session>) -> bool {
    s matches Some(x) && attr_is(x, "verified"@, "0"@)
}

/// The session that an optional reference names.
pub open spec fn opt_session(s: Option<&Session>) -> Option<Session> {
    match s {
        Some(x) => Some(*x),
        None => None,
    }
}

/// Whether the session (if any) belongs to an administrator.
pub fn admin_of(s: Option<&Session>) -> (r: bool)
    ensures
        r == is_admin(opt_session(s)),
{
    match s {
        Some(x) => x.has("admin", "1"),
        None => false,
    }
}

/// Whether the session (if any) belongs to a verified user or an administrator.
pub fn member_of(s: Option<&Session>) -> (r: bool)
    ensures
        r == (is_verified(opt_session(s)) || is_admin(opt_session(s))),
{
    match s {
        Some(x) => x.has("verified", "1") || x.has("admin", "1"),
        None => false,
    }
}

impl Session {
    /// A session with this id and no attributes.
    pub fn new(id: String) -> (r: Session)
        ensures
            r.id == id,
            r.attrs@ == Map::<Seq<char>, Seq<char>>::empty(),
    {
        Session { id, attrs: FieldMap::new() }
    }

    /// The value of attribute `name`, if set.
    pub fn get(&self, name: &str) -> (r: Option<String>)
        ensures
            r is Some <==> self.attrs@.contains_key(name@),
            r matches Some(v) ==> v@ == self.attrs@[name@],
    {
        self.attrs.get(name)
    }

    /// Sets attribute `name` to `value`.
    pub fn set(&mut self, name: &str, value: String)
        ensures
            final(self).id == old(self).id,
            final(self).attrs@ == old(self).attrs@.insert(name@, value@),
    {
        self.attrs.insert(owned(name), value);
    }

    /// Removes every attribute; the id stays.
    pub fn clear(&mut self)
        ensures
            final(self).id == old(self).id,
            final(self).attrs@ == Map::<Seq<char>, Seq<char>>::empty(),
    {
        self.attrs.clear();
    }

    /// Whether attribute `name` holds exactly `value`.
    pub fn has(&self, name: &str, value: &str) -> (r: bool)
        ensures
            r == attr_is(*self, name@, value@),
    {
        match self.get(name) {
            Some(v) => v == owned(value),
            None => false,
        }
    }
}

/// The row of a user account: address, id and subscription policy.
#[derive(Clone, Debug)]
pub struct UserRecord {
    pub email: String,
    pub id: i32,
    pub subscription_policy: i32,
}

/// The row of an administrator account: address, password hash, id and policy.
#[derive(Clone, Debug)]
pub struct AdminRecord {
    pub email: String,
    pub password_hash: String,
    pub id: i32,
    pub subscription_policy: i32,
}

/// The text in a row value, if it is text.
fn text_cell(c: &Cell) -> (r: Option<String>)
    ensures
        r matches Some(t) ==> (*c matches Cell::Text(x) && x@ == t@),
        r is None ==> !(*c is Text),
{
    match c {
        Cell::Text(t) => Some(t.clone()),
        _ => None,
    }
}

/// The 32-bit integer that a row value holds, if any.
pub open spec fn int_value(c: Cell) -> Option<i32> {
    match c {
        Cell::Int(n) => if i32::MIN <= n <= i32::MAX { Some(n as i32) } else { None },
        Cell::UInt(n) => if n <= i32::MAX { Some(n as i32) } else { None },
        _ => None,
    }
}

/// The 32-bit integer in a row value, if it holds one.
fn int_cell(c: &Cell) -> (r: Option<i32>)
    ensures
        r == int_value(*c),
{
    match c {
        Cell::Int(n) => if i32::MIN as i64 <= *n && *n <= i32::MAX as i64 { Some(*n as i32) } else { None },
        Cell::UInt(n) => if *n <= i32::MAX as u64 { Some(*n as i32) } else { None },
        _ => None,
    }
}

/// Reads a row of the `users` table: email, id, subscription policy.
pub fn user_record(row: &Vec<Cell>) -> (r: Option<UserRecord>)
    ensures
        r is Some <==> row@.len() >= 3 && row@[0] is Text && int_value(row@[1]) is Some && int_value(row@[2]) is Some,
        r matches Some(u) ==> (row@[0] matches Cell::Text(e) && e@ == u.email@)
            && int_value(row@[1]) == Some(u.id) && int_value(row@[2]) == Some(u.subscription_policy),
{
    if row.len() < 3 {
        return None;
    }
    let email = text_cell(&row[0])?;
    let id = int_cell(&row[1])?;
    let subscription_policy = int_cell(&row[2])?;
    Some(UserRecord { email, id, subscription_policy })
}

/// Reads a row of the `admin` table: email, password hash, id, subscription policy.
pub fn admin_record(row: &Vec<Cell>) -> (r: Option<AdminRecord>)
    ensures
        r is Some <==> row@.len() >= 4 && row@[0] is Text && row@[1] is Text
            && int_value(row@[2]) is Some && int_value(row@[3]) is Some,
        r matches Some(a) ==> (row@[0] matches Cell::Text(e) && e@ == a.email@),
        r matches Some(a) ==> (row@[1] matches Cell::Text(h) && h@ == a.password_hash@),
        r matches Some(a) ==> int_value(row@[2]) == Some(a.id) && int_value(row@[3]) == Some(a.subscription_policy),
{
    if row.len() < 4 {
        return None;
    }
    let email = text_cell(&row[0])?;
    let password_hash = text_cell(&row[1])?;
    let id = int_cell(&row[2])?;
    let subscription_policy = int_cell(&row[3])?;
    Some(AdminRecord { email, password_hash, id, subscription_policy })
}

/// The message for an address that has no account of either kind.
pub open spec fn not_registered() -> Seq<char> {
    "This email address is not registered. Please create a new account."@
}

/// The attributes a user session holds once filled from the user's row.
pub open spec fn user_attrs(u: UserRecord, verified: bool) -> Map<Seq<char>, Seq<char>> {
    if verified {
        map![
            "id"@ => decimal(u.id as int),
            "verified"@ => "1"@,
            "email"@ => u.email@,
            "admin"@ => "0"@,
            "subscription_policy"@ => decimal(u.subscription_policy as int),
        ]
    } else {
        map!["id"@ => decimal(u.id as int), "verified"@ => "0"@, "not_verified_email"@ => u.email@]
    }
}

/// The attributes a session holds when an administrator has signed in with an
/// address and waits for the code.
pub open spec fn pending_admin_attrs(a: AdminRecord) -> Map<Seq<char>, Seq<char>> {
    map![
        "id"@ => decimal(a.id as int),
        "not_verified_admin"@ => "1"@,
        "verified"@ => "0"@,
        "not_verified_email"@ => a.email@,
    ]
}

/// Clears the session and fills it from the account found by the caller's lookup:
/// a user row first (verified or not), else an administrator row awaiting its
/// code. With neither, the session stays empty and the message says so.
pub fn refresh_user_session(
    session: &mut Session,
    user: Option<UserRecord>,
    admin: Option<AdminRecord>,
    verified: bool,
) -> (r: Option<String>)
    ensures
        final(session).id == old(session).id,
        user matches Some(u) ==> r is None && final(session).attrs@ == user_attrs(u, verified),
        user is None && admin is Some ==> r is None
            && final(session).attrs@ == pending_admin_attrs(admin->Some_0),
        user is None && admin is None ==> (r matches Some(m) && m@ == not_registered())
            && final(session).attrs@ == Map::<Seq<char>, Seq<char>>::empty(),
{
    session.clear();
    match user {
        Some(u) => {
            session.set("id", int_text(u.id as i64));
            if verified {
                session.set("verified", owned("1"));
                session.set("email", u.email);
                session.set("admin", owned("0"));
                session.set("subscription_policy", int_text(u.subscription_policy as i64));
            } else {
                session.set("verified", owned("0"));
                session.set("not_verified_email", u.email);
            }
            proof {
                assert(final(session).attrs@ =~= user_attrs(u, verified));
            }
            None
        },
        None => match admin {
            Some(a) => {
                session.set("id", int_text(a.id as i64));
                session.set("not_verified_admin", owned("1"));
                session.set("verified", owned("0"));
                session.set("not_verified_email", a.email);
                proof {
                    assert(final(session).attrs@ =~= pending_admin_attrs(a));
                }
                None
            },
            None => Some(owned("This email address is not registered. Please create a new account.")),
        },
    }
}

/// Whether scrypt accepts `password` against the stored `hash`.
pub uninterp spec fn scrypt_accepts(password: Seq<char>, hash: Seq<char>) -> bool;

/// Relies on `scrypt::scrypt_check`: whether the password matches the hash, a
/// function of the two texts alone (the salt and parameters are in the hash).
#[verifier::external_body]
pub(crate) fn hash_match(password: &str, hash: &str) -> (r: bool)
    ensures
        r == scrypt_accepts(password@, hash@),
{
    scrypt::scrypt_check(password, hash).is_ok()
}

/// Relies on `scrypt::ScryptParams::new` and `scrypt::scrypt_simple`: a salted
/// hash of the password with parameters 2^12, 8, 1, or `None` when the system
/// gives no randomness for the salt. The salt is random, so of the text only
/// what scrypt documents is said: `scrypt_check` accepts the password against it.
#[verifier::external_body]
pub(crate) fn hash(password: &str) -> (r: Option<String>)
    ensures
        r matches Some(h) ==> scrypt_accepts(password@, h@),
{
    match scrypt::ScryptParams::new(12, 8, 1) {
        Ok(params) => scrypt::scrypt_simple(password, &params).ok(),
        Err(_) => None,
    }
}

/// The message for a wrong password.
pub open spec fn wrong_password() -> Seq<char> {
    "Wrong password, please try again."@
}

/// The message for an address without an administrator account.
pub open spec fn not_admin() -> Seq<char> {
    "This account is not an administrator account."@
}

/// The attributes of a signed-in administrator.
pub open spec fn admin_attrs(a: AdminRecord) -> Map<Seq<char>, Seq<char>> {
    map![
        "id"@ => decimal(a.id as int),
        "email"@ => a.email@,
        "admin"@ => "1"@,
        "subscription_policy"@ => decimal(a.subscription_policy as int),
    ]
}

/// Clears the session and, when the caller's lookup found an administrator row
/// and the password (if one is given) matches its hash, fills the session with
/// the administrator's attributes.
pub fn refresh_admin_session(
    session: &mut Session,
    admin: Option<AdminRecord>,
    password: Option<&str>,
) -> (r: Option<String>)
    ensures
        final(session).id == old(session).id,
        admin is None ==> (r matches Some(m) && m@ == not_admin())
            && final(session).attrs@ == Map::<Seq<char>, Seq<char>>::empty(),
        admin matches Some(a) ==> (password matches Some(p) && !scrypt_accepts(p@, a.password_hash@)
            ==> (r matches Some(m) && m@ == wrong_password())
            && final(session).attrs@ == Map::<Seq<char>, Seq<char>>::empty()),
        admin matches Some(a) ==> (!(password matches Some(p) && !scrypt_accepts(p@, a.password_hash@))
            ==> r is None && final(session).attrs@ == admin_attrs(a)),
{
    session.clear();
    match admin {
        Some(a) => {
            match password {
                Some(p) => {
                    if !hash_match(p, a.password_hash.as_str()) {
                        return Some(owned("Wrong password, please try again."));
                    }
                },
                None => {},
            }
            session.set("id", int_text(a.id as i64));
            session.set("email", a.email);
            session.set("admin", owned("1"));
            session.set("subscription_policy", int_text(a.subscription_policy as i64));
            proof {
                assert(final(session).attrs@ =~= admin_attrs(a));
            }
            None
        },
        None => Some(owned("This account is not an administrator account.")),
    }
}

/// Relies on `rand::thread_rng` sampling `rand::distributions::Alphanumeric`:
/// sixteen characters, each an ASCII letter or digit.
#[verifier::external_body]
pub(crate) fn generate_verification_code() -> (r: String)
    ensures
        r@.len() == 16,
        forall|i: int| 0 <= i < 16 ==> ('a' <= #[trigger] r@[i] <= 'z') || ('A' <= r@[i] <= 'Z') || ('0' <= r@[i] <= '9'),
{
    let mut rng = rand::thread_rng();
    (0..16).map(|_| rng.sample(rand::distributions::Alphanumeric) as char).collect()
}

} // verus!
