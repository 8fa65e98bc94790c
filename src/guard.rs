//! The authorization guard: which capability each operation needs, and the
//! reply an operation gives when its session does not have it.
use vstd::prelude::*;
use crate::json::owned;
use crate::route::Route;
use crate::session::{is_admin, is_pending, is_verified, Session};

verus! {

/// What an operation asks of the session named in its request.
#[derive(Clone, Copy, Debug, PartialEq, Eq, Structural)]
pub enum Capability {
    /// Nothing: the operation is open to anyone.
    Open,
    /// Only that the session exists.
    AnySession,
    /// A verified user or an administrator.
    Member,
    /// A verified user.
    Verified,
    /// A session that waits for its verification code.
    Pending,
    /// An administrator.
    Admin,
}

/// The capability each operation needs.
pub open spec fn capability_of(r: Route) -> Capability {
    match r {
        Route::GetPage | Route::GetSongs | Route::GetImageList | Route::GetCalendarEvents
        | Route::Signup | Route::Login | Route::AdminLogin => Capability::Open,
        Route::KillSession | Route::Refresh | Route::ChangeSubscription => Capability::AnySession,
        Route::GetAccount | Route::ChangeEmail | Route::SendDeleteEmail | Route::DeleteAccount => Capability::Member,
        Route::SendChangeEmail => Capability::Verified,
        Route::VerifyAccount => Capability::Pending,
        _ => Capability::Admin,
    }
}

/// The capability each operation needs.
pub fn capability(r: Route) -> (c: Capability)
    ensures
        c == capability_of(r),
{
    match r {
        Route::GetPage | Route::GetSongs | Route::GetImageList | Route::GetCalendarEvents
        | Route::Signup | Route::Login | Route::AdminLogin => Capability::Open,
        Route::KillSession | Route::Refresh | Route::ChangeSubscription => Capability::AnySession,
        Route::GetAccount | Route::ChangeEmail | Route::SendDeleteEmail | Route::DeleteAccount => Capability::Member,
        Route::SendChangeEmail => Capability::Verified,
        Route::VerifyAccount => Capability::Pending,
        _ => Capability::Admin,
    }
}

/// Whether a session (or its absence) has a capability.
pub open spec fn grants(s: Option<Session>, c: Capability) -> bool {
    match c {
        Capability::Open => true,
        Capability::AnySession => s is Some,
        Capability::Member => is_verified(s) || is_admin(s),
        Capability::Verified => is_verified(s),
        Capability::Pending => is_pending(s),
        Capability::Admin => is_admin(s),
    }
}

/// The reply of an operation whose session lacks its capability.
pub open spec fn refusal(r: Route) -> Seq<char> {
    match r {
        Route::GetAccount => "{\"session\":\"none\"}"@,
        Route::GetDatabase | Route::SendEmail | Route::ChangeEmail | Route::SendDeleteEmail
        | Route::DeleteAccount | Route::SendChangeEmail | Route::VerifyAccount
        | Route::ChangeSubscription => "{\"success\":false}"@,
        Route::GetGmailAuthUrl => "{\"url\":\"\"}"@,
        Route::IsGmailWorking => "{\"working\":false}"@,
        _ => "{}"@,
    }
}

/// The reply of an operation whose session lacks its capability.
pub fn refusal_reply(r: Route) -> (t: String)
    ensures
        t@ == refusal(r),
{
    match r {
        Route::GetAccount => owned("{\"session\":\"none\"}"),
        Route::GetDatabase | Route::SendEmail | Route::ChangeEmail | Route::SendDeleteEmail
        | Route::DeleteAccount | Route::SendChangeEmail | Route::VerifyAccount
        | Route::ChangeSubscription => owned("{\"success\":false}"),
        Route::GetGmailAuthUrl => owned("{\"url\":\"\"}"),
        Route::IsGmailWorking => owned("{\"working\":false}"),
        _ => owned("{}"),
    }
}

fn has_capability(s: Option<&Session>, c: Capability) -> (r: bool)
    ensures
        r == grants(match s { Some(x) => Some(*x), None => None }, c),
{
    match c {
        Capability::Open => true,
        Capability::AnySession => s.is_some(),
        Capability::Member => match s {
            Some(x) => x.has("verified", "1") || x.has("admin", "1"),
            None => false,
        },
        Capability::Verified => match s {
            Some(x) => x.has("verified", "1"),
            None => false,
        },
        Capability::Pending => match s {
            Some(x) => x.has("verified", "0"),
            None => false,
        },
        Capability::Admin => match s {
            Some(x) => x.has("admin", "1"),
            None => false,
        },
    }
}

/// What the guard decides: nothing to say, or the refusal to send.
pub open spec fn guard_spec(route: Route, s: Option<Session>) -> Option<Seq<char>> {
    if grants(s, capability_of(route)) { None } else { Some(refusal(route)) }
}

/// The guard in front of every operation: `None` lets the operation go on;
/// otherwise the reply to send at once, without any other effect.
pub fn authorize(route: Route, session: Option<&Session>) -> (r: Option<String>)
    ensures
        guard_spec(route, match session { Some(x) => Some(*x), None => None }) is None <==> r is None,
        r matches Some(t) ==> guard_spec(route, match session { Some(x) => Some(*x), None => None }) == Some(t@),
{
    if has_capability(session, capability(route)) {
        None
    } else {
        Some(refusal_reply(route))
    }
}

/// Every operation that needs an administrator refuses a session whose `admin`
/// attribute is `0`, or no session at all, with its refusal reply; the guard's
/// answer is all that happens.
pub proof fn lemma_admin_only(route: Route, s: Option<Session>)
    requires
        capability_of(route) == Capability::Admin,
        s is None || crate::session::attr_is(s->Some_0, "admin"@, "0"@),
    ensures
        guard_spec(route, s) == Some(refusal(route)),
{
    reveal_strlit("0");
    reveal_strlit("1");
    assert("0"@ != "1"@) by {
        assert("0"@[0] != "1"@[0]);
    }
}

} // verus!
