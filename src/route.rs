//! The dispatch table: the fixed set of request paths and the operation behind each.
use vstd::prelude::*;

verus! {

/// The operations that a request path can name.
#[derive(Clone, Copy, Debug, PartialEq, Eq, Structural)]
pub enum Route {
    GetPage,
    GetSongs,
    HashPassword,
    GetImageList,
    GetCalendarEvents,
    Signup,
    Login,
    AdminLogin,
    KillSession,
    GetAccount,
    Refresh,
    ChangeSubscription,
    SendChangeEmail,
    SendDeleteEmail,
    ChangeEmail,
    DeleteAccount,
    GetDatabase,
    GetRowTitles,
    MoveRowToEnd,
    MoveRowToStart,
    DeleteRow,
    AddRow,
    ChangeRow,
    GetGmailAuthUrl,
    IsGmailWorking,
    SendGmailCode,
    VerifyAccount,
    SendEmail,
}

/// The table itself: each path and its operation. Matching is exact and case-sensitive.
pub open spec fn route_spec(p: Seq<char>) -> Option<Route> {
    if p == "/get_page"@ { Some(Route::GetPage) }
    else if p == "/get_songs"@ { Some(Route::GetSongs) }
    else if p == "/hash_password"@ { Some(Route::HashPassword) }
    else if p == "/get_image_list"@ { Some(Route::GetImageList) }
    else if p == "/get_calendar_events"@ { Some(Route::GetCalendarEvents) }
    else if p == "/signup"@ { Some(Route::Signup) }
    else if p == "/login"@ { Some(Route::Login) }
    else if p == "/admin_login"@ { Some(Route::AdminLogin) }
    else if p == "/kill_session"@ { Some(Route::KillSession) }
    else if p == "/get_account"@ { Some(Route::GetAccount) }
    else if p == "/refresh"@ { Some(Route::Refresh) }
    else if p == "/change_subscription"@ { Some(Route::ChangeSubscription) }
    else if p == "/send_change_email"@ { Some(Route::SendChangeEmail) }
    else if p == "/send_delete_email"@ { Some(Route::SendDeleteEmail) }
    else if p == "/change_email"@ { Some(Route::ChangeEmail) }
    else if p == "/delete_account"@ { Some(Route::DeleteAccount) }
    else if p == "/get_database"@ { Some(Route::GetDatabase) }
    else if p == "/get_row_titles"@ { Some(Route::GetRowTitles) }
    else if p == "/move_row_to_end"@ { Some(Route::MoveRowToEnd) }
    else if p == "/move_row_to_start"@ { Some(Route::MoveRowToStart) }
    else if p == "/delete_row"@ { Some(Route::DeleteRow) }
    else if p == "/add_row"@ { Some(Route::AddRow) }
    else if p == "/change_row"@ { Some(Route::ChangeRow) }
    else if p == "/get_gmail_auth_url"@ { Some(Route::GetGmailAuthUrl) }
    else if p == "/is_gmail_working"@ { Some(Route::IsGmailWorking) }
    else if p == "/send_gmail_code"@ { Some(Route::SendGmailCode) }
    else if p == "/verify_account"@ { Some(Route::VerifyAccount) }
    else if p == "/send_email"@ { Some(Route::SendEmail) }
    else { None }
}

/// Whether `path` is exactly `lit`.
fn is_path(path: &String, lit: &str) -> (r: bool)
    ensures
        r == (path@ == lit@),
{
    *path == lit.to_owned()
}

/// The operation that `path` names, if any.
pub fn route_of(path: &str) -> (r: Option<Route>)
    ensures
        r == route_spec(path@),
{
    let p = path.to_owned();
    if is_path(&p, "/get_page") { Some(Route::GetPage) }
    else if is_path(&p, "/get_songs") { Some(Route::GetSongs) }
    else if is_path(&p, "/hash_password") { Some(Route::HashPassword) }
    else if is_path(&p, "/get_image_list") { Some(Route::GetImageList) }
    else if is_path(&p, "/get_calendar_events") { Some(Route::GetCalendarEvents) }
    else if is_path(&p, "/signup") { Some(Route::Signup) }
    else if is_path(&p, "/login") { Some(Route::Login) }
    else if is_path(&p, "/admin_login") { Some(Route::AdminLogin) }
    else if is_path(&p, "/kill_session") { Some(Route::KillSession) }
    else if is_path(&p, "/get_account") { Some(Route::GetAccount) }
    else if is_path(&p, "/refresh") { Some(Route::Refresh) }
    else if is_path(&p, "/change_subscription") { Some(Route::ChangeSubscription) }
    else if is_path(&p, "/send_change_email") { Some(Route::SendChangeEmail) }
    else if is_path(&p, "/send_delete_email") { Some(Route::SendDeleteEmail) }
    else if is_path(&p, "/change_email") { Some(Route::ChangeEmail) }
    else if is_path(&p, "/delete_account") { Some(Route::DeleteAccount) }
    else if is_path(&p, "/get_database") { Some(Route::GetDatabase) }
    else if is_path(&p, "/get_row_titles") { Some(Route::GetRowTitles) }
    else if is_path(&p, "/move_row_to_end") { Some(Route::MoveRowToEnd) }
    else if is_path(&p, "/move_row_to_start") { Some(Route::MoveRowToStart) }
    else if is_path(&p, "/delete_row") { Some(Route::DeleteRow) }
    else if is_path(&p, "/add_row") { Some(Route::AddRow) }
    else if is_path(&p, "/change_row") { Some(Route::ChangeRow) }
    else if is_path(&p, "/get_gmail_auth_url") { Some(Route::GetGmailAuthUrl) }
    else if is_path(&p, "/is_gmail_working") { Some(Route::IsGmailWorking) }
    else if is_path(&p, "/send_gmail_code") { Some(Route::SendGmailCode) }
    else if is_path(&p, "/verify_account") { Some(Route::VerifyAccount) }
    else if is_path(&p, "/send_email") { Some(Route::SendEmail) }
    else { None }
}

} // verus!
