//! What the request handlers decide. Each handler of the web server reads
//! the request, the session and the database; the functions here take what
//! was read and say what to do next: which statement to run, which user id
//! to keep in the session, which page to answer with.

use vstd::prelude::*;

use crate::models::{Query, SqlValue, User};
use crate::models::user::SELECT_USER_BY_ID_SQL;
use crate::templates::{LoginTemplate, RegisterTemplate};
use crate::text::{decimal, i64_to_string};

pub mod login;
pub mod register;

verus! {

/// Where a finished form sends the browser.
pub const HOME_PATH: &'static str = "/";

/// The name greeted when nobody is logged in.
pub const GUEST_NAME: &'static str = "guest";

/// The answer to a request.
pub enum Response {
    /// Send the browser to this path.
    Redirect(&'static str),
    /// The greeting page for this name.
    Hello(String),
    Login(LoginTemplate),
    Register(RegisterTemplate),
}

/// What a handler is told to do next.
pub enum Action {
    /// Run the statement and read back one user.
    FetchUser(Query),
    /// Run the statement.
    Execute(Query),
    /// Keep this user id in the session under `user_id`.
    StoreSessionUser(i64),
    /// Answer the request.
    Respond(Response),
}

/// What a handler reports back after doing an action.
pub enum Event {
    /// The user the statement found; `None` when there was none or the
    /// statement failed.
    UserLookup(Option<User>),
    /// Whether the statement ran.
    Executed(bool),
    /// Whether the session took the user id.
    SessionStored(bool),
}

/// The greeting page reads the user id kept in the session (`0` when there
/// is none) and, for a logged-in user, fetches that user.
pub fn hello_lookup(user_id: i64) -> (r: Option<Query>)
    ensures
        user_id == 0 ==> r is None,
        user_id != 0 ==> (r matches Some(q) && q.sql@ == SELECT_USER_BY_ID_SQL@ && q.params@
            == seq![SqlValue::Int(user_id)]),
{
    if user_id != 0 {
        Some(User::find_by_id(user_id))
    } else {
        None
    }
}

/// The name the greeting page shows: the logged-in user's email, or
/// `"guest"`.
pub fn hello_name(user: Option<User>) -> (name: String)
    ensures
        user matches Some(u) ==> name@ == u.email@,
        user is None ==> name@ == GUEST_NAME@,
{
    match user {
        Some(u) => u.email,
        None => String::from_str(GUEST_NAME),
    }
}

/// The name the standalone greeting shows: the session's user id in
/// decimal, or `"Bob"` when there is none (`0`).
pub fn session_name(user_id: i64) -> (name: String)
    ensures
        user_id == 0 ==> name@ == "Bob"@,
        user_id != 0 ==> name@ == decimal(user_id as int),
{
    let mut name = String::from_str("Bob");
    if user_id != 0 {
        name = i64_to_string(user_id);
    }
    name
}

} // verus!
