//! The login form: `GET /login` shows it, `POST /login` checks the
//! submitted email and password.

use vstd::prelude::*;
use vstd::utf8::encode_utf8;

use crate::crypto::argon2_verify_encoded;
use crate::error::{Error, ErrorKind};
use crate::models::user::{is_hash_of, SELECT_USER_BY_EMAIL_SQL};
use crate::models::{SqlValue, User};
use crate::templates::LoginTemplate;
use super::{Action, Event, Response, HOME_PATH};

verus! {

/// Where a login attempt stands.
pub enum LoginState {
    /// The user with the submitted email is being fetched; `password` is
    /// the submitted password.
    AwaitingUser { password: String },
    /// The session is being given the user's id.
    AwaitingSession,
    /// The request has been answered.
    Finished,
}

/// The login page, showing `kind` when given.
pub open spec fn login_page(kind: Option<ErrorKind>) -> Response {
    match kind {
        Some(k) => Response::Login(LoginTemplate { error: Some(Error { kind: k }) }),
        None => Response::Login(LoginTemplate { error: None }),
    }
}

/// The answer to `GET /login` for the user id kept in the session (`0` when
/// nobody is logged in): a logged-in user is sent home, anyone else gets
/// the empty form.
pub fn page(user_id: i64) -> (r: Response)
    ensures
        user_id != 0 ==> r == Response::Redirect(HOME_PATH),
        user_id == 0 ==> r == login_page(None),
{
    if user_id != 0 {
        return Response::Redirect(HOME_PATH);
    }
    Response::Login(LoginTemplate::new())
}

/// The step a login attempt takes on an event.
pub open spec fn login_next(state: LoginState, event: Event) -> (LoginState, Action) {
    let refuse = (LoginState::Finished, Action::Respond(login_page(Some(ErrorKind::InvalidCredentials))));
    let fail = (LoginState::Finished, Action::Respond(login_page(Some(ErrorKind::UnknownError))));
    match state {
        LoginState::AwaitingUser { password } => match event {
            Event::UserLookup(Some(u)) => if argon2_verify_encoded(u.password@, encode_utf8(password@))
                == Some(true) {
                (LoginState::AwaitingSession, Action::StoreSessionUser(u.id))
            } else {
                refuse
            },
            Event::UserLookup(None) => refuse,
            _ => fail,
        },
        LoginState::AwaitingSession => match event {
            Event::SessionStored(true) => (
                LoginState::Finished,
                Action::Respond(Response::Redirect(HOME_PATH)),
            ),
            _ => fail,
        },
        LoginState::Finished => fail,
    }
}

/// `POST /login` with the submitted email and password: first fetch the
/// user with that email.
pub fn begin(email: String, password: String) -> (r: (LoginState, Action))
    ensures
        r.0 == (LoginState::AwaitingUser { password }),
        r.1 matches Action::FetchUser(q) && q.sql@ == SELECT_USER_BY_EMAIL_SQL@ && q.params@ == seq![
            SqlValue::Text(email),
        ],
{
    (LoginState::AwaitingUser { password }, Action::FetchUser(User::find_by_email(email)))
}

/// The next step of a login attempt. An unknown email or a wrong password
/// is answered with "invalid credentials"; a password that matches the
/// stored hash puts the user's id in the session; once stored, the browser
/// is sent home. Events that do not fit the state are answered with
/// "unknown error".
pub fn advance(state: LoginState, event: Event) -> (r: (LoginState, Action))
    ensures
        r == login_next(state, event),
        state matches LoginState::AwaitingUser { password } ==> (event matches Event::UserLookup(
            Some(u),
        ) ==> (argon2_verify_encoded(u.password@, encode_utf8(password@)) != Some(true) ==> r == (
            LoginState::Finished,
            Action::Respond(
                Response::Login(
                    LoginTemplate { error: Some(Error { kind: ErrorKind::InvalidCredentials }) },
                ),
            ),
        ))),
        state matches LoginState::AwaitingUser { password } ==> (event matches Event::UserLookup(
            Some(u),
        ) ==> (argon2_verify_encoded(u.password@, encode_utf8(password@)) == Some(true) ==> r == (
            LoginState::AwaitingSession,
            Action::StoreSessionUser(u.id),
        ))),
        state matches LoginState::AwaitingUser { password } ==> (event matches Event::UserLookup(
            Some(u),
        ) ==> (is_hash_of(encode_utf8(password@), u.password@) ==> r == (
            LoginState::AwaitingSession,
            Action::StoreSessionUser(u.id),
        ))),
{
    match state {
        LoginState::AwaitingUser { password } => match event {
            Event::UserLookup(Some(u)) => {
                if u.check_password(password.as_str()) == Some(true) {
                    (LoginState::AwaitingSession, Action::StoreSessionUser(u.id))
                } else {
                    (
                        LoginState::Finished,
                        Action::Respond(
                            Response::Login(
                                LoginTemplate::with_error(Error::new(ErrorKind::InvalidCredentials)),
                            ),
                        ),
                    )
                }
            },
            Event::UserLookup(None) => (
                LoginState::Finished,
                Action::Respond(
                    Response::Login(LoginTemplate::with_error(Error::new(ErrorKind::InvalidCredentials))),
                ),
            ),
            _ => unknown_error(),
        },
        LoginState::AwaitingSession => match event {
            Event::SessionStored(true) => (
                LoginState::Finished,
                Action::Respond(Response::Redirect(HOME_PATH)),
            ),
            _ => unknown_error(),
        },
        LoginState::Finished => unknown_error(),
    }
}

fn unknown_error() -> (r: (LoginState, Action))
    ensures
        r == (LoginState::Finished, Action::Respond(login_page(Some(ErrorKind::UnknownError)))),
{
    (
        LoginState::Finished,
        Action::Respond(Response::Login(LoginTemplate::with_error(Error::new(ErrorKind::UnknownError)))),
    )
}

/// A login attempt puts a user id in the session only for the user that
/// the submitted email found, and only when the submitted password
/// verifies against that user's stored hash.
pub proof fn lemma_session_only_after_verified_password(state: LoginState, event: Event)
    ensures
        login_next(state, event).1 matches Action::StoreSessionUser(id) ==> {
            &&& state matches LoginState::AwaitingUser { password }
            &&& event matches Event::UserLookup(Some(u))
            &&& u.id == id
            &&& argon2_verify_encoded(u.password@, encode_utf8(password@)) == Some(true)
        },
{
}

/// A submitted password that the fetched user's stored hash does not
/// verify (a wrong password, or a hash that cannot be read) is answered with
/// the login form and "invalid credentials", and the attempt ends: no user
/// id goes into the session and the browser is not sent home.
pub proof fn lemma_wrong_password_is_invalid_credentials(password: String, u: User)
    requires
        argon2_verify_encoded(u.password@, encode_utf8(password@)) != Some(true),
    ensures
        login_next(LoginState::AwaitingUser { password }, Event::UserLookup(Some(u))) == (
            LoginState::Finished,
            Action::Respond(
                Response::Login(
                    LoginTemplate { error: Some(Error { kind: ErrorKind::InvalidCredentials }) },
                ),
            ),
        ),
{
}

/// An email that matches no user is answered with "invalid credentials",
/// the same answer as a wrong password, whatever password was submitted.
pub proof fn lemma_unknown_email_is_invalid_credentials(password: String)
    ensures
        login_next(LoginState::AwaitingUser { password }, Event::UserLookup(None)) == (
            LoginState::Finished,
            Action::Respond(login_page(Some(ErrorKind::InvalidCredentials))),
        ),
{
}

/// A login attempt ends, after a stored session, by sending the browser
/// home, and every answer it gives ends the attempt.
pub proof fn lemma_answers_finish(state: LoginState, event: Event)
    ensures
        login_next(state, event).1 is Respond ==> login_next(state, event).0 is Finished,
        (state is AwaitingSession && event == Event::SessionStored(true)) ==> login_next(state, event).1
            == Action::Respond(Response::Redirect(HOME_PATH)),
{
}

} // verus!
