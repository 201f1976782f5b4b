//! The registration form: `GET /register` shows it, `POST /register`
//! creates the account and logs it in.

use vstd::prelude::*;
use vstd::utf8::encode_utf8;

use crate::error::{Error, ErrorKind};
use crate::models::user::{
    is_stored_hash, password_verdict, INSERT_USER_SQL, MAX_PASSWORD_BYTES, MIN_PASSWORD_BYTES, SELECT_USER_BY_EMAIL_SQL,
};
use crate::models::{SqlValue, User};
use crate::templates::RegisterTemplate;
use super::{Action, Event, Response, HOME_PATH};

verus! {

/// Where a registration stands.
pub enum RegisterState {
    /// The new account is being inserted; `email` is its email.
    AwaitingInsert { email: String },
    /// The new account is being fetched back.
    AwaitingUser,
    /// The session is being given the new account's id.
    AwaitingSession,
    /// The request has been answered.
    Finished,
}

/// The registration page, showing `kind` when given.
pub open spec fn register_page(kind: Option<ErrorKind>) -> Response {
    match kind {
        Some(k) => Response::Register(RegisterTemplate { error: Some(Error { kind: k }) }),
        None => Response::Register(RegisterTemplate { error: None }),
    }
}

/// How a registration that failed after its form was accepted ends.
pub open spec fn register_failed() -> (RegisterState, Action) {
    (RegisterState::Finished, Action::Respond(register_page(Some(ErrorKind::UnknownError))))
}

/// The answer to `GET /register`: the empty form.
pub fn page() -> (r: Response)
    ensures
        r == register_page(None),
{
    Response::Register(RegisterTemplate::new())
}

/// `r` is the step a registration takes from `state` on `event`: after the
/// insert ran, fetch the account by its email; once fetched, keep its id in
/// the session; once kept, send the browser home. Anything else (a failed
/// insert, no account found, a session that refused the id, an event that
/// does not fit) ends with "unknown error".
pub open spec fn register_next(state: RegisterState, event: Event, r: (RegisterState, Action)) -> bool {
    match state {
        RegisterState::AwaitingInsert { email } => match event {
            Event::Executed(true) => {
                &&& r.0 is AwaitingUser
                &&& r.1 matches Action::FetchUser(q) && q.sql@ == SELECT_USER_BY_EMAIL_SQL@
                    && q.params@ == seq![SqlValue::Text(email)]
            },
            _ => r == register_failed(),
        },
        RegisterState::AwaitingUser => match event {
            Event::UserLookup(Some(u)) => r == (
                RegisterState::AwaitingSession,
                Action::StoreSessionUser(u.id),
            ),
            _ => r == register_failed(),
        },
        RegisterState::AwaitingSession => match event {
            Event::SessionStored(true) => r == (
                RegisterState::Finished,
                Action::Respond(Response::Redirect(HOME_PATH)),
            ),
            _ => r == register_failed(),
        },
        RegisterState::Finished => r == register_failed(),
    }
}

/// `POST /register` with the submitted email, password and confirmation:
/// a pair that breaks a password rule is answered with the form and that
/// rule's error; otherwise the account is inserted with the password
/// hashed.
pub fn begin(email: String, password: String, password_confirmation: String) -> (r: (
    RegisterState,
    Action,
))
    ensures
        password_verdict(password@, password_confirmation@) matches Some(k) ==> r == (
            RegisterState::Finished,
            Action::Respond(register_page(Some(k))),
        ),
        r.1 is Execute <==> (MIN_PASSWORD_BYTES <= encode_utf8(password@).len() <= MAX_PASSWORD_BYTES
            && password@ == password_confirmation@),
        MIN_PASSWORD_BYTES <= encode_utf8(password@).len() <= MAX_PASSWORD_BYTES && password@
            != password_confirmation@ ==> r == (
            RegisterState::Finished,
            Action::Respond(
                Response::Register(
                    RegisterTemplate { error: Some(Error { kind: ErrorKind::PasswordMismatch }) },
                ),
            ),
        ),
        password_verdict(password@, password_confirmation@) is None ==> {
            &&& r.0 == (RegisterState::AwaitingInsert { email })
            &&& r.1 matches Action::Execute(q) && {
                &&& q.sql@ == INSERT_USER_SQL@
                &&& q.params@.len() == 2
                &&& q.params@[0] == SqlValue::Text(email)
                &&& q.params@[1] matches SqlValue::Text(h) && is_stored_hash(password@, h@)
            }
        },
{
    if let Err(e) = User::validate_password(password.clone(), password_confirmation.clone()) {
        return (
            RegisterState::Finished,
            Action::Respond(Response::Register(RegisterTemplate::with_error(e))),
        );
    }
    match User::new(email.clone(), password, password_confirmation) {
        Ok(q) => (RegisterState::AwaitingInsert { email }, Action::Execute(q)),
        Err(e) => (
            RegisterState::Finished,
            Action::Respond(Response::Register(RegisterTemplate::with_error(e))),
        ),
    }
}

/// The next step of a registration.
pub fn advance(state: RegisterState, event: Event) -> (r: (RegisterState, Action))
    ensures
        register_next(state, event, r),
{
    match state {
        RegisterState::AwaitingInsert { email } => match event {
            Event::Executed(true) => (RegisterState::AwaitingUser, Action::FetchUser(User::find_by_email(email))),
            _ => failed(),
        },
        RegisterState::AwaitingUser => match event {
            Event::UserLookup(Some(u)) => (RegisterState::AwaitingSession, Action::StoreSessionUser(u.id)),
            _ => failed(),
        },
        RegisterState::AwaitingSession => match event {
            Event::SessionStored(true) => (
                RegisterState::Finished,
                Action::Respond(Response::Redirect(HOME_PATH)),
            ),
            _ => failed(),
        },
        RegisterState::Finished => failed(),
    }
}

fn failed() -> (r: (RegisterState, Action))
    ensures
        r == register_failed(),
{
    (
        RegisterState::Finished,
        Action::Respond(Response::Register(RegisterTemplate::with_error(Error::new(ErrorKind::UnknownError)))),
    )
}

/// A registration keeps a user id in the session only for the account it
/// fetched back after its insert ran.
pub proof fn lemma_session_only_for_fetched_account(
    state: RegisterState,
    event: Event,
    r: (RegisterState, Action),
)
    requires
        register_next(state, event, r),
    ensures
        r.1 matches Action::StoreSessionUser(id) ==> {
            &&& state is AwaitingUser
            &&& event matches Event::UserLookup(Some(u))
            &&& u.id == id
        },
{
}

/// A registration whose insert did not run never goes on: it ends with
/// "unknown error".
pub proof fn lemma_failed_insert_ends(email: String, r: (RegisterState, Action))
    requires
        register_next(RegisterState::AwaitingInsert { email }, Event::Executed(false), r),
    ensures
        r == register_failed(),
{
}

} // verus!
