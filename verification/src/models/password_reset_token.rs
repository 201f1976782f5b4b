use vstd::prelude::*;

use crate::crypto::{is_ascii_alphanumeric, new_thread_rng, sample_alphanumeric};
use super::query::{Query, SqlValue};
use crate::text::push_char;

verus! {

/// Why a token statement could not be built.
#[derive(Debug, Clone, Copy, PartialEq, Eq, Structural)]
pub enum Error {
    ValidationError,
}

/// A password-reset token, as stored in the `password_reset_tokens` table.
#[derive(Debug)]
pub struct PasswordResetToken {
    pub id: i64,
    pub user_id: i64,
    pub token: String,
    pub expiration: i32,
}

pub const INSERT_TOKEN_SQL: &'static str = "
            INSERT INTO password_reset_tokens (user_id, token, expiration)
            VALUES ($1, $2, STRFTIME('%s', DATETIME('now', '+7 days')))
        ";

pub const SELECT_TOKEN_BY_USER_ID_SQL: &'static str = "SELECT * FROM password_reset_tokens WHERE user_id = $1";

pub const SELECT_TOKEN_BY_TOKEN_SQL: &'static str = "SELECT * FROM password_reset_tokens WHERE token = $1";

pub const DELETE_TOKEN_SQL: &'static str = "DELETE FROM password_reset_tokens WHERE id = $1";

/// The number of characters of a reset token.
pub const TOKEN_LEN: usize = 64;

/// A well-formed reset token: `TOKEN_LEN` ASCII letters and digits.
pub open spec fn is_reset_token(t: Seq<char>) -> bool {
    &&& t.len() == TOKEN_LEN
    &&& forall|i: int| 0 <= i < t.len() ==> is_ascii_alphanumeric(#[trigger] t[i])
}

impl PasswordResetToken {
    /// The statement that stores a fresh random token for `user_id`, valid
    /// for seven days: `TOKEN_LEN` characters drawn from the thread's
    /// generator, stored by `with_token`.
    pub fn new(user_id: i64) -> (r: Result<Query, Error>)
        ensures
            r matches Ok(q) && {
                &&& q.sql@ == INSERT_TOKEN_SQL@
                &&& q.params@.len() == 2
                &&& q.params@[0] == SqlValue::Int(user_id)
                &&& q.params@[1] matches SqlValue::Text(t) && is_reset_token(t@)
            },
    {
        let mut rng = new_thread_rng();
        let mut draws: Vec<char> = Vec::new();
        let mut i: usize = 0;
        while i < TOKEN_LEN
            invariant
                i <= TOKEN_LEN,
                draws@.len() == i,
                forall|j: int| 0 <= j < i ==> is_ascii_alphanumeric(#[trigger] draws@[j]),
            decreases TOKEN_LEN - i,
        {
            let c = sample_alphanumeric(&mut rng);
            draws.push(c);
            i = i + 1;
        }
        PasswordResetToken::with_token(user_id, &draws)
    }

    /// The statement that stores, for `user_id`, the token made of `draws`
    /// in order. The token is the draws and nothing else: it does not
    /// depend on `user_id`.
    pub fn with_token(user_id: i64, draws: &Vec<char>) -> (r: Result<Query, Error>)
        ensures
            r matches Ok(q) && {
                &&& q.sql@ == INSERT_TOKEN_SQL@
                &&& q.params@.len() == 2
                &&& q.params@[0] == SqlValue::Int(user_id)
                &&& q.params@[1] matches SqlValue::Text(t) && t@ == draws@
            },
    {
        let mut token = String::new();
        let mut i: usize = 0;
        while i < draws.len()
            invariant
                i <= draws@.len(),
                token@ == draws@.subrange(0, i as int),
            decreases draws@.len() - i,
        {
            push_char(&mut token, draws[i]);
            i = i + 1;
            assert(token@ =~= draws@.subrange(0, i as int));
        }
        assert(draws@.subrange(0, draws@.len() as int) =~= draws@);
        Ok(Query { sql: INSERT_TOKEN_SQL, params: vec![SqlValue::Int(user_id), SqlValue::Text(token)] })
    }

    pub fn find_by_user_id(user_id: i64) -> (q: Query)
        ensures
            q.sql@ == SELECT_TOKEN_BY_USER_ID_SQL@,
            q.params@ == seq![SqlValue::Int(user_id)],
    {
        Query { sql: SELECT_TOKEN_BY_USER_ID_SQL, params: vec![SqlValue::Int(user_id)] }
    }

    pub fn find_by_token(token: String) -> (q: Query)
        ensures
            q.sql@ == SELECT_TOKEN_BY_TOKEN_SQL@,
            q.params@ == seq![SqlValue::Text(token)],
    {
        Query { sql: SELECT_TOKEN_BY_TOKEN_SQL, params: vec![SqlValue::Text(token)] }
    }

    /// The statement that removes this token.
    pub fn delete(&self) -> (r: Result<Query, Error>)
        ensures
            r matches Ok(q) && q.sql@ == DELETE_TOKEN_SQL@ && q.params@ == seq![SqlValue::Int(self.id)],
    {
        Ok(Query { sql: DELETE_TOKEN_SQL, params: vec![SqlValue::Int(self.id)] })
    }
}

} // verus!
