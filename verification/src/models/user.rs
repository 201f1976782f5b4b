use vstd::prelude::*;
use vstd::utf8::encode_utf8;

use crate::crypto::{
    ARGON2_DEFAULT_PREFIX, argon2_hash, argon2_hash_encoded, argon2_verify, argon2_verify_encoded, fill_random_bytes,
    new_thread_rng,
};
use crate::error::{Error, ErrorKind};
use crate::text::lemma_utf8_at_least_one_byte_per_char;
use super::query::{Query, SqlValue};

verus! {

/// A registered account, as stored in the `users` table. `password` holds
/// the encoded Argon2 hash, never the password itself.
#[derive(Debug)]
pub struct User {
    pub id: i64,
    pub email: String,
    pub password: String,
    pub created: i32,
    pub updated: i32,
}

pub const INSERT_USER_SQL: &'static str = "
            INSERT INTO users (email, password, created, updated)
            VALUES ($1, $2, STRFTIME('%s', 'now'), STRFTIME('%s', 'now'))
        ";

pub const SELECT_ALL_USERS_SQL: &'static str = "SELECT * FROM users";

pub const SELECT_USER_BY_ID_SQL: &'static str = "SELECT * FROM users WHERE id = $1";

pub const SELECT_USER_BY_EMAIL_SQL: &'static str = "SELECT * FROM users WHERE email = $2";

pub const UPDATE_PASSWORD_SQL: &'static str = "UPDATE users SET password = $1, updated = STRFTIME('%s', 'now') WHERE id = $2";

/// The salt length, in bytes, of every hash this module makes.
pub const SALT_LEN: usize = 16;

/// The fewest and the most bytes (UTF-8) a password may have.
pub const MIN_PASSWORD_BYTES: usize = 8;

pub const MAX_PASSWORD_BYTES: usize = 64;

/// Which rule a new password and its confirmation break, checked in this
/// order: too short, too long (both counted in UTF-8 bytes), not equal to
/// the confirmation. `None` when the pair is acceptable.
pub open spec fn password_verdict(password: Seq<char>, confirmation: Seq<char>) -> Option<ErrorKind> {
    let n = encode_utf8(password).len();
    if n < MIN_PASSWORD_BYTES {
        Some(ErrorKind::PasswordTooShort)
    } else if n > MAX_PASSWORD_BYTES {
        Some(ErrorKind::PasswordTooLong)
    } else if password != confirmation {
        Some(ErrorKind::PasswordMismatch)
    } else {
        None
    }
}

/// `hash` is an encoded Argon2 hash of `password` under some salt of
/// `SALT_LEN` bytes.
pub open spec fn is_hash_of(password: Seq<u8>, hash: Seq<char>) -> bool {
    exists|salt: Seq<u8>|
        salt.len() == SALT_LEN && #[trigger] argon2_hash_encoded(password, salt) == Some(hash)
}

/// The length of every hash this module stores: the prefix, 22 Base64
/// characters of salt, `$`, and 43 of hash.
pub const ENCODED_HASH_LEN: usize = 95;

/// `hash` is what this module stores for `password`: an encoded Argon2 hash
/// of it under a salt of `SALT_LEN` bytes, laid out with the default
/// configuration's prefix and `ENCODED_HASH_LEN` characters long, and so
/// never the password itself.
pub open spec fn is_stored_hash(password: Seq<char>, hash: Seq<char>) -> bool {
    &&& is_hash_of(encode_utf8(password), hash)
    &&& hash.len() == ENCODED_HASH_LEN
    &&& hash.subrange(0, ARGON2_DEFAULT_PREFIX@.len() as int) == ARGON2_DEFAULT_PREFIX@
    &&& hash != password
}

/// Why a password reset is refused: the stored hash cannot be read, the new
/// password is the current one, or the new pair breaks a password rule.
pub open spec fn reset_refusal(stored: Seq<char>, password: Seq<char>, confirmation: Seq<char>) -> Option<ErrorKind> {
    match argon2_verify_encoded(stored, encode_utf8(password)) {
        None => Some(ErrorKind::UnknownError),
        Some(true) => Some(ErrorKind::PasswordMismatch),
        Some(false) => password_verdict(password, confirmation),
    }
}

impl User {
    /// The statement that inserts a new account, with the password hashed
    /// under a fresh random salt; or the password rule that the pair breaks.
    pub fn new(email: String, password: String, password_confirmation: String) -> (r: Result<Query, Error>)
        ensures
            r is Ok <==> password_verdict(password@, password_confirmation@) is None,
            r matches Err(e) ==> password_verdict(password@, password_confirmation@) == Some(e.kind),
            r is Ok <==> (MIN_PASSWORD_BYTES <= encode_utf8(password@).len() <= MAX_PASSWORD_BYTES && password@ == password_confirmation@),
            r matches Ok(q) ==> {
                &&& q.sql@ == INSERT_USER_SQL@
                &&& q.params@.len() == 2
                &&& q.params@[0] == SqlValue::Text(email)
                &&& q.params@[1] matches SqlValue::Text(h) && is_stored_hash(password@, h@)
            },
    {
        let hash = match generate_password(password, password_confirmation) {
            Ok(h) => h,
            Err(e) => return Err(e),
        };
        Ok(Query { sql: INSERT_USER_SQL, params: vec![SqlValue::Text(email), SqlValue::Text(hash)] })
    }

    /// Checks a new password against its confirmation.
    pub fn validate_password(password: String, password_confirmation: String) -> (r: Result<(), Error>)
        ensures
            r is Ok <==> password_verdict(password@, password_confirmation@) is None,
            r matches Err(e) ==> password_verdict(password@, password_confirmation@) == Some(e.kind),
            r is Ok <==> (MIN_PASSWORD_BYTES <= encode_utf8(password@).len() <= MAX_PASSWORD_BYTES && password@ == password_confirmation@),
            encode_utf8(password@).len() < MIN_PASSWORD_BYTES ==> r == Err::<(), Error>(
                Error { kind: ErrorKind::PasswordTooShort },
            ),
            encode_utf8(password@).len() > MAX_PASSWORD_BYTES ==> r == Err::<(), Error>(
                Error { kind: ErrorKind::PasswordTooLong },
            ),
            MIN_PASSWORD_BYTES <= encode_utf8(password@).len() <= MAX_PASSWORD_BYTES && password@ != password_confirmation@ ==> r == Err::<(), Error>(
                Error { kind: ErrorKind::PasswordMismatch },
            ),
    {
        let len = password.as_str().as_bytes().len();
        if len < MIN_PASSWORD_BYTES {
            return Err(Error::new(ErrorKind::PasswordTooShort));
        } else if len > MAX_PASSWORD_BYTES {
            return Err(Error::new(ErrorKind::PasswordTooLong));
        } else if !password.eq(&password_confirmation) {
            return Err(Error::new(ErrorKind::PasswordMismatch));
        } else {
            return Ok(());
        }
    }

    pub fn all() -> (q: Query)
        ensures
            q.sql@ == SELECT_ALL_USERS_SQL@,
            q.params@.len() == 0,
    {
        Query { sql: SELECT_ALL_USERS_SQL, params: Vec::new() }
    }

    pub fn find_by_id(id: i64) -> (q: Query)
        ensures
            q.sql@ == SELECT_USER_BY_ID_SQL@,
            q.params@ == seq![SqlValue::Int(id)],
    {
        Query { sql: SELECT_USER_BY_ID_SQL, params: vec![SqlValue::Int(id)] }
    }

    pub fn find_by_email(email: String) -> (q: Query)
        ensures
            q.sql@ == SELECT_USER_BY_EMAIL_SQL@,
            q.params@ == seq![SqlValue::Text(email)],
    {
        Query { sql: SELECT_USER_BY_EMAIL_SQL, params: vec![SqlValue::Text(email)] }
    }

    /// Whether `password` matches this account's stored hash (`None` when the
    /// stored hash cannot be read).
    pub fn check_password(&self, password: &str) -> (r: Option<bool>)
        ensures
            r == argon2_verify_encoded(self.password@, encode_utf8(password@)),
            (exists|salt: Seq<u8>|
                #[trigger] argon2_hash_encoded(encode_utf8(password@), salt) == Some(self.password@))
                ==> r == Some(true),
    {
        argon2_verify(self.password.as_str(), password.as_bytes())
    }

    /// The encoded Argon2 hash of `password` under `salt` (default
    /// configuration), or `None` where hashing fails. A salt of `SALT_LEN`
    /// bytes and a password within the password rules always give a hash,
    /// laid out as every stored hash is.
    pub fn hash_with_salt(password: &str, salt: &[u8]) -> (r: Option<String>)
        ensures
            r is Some <==> argon2_hash_encoded(encode_utf8(password@), salt@) is Some,
            r matches Some(h) ==> argon2_hash_encoded(encode_utf8(password@), salt@) == Some(h@),
            salt@.len() == SALT_LEN && encode_utf8(password@).len() <= MAX_PASSWORD_BYTES ==> (r matches Some(h)
                && is_stored_hash(password@, h@)),
    {
        let r = argon2_hash(password.as_bytes(), salt);
        proof {
            if salt@.len() == SALT_LEN && encode_utf8(password@).len() <= MAX_PASSWORD_BYTES {
                let h = r->0;
                reveal_strlit("$argon2i$v=19$m=4096,t=3,p=1$");
                lemma_utf8_at_least_one_byte_per_char(password@);
                assert(h@.len() == ENCODED_HASH_LEN);
                assert(h@.len() != password@.len());
                assert(argon2_hash_encoded(encode_utf8(password@), salt@) == Some(h@));
            }
        }
        r
    }

    /// The statement that replaces this account's password by a hash of the
    /// new one; refused when the new password is the current one.
    pub fn reset_password(&self, password: String, password_confirmation: String) -> (r: Result<Query, Error>)
        ensures
            r is Ok <==> reset_refusal(self.password@, password@, password_confirmation@) is None,
            r matches Err(e) ==> reset_refusal(self.password@, password@, password_confirmation@) == Some(e.kind),
            r is Ok <==> {
                &&& argon2_verify_encoded(self.password@, encode_utf8(password@)) == Some(false)
                &&& MIN_PASSWORD_BYTES <= encode_utf8(password@).len() <= MAX_PASSWORD_BYTES
                &&& password@ == password_confirmation@
            },
            argon2_verify_encoded(self.password@, encode_utf8(password@)) == Some(false) && MIN_PASSWORD_BYTES <= encode_utf8(password@).len() <= MAX_PASSWORD_BYTES
                && password@ != password_confirmation@ ==> r == Err::<Query, Error>(
                Error { kind: ErrorKind::PasswordMismatch },
            ),
            r matches Ok(q) ==> {
                &&& q.sql@ == UPDATE_PASSWORD_SQL@
                &&& q.params@.len() == 2
                &&& q.params@[0] matches SqlValue::Text(h) && is_stored_hash(password@, h@)
                &&& q.params@[1] == SqlValue::Int(self.id)
            },
            (exists|salt: Seq<u8>|
                #[trigger] argon2_hash_encoded(encode_utf8(password@), salt) == Some(self.password@))
                ==> r == Err::<Query, Error>(Error { kind: ErrorKind::PasswordMismatch }),
    {
        let matches;
        match self.check_password(password.as_str()) {
            Some(m) => matches = m,
            None => return Err(Error::new(ErrorKind::UnknownError)),
        }
        if matches {
            return Err(Error::new(ErrorKind::PasswordMismatch));
        }
        let hash = match generate_password(password, password_confirmation) {
            Ok(h) => h,
            Err(e) => return Err(e),
        };
        Ok(Query { sql: UPDATE_PASSWORD_SQL, params: vec![SqlValue::Text(hash), SqlValue::Int(self.id)] })
    }
}

/// The password rules, said without `password_verdict`'s order of checks:
/// a pair is accepted exactly when the password has between
/// `MIN_PASSWORD_BYTES` and `MAX_PASSWORD_BYTES` bytes and the confirmation
/// is the very same sequence of characters (letter case and length
/// included); a password of acceptable length whose confirmation differs in
/// any way is refused as a mismatch.
pub proof fn lemma_password_accepted_iff_in_range_and_confirmed(p: Seq<char>, c: Seq<char>)
    ensures
        password_verdict(p, c) is None <==> (MIN_PASSWORD_BYTES <= encode_utf8(p).len()
            <= MAX_PASSWORD_BYTES && p == c),
        password_verdict(p, c) is None ==> p == c,
        MIN_PASSWORD_BYTES <= encode_utf8(p).len() <= MAX_PASSWORD_BYTES && p != c
            ==> password_verdict(p, c) == Some(ErrorKind::PasswordMismatch),
        encode_utf8(p).len() < MIN_PASSWORD_BYTES ==> password_verdict(p, c) == Some(
            ErrorKind::PasswordTooShort,
        ),
        encode_utf8(p).len() > MAX_PASSWORD_BYTES ==> password_verdict(p, c) == Some(
            ErrorKind::PasswordTooLong,
        ),
{
}

/// A reset goes through exactly when the stored hash is readable and does
/// not verify the new password, the new password has an acceptable length,
/// and the confirmation is exactly the new password. Reusing the current
/// password is a mismatch; an unreadable stored hash is an unknown error; a
/// confirmation that differs in any way is a mismatch.
pub proof fn lemma_reset_accepted_iff_new_and_confirmed(stored: Seq<char>, p: Seq<char>, c: Seq<char>)
    ensures
        reset_refusal(stored, p, c) is None <==> {
            &&& argon2_verify_encoded(stored, encode_utf8(p)) == Some(false)
            &&& MIN_PASSWORD_BYTES <= encode_utf8(p).len() <= MAX_PASSWORD_BYTES
            &&& p == c
        },
        reset_refusal(stored, p, c) is None ==> p == c,
        argon2_verify_encoded(stored, encode_utf8(p)) == Some(true) ==> reset_refusal(stored, p, c)
            == Some(ErrorKind::PasswordMismatch),
        argon2_verify_encoded(stored, encode_utf8(p)) is None ==> reset_refusal(stored, p, c) == Some(
            ErrorKind::UnknownError,
        ),
        argon2_verify_encoded(stored, encode_utf8(p)) == Some(false) && MIN_PASSWORD_BYTES <= encode_utf8(
            p,
        ).len() <= MAX_PASSWORD_BYTES && p != c ==> reset_refusal(stored, p, c) == Some(
            ErrorKind::PasswordMismatch,
        ),
{
}

/// Checks the pair and, only when it is accepted, draws a fresh random salt
/// of `SALT_LEN` bytes and hashes the password under it (`hash_with_salt`).
fn generate_password(password: String, password_confirmation: String) -> (r: Result<String, Error>)
    ensures
        r is Ok <==> password_verdict(password@, password_confirmation@) is None,
        r matches Err(e) ==> password_verdict(password@, password_confirmation@) == Some(e.kind),
        r matches Ok(h) ==> is_stored_hash(password@, h@),
{
    match User::validate_password(password.clone(), password_confirmation) {
        Ok(()) => {},
        Err(e) => return Err(e),
    }
    let mut salt: Vec<u8> = vec![0u8; SALT_LEN];
    let mut rng = new_thread_rng();
    fill_random_bytes(&mut rng, &mut salt);
    match User::hash_with_salt(password.as_str(), salt.as_slice()) {
        Some(h) => Ok(h),
        None => Err(Error::new(ErrorKind::UnknownError)),
    }
}

} // verus!
