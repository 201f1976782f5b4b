use tide_auth::error::{Error, ErrorKind};
use tide_auth::models::password_reset_token::{
    DELETE_TOKEN_SQL, INSERT_TOKEN_SQL, SELECT_TOKEN_BY_TOKEN_SQL,
    SELECT_TOKEN_BY_USER_ID_SQL, TOKEN_LEN,
};
use tide_auth::crypto::ARGON2_DEFAULT_PREFIX;
use tide_auth::text::i64_to_string;
use tide_auth::models::user::{
    ENCODED_HASH_LEN, INSERT_USER_SQL, SELECT_ALL_USERS_SQL, SELECT_USER_BY_EMAIL_SQL, SELECT_USER_BY_ID_SQL,
    UPDATE_PASSWORD_SQL,
};
use tide_auth::models::{PasswordResetToken, Query, SqlValue, User};

fn s(x: &str) -> String {
    x.to_string()
}

fn text(v: &SqlValue) -> &str {
    match v {
        SqlValue::Text(t) => t.as_str(),
        SqlValue::Int(_) => panic!("expected a text value"),
    }
}

fn int_value(v: &SqlValue) -> i64 {
    match v {
        SqlValue::Int(i) => *i,
        SqlValue::Text(_) => panic!("expected an integer value"),
    }
}

fn user_with_password(id: i64, password: &str) -> User {
    let q = User::new(s("bob@example.com"), s(password), s(password)).unwrap();
    User {
        id,
        email: s("bob@example.com"),
        password: text(&q.params[1]).to_string(),
        created: 1,
        updated: 1,
    }
}

fn kind_of(r: Result<Query, Error>) -> ErrorKind {
    match r {
        Ok(_) => panic!("expected an error"),
        Err(e) => e.kind,
    }
}

#[test]
fn foo() {
    assert_eq!(2 + 2, 4);
}

#[test]
fn error_messages() {
    assert_eq!(Error::new(ErrorKind::UnknownError).message(), "An unknown error occurred.");
    assert_eq!(
        Error::new(ErrorKind::PasswordTooShort).message(),
        "Password must be at least 8 characters long."
    );
    assert_eq!(
        Error::new(ErrorKind::PasswordTooLong).message(),
        "Password must be at most 64 characters long."
    );
    assert_eq!(Error::new(ErrorKind::PasswordMismatch).message(), "Passwords do not match.");
    assert_eq!(
        Error::new(ErrorKind::InvalidCredentials).message(),
        "Invalid credentials. Please try again"
    );
    assert_eq!(Error::new(ErrorKind::EmailTaken).message(), "Email is taken, please try another.");
    assert_eq!(Error::new(ErrorKind::EmailTaken).kind, ErrorKind::EmailTaken);
}

#[test]
fn validate_password_length_bounds() {
    assert_eq!(
        User::validate_password(s("1234567"), s("1234567")),
        Err(Error::new(ErrorKind::PasswordTooShort))
    );
    assert_eq!(User::validate_password(s("12345678"), s("12345678")), Ok(()));
    let sixty_four = "a".repeat(64);
    assert_eq!(User::validate_password(sixty_four.clone(), sixty_four), Ok(()));
    let sixty_five = "a".repeat(65);
    assert_eq!(
        User::validate_password(sixty_five.clone(), sixty_five),
        Err(Error::new(ErrorKind::PasswordTooLong))
    );
    assert_eq!(
        User::validate_password(s(""), s("")),
        Err(Error::new(ErrorKind::PasswordTooShort))
    );
}

#[test]
fn validate_password_counts_bytes() {
    // five characters, ten bytes
    assert_eq!(User::validate_password(s("ééééé"), s("ééééé")), Ok(()));
    // sixty-four characters, one hundred and twenty-eight bytes
    let wide = "é".repeat(64);
    assert_eq!(
        User::validate_password(wide.clone(), wide),
        Err(Error::new(ErrorKind::PasswordTooLong))
    );
}

#[test]
fn validate_password_mismatch_and_order() {
    assert_eq!(
        User::validate_password(s("abcdefgh"), s("abcdefgi")),
        Err(Error::new(ErrorKind::PasswordMismatch))
    );
    // length is checked before the confirmation
    assert_eq!(
        User::validate_password(s("abc"), s("xyz")),
        Err(Error::new(ErrorKind::PasswordTooShort))
    );
    let long = "b".repeat(70);
    assert_eq!(
        User::validate_password(long, s("other")),
        Err(Error::new(ErrorKind::PasswordTooLong))
    );
}

#[test]
fn new_user_statement_hashes_the_password() {
    let q = User::new(s("bob@example.com"), s("12345678"), s("12345678")).unwrap();
    assert_eq!(q.sql, INSERT_USER_SQL);
    assert!(q.sql.contains("INSERT INTO users (email, password, created, updated)"));
    assert_eq!(q.params.len(), 2);
    assert_eq!(text(&q.params[0]), "bob@example.com");
    let hash = text(&q.params[1]);
    assert_ne!(hash, "12345678");
    assert!(hash.starts_with("$argon2i$v=19$m=4096,t=3,p=1$"));
    assert!(hash.starts_with(ARGON2_DEFAULT_PREFIX));
    assert_eq!(hash.chars().count(), ENCODED_HASH_LEN);
    assert!(argon2::verify_encoded(hash, b"12345678").unwrap());
    assert!(!argon2::verify_encoded(hash, b"87654321").unwrap());
}

#[test]
fn new_user_uses_a_fresh_salt() {
    let a = User::new(s("a@example.com"), s("12345678"), s("12345678")).unwrap();
    let b = User::new(s("a@example.com"), s("12345678"), s("12345678")).unwrap();
    assert_ne!(text(&a.params[1]), text(&b.params[1]));
}

#[test]
fn new_user_rejects_bad_passwords() {
    assert_eq!(
        kind_of(User::new(s("bob@example.com"), s("short"), s("short"))),
        ErrorKind::PasswordTooShort
    );
    assert_eq!(
        kind_of(User::new(s("bob@example.com"), s("12345678"), s("12345679"))),
        ErrorKind::PasswordMismatch
    );
}

#[test]
fn user_lookup_statements() {
    let q = User::all();
    assert_eq!(q.sql, SELECT_ALL_USERS_SQL);
    assert_eq!(q.sql, "SELECT * FROM users");
    assert!(q.params.is_empty());

    let q = User::find_by_id(7);
    assert_eq!(q.sql, SELECT_USER_BY_ID_SQL);
    assert_eq!(q.sql, "SELECT * FROM users WHERE id = $1");
    assert_eq!(q.params.len(), 1);
    assert_eq!(int_value(&q.params[0]), 7);

    let q = User::find_by_email(s("x@y.z"));
    assert_eq!(q.sql, SELECT_USER_BY_EMAIL_SQL);
    assert_eq!(q.sql, "SELECT * FROM users WHERE email = $2");
    assert_eq!(q.params.len(), 1);
    assert_eq!(text(&q.params[0]), "x@y.z");
}

#[test]
fn check_password_against_stored_hash() {
    let user = user_with_password(3, "correct horse");
    assert_eq!(user.check_password("correct horse"), Some(true));
    assert_eq!(user.check_password("wrong horse"), Some(false));
    let broken = User { id: 3, email: s("e"), password: s("not a hash"), created: 0, updated: 0 };
    assert_eq!(broken.check_password("correct horse"), None);
}

#[test]
fn reset_password_to_the_current_one_is_refused() {
    let user = user_with_password(5, "password123");
    assert_eq!(
        kind_of(user.reset_password(s("password123"), s("password123"))),
        ErrorKind::PasswordMismatch
    );
}

#[test]
fn reset_password_with_unreadable_hash() {
    let user = User { id: 5, email: s("e"), password: s("garbage"), created: 0, updated: 0 };
    assert_eq!(
        kind_of(user.reset_password(s("newpassword"), s("newpassword"))),
        ErrorKind::UnknownError
    );
}

#[test]
fn reset_password_checks_the_new_pair() {
    let user = user_with_password(5, "password123");
    assert_eq!(kind_of(user.reset_password(s("tiny"), s("tiny"))), ErrorKind::PasswordTooShort);
    assert_eq!(
        kind_of(user.reset_password(s("newpassword"), s("newpasswore"))),
        ErrorKind::PasswordMismatch
    );
}

#[test]
fn reset_password_statement() {
    let user = user_with_password(5, "password123");
    let q = user.reset_password(s("newpassword"), s("newpassword")).unwrap();
    assert_eq!(q.sql, UPDATE_PASSWORD_SQL);
    assert_eq!(q.params.len(), 2);
    let hash = text(&q.params[0]);
    assert!(argon2::verify_encoded(hash, b"newpassword").unwrap());
    assert_eq!(hash.chars().count(), ENCODED_HASH_LEN);
    assert_ne!(hash, "newpassword");
    assert!(!argon2::verify_encoded(hash, b"password123").unwrap());
    assert_eq!(int_value(&q.params[1]), 5);
}

#[test]
fn reset_token_statement() {
    let q = PasswordResetToken::new(9).unwrap();
    assert_eq!(q.sql, INSERT_TOKEN_SQL);
    assert!(q.sql.contains("STRFTIME('%s', DATETIME('now', '+7 days'))"));
    assert_eq!(q.params.len(), 2);
    assert_eq!(int_value(&q.params[0]), 9);
    let token = text(&q.params[1]);
    assert_eq!(token.chars().count(), TOKEN_LEN);
    assert_eq!(token.len(), 64);
    assert!(token.chars().all(|c| c.is_ascii_alphanumeric()));
    let other = PasswordResetToken::new(9).unwrap();
    assert_ne!(token, text(&other.params[1]));
}

#[test]
fn reset_token_lookups_and_delete() {
    let q = PasswordResetToken::find_by_user_id(4);
    assert_eq!(q.sql, SELECT_TOKEN_BY_USER_ID_SQL);
    assert_eq!(int_value(&q.params[0]), 4);
    let q = PasswordResetToken::find_by_token(s("abc"));
    assert_eq!(q.sql, SELECT_TOKEN_BY_TOKEN_SQL);
    assert_eq!(text(&q.params[0]), "abc");
    let token = PasswordResetToken { id: 12, user_id: 4, token: s("abc"), expiration: 0 };
    let q = token.delete().unwrap();
    assert_eq!(q.sql, DELETE_TOKEN_SQL);
    assert_eq!(q.sql, "DELETE FROM password_reset_tokens WHERE id = $1");
    assert_eq!(q.params.len(), 1);
    assert_eq!(int_value(&q.params[0]), 12);
}

#[test]
fn decimal_strings() {
    assert_eq!(i64_to_string(0), "0");
    assert_eq!(i64_to_string(9), "9");
    assert_eq!(i64_to_string(10), "10");
    assert_eq!(i64_to_string(-120), "-120");
    assert_eq!(i64_to_string(i64::MAX), "9223372036854775807");
    assert_eq!(i64_to_string(i64::MIN), "-9223372036854775808");
}

#[test]
fn longest_password_hash_is_not_the_password() {
    let long = "p".repeat(64);
    let q = User::new(s("a@b.c"), long.clone(), long.clone()).unwrap();
    let hash = text(&q.params[1]);
    assert_ne!(hash, long.as_str());
    assert_eq!(hash.chars().count(), ENCODED_HASH_LEN);
}

#[test]
fn hash_with_salt_is_the_argon2_encoding() {
    let salt = [7u8; 16];
    let h = User::hash_with_salt("12345678", &salt).unwrap();
    let expected = argon2::hash_encoded(b"12345678", &salt, &argon2::Config::default()).unwrap();
    assert_eq!(h, expected);
    assert_eq!(h.chars().count(), ENCODED_HASH_LEN);
    assert!(argon2::verify_encoded(&h, b"12345678").unwrap());
    // the same salt gives the same hash
    assert_eq!(User::hash_with_salt("12345678", &salt).unwrap(), h);
    // a salt under 8 bytes is refused by argon2
    assert!(User::hash_with_salt("12345678", &[1u8; 4]).is_none());
}

#[test]
fn token_is_exactly_the_draws() {
    let draws: Vec<char> = "abcXYZ019".chars().collect();
    let a = PasswordResetToken::with_token(1, &draws).unwrap();
    let b = PasswordResetToken::with_token(2, &draws).unwrap();
    assert_eq!(a.sql, INSERT_TOKEN_SQL);
    assert_eq!(int_value(&a.params[0]), 1);
    assert_eq!(int_value(&b.params[0]), 2);
    assert_eq!(text(&a.params[1]), "abcXYZ019");
    assert_eq!(text(&a.params[1]), text(&b.params[1]));
    let empty = PasswordResetToken::with_token(3, &Vec::new()).unwrap();
    assert_eq!(text(&empty.params[1]), "");
}
