//! The rows the application stores and the SQL statements that read and
//! write them.

pub mod password_reset_token;
pub mod query;
pub mod user;

pub use password_reset_token::PasswordResetToken;
pub use query::{Query, SqlValue};
pub use user::User;
