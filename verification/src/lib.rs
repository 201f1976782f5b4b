//! Account registration, login and password handling for a small web
//! application: password rules, password hashing, the SQL statements the
//! models issue, and the decisions the request handlers take.

pub mod error;
pub mod crypto;
pub mod models;
pub mod templates;
pub mod controllers;
pub mod text;
