use vstd::prelude::*;

verus! {

/// A value bound to a placeholder of a statement.
#[derive(Debug)]
pub enum SqlValue {
    Int(i64),
    Text(String),
}

/// A statement ready to be run against the database: its SQL text and the
/// values bound to its placeholders `$1`, `$2`, ... in order.
#[derive(Debug)]
pub struct Query {
    pub sql: &'static str,
    pub params: Vec<SqlValue>,
}

} // verus!
