use vstd::prelude::*;

use crate::error::Error;

verus! {

/// The greeting page: greets `name`.
pub struct HelloTemplate<'a> {
    pub name: &'a str,
}

impl<'a> HelloTemplate<'a> {
    pub fn new(name: &'a str) -> (t: Self)
        ensures
            t.name == name,
    {
        Self { name }
    }
}

/// The registration form, with the error of the last attempt if any.
pub struct RegisterTemplate {
    pub error: Option<Error>,
}

impl RegisterTemplate {
    pub fn new() -> (t: Self)
        ensures
            t.error is None,
    {
        return Self { error: None };
    }

    pub fn with_error(error: Error) -> (t: Self)
        ensures
            t.error == Some(error),
    {
        return Self { error: Some(error) };
    }
}

/// The login form, with the error of the last attempt if any.
pub struct LoginTemplate {
    pub error: Option<Error>,
}

impl LoginTemplate {
    pub fn new() -> (t: Self)
        ensures
            t.error is None,
    {
        return Self { error: None };
    }

    pub fn with_error(error: Error) -> (t: Self)
        ensures
            t.error == Some(error),
    {
        return Self { error: Some(error) };
    }
}

} // verus!
