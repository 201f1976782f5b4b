use vstd::prelude::*;

verus! {

/// What went wrong, as shown to the person using the site.
#[derive(Debug, Clone, Copy, PartialEq, Eq, Structural)]
pub enum ErrorKind {
    UnknownError,
    PasswordTooShort,
    PasswordTooLong,
    PasswordMismatch,
    InvalidCredentials,
    EmailTaken,
}

/// An error that a page can display.
#[derive(Debug, Clone, Copy, PartialEq, Eq, Structural)]
pub struct Error {
    pub kind: ErrorKind,
}

/// The text shown for each kind of error.
pub open spec fn message_of(kind: ErrorKind) -> Seq<char> {
    match kind {
        ErrorKind::UnknownError => "An unknown error occurred."@,
        ErrorKind::PasswordTooShort => "Password must be at least 8 characters long."@,
        ErrorKind::PasswordTooLong => "Password must be at most 64 characters long."@,
        ErrorKind::PasswordMismatch => "Passwords do not match."@,
        ErrorKind::InvalidCredentials => "Invalid credentials. Please try again"@,
        ErrorKind::EmailTaken => "Email is taken, please try another."@,
    }
}

impl Error {
    pub fn new(kind: ErrorKind) -> (e: Error)
        ensures
            e.kind == kind,
    {
        Error { kind }
    }

    pub fn message(&self) -> (m: &str)
        ensures
            m@ == message_of(self.kind),
    {
        match self.kind {
            ErrorKind::UnknownError => "An unknown error occurred.",
            ErrorKind::PasswordTooShort => "Password must be at least 8 characters long.",
            ErrorKind::PasswordTooLong => "Password must be at most 64 characters long.",
            ErrorKind::PasswordMismatch => "Passwords do not match.",
            ErrorKind::InvalidCredentials => "Invalid credentials. Please try again",
            ErrorKind::EmailTaken => "Email is taken, please try another.",
        }
    }
}

} // verus!
