//! Why an authorization or a verification was refused.

use vstd::prelude::*;
use vstd::string::*;

verus! {

/// The ways in which a request can fail. The first two and the last are the
/// caller's doing; `DatabaseError` is the store's; `JwtError` is a token or a
/// signing key that cannot be used.
#[derive(Debug, Clone, PartialEq, Eq)]
pub enum Error {
    UserNotFound,
    IncorrectPassword,
    DatabaseError(String),
    JwtError(String),
    TokenExpired,
}

/// An [`Error`] as contracts speak of it: the same variants, each detail as a
/// sequence of characters.
pub ghost enum ErrorView {
    UserNotFound,
    IncorrectPassword,
    DatabaseError(Seq<char>),
    JwtError(Seq<char>),
    TokenExpired,
}

impl View for Error {
    type V = ErrorView;

    open spec fn view(&self) -> ErrorView {
        match self {
            Error::UserNotFound => ErrorView::UserNotFound,
            Error::IncorrectPassword => ErrorView::IncorrectPassword,
            Error::DatabaseError(s) => ErrorView::DatabaseError(s@),
            Error::JwtError(s) => ErrorView::JwtError(s@),
            Error::TokenExpired => ErrorView::TokenExpired,
        }
    }
}

impl Error {
    /// The text of this error, as a sequence of characters.
    pub open spec fn text(&self) -> Seq<char> {
        match self {
            Error::UserNotFound => "Error::UserNotFound"@,
            Error::IncorrectPassword => "Error::IncorrectPassword"@,
            Error::DatabaseError(s) => "Error::DatabaseError: "@ + s@,
            Error::JwtError(s) => "Error::JwtError: "@ + s@,
            Error::TokenExpired => "Error::TokenExpired"@,
        }
    }

    /// The text of this error: the variant's name and, where it carries one,
    /// a colon, a space and the detail.
    pub fn to_string(&self) -> (res: String)
        ensures
            res@ == self.text(),
    {
        match self {
            Error::UserNotFound => String::from_str("Error::UserNotFound"),
            Error::IncorrectPassword => String::from_str("Error::IncorrectPassword"),
            Error::DatabaseError(s) => String::from_str("Error::DatabaseError: ").concat(
                s.as_str(),
            ),
            Error::JwtError(s) => String::from_str("Error::JwtError: ").concat(s.as_str()),
            Error::TokenExpired => String::from_str("Error::TokenExpired"),
        }
    }
}

} // verus!
