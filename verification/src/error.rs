//! The failures the identity core reports, and how each is rendered.

use vstd::prelude::*;
use vstd::string::StringExecFns;

verus! {

/// All that a caller is told of a storage failure.
pub const MSG_STOCKAGE: &'static str = "Database error";

/// A failure of the identity core. Each variant carries a human-readable detail.
#[derive(Debug)]
pub enum MyError {
    /// The repository failed.
    Database(String),
    /// The request was malformed.
    BadRequest(String),
    /// The target entity does not exist.
    NotFound(String),
    /// Missing, invalid or expired credentials, or insufficient privilege.
    Unauthorized(String),
    /// Malformed or conflicting input.
    Validation(String),
    /// Configuration and other internal failures.
    Custom(String),
}

/// The mathematical content of a [`MyError`]: its kind and the text it carries.
pub ghost enum ErrorView {
    Database(Seq<char>),
    BadRequest(Seq<char>),
    NotFound(Seq<char>),
    Unauthorized(Seq<char>),
    Validation(Seq<char>),
    Custom(Seq<char>),
}

impl View for MyError {
    type V = ErrorView;

    open spec fn view(&self) -> ErrorView {
        match self {
            MyError::Database(m) => ErrorView::Database(m@),
            MyError::BadRequest(m) => ErrorView::BadRequest(m@),
            MyError::NotFound(m) => ErrorView::NotFound(m@),
            MyError::Unauthorized(m) => ErrorView::Unauthorized(m@),
            MyError::Validation(m) => ErrorView::Validation(m@),
            MyError::Custom(m) => ErrorView::Custom(m@),
        }
    }
}

impl ErrorView {
    /// The detail text, whatever the kind.
    pub open spec fn detail(self) -> Seq<char> {
        match self {
            ErrorView::Database(m) => m,
            ErrorView::BadRequest(m) => m,
            ErrorView::NotFound(m) => m,
            ErrorView::Unauthorized(m) => m,
            ErrorView::Validation(m) => m,
            ErrorView::Custom(m) => m,
        }
    }

    /// The label of the kind, as it stands at the head of the rendered error.
    pub open spec fn label(self) -> Seq<char> {
        match self {
            ErrorView::Database(_) => MSG_STOCKAGE@,
            ErrorView::BadRequest(_) => "bad reqwest : "@,
            ErrorView::NotFound(_) => "Not found: "@,
            ErrorView::Unauthorized(_) => "Unauthorized: "@,
            ErrorView::Validation(_) => "Validation error: "@,
            ErrorView::Custom(_) => "Custom error: "@,
        }
    }

    /// The rendered error: label, then detail. A storage failure is rendered
    /// as its label alone: what the store reported stays inside.
    pub open spec fn rendered(self) -> Seq<char> {
        match self {
            ErrorView::Database(_) => MSG_STOCKAGE@,
            _ => self.label() + self.detail(),
        }
    }

    /// The HTTP status the error maps to.
    pub open spec fn status(self) -> int {
        match self {
            ErrorView::Database(_) => 500,
            ErrorView::BadRequest(_) => 400,
            ErrorView::NotFound(_) => 404,
            ErrorView::Unauthorized(_) => 401,
            ErrorView::Validation(_) => 400,
            ErrorView::Custom(_) => 500,
        }
    }
}

impl MyError {
    /// Renders the error for a caller: its label followed by its detail, but
    /// for a storage failure the generic [`MSG_STOCKAGE`] and nothing of the
    /// detail.
    pub fn to_string(&self) -> (s: String)
        ensures
            s@ == self@.rendered(),
    {
        match self {
            MyError::Database(_) => String::from_str(MSG_STOCKAGE),
            MyError::BadRequest(m) => String::from_str("bad reqwest : ").concat(m.as_str()),
            MyError::NotFound(m) => String::from_str("Not found: ").concat(m.as_str()),
            MyError::Unauthorized(m) => String::from_str("Unauthorized: ").concat(m.as_str()),
            MyError::Validation(m) => String::from_str("Validation error: ").concat(m.as_str()),
            MyError::Custom(m) => String::from_str("Custom error: ").concat(m.as_str()),
        }
    }

    /// The HTTP status code for this error.
    pub fn status_code(&self) -> (code: u16)
        ensures
            code == self@.status(),
    {
        match self {
            MyError::Database(_) => 500,
            MyError::BadRequest(_) => 400,
            MyError::NotFound(_) => 404,
            MyError::Unauthorized(_) => 401,
            MyError::Validation(_) => 400,
            MyError::Custom(_) => 500,
        }
    }
}

/// The content of a result: of its value, or of its failure.
pub open spec fn result_view<T: View>(r: Result<T, MyError>) -> Result<T::V, ErrorView> {
    match r {
        Ok(value) => Ok(value@),
        Err(e) => Err(e@),
    }
}

/// Whether `r` fails with exactly `failure`.
pub open spec fn fails_with<T>(r: Result<T, MyError>, failure: ErrorView) -> bool {
    r matches Err(e) && e@ == failure
}

/// A validation failure with the given detail.
pub fn validation_error(message: &str) -> (e: MyError)
    ensures
        e@ == ErrorView::Validation(message@),
{
    MyError::Validation(String::from_str(message))
}

/// A not-found failure with the given detail.
pub fn not_found_error(message: &str) -> (e: MyError)
    ensures
        e@ == ErrorView::NotFound(message@),
{
    MyError::NotFound(String::from_str(message))
}

/// An authorization failure with the given detail.
pub fn unauthorized_error(message: &str) -> (e: MyError)
    ensures
        e@ == ErrorView::Unauthorized(message@),
{
    MyError::Unauthorized(String::from_str(message))
}

} // verus!
