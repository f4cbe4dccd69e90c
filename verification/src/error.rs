use vstd::prelude::*;

verus! {

/// The errors that the service's operations report.
#[derive(Debug, Clone)]
pub enum AppError {
    NotFound(String),
    BadRequest(String),
    Internal(String),
    Unauthorized(String),
}

/// The result of an operation of the service.
pub type AppResult<T> = Result<T, AppError>;

impl AppError {
    /// The human-readable text of the error: a label for its kind, then its message.
    pub open spec fn spec_display(self) -> Seq<char> {
        match self {
            AppError::NotFound(m) => "Not found: "@ + m@,
            AppError::BadRequest(m) => "Bad request: "@ + m@,
            AppError::Internal(m) => "Internal error: "@ + m@,
            AppError::Unauthorized(m) => "Unauthorized: "@ + m@,
        }
    }

    /// The human-readable text of the error, such as `Not found: item`.
    pub fn display_text(&self) -> (s: String)
        ensures
            s@ == self.spec_display(),
    {
        let (label, message) = match self {
            AppError::NotFound(m) => ("Not found: ", m),
            AppError::BadRequest(m) => ("Bad request: ", m),
            AppError::Internal(m) => ("Internal error: ", m),
            AppError::Unauthorized(m) => ("Unauthorized: ", m),
        };
        let mut s = String::from_str(label);
        s.append(message.as_str());
        s
    }
}

/// A `NotFound` error with the given message.
pub fn not_found(message: &str) -> (e: AppError)
    ensures
        e matches AppError::NotFound(m) && m@ == message@,
{
    AppError::NotFound(String::from_str(message))
}

/// A `BadRequest` error with the given message.
pub fn bad_request(message: &str) -> (e: AppError)
    ensures
        e matches AppError::BadRequest(m) && m@ == message@,
{
    AppError::BadRequest(String::from_str(message))
}

/// An `Internal` error with the given message.
pub fn internal(message: &str) -> (e: AppError)
    ensures
        e matches AppError::Internal(m) && m@ == message@,
{
    AppError::Internal(String::from_str(message))
}

/// An `Unauthorized` error with the given message.
pub fn unauthorized(message: &str) -> (e: AppError)
    ensures
        e matches AppError::Unauthorized(m) && m@ == message@,
{
    AppError::Unauthorized(String::from_str(message))
}


/// Law: the text of an error is its kind's label, `: `, then its message as given.
pub proof fn law_display_by_kind(m: String)
    ensures
        AppError::NotFound(m).spec_display() == "Not found: "@ + m@,
        AppError::BadRequest(m).spec_display() == "Bad request: "@ + m@,
        AppError::Internal(m).spec_display() == "Internal error: "@ + m@,
        AppError::Unauthorized(m).spec_display() == "Unauthorized: "@ + m@,
{
}

} // verus!
