use vstd::prelude::*;

verus! {

/// The errors the library's rules answer with; each is an HTTP answer of the service.
#[derive(Debug, Clone)]
pub enum AppError {
    /// No valid session.
    Unauthorized,
    /// The caller may not act on the guild, batch or code.
    Forbidden,
    /// The named record does not exist.
    NotFound(String),
    /// The request is malformed; the text says why.
    BadRequest(String),
    /// Too many redemption attempts within the hour.
    RateLimited,
    /// Something failed inside the service; the text says what.
    Internal(String),
}

impl AppError {
    /// The text of a `NotFound`, `BadRequest` or `Internal` error, empty for the others.
    pub open spec fn text(&self) -> Seq<char> {
        match self {
            AppError::NotFound(m) => m@,
            AppError::BadRequest(m) => m@,
            AppError::Internal(m) => m@,
            _ => Seq::empty(),
        }
    }
}

/// A `BadRequest` error whose text is `msg`.
pub fn bad_request(msg: &str) -> (e: AppError)
    ensures
        e is BadRequest,
        e.text() == msg@,
{
    AppError::BadRequest(String::from_str(msg))
}

/// A `NotFound` error whose text is `msg`.
pub fn not_found(msg: &str) -> (e: AppError)
    ensures
        e is NotFound,
        e.text() == msg@,
{
    AppError::NotFound(String::from_str(msg))
}

} // verus!
