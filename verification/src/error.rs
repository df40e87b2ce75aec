//! The one failure that a caller of the service sees: whatever went wrong
//! inside, it is answered with status 500 and a line of text.

use vstd::prelude::*;
use vstd::string::*;
use crate::auth::AuthError;
use crate::reconcile::Failure;

verus! {

/// A request that failed, with the reason in words.
#[derive(Debug, Clone)]
pub struct ApiError {
    pub message: String,
}

/// What a handler returns.
pub type ApiResult<T, E = ApiError> = Result<T, E>;

/// The status of every failed request.
pub const FAILURE_STATUS: u16 = 500;

/// The wording for a request that failed while writing.
pub open spec fn failure_text(f: Failure) -> Seq<char> {
    match f {
        Failure::Store => "The store reported an error"@,
        Failure::MissingScoreId => "The store returned no score for a chart"@,
        Failure::OutOfTurn => "The request was driven out of turn"@,
    }
}

impl From<String> for ApiError {
    /// A failure with the given reason.
    fn from(message: String) -> (e: ApiError) {
        ApiError { message }
    }
}

impl vstd::std_specs::convert::FromSpecImpl<String> for ApiError {
    open spec fn obeys_from_spec() -> bool {
        true
    }

    open spec fn from_spec(message: String) -> ApiError {
        ApiError { message }
    }
}

impl ApiError {
    /// A failure with the given reason.
    pub fn new(message: String) -> (e: ApiError)
        ensures
            e.message == message,
    {
        ApiError { message }
    }

    /// The failure of a login or of adding a player.
    pub fn from_auth(cause: AuthError) -> (e: ApiError)
        ensures
            e.message@ == cause.text(),
    {
        ApiError { message: cause.message() }
    }

    /// The failure of a request while it was writing.
    pub fn from_failure(cause: Failure) -> (e: ApiError)
        ensures
            e.message@ == failure_text(cause),
    {
        let message = match cause {
            Failure::Store => "The store reported an error".to_owned(),
            Failure::MissingScoreId => "The store returned no score for a chart".to_owned(),
            Failure::OutOfTurn => "The request was driven out of turn".to_owned(),
        };
        ApiError { message }
    }

    /// The status to answer with: always [`FAILURE_STATUS`].
    pub fn status(&self) -> (s: u16)
        ensures
            s == FAILURE_STATUS,
            s == 500,
    {
        FAILURE_STATUS
    }

    /// The text of the answer: a fixed opening, then the reason.
    pub open spec fn body_text(self) -> Seq<char> {
        "Something went wrong: "@ + self.message@
    }

    /// The text to answer with.
    pub fn body(&self) -> (r: String)
        ensures
            r@ == self.body_text(),
    {
        String::from_str("Something went wrong: ").concat(self.message.as_str())
    }
}

} // verus!
