use vstd::prelude::*;

verus! {

/// The provider's text for a rejected API key.
pub const INVALID_API_KEY_MESSAGE: &'static str = "Invalid API key. (002)";

/// Every way a ping can fail.
#[derive(Debug, PartialEq)]
pub enum PorkbunError {
    /// The provider rejected the API key or secret.
    InvalidCredentialsError,
    /// The provider reported some other error; its message is kept verbatim.
    APIError(String),
    /// The reply matched neither the success nor the failure shape.
    ResponseDecodeError,
    /// The request could not be sent or answered; carries a diagnostic.
    WebRequestError(String),
}

/// Mathematical model of [`PorkbunError`], with texts as character sequences.
pub enum PorkbunErrorView {
    InvalidCredentialsError,
    APIError(Seq<char>),
    ResponseDecodeError,
    WebRequestError(Seq<char>),
}

impl View for PorkbunError {
    type V = PorkbunErrorView;

    open spec fn view(&self) -> PorkbunErrorView {
        match self {
            PorkbunError::InvalidCredentialsError => PorkbunErrorView::InvalidCredentialsError,
            PorkbunError::APIError(m) => PorkbunErrorView::APIError(m@),
            PorkbunError::ResponseDecodeError => PorkbunErrorView::ResponseDecodeError,
            PorkbunError::WebRequestError(d) => PorkbunErrorView::WebRequestError(d@),
        }
    }
}

/// The error that a provider message stands for: the one known text for a bad
/// key is a credentials error, every other text an API error that keeps it.
pub open spec fn classify_message(message: Seq<char>) -> PorkbunErrorView {
    if message == INVALID_API_KEY_MESSAGE@ {
        PorkbunErrorView::InvalidCredentialsError
    } else {
        PorkbunErrorView::APIError(message)
    }
}

/// Maps the provider's error message to the most specific error kind.
pub fn match_error_string(error_string: &str) -> (r: PorkbunError)
    ensures
        r@ == classify_message(error_string@),
{
    let given = error_string.to_owned();
    let known = String::from_str(INVALID_API_KEY_MESSAGE);
    if given == known {
        PorkbunError::InvalidCredentialsError
    } else {
        PorkbunError::APIError(given)
    }
}

} // verus!
