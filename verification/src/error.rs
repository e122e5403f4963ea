//! Why an operation on the forge fails.

use vstd::prelude::*;

verus! {

/// Why an operation fails.
#[derive(Debug)]
pub enum ForgeError {
    /// The forge holds what the operation cannot go on with, in words.
    Forge(String),
    /// An answer lacks what the operation needs, in words.
    Missing(String),
    /// A text is no URL.
    InvalidUrl(url::ParseError),
    /// A URL, or a value for its query, is too long to be sent.
    UrlTooLong,
    /// A tag prefix is no regular expression.
    InvalidPattern(regex::Error),
    /// The date of a commit is not in RFC 3339 form.
    InvalidTimestamp(chrono::ParseError),
    /// The body of an answer is no JSON document.
    InvalidJson(serde_json::Error),
    /// A token cannot stand in an HTTP header.
    InvalidHeader,
    /// The forge answered with this client or server error.
    Status(u16),
    /// The body of an answer could not be read, for the reason given.
    Undecodable(String),
    /// The body of an answer is not what the request asked for.
    UnexpectedPayload,
    /// A listing has more pages than can be counted.
    PageOverflow,
}

/// The value of a [`ForgeError`]; what another crate found wrong is left out.
#[verifier::ext_equal]
pub enum ForgeErrorView {
    Forge(Seq<char>),
    Missing(Seq<char>),
    InvalidUrl,
    UrlTooLong,
    InvalidPattern,
    InvalidTimestamp,
    InvalidJson,
    InvalidHeader,
    Status(u16),
    Undecodable(Seq<char>),
    UnexpectedPayload,
    PageOverflow,
}

impl DeepView for ForgeError {
    type V = ForgeErrorView;

    open spec fn deep_view(&self) -> ForgeErrorView {
        match self {
            ForgeError::Forge(message) => ForgeErrorView::Forge(message@),
            ForgeError::Missing(message) => ForgeErrorView::Missing(message@),
            ForgeError::InvalidUrl(_) => ForgeErrorView::InvalidUrl,
            ForgeError::UrlTooLong => ForgeErrorView::UrlTooLong,
            ForgeError::InvalidPattern(_) => ForgeErrorView::InvalidPattern,
            ForgeError::InvalidTimestamp(_) => ForgeErrorView::InvalidTimestamp,
            ForgeError::InvalidJson(_) => ForgeErrorView::InvalidJson,
            ForgeError::InvalidHeader => ForgeErrorView::InvalidHeader,
            ForgeError::Status(status) => ForgeErrorView::Status(*status),
            ForgeError::Undecodable(reason) => ForgeErrorView::Undecodable(reason@),
            ForgeError::UnexpectedPayload => ForgeErrorView::UnexpectedPayload,
            ForgeError::PageOverflow => ForgeErrorView::PageOverflow,
        }
    }
}

/// The value of a result.
pub open spec fn outcome<T: DeepView>(res: Result<T, ForgeError>) -> Result<T::V, ForgeErrorView> {
    match res {
        Ok(value) => Ok(value.deep_view()),
        Err(error) => Err(error.deep_view()),
    }
}

} // verus!
