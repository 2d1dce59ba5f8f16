//! The failures that abort a download.

use reqwest::header::InvalidHeaderValue;
use url::ParseError;
use vstd::prelude::*;

verus! {

/// The error of the `url` crate for a text that is no absolute URL.
#[verifier::external_type_specification]
#[verifier::external_body]
pub struct ExParseError(ParseError);

/// A failure that aborts the call; nothing of a report is handed out with it.
///
/// What a server answers is no such failure: a status that ends the download
/// is recorded in the report, which is then returned as usual.
#[derive(Debug)]
pub enum DownloadError {
    /// The URL could not be parsed.
    InvalidUrl(ParseError),
    /// The value of the `Range` header was refused.
    InvalidHeaderValue(InvalidHeaderValue),
    /// The caller's headers leave no room for the `Range` header.
    TooManyHeaders,
    /// The size on disk and the announced length together exceed `u64`.
    SizeOverflow,
    /// The calendar does not reach the time that was to be written.
    TimeOutOfRange,
    /// The event does not answer the action that the session asked for.
    UnexpectedEvent,
}

} // verus!
