//! File names, the clock, and what is known of a path on disk.

use crate::error::DownloadError;
use crate::time::{clock_now, Timestamp, TimestampView};
use url::ParseError;
use vstd::prelude::*;
use vstd::string::*;

verus! {

/// The path segments of the absolute URL that `url` spells, as the `url` crate
/// reads it: nothing where `url` is no absolute URL, and no segments where the
/// URL cannot be a base.
pub uninterp spec fn url_path_segments(url: Seq<char>) -> Option<Option<Seq<Seq<char>>>>;

/// The texts of some path segments.
pub open spec fn segments_view(segments: Option<Vec<String>>) -> Option<Seq<Seq<char>>> {
    match segments {
        Some(parts) => Some(parts@.map_values(|part: String| part@)),
        None => None,
    }
}

/// `Url::parse` and `Url::path_segments` of the `url` crate, which `reqwest`
/// hands on: the percent-encoded segments between the slashes of the path, in
/// their order, or no segments for a URL that cannot be a base; the error
/// where the text is no absolute URL.
#[verifier::external_body]
fn parse_path_segments(url: &str) -> (r: Result<Option<Vec<String>>, ParseError>)
    ensures
        r is Ok <==> url_path_segments(url@) is Some,
        r matches Ok(segments) ==> url_path_segments(url@) == Some(segments_view(segments)),
{
    let parsed = reqwest::Url::parse(url)?;
    Ok(parsed.path_segments().map(|parts| parts.map(String::from).collect()))
}

/// The name given to a download whose URL names no file.
pub const DEFAULT_FILE_NAME: &'static str = "download";

/// The text of [`DEFAULT_FILE_NAME`].
pub open spec fn default_file_name() -> Seq<char> {
    seq!['d', 'o', 'w', 'n', 'l', 'o', 'a', 'd']
}

/// The file name that some path segments give: the last segment, or the
/// default name where there is no segment or the last one is empty.
pub open spec fn file_name_of(segments: Option<Seq<Seq<char>>>) -> Seq<char> {
    match segments {
        Some(parts) => if parts.len() > 0 && parts.last().len() > 0 {
            parts.last()
        } else {
            default_file_name()
        },
        None => default_file_name(),
    }
}

/// A URL whose last path segment is not empty is named after that segment;
/// one without path segments gets the default name; and no name is empty.
pub proof fn lemma_file_name_of(segments: Option<Seq<Seq<char>>>)
    ensures
        segments is Some && segments->Some_0.len() > 0 && segments->Some_0.last().len() > 0
            ==> file_name_of(segments) == segments->Some_0.last(),
        segments is None ==> file_name_of(segments) == default_file_name(),
        file_name_of(segments).len() > 0,
{
}

/// The file name that some path segments give; it is never empty.
pub fn file_name_from_segments(segments: Option<Vec<String>>) -> (r: String)
    ensures
        r@ == file_name_of(segments_view(segments)),
        r@.len() > 0,
{
    proof {
        reveal_strlit("download");
        assert(DEFAULT_FILE_NAME@ =~= default_file_name());
    }
    match segments {
        Some(mut parts) => {
            let ghost texts = parts@.map_values(|part: String| part@);
            match parts.pop() {
                Some(last) => {
                    assert(texts.last() == last@);
                    if last.as_str().is_empty() {
                        DEFAULT_FILE_NAME.to_owned()
                    } else {
                        last
                    }
                },
                None => DEFAULT_FILE_NAME.to_owned(),
            }
        },
        None => DEFAULT_FILE_NAME.to_owned(),
    }
}

/// The file name that a URL gives: its last path segment, or the default name
/// where it has no path segments or the last one is empty.
///
/// Fails with `InvalidUrl`, and only so, where `url` is no absolute URL.
pub fn get_file_name_from_url(url: &str) -> (r: Result<String, DownloadError>)
    ensures
        r is Ok <==> url_path_segments(url@) is Some,
        r matches Ok(name) ==> name@ == file_name_of(url_path_segments(url@).unwrap()),
        r matches Err(e) ==> e is InvalidUrl,
{
    match parse_path_segments(url) {
        Ok(segments) => Ok(file_name_from_segments(segments)),
        Err(e) => Err(DownloadError::InvalidUrl(e)),
    }
}

/// The time that the clock shows.
pub fn date() -> (r: Timestamp)
    ensures
        r@.text() is Some,
{
    let (secs, nanos) = clock_now();
    Timestamp::new(secs, nanos).unwrap()
}

/// A file name with the time `now` before it: the time as text, an
/// underscore, and the name. Nothing where the time cannot be written.
pub open spec fn stamped_name(now: TimestampView, file_name: Seq<char>) -> Option<Seq<char>> {
    match now.text() {
        Some(stamp) => Some(stamp + seq!['_'] + file_name),
        None => None,
    }
}

/// The name `file_name` with the time `now` before it.
///
/// Fails with `TimeOutOfRange`, and only so, where the calendar does not
/// reach `now`.
pub fn gen_file_name_at(now: &Timestamp, file_name: &str) -> (r: Result<String, DownloadError>)
    ensures
        r is Ok <==> stamped_name(now@, file_name@) is Some,
        r matches Ok(name) ==> stamped_name(now@, file_name@) == Some(name@),
        r matches Err(e) ==> e is TimeOutOfRange,
{
    match now.to_text() {
        Some(mut name) => {
            proof {
                reveal_strlit("_");
            }
            name.append("_");
            name.append(file_name);
            assert(name@ =~= now@.text().unwrap() + seq!['_'] + file_name@);
            Ok(name)
        },
        None => Err(DownloadError::TimeOutOfRange),
    }
}

/// The name `file_name` with the current time before it. Whatever the clock
/// shows, the call succeeds and the name is stamped with some time.
pub fn gen_file_name(file_name: &str) -> (r: Result<String, DownloadError>)
    ensures
        r is Ok,
        exists|now: TimestampView| stamped_name(now, file_name@) == Some(r.unwrap()@),
{
    let now = date();
    gen_file_name_at(&now, file_name)
}

/// What a look at a path on disk found there.
#[derive(Debug, Clone, Copy, PartialEq, Eq)]
pub struct FileMetadata {
    /// Whether the path leads to a regular file.
    pub is_file: bool,
    /// Whether the path leads to a directory.
    pub is_dir: bool,
    /// The size in bytes.
    pub len: u64,
}

/// Whether the probed path is a regular file; `false` where nothing could be
/// read there.
pub fn is_file(probe: Option<FileMetadata>) -> (r: Result<bool, DownloadError>)
    ensures
        r is Ok,
        r.unwrap() <==> (probe matches Some(found) && found.is_file),
{
    match probe {
        Some(found) => Ok(found.is_file),
        None => Ok(false),
    }
}

/// Whether the probed path is a directory; `false` where nothing could be
/// read there.
pub fn is_dir(probe: Option<FileMetadata>) -> (r: Result<bool, DownloadError>)
    ensures
        r is Ok,
        r.unwrap() <==> (probe matches Some(found) && found.is_dir),
{
    match probe {
        Some(found) => Ok(found.is_dir),
        None => Ok(false),
    }
}

/// The size in bytes of what lies at the probed path; 0 where nothing could
/// be read there.
pub open spec fn size_of(probe: Option<FileMetadata>) -> u64 {
    match probe {
        Some(found) => found.len,
        None => 0,
    }
}

/// The size in bytes of what lies at the probed path; 0 where nothing could
/// be read there.
pub fn get_file_size(probe: Option<FileMetadata>) -> (r: Result<u64, DownloadError>)
    ensures
        r is Ok,
        r.unwrap() == size_of(probe),
{
    match probe {
        Some(found) => Ok(found.len),
        None => Ok(0),
    }
}

} // verus!
