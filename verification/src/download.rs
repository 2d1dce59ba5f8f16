//! What a download is asked to do, and the report of what it did.

use crate::error::DownloadError;
use crate::headers::header_entries;
use crate::time::{Timestamp, TimestampView};
use crate::utils::{date, is_dir, FileMetadata};
use reqwest::header::HeaderMap;
use vstd::prelude::*;
use vstd::string::*;

verus! {

/// How far a download has come.
#[derive(Debug, Clone, Copy, PartialEq, Eq, Structural)]
pub enum DownloadStatus {
    /// The file is about to be written from its first byte.
    Create,
    /// Bytes are being added to the end of the file.
    Append,
    /// The body was received in full.
    Complete,
    /// The server has nothing beyond what is on disk.
    Exists,
    /// The download did not succeed, or has not come to an end.
    Error,
}

/// The text of an optional string.
pub open spec fn text_of(text: Option<String>) -> Option<Seq<char>> {
    match text {
        Some(text) => Some(text@),
        None => None,
    }
}

/// The value of an optional timestamp.
pub open spec fn time_of(time: Option<Timestamp>) -> Option<TimestampView> {
    match time {
        Some(time) => Some(time@),
        None => None,
    }
}

/// What an optional header map holds.
pub open spec fn entries_of(headers: Option<HeaderMap>) -> Option<Map<Seq<char>, Seq<Seq<u8>>>> {
    match headers {
        Some(headers) => Some(header_entries(headers)),
        None => None,
    }
}

/// What the caller asks of a download; every part may be left out.
#[derive(Debug)]
pub struct DownloadOptions {
    /// The name to store the file under, in place of the one the URL gives.
    pub maybe_file_name: Option<String>,
    /// The proxy to send every request through.
    pub maybe_proxy: Option<String>,
    /// Headers to send with every request.
    pub maybe_headers: Option<HeaderMap>,
    /// Whether progress is shown while the body arrives.
    pub show_progress: bool,
}

/// The mathematical value of [`DownloadOptions`].
pub struct DownloadOptionsView {
    pub file_name: Option<Seq<char>>,
    pub proxy: Option<Seq<char>>,
    pub headers: Option<Map<Seq<char>, Seq<Seq<u8>>>>,
    pub show_progress: bool,
}

impl DownloadOptionsView {
    /// The options that ask for nothing: no name, no proxy, no headers, no
    /// progress.
    pub open spec fn empty() -> DownloadOptionsView {
        DownloadOptionsView { file_name: None, proxy: None, headers: None, show_progress: false }
    }
}

impl View for DownloadOptions {
    type V = DownloadOptionsView;

    open spec fn view(&self) -> DownloadOptionsView {
        DownloadOptionsView {
            file_name: text_of(self.maybe_file_name),
            proxy: text_of(self.maybe_proxy),
            headers: entries_of(self.maybe_headers),
            show_progress: self.show_progress,
        }
    }
}

impl Default for DownloadOptions {
    fn default() -> (r: Self)
        ensures
            r@ == DownloadOptionsView::empty(),
    {
        DownloadOptions {
            maybe_file_name: None,
            maybe_proxy: None,
            maybe_headers: None,
            show_progress: false,
        }
    }
}

impl DownloadOptions {
    /// The options that ask for nothing.
    pub fn new() -> (r: Self)
        ensures
            r@ == DownloadOptionsView::empty(),
    {
        DownloadOptions {
            maybe_file_name: None,
            maybe_proxy: None,
            maybe_headers: None,
            show_progress: false,
        }
    }

    /// Sends every request through `proxy`.
    pub fn set_proxy(&mut self, proxy: &str) -> (r: &mut Self)
        ensures
            r@ == (DownloadOptionsView { proxy: Some(proxy@), ..old(self)@ }),
            *final(self) == *final(r),
    {
        self.maybe_proxy = Some(proxy.to_owned());
        self
    }

    /// Sends `headers` with every request.
    pub fn set_headers(&mut self, headers: HeaderMap) -> (r: &mut Self)
        ensures
            r@ == (DownloadOptionsView { headers: Some(header_entries(headers)), ..old(self)@ }),
            *final(self) == *final(r),
    {
        self.maybe_headers = Some(headers);
        self
    }

    /// Shows progress or not.
    pub fn set_show_progress(&mut self, show_progress: bool) -> (r: &mut Self)
        ensures
            r@ == (DownloadOptionsView { show_progress, ..old(self)@ }),
            *final(self) == *final(r),
    {
        self.show_progress = show_progress;
        self
    }

    /// Stores the file under `file_name`.
    pub fn set_file_name(&mut self, file_name: &str) -> (r: &mut Self)
        ensures
            r@ == (DownloadOptionsView { file_name: Some(file_name@), ..old(self)@ }),
            *final(self) == *final(r),
    {
        self.maybe_file_name = Some(file_name.to_owned());
        self
    }
}

/// The record of one download: what was asked, what was decided at each step,
/// and how it ended.
#[derive(Debug)]
pub struct DownloadReport {
    /// The URL that was asked for.
    pub url: String,
    /// The name the file is stored under.
    pub file_name: String,
    /// The name that the URL gives.
    pub origin_file_name: String,
    /// The directory the file is stored in.
    pub storage_path: String,
    /// The path of the file.
    pub file_path: String,
    /// The size of the file: first what is on disk, then what is expected in
    /// the end.
    pub file_size: Option<u64>,
    /// The byte from which the download resumes.
    pub range_from: Option<u64>,
    /// When the download began.
    pub download_start_at: Option<Timestamp>,
    /// When the download ended.
    pub download_end_at: Option<Timestamp>,
    /// How far the download has come.
    pub download_status: Option<DownloadStatus>,
    /// The headers that were sent.
    pub headers: Option<HeaderMap>,
    /// The status of the last answer to the HEAD request.
    pub head_status: Option<u16>,
    /// The status of the answer to the GET request.
    pub resp_status: Option<u16>,
    /// The seconds from beginning to end.
    pub time_used: Option<i64>,
    /// Why the download was skipped or failed.
    pub msg: Option<String>,
}

/// The mathematical value of a [`DownloadReport`].
pub struct DownloadReportView {
    pub url: Seq<char>,
    pub file_name: Seq<char>,
    pub origin_file_name: Seq<char>,
    pub storage_path: Seq<char>,
    pub file_path: Seq<char>,
    pub file_size: Option<u64>,
    pub range_from: Option<u64>,
    pub download_start_at: Option<TimestampView>,
    pub download_end_at: Option<TimestampView>,
    pub download_status: Option<DownloadStatus>,
    pub headers: Option<Map<Seq<char>, Seq<Seq<u8>>>>,
    pub head_status: Option<u16>,
    pub resp_status: Option<u16>,
    pub time_used: Option<int>,
    pub msg: Option<Seq<char>>,
}

impl DownloadReportView {
    /// The report of a download that has not begun. Its status is `Error`: a
    /// report that is never carried further reads as a failure.
    pub open spec fn fresh(
        url: Seq<char>,
        file_name: Seq<char>,
        origin_file_name: Seq<char>,
        storage_path: Seq<char>,
        file_path: Seq<char>,
    ) -> DownloadReportView {
        DownloadReportView {
            url,
            file_name,
            origin_file_name,
            storage_path,
            file_path,
            file_size: None,
            range_from: None,
            download_start_at: None,
            download_end_at: None,
            download_status: Some(DownloadStatus::Error),
            headers: None,
            head_status: None,
            resp_status: None,
            time_used: None,
            msg: None,
        }
    }

    /// The report once the download has begun at `now`.
    pub open spec fn started(self, now: TimestampView) -> DownloadReportView {
        DownloadReportView { download_start_at: Some(now), ..self }
    }

    /// The end that a clock reading of `now` gives: `now` itself, or the
    /// beginning where the clock has gone back behind it.
    pub open spec fn end_for(self, now: TimestampView) -> TimestampView {
        match self.download_start_at {
            Some(start) => start.max(now),
            None => now,
        }
    }

    /// The report once the download has ended at `now`.
    pub open spec fn ended(self, now: TimestampView) -> DownloadReportView {
        DownloadReportView { download_end_at: Some(self.end_for(now)), ..self }
    }

    /// The whole seconds from beginning to end; 0 while either is missing.
    pub open spec fn elapsed(self) -> int {
        match (self.download_start_at, self.download_end_at) {
            (Some(start), Some(end)) => end.seconds_since(start),
            _ => 0,
        }
    }

    /// The report with the elapsed seconds filled in.
    pub open spec fn timed(self) -> DownloadReportView {
        DownloadReportView { time_used: Some(self.elapsed()), ..self }
    }

    /// Whether the end is no earlier than the beginning, where both are set.
    pub open spec fn in_order(self) -> bool {
        match (self.download_start_at, self.download_end_at) {
            (Some(start), Some(end)) => start.le(end),
            _ => true,
        }
    }
}

impl View for DownloadReport {
    type V = DownloadReportView;

    open spec fn view(&self) -> DownloadReportView {
        DownloadReportView {
            url: self.url@,
            file_name: self.file_name@,
            origin_file_name: self.origin_file_name@,
            storage_path: self.storage_path@,
            file_path: self.file_path@,
            file_size: self.file_size,
            range_from: self.range_from,
            download_start_at: time_of(self.download_start_at),
            download_end_at: time_of(self.download_end_at),
            download_status: self.download_status,
            headers: entries_of(self.headers),
            head_status: self.head_status,
            resp_status: self.resp_status,
            time_used: match self.time_used {
                Some(secs) => Some(secs as int),
                None => None,
            },
            msg: text_of(self.msg),
        }
    }
}

impl DownloadReport {
    /// The report of a download that has not begun.
    pub fn new(
        url: &str,
        file_name: &str,
        origin_file_name: &str,
        storage_path: &str,
        file_path: &str,
    ) -> (r: Self)
        ensures
            r@ == DownloadReportView::fresh(
                url@,
                file_name@,
                origin_file_name@,
                storage_path@,
                file_path@,
            ),
    {
        DownloadReport {
            url: url.to_owned(),
            file_name: file_name.to_owned(),
            origin_file_name: origin_file_name.to_owned(),
            storage_path: storage_path.to_owned(),
            file_path: file_path.to_owned(),
            file_size: None,
            range_from: None,
            download_start_at: None,
            download_end_at: None,
            download_status: Some(DownloadStatus::Error),
            headers: None,
            head_status: None,
            resp_status: None,
            time_used: None,
            msg: None,
        }
    }

    /// Records the size of the file.
    pub fn set_file_size(&mut self, file_size: u64) -> (r: &mut Self)
        ensures
            r@ == (DownloadReportView { file_size: Some(file_size), ..old(self)@ }),
            *final(self) == *final(r),
    {
        self.file_size = Some(file_size);
        self
    }

    /// Records the byte from which the download resumes.
    pub fn set_range_from(&mut self, range_from: u64) -> (r: &mut Self)
        ensures
            r@ == (DownloadReportView { range_from: Some(range_from), ..old(self)@ }),
            *final(self) == *final(r),
    {
        self.range_from = Some(range_from);
        self
    }

    /// Records `now` as the beginning of the download.
    pub fn stamp_start(&mut self, now: Timestamp) -> (r: &mut Self)
        ensures
            r@ == old(self)@.started(now@),
            *final(self) == *final(r),
    {
        self.download_start_at = Some(now);
        self
    }

    /// Records the end of the download: `now`, or the beginning where the
    /// clock has gone back behind it, so that the end is never the earlier.
    pub fn stamp_end(&mut self, now: Timestamp) -> (r: &mut Self)
        ensures
            r@ == old(self)@.ended(now@),
            r@.in_order(),
            *final(self) == *final(r),
    {
        let end = match self.download_start_at {
            Some(start) => start.max(now),
            None => now,
        };
        self.download_end_at = Some(end);
        self
    }

    /// Records the time on the clock as the beginning of the download.
    /// Whatever the clock shows, nothing else changes.
    pub fn set_download_start_at(&mut self) -> (r: &mut Self)
        ensures
            exists|now: TimestampView| r@ == old(self)@.started(now),
            *final(self) == *final(r),
    {
        let now = date();
        self.stamp_start(now)
    }

    /// Records the time on the clock as the end of the download; see
    /// [`DownloadReport::stamp_end`]. Whatever the clock shows, nothing else
    /// changes and the end is no earlier than the beginning.
    pub fn set_download_end_at(&mut self) -> (r: &mut Self)
        ensures
            exists|now: TimestampView| r@ == old(self)@.ended(now),
            r@.in_order(),
            *final(self) == *final(r),
    {
        let now = date();
        self.stamp_end(now)
    }

    /// Records how far the download has come.
    pub fn set_download_status(&mut self, status: DownloadStatus) -> (r: &mut Self)
        ensures
            r@ == (DownloadReportView { download_status: Some(status), ..old(self)@ }),
            *final(self) == *final(r),
    {
        self.download_status = Some(status);
        self
    }

    /// Records the headers that were sent.
    pub fn set_headers(&mut self, headers: HeaderMap) -> (r: &mut Self)
        ensures
            r@ == (DownloadReportView { headers: Some(header_entries(headers)), ..old(self)@ }),
            *final(self) == *final(r),
    {
        self.headers = Some(headers);
        self
    }

    /// Records the status of the answer to the HEAD request.
    pub fn set_head_status(&mut self, head_status: u16) -> (r: &mut Self)
        ensures
            r@ == (DownloadReportView { head_status: Some(head_status), ..old(self)@ }),
            *final(self) == *final(r),
    {
        self.head_status = Some(head_status);
        self
    }

    /// Records the status of the answer to the GET request.
    pub fn set_resp_status(&mut self, resp_status: u16) -> (r: &mut Self)
        ensures
            r@ == (DownloadReportView { resp_status: Some(resp_status), ..old(self)@ }),
            *final(self) == *final(r),
    {
        self.resp_status = Some(resp_status);
        self
    }

    /// Records why the download was skipped or failed.
    pub fn set_msg(&mut self, msg: &str) -> (r: &mut Self)
        ensures
            r@ == (DownloadReportView { msg: Some(msg@), ..old(self)@ }),
            *final(self) == *final(r),
    {
        self.msg = Some(msg.to_owned());
        self
    }

    /// Fills in the whole seconds from beginning to end; 0 while either is
    /// missing.
    pub fn gen_time_used(&mut self) -> (r: &mut Self)
        ensures
            r@ == old(self)@.timed(),
            *final(self) == *final(r),
    {
        let mut time_used: i64 = 0;
        if let Some(end) = self.download_end_at {
            if let Some(start) = self.download_start_at {
                time_used = end.seconds_since(&start);
            }
        }
        self.time_used = Some(time_used);
        self
    }
}

/// A place to download to.
#[derive(Debug)]
pub struct Download {
    /// The directory the files are stored in.
    pub storage_path: String,
}

impl View for Download {
    type V = Seq<char>;

    open spec fn view(&self) -> Seq<char> {
        self.storage_path@
    }
}

impl Download {
    /// A download into the directory `storage_path`.
    pub fn new(storage_path: &str) -> (r: Self)
        ensures
            r@ == storage_path@,
    {
        Download { storage_path: storage_path.to_owned() }
    }

    /// Whether the storage directory has to be created, given what a look
    /// at its path found: it has, unless a directory is there already.
    pub fn auto_create_storage_path(&self, probe: Option<FileMetadata>) -> (r: Result<
        bool,
        DownloadError,
    >)
        ensures
            r is Ok,
            r.unwrap() <==> !(probe matches Some(found) && found.is_dir),
    {
        match is_dir(probe) {
            Ok(found) => Ok(!found),
            Err(e) => Err(e),
        }
    }
}

} // verus!
