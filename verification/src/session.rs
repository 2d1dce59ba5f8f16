//! The decisions of one download, as a machine that is fed events.
//!
//! A session asks for one action at a time: look at the file on disk, send
//! the HEAD request, send the GET request, open the file, read the next
//! chunk. The caller carries the action out and reports what came of it as an
//! event; the session judges it, fills in the report and asks for the next
//! action, until it asks to finish.

use crate::download::{
    entries_of, text_of, Download, DownloadOptions, DownloadOptionsView, DownloadReport,
    DownloadReportView, DownloadStatus,
};
use crate::error::DownloadError;
use crate::headers::{
    ascii_bytes, header_names_len, leaves_room, no_headers, range_name,
    range_value, request_headers, with_range, MAX_HEADER_NAMES,
};
use crate::time::{Timestamp, TimestampView};
use crate::utils::{file_name_of, get_file_name_from_url, url_path_segments};
use reqwest::header::HeaderMap;
use vstd::prelude::*;
use vstd::string::*;

verus! {

/// The most HEAD requests that one download sends.
pub const MAX_HEAD_ATTEMPTS: u8 = 5;

/// The seconds to wait before the HEAD request is sent again.
pub const RETRY_WAIT_SECS: u64 = 3;

/// What a session waits for.
#[derive(Debug, Clone, Copy, PartialEq, Eq, Structural)]
pub enum Phase {
    /// The size of the file on disk.
    Probe,
    /// The answer to a HEAD request.
    Head,
    /// The answer to the GET request.
    Get,
    /// The next chunk of the body, or its end.
    Receive,
    /// Nothing: the report is final.
    Done,
}

/// Where a progress display starts.
#[derive(Debug, Clone, Copy, PartialEq, Eq, Structural)]
pub struct ProgressStart {
    /// The size that the file is expected to reach.
    pub total: u64,
    /// The bytes that are on disk already.
    pub position: u64,
}

/// What a session asks its caller to do next.
#[derive(Debug, Clone, Copy, PartialEq, Eq, Structural)]
pub enum Action {
    /// Read the size of the file at the report's file path.
    Probe,
    /// Wait `wait_secs` seconds, then send a HEAD request with the report's
    /// headers.
    Head { wait_secs: u64 },
    /// Send the GET request with the report's headers.
    Get,
    /// Open the file at the report's file path for appending, creating it
    /// where it is missing and never truncating it; start the progress
    /// display, where one is given; then read the first chunk of the body.
    Open { progress: Option<ProgressStart> },
    /// Advance the progress display, where an advance is given; then read the
    /// next chunk of the body.
    Next { advance: Option<u64> },
    /// Stop: the report is final.
    Finish,
}

/// What came of the action that a session asked for.
#[derive(Debug, Clone, Copy)]
pub enum Event {
    /// The file on disk holds `local_size` bytes; 0 where there is none.
    Probed { local_size: u64, now: Timestamp },
    /// The server answered a HEAD request.
    HeadResponse { status: u16, content_length: Option<u64>, now: Timestamp },
    /// The server answered the GET request.
    GetResponse { status: u16, now: Timestamp },
    /// A chunk of `len` bytes was read from the body and added to the file.
    Chunk { len: u64 },
    /// The body has come to its end.
    End { now: Timestamp },
}

/// Whether an answer to the HEAD request settles the probe, so that it is
/// not sent again: partial content, or a range that cannot be satisfied.
pub open spec fn is_settled(status: u16) -> bool {
    status == 206 || status == 416
}

/// Whether a status ends the download without a transfer.
pub open spec fn is_refusal(status: u16) -> bool {
    status > 300
}

/// The status that a refusal leaves in the report: the file exists where the
/// range cannot be satisfied, and the download has failed otherwise.
pub open spec fn refusal_status(status: u16) -> DownloadStatus {
    if status == 416 {
        DownloadStatus::Exists
    } else {
        DownloadStatus::Error
    }
}

/// The message for a HEAD request that failed.
pub open spec fn head_failure_message() -> Seq<char> {
    "head resp status error"@
}

/// The message for a GET request that was told the file is complete.
pub open spec fn exists_message() -> Seq<char> {
    "file exists"@
}

/// The message for a GET request that failed.
pub open spec fn get_failure_message() -> Seq<char> {
    "download resp status error"@
}

/// The message that a refused HEAD request leaves in a report that held
/// `before`: none of its own where the range cannot be satisfied.
pub open spec fn head_refusal_message(status: u16, before: Option<Seq<char>>) -> Option<Seq<char>> {
    if status == 416 {
        before
    } else {
        Some(head_failure_message())
    }
}

/// The message that a refused GET request leaves in the report.
pub open spec fn get_refusal_message(status: u16) -> Seq<char> {
    if status == 416 {
        exists_message()
    } else {
        get_failure_message()
    }
}

/// The size that the file is expected to reach: what is on disk and what the
/// server announces, where that fits in a `u64`.
pub open spec fn expected_size(local_size: u64, content_length: Option<u64>) -> Option<u64> {
    let announced = match content_length {
        Some(len) => len,
        None => 0,
    };
    if local_size + announced <= u64::MAX {
        Some((local_size + announced) as u64)
    } else {
        None
    }
}

/// The status of a transfer before its first chunk.
pub open spec fn transfer_status(local_size: u64) -> DownloadStatus {
    if local_size > 0 {
        DownloadStatus::Append
    } else {
        DownloadStatus::Create
    }
}

/// The name a file is stored under: the one that was asked for, or the one
/// the URL gives where none or an empty one was asked for.
pub open spec fn resolved_name(origin: Seq<char>, wanted: Option<Seq<char>>) -> Seq<char> {
    match wanted {
        Some(name) => if name.len() > 0 {
            name
        } else {
            origin
        },
        None => origin,
    }
}

/// The path of the file `name` in the directory `storage_path`.
pub open spec fn joined_path(storage_path: Seq<char>, name: Seq<char>) -> Seq<char> {
    storage_path + seq!['/'] + name
}

/// The mathematical value of a [`DownloadSession`].
pub struct SessionView {
    /// The report as it stands.
    pub report: DownloadReportView,
    /// The proxy that requests go through.
    pub proxy: Option<Seq<char>>,
    /// Whether progress is shown.
    pub show_progress: bool,
    /// The caller's headers, until they are sent.
    pub base_headers: Option<Map<Seq<char>, Seq<Seq<u8>>>>,
    /// What the session waits for.
    pub phase: Phase,
    /// The bytes that were on disk when the download began.
    pub local_size: u64,
    /// The size that the file is expected to reach.
    pub expected_size: u64,
    /// The HEAD requests that were answered and sent again.
    pub head_retries: u8,
    /// The bytes that are on disk now.
    pub position: u64,
}

impl SessionView {
    /// The session of a download that has resolved its names and nothing
    /// more.
    pub open spec fn initial(
        storage_path: Seq<char>,
        url: Seq<char>,
        origin_file_name: Seq<char>,
        options: DownloadOptionsView,
    ) -> SessionView {
        let file_name = resolved_name(origin_file_name, options.file_name);
        SessionView {
            report: DownloadReportView::fresh(
                url,
                file_name,
                origin_file_name,
                storage_path,
                joined_path(storage_path, file_name),
            ),
            proxy: options.proxy,
            show_progress: options.show_progress,
            base_headers: options.headers,
            phase: Phase::Probe,
            local_size: 0,
            expected_size: 0,
            head_retries: 0,
            position: 0,
        }
    }

    /// What the caller's headers hold, where there are any left to send.
    pub open spec fn base_entries(self) -> Map<Seq<char>, Seq<Seq<u8>>> {
        match self.base_headers {
            Some(entries) => entries,
            None => no_headers(),
        }
    }

    /// The session once a refusal has ended it.
    pub open spec fn refused(
        self,
        report: DownloadReportView,
        status: u16,
        msg: Option<Seq<char>>,
        now: TimestampView,
    ) -> SessionView {
        SessionView {
            report: (DownloadReportView {
                download_status: Some(refusal_status(status)),
                msg,
                ..report
            }).ended(now).timed(),
            phase: Phase::Done,
            ..self
        }
    }

    /// The session after the file on disk was found to hold `local_size`
    /// bytes: the download begins, the headers are made up with the `Range`
    /// header that resumes there, and the HEAD request goes out at once.
    pub open spec fn after_probe(self, local_size: u64, now: TimestampView) -> Result<
        (SessionView, Action),
        DownloadError,
    > {
        if !(self.phase is Probe) {
            Err(DownloadError::UnexpectedEvent)
        } else if !leaves_room(self.base_entries()) {
            Err(DownloadError::TooManyHeaders)
        } else {
            Ok(
                (
                    SessionView {
                        report: DownloadReportView {
                            file_size: Some(local_size),
                            range_from: Some(local_size),
                            download_start_at: Some(now),
                            headers: Some(with_range(self.base_entries(), local_size as nat)),
                            ..self.report
                        },
                        base_headers: None,
                        phase: Phase::Head,
                        local_size,
                        expected_size: local_size,
                        position: local_size,
                        ..self
                    },
                    Action::Head { wait_secs: 0 },
                ),
            )
        }
    }

    /// The session after an answer to the HEAD request. An answer that does
    /// not settle the probe has the request sent again after a wait, until
    /// `MAX_HEAD_ATTEMPTS` requests were sent. The last answer is recorded: a
    /// refusal ends the download; anything else fixes the expected size and
    /// lets the GET request go out.
    pub open spec fn after_head(
        self,
        status: u16,
        content_length: Option<u64>,
        now: TimestampView,
    ) -> Result<(SessionView, Action), DownloadError> {
        let recorded = DownloadReportView { head_status: Some(status), ..self.report };
        if !(self.phase is Head) {
            Err(DownloadError::UnexpectedEvent)
        } else if !is_settled(status) && self.head_retries < MAX_HEAD_ATTEMPTS - 1 {
            Ok(
                (
                    SessionView { head_retries: (self.head_retries + 1) as u8, ..self },
                    Action::Head { wait_secs: RETRY_WAIT_SECS },
                ),
            )
        } else if is_refusal(status) {
            Ok(
                (
                    self.refused(
                        recorded,
                        status,
                        head_refusal_message(status, self.report.msg),
                        now,
                    ),
                    Action::Finish,
                ),
            )
        } else {
            match expected_size(self.local_size, content_length) {
                Some(total) => Ok(
                    (
                        SessionView {
                            report: DownloadReportView { file_size: Some(total), ..recorded },
                            phase: Phase::Get,
                            expected_size: total,
                            ..self
                        },
                        Action::Get,
                    ),
                ),
                None => Err(DownloadError::SizeOverflow),
            }
        }
    }

    /// The progress display to start with, where progress is shown.
    pub open spec fn progress_start(self) -> Option<ProgressStart> {
        if self.show_progress {
            Some(ProgressStart { total: self.expected_size, position: self.local_size })
        } else {
            None
        }
    }

    /// The session after the answer to the GET request: a refusal ends the
    /// download; anything else lets the transfer begin.
    pub open spec fn after_get(self, status: u16, now: TimestampView) -> Result<
        (SessionView, Action),
        DownloadError,
    > {
        let recorded = DownloadReportView { resp_status: Some(status), ..self.report };
        if !(self.phase is Get) {
            Err(DownloadError::UnexpectedEvent)
        } else if is_refusal(status) {
            Ok(
                (
                    self.refused(recorded, status, Some(get_refusal_message(status)), now),
                    Action::Finish,
                ),
            )
        } else {
            Ok(
                (
                    SessionView {
                        report: DownloadReportView {
                            download_status: Some(transfer_status(self.local_size)),
                            ..recorded
                        },
                        phase: Phase::Receive,
                        ..self
                    },
                    Action::Open { progress: self.progress_start() },
                ),
            )
        }
    }

    /// The session after a chunk of `len` bytes was added to the file.
    pub open spec fn after_chunk(self, len: u64) -> Result<(SessionView, Action), DownloadError> {
        if !(self.phase is Receive) {
            Err(DownloadError::UnexpectedEvent)
        } else if self.position + len > u64::MAX {
            Err(DownloadError::SizeOverflow)
        } else {
            Ok(
                (
                    SessionView {
                        report: DownloadReportView {
                            download_status: Some(DownloadStatus::Append),
                            ..self.report
                        },
                        position: (self.position + len) as u64,
                        ..self
                    },
                    Action::Next {
                        advance: if self.show_progress {
                            Some(len)
                        } else {
                            None
                        },
                    },
                ),
            )
        }
    }

    /// The session after the body has come to its end.
    pub open spec fn after_end(self, now: TimestampView) -> Result<
        (SessionView, Action),
        DownloadError,
    > {
        if !(self.phase is Receive) {
            Err(DownloadError::UnexpectedEvent)
        } else {
            Ok(
                (
                    SessionView {
                        report: (DownloadReportView {
                            download_status: Some(DownloadStatus::Complete),
                            ..self.report
                        }).ended(now).timed(),
                        phase: Phase::Done,
                        ..self
                    },
                    Action::Finish,
                ),
            )
        }
    }

    /// The session after `event`, and the action it asks for; or the failure
    /// that aborts the download.
    pub open spec fn transition(self, event: Event) -> Result<(SessionView, Action), DownloadError> {
        match event {
            Event::Probed { local_size, now } => self.after_probe(local_size, now@),
            Event::HeadResponse { status, content_length, now } => self.after_head(
                status,
                content_length,
                now@,
            ),
            Event::GetResponse { status, now } => self.after_get(status, now@),
            Event::Chunk { len } => self.after_chunk(len),
            Event::End { now } => self.after_end(now@),
        }
    }
}

impl SessionView {
    /// Whether the status fits what the session waits for: `Error` until a
    /// transfer begins, `Create` or `Append` while the body arrives, and one
    /// of the final three once the session is done.
    pub open spec fn status_fits(self) -> bool {
        match self.phase {
            Phase::Probe | Phase::Head | Phase::Get => self.report.download_status == Some(
                DownloadStatus::Error,
            ),
            Phase::Receive => self.report.download_status == Some(DownloadStatus::Create)
                || self.report.download_status == Some(DownloadStatus::Append),
            Phase::Done => self.report.download_status == Some(DownloadStatus::Complete)
                || self.report.download_status == Some(DownloadStatus::Exists)
                || self.report.download_status == Some(DownloadStatus::Error),
        }
    }

    /// Whether the report holds what was decided when the download began:
    /// the beginning, the byte to resume from, the size, and headers whose
    /// `Range` header resumes at that byte.
    pub open spec fn begun(self) -> bool {
        &&& self.base_headers is None
        &&& self.report.download_start_at is Some
        &&& self.report.range_from == Some(self.local_size)
        &&& self.report.file_size == Some(self.expected_size)
        &&& self.report.headers matches Some(entries) && entries.contains_key(range_name())
            && entries[range_name()] == seq![ascii_bytes(range_value(self.local_size as nat))]
    }

    /// Whether the report holds how the download ended: an end that is no
    /// earlier than the beginning, and the whole seconds between the two.
    pub open spec fn ended_well(self) -> bool {
        &&& self.report.download_start_at is Some
        &&& self.report.download_end_at is Some
        &&& self.report.in_order()
        &&& self.report.time_used == Some(self.report.elapsed())
        &&& self.report.elapsed() >= 0
    }

    /// What holds of every session that a download has reached.
    pub open spec fn wf(self) -> bool {
        &&& self.status_fits()
        &&& self.head_retries < MAX_HEAD_ATTEMPTS
        &&& self.local_size <= self.position
        &&& self.local_size <= self.expected_size
        &&& !(self.phase is Probe) ==> self.begun()
        &&& (self.phase is Probe || self.phase is Head) ==> self.expected_size == self.local_size
        &&& self.phase is Probe ==> self.head_retries == 0
        &&& !(self.phase is Done) ==> self.report.download_end_at is None
        &&& self.phase is Done ==> self.ended_well()
    }

    /// A download begins in a state that is well formed.
    pub proof fn lemma_initial_wf(
        storage_path: Seq<char>,
        url: Seq<char>,
        origin_file_name: Seq<char>,
        options: DownloadOptionsView,
    )
        ensures
            SessionView::initial(storage_path, url, origin_file_name, options).wf(),
    {
    }

    /// Every step keeps the session well formed.
    pub proof fn lemma_transition_wf(self, event: Event)
        requires
            self.wf(),
        ensures
            self.transition(event) matches Ok(moved) ==> moved.0.wf(),
    {
    }

    /// Once a session is done, it turns every event down.
    pub proof fn lemma_done_is_final(self, event: Event)
        requires
            self.phase is Done,
        ensures
            self.transition(event) == Err::<(SessionView, Action), DownloadError>(
                DownloadError::UnexpectedEvent,
            ),
    {
    }

    /// A finished download has its times in order: the end is no earlier
    /// than the beginning, and the seconds used are the whole seconds from
    /// the one to the other, whichever way the download ended.
    pub proof fn lemma_finished_times(self)
        requires
            self.wf(),
            self.phase is Done,
        ensures
            ({
                let start = self.report.download_start_at->Some_0;
                let end = self.report.download_end_at->Some_0;
                &&& self.report.download_start_at is Some
                &&& self.report.download_end_at is Some
                &&& start.le(end)
                &&& self.report.time_used == Some(end.secs - start.secs)
                &&& end.secs - start.secs >= 0
            }),
    {
    }

    /// The request that resumes a download carries `Range: bytes=N-`, with N
    /// the size on disk, whatever `Range` header the caller gave; every other
    /// header of the caller is sent as it was given.
    pub proof fn lemma_resume_headers(self, local_size: u64, now: TimestampView)
        requires
            self.phase is Probe,
            leaves_room(self.base_entries()),
        ensures
            ({
                let moved = self.after_probe(local_size, now)->Ok_0;
                let sent = moved.0.report.headers->Some_0;
                &&& self.after_probe(local_size, now) is Ok
                &&& moved.1 == (Action::Head { wait_secs: 0 })
                &&& moved.0.report.range_from == Some(local_size)
                &&& moved.0.report.file_size == Some(local_size)
                &&& moved.0.report.headers is Some
                &&& sent.contains_key(range_name())
                &&& sent[range_name()] == seq![ascii_bytes(range_value(local_size as nat))]
                &&& forall|name: Seq<char>|
                    name != range_name() ==> (sent.contains_key(name)
                        <==> self.base_entries().contains_key(name)) && (sent.contains_key(name)
                        ==> sent[name] == self.base_entries()[name])
            }),
    {
    }

    /// An answer to the HEAD request that does not settle the probe has the
    /// request sent again after the wait, as long as fewer than
    /// `MAX_HEAD_ATTEMPTS` requests were sent; nothing is recorded of it.
    pub proof fn lemma_head_retry(
        self,
        status: u16,
        content_length: Option<u64>,
        now: TimestampView,
    )
        requires
            self.phase is Head,
            !is_settled(status),
            self.head_retries + 1 < MAX_HEAD_ATTEMPTS,
        ensures
            ({
                let moved = self.after_head(status, content_length, now)->Ok_0;
                &&& self.after_head(status, content_length, now) is Ok
                &&& moved.1 == (Action::Head { wait_secs: RETRY_WAIT_SECS })
                &&& moved.0.phase is Head
                &&& moved.0.head_retries == self.head_retries + 1
                &&& moved.0.report == self.report
            }),
    {
    }

    /// An answer to the HEAD request that says the range cannot be
    /// satisfied ends the download at once with the status `Exists`.
    pub proof fn lemma_head_unsatisfiable(self, content_length: Option<u64>, now: TimestampView)
        requires
            self.phase is Head,
        ensures
            ({
                let moved = self.after_head(416, content_length, now)->Ok_0;
                &&& self.after_head(416, content_length, now) is Ok
                &&& moved.1 == Action::Finish
                &&& moved.0.phase is Done
                &&& moved.0.report.download_status == Some(DownloadStatus::Exists)
                &&& moved.0.report.head_status == Some(416u16)
            }),
    {
    }

    /// An answer to the GET request that says the range cannot be satisfied
    /// ends the download with the status `Exists` and says so in words.
    pub proof fn lemma_get_unsatisfiable(self, now: TimestampView)
        requires
            self.phase is Get,
        ensures
            ({
                let moved = self.after_get(416, now)->Ok_0;
                &&& self.after_get(416, now) is Ok
                &&& moved.1 == Action::Finish
                &&& moved.0.phase is Done
                &&& moved.0.report.download_status == Some(DownloadStatus::Exists)
                &&& moved.0.report.resp_status == Some(416u16)
                &&& moved.0.report.msg == Some(exists_message())
            }),
    {
    }

    /// Any other status above 300 in the last answer to the HEAD request
    /// ends the download with the status `Error` and a message that is not
    /// empty.
    pub proof fn lemma_head_refusal_is_error(
        self,
        status: u16,
        content_length: Option<u64>,
        now: TimestampView,
    )
        requires
            self.phase is Head,
            self.head_retries >= MAX_HEAD_ATTEMPTS - 1,
            is_refusal(status),
            status != 416,
        ensures
            ({
                let moved = self.after_head(status, content_length, now)->Ok_0;
                &&& self.after_head(status, content_length, now) is Ok
                &&& moved.1 == Action::Finish
                &&& moved.0.phase is Done
                &&& moved.0.report.download_status == Some(DownloadStatus::Error)
                &&& moved.0.report.head_status == Some(status)
                &&& moved.0.report.msg is Some
                &&& moved.0.report.msg->Some_0.len() > 0
            }),
    {
        reveal_strlit("head resp status error");
    }

    /// Any other status above 300 in the answer to the GET request ends the
    /// download with the status `Error` and a message that is not empty.
    pub proof fn lemma_get_refusal_is_error(self, status: u16, now: TimestampView)
        requires
            self.phase is Get,
            is_refusal(status),
            status != 416,
        ensures
            ({
                let moved = self.after_get(status, now)->Ok_0;
                &&& self.after_get(status, now) is Ok
                &&& moved.1 == Action::Finish
                &&& moved.0.phase is Done
                &&& moved.0.report.download_status == Some(DownloadStatus::Error)
                &&& moved.0.report.resp_status == Some(status)
                &&& moved.0.report.msg is Some
                &&& moved.0.report.msg->Some_0.len() > 0
            }),
    {
        reveal_strlit("download resp status error");
    }

    /// An answer to the HEAD request that is no refusal, and after which the
    /// request is not sent again, fixes the size of the file at what is on
    /// disk plus what the server announces, and lets the GET request go out.
    pub proof fn lemma_expected_size(
        self,
        status: u16,
        content_length: Option<u64>,
        now: TimestampView,
    )
        requires
            self.phase is Head,
            !is_refusal(status),
            is_settled(status) || self.head_retries >= MAX_HEAD_ATTEMPTS - 1,
            expected_size(self.local_size, content_length) is Some,
        ensures
            ({
                let moved = self.after_head(status, content_length, now)->Ok_0;
                let announced: u64 = match content_length {
                    Some(len) => len,
                    None => 0,
                };
                &&& self.after_head(status, content_length, now) is Ok
                &&& moved.1 == Action::Get
                &&& moved.0.phase is Get
                &&& moved.0.report.file_size == Some((self.local_size + announced) as u64)
                &&& moved.0.report.head_status == Some(status)
            }),
    {
    }

    /// A transfer goes from `Create` to `Append` to `Complete` where nothing
    /// was on disk, and from `Append` to `Complete` where something was. The
    /// bytes on disk grow by each chunk that is added, and the size in the
    /// report stays what the HEAD request fixed.
    pub proof fn lemma_transfer(self, status: u16, len: u64, got: TimestampView, end: TimestampView)
        requires
            self.phase is Get,
            !is_refusal(status),
            self.position + len <= u64::MAX,
        ensures
            ({
                let opened = self.after_get(status, got)->Ok_0;
                let added = opened.0.after_chunk(len)->Ok_0;
                let closed = added.0.after_end(end)->Ok_0;
                &&& self.after_get(status, got) is Ok
                &&& opened.1 == (Action::Open { progress: self.progress_start() })
                &&& opened.0.report.download_status == Some(
                    if self.local_size == 0 {
                        DownloadStatus::Create
                    } else {
                        DownloadStatus::Append
                    },
                )
                &&& opened.0.after_chunk(len) is Ok
                &&& added.0.report.download_status == Some(DownloadStatus::Append)
                &&& added.0.position == self.position + len
                &&& added.0.after_end(end) is Ok
                &&& closed.1 == Action::Finish
                &&& closed.0.phase is Done
                &&& closed.0.report.download_status == Some(DownloadStatus::Complete)
                &&& closed.0.report.file_size == self.report.file_size
                &&& closed.0.position == self.position + len
            }),
    {
    }

    /// Showing progress changes nothing but the progress that actions carry:
    /// two sessions that differ in that alone stay so under every event, and
    /// fail alike.
    pub proof fn lemma_progress_is_observer(self, event: Event)
        ensures
            ({
                let shown = (SessionView { show_progress: true, ..self }).transition(event);
                let hidden = (SessionView { show_progress: false, ..self }).transition(event);
                &&& shown is Ok <==> hidden is Ok
                &&& shown matches Ok(moved) ==> moved.0 == (SessionView {
                    show_progress: true,
                    ..hidden->Ok_0.0
                })
                &&& shown matches Err(failure) ==> hidden == Err::<
                    (SessionView, Action),
                    DownloadError,
                >(failure)
            }),
    {
    }

    /// The status only moves forward: from the `Error` that a report begins
    /// with to any status, from `Create` to `Append` and from either to
    /// `Complete`; `Complete` and `Exists` are never left.
    pub proof fn lemma_status_moves_forward(self, event: Event)
        requires
            self.wf(),
        ensures
            self.transition(event) matches Ok(moved) ==> status_follows(
                self.report.download_status,
                moved.0.report.download_status,
            ),
    {
    }
}

/// Whether a report may go from the status `before` to the status `after`.
pub open spec fn status_follows(
    before: Option<DownloadStatus>,
    after: Option<DownloadStatus>,
) -> bool {
    match (before, after) {
        (Some(DownloadStatus::Error), Some(_)) => true,
        (Some(DownloadStatus::Create), Some(DownloadStatus::Create)) => true,
        (Some(DownloadStatus::Create), Some(DownloadStatus::Append)) => true,
        (Some(DownloadStatus::Create), Some(DownloadStatus::Complete)) => true,
        (Some(DownloadStatus::Append), Some(DownloadStatus::Append)) => true,
        (Some(DownloadStatus::Append), Some(DownloadStatus::Complete)) => true,
        _ => false,
    }
}

/// Whether a step from `before` did what `expected` prescribes: the session
/// is `after` and the caller was told `told`. Where a failure is prescribed,
/// the session is left as it was.
pub open spec fn carried_out(
    before: SessionView,
    expected: Result<(SessionView, Action), DownloadError>,
    after: SessionView,
    told: Result<Action, DownloadError>,
) -> bool {
    match expected {
        Ok(moved) => after == moved.0 && told == Ok::<Action, DownloadError>(moved.1),
        Err(failure) => after == before && told == Err::<Action, DownloadError>(failure),
    }
}

/// One download under way.
#[derive(Debug)]
pub struct DownloadSession {
    report: DownloadReport,
    maybe_proxy: Option<String>,
    show_progress: bool,
    base_headers: Option<HeaderMap>,
    phase: Phase,
    local_size: u64,
    expected_size: u64,
    head_retries: u8,
    position: u64,
}

impl View for DownloadSession {
    type V = SessionView;

    closed spec fn view(&self) -> SessionView {
        SessionView {
            report: self.report@,
            proxy: text_of(self.maybe_proxy),
            show_progress: self.show_progress,
            base_headers: entries_of(self.base_headers),
            phase: self.phase,
            local_size: self.local_size,
            expected_size: self.expected_size,
            head_retries: self.head_retries,
            position: self.position,
        }
    }
}

impl Download {
    /// Begins the download of `url` into this directory: the file is named
    /// after the last path segment of the URL, or as the options ask, and the
    /// report is made out with its status at `Error`. The first thing asked
    /// for is a look at the file on disk.
    ///
    /// Fails with `InvalidUrl`, and only so, where `url` is no absolute URL.
    pub fn download(self, url: &str, options: DownloadOptions) -> (r: Result<
        (DownloadSession, Action),
        DownloadError,
    >)
        ensures
            r is Ok <==> url_path_segments(url@) is Some,
            r matches Ok(begun) ==> begun.0@ == SessionView::initial(
                self@,
                url@,
                file_name_of(url_path_segments(url@).unwrap()),
                options@,
            ) && begun.1 == Action::Probe,
            r matches Ok(begun) ==> begun.0@.wf(),
            r matches Err(e) ==> e is InvalidUrl,
    {
        proof {
            if url_path_segments(url@) is Some {
                SessionView::lemma_initial_wf(
                    self@,
                    url@,
                    file_name_of(url_path_segments(url@).unwrap()),
                    options@,
                );
            }
        }
        let origin_file_name = match get_file_name_from_url(url) {
            Ok(name) => name,
            Err(e) => {
                return Err(e);
            },
        };
        let DownloadOptions { maybe_file_name, maybe_proxy, maybe_headers, show_progress } =
            options;
        let file_name = match maybe_file_name {
            Some(name) => if name.as_str().is_empty() {
                origin_file_name.clone()
            } else {
                name
            },
            None => origin_file_name.clone(),
        };
        let mut file_path = self.storage_path.clone();
        proof {
            reveal_strlit("/");
        }
        file_path.append("/");
        file_path.append(file_name.as_str());
        assert(file_path@ =~= joined_path(self@, file_name@));
        let report = DownloadReport::new(
            url,
            file_name.as_str(),
            origin_file_name.as_str(),
            self.storage_path.as_str(),
            file_path.as_str(),
        );
        let session = DownloadSession {
            report,
            maybe_proxy,
            show_progress,
            base_headers: maybe_headers,
            phase: Phase::Probe,
            local_size: 0,
            expected_size: 0,
            head_retries: 0,
            position: 0,
        };
        Ok((session, Action::Probe))
    }
}

impl DownloadSession {
    /// The report as it stands.
    pub fn report(&self) -> (r: &DownloadReport)
        ensures
            r@ == self@.report,
    {
        &self.report
    }

    /// The report, given up by the session.
    pub fn into_report(self) -> (r: DownloadReport)
        ensures
            r@ == self@.report,
    {
        self.report
    }

    /// What the session waits for.
    pub fn phase(&self) -> (r: Phase)
        ensures
            r == self@.phase,
    {
        self.phase
    }

    /// The proxy that requests go through, where there is one.
    pub fn maybe_proxy(&self) -> (r: &Option<String>)
        ensures
            text_of(*r) == self@.proxy,
    {
        &self.maybe_proxy
    }

    /// Whether progress is shown.
    pub fn show_progress(&self) -> (r: bool)
        ensures
            r == self@.show_progress,
    {
        self.show_progress
    }

    /// The bytes that were on disk when the download began.
    pub fn local_size(&self) -> (r: u64)
        ensures
            r == self@.local_size,
    {
        self.local_size
    }

    /// The bytes that are on disk now.
    pub fn position(&self) -> (r: u64)
        ensures
            r == self@.position,
    {
        self.position
    }

    /// Ends the download on a refusal.
    fn refuse(&mut self, status: u16, now: Timestamp)
        requires
            is_refusal(status),
        ensures
            final(self)@ == old(self)@.refused(
                old(self)@.report,
                status,
                old(self)@.report.msg,
                now@,
            ),
    {
        let outcome = if status == 416 {
            DownloadStatus::Exists
        } else {
            DownloadStatus::Error
        };
        self.report.set_download_status(outcome).stamp_end(now).gen_time_used();
        self.phase = Phase::Done;
    }

    fn on_probe(&mut self, local_size: u64, now: Timestamp) -> (r: Result<Action, DownloadError>)
        ensures
            carried_out(old(self)@, old(self)@.after_probe(local_size, now@), final(self)@, r),
    {
        if self.phase != Phase::Probe {
            return Err(DownloadError::UnexpectedEvent);
        }
        let fits = match &self.base_headers {
            Some(headers) => header_names_len(headers) <= MAX_HEADER_NAMES,
            None => true,
        };
        proof {
            assert(no_headers().dom() =~= Set::<Seq<char>>::empty());
        }
        if !fits {
            return Err(DownloadError::TooManyHeaders);
        }
        let base = self.base_headers.take();
        match request_headers(base, local_size) {
            Ok(headers) => {
                self.report.set_file_size(local_size).set_range_from(local_size).stamp_start(
                    now,
                ).set_headers(headers);
                self.phase = Phase::Head;
                self.local_size = local_size;
                self.expected_size = local_size;
                self.position = local_size;
                Ok(Action::Head { wait_secs: 0 })
            },
            Err(e) => Err(e),
        }
    }

    fn on_head(&mut self, status: u16, content_length: Option<u64>, now: Timestamp) -> (r: Result<
        Action,
        DownloadError,
    >)
        ensures
            carried_out(old(self)@, old(self)@.after_head(status, content_length, now@), final(self)@, r),
    {
        if self.phase != Phase::Head {
            return Err(DownloadError::UnexpectedEvent);
        }
        let settled = status == 206 || status == 416;
        if !settled && self.head_retries < MAX_HEAD_ATTEMPTS - 1 {
            self.head_retries = self.head_retries + 1;
            return Ok(Action::Head { wait_secs: RETRY_WAIT_SECS });
        }
        if status > 300 {
            self.report.set_head_status(status);
            if status != 416 {
                self.report.set_msg("head resp status error");
            }
            self.refuse(status, now);
            return Ok(Action::Finish);
        }
        let announced = match content_length {
            Some(len) => len,
            None => 0,
        };
        match self.local_size.checked_add(announced) {
            Some(total) => {
                self.report.set_head_status(status).set_file_size(total);
                self.phase = Phase::Get;
                self.expected_size = total;
                Ok(Action::Get)
            },
            None => Err(DownloadError::SizeOverflow),
        }
    }

    fn on_get(&mut self, status: u16, now: Timestamp) -> (r: Result<Action, DownloadError>)
        ensures
            carried_out(old(self)@, old(self)@.after_get(status, now@), final(self)@, r),
    {
        if self.phase != Phase::Get {
            return Err(DownloadError::UnexpectedEvent);
        }
        self.report.set_resp_status(status);
        if status > 300 {
            if status == 416 {
                self.report.set_msg("file exists");
            } else {
                self.report.set_msg("download resp status error");
            }
            self.refuse(status, now);
            return Ok(Action::Finish);
        }
        let progress = if self.show_progress {
            Some(ProgressStart { total: self.expected_size, position: self.local_size })
        } else {
            None
        };
        if self.local_size > 0 {
            self.report.set_download_status(DownloadStatus::Append);
        } else {
            self.report.set_download_status(DownloadStatus::Create);
        }
        self.phase = Phase::Receive;
        Ok(Action::Open { progress })
    }

    fn on_chunk(&mut self, len: u64) -> (r: Result<Action, DownloadError>)
        ensures
            carried_out(old(self)@, old(self)@.after_chunk(len), final(self)@, r),
    {
        if self.phase != Phase::Receive {
            return Err(DownloadError::UnexpectedEvent);
        }
        match self.position.checked_add(len) {
            Some(position) => {
                self.report.set_download_status(DownloadStatus::Append);
                self.position = position;
                let advance = if self.show_progress {
                    Some(len)
                } else {
                    None
                };
                Ok(Action::Next { advance })
            },
            None => Err(DownloadError::SizeOverflow),
        }
    }

    fn on_end(&mut self, now: Timestamp) -> (r: Result<Action, DownloadError>)
        ensures
            carried_out(old(self)@, old(self)@.after_end(now@), final(self)@, r),
    {
        if self.phase != Phase::Receive {
            return Err(DownloadError::UnexpectedEvent);
        }
        self.report.set_download_status(DownloadStatus::Complete).stamp_end(now).gen_time_used();
        self.phase = Phase::Done;
        Ok(Action::Finish)
    }

    /// Takes in what came of the last action and says what to do next.
    ///
    /// Fails with `UnexpectedEvent` where the event does not answer the
    /// action that was asked for, with `TooManyHeaders` where the caller's
    /// headers leave no room for the `Range` header, and with `SizeOverflow`
    /// where the sizes exceed `u64`; the session is then left as it was.
    pub fn step(&mut self, event: Event) -> (r: Result<Action, DownloadError>)
        ensures
            carried_out(old(self)@, old(self)@.transition(event), final(self)@, r),
            old(self)@.wf() ==> final(self)@.wf(),
    {
        proof {
            if self@.wf() {
                self@.lemma_transition_wf(event);
            }
        }
        match event {
            Event::Probed { local_size, now } => self.on_probe(local_size, now),
            Event::HeadResponse { status, content_length, now } => self.on_head(
                status,
                content_length,
                now,
            ),
            Event::GetResponse { status, now } => self.on_get(status, now),
            Event::Chunk { len } => self.on_chunk(len),
            Event::End { now } => self.on_end(now),
        }
    }
}

} // verus!
