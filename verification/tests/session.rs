use reqwest::header::{HeaderMap, HeaderValue, RANGE, USER_AGENT};
use siwi_download::download::{Download, DownloadOptions, DownloadStatus};
use siwi_download::error::DownloadError;
use siwi_download::session::{
    Action, DownloadSession, Event, Phase, ProgressStart, MAX_HEAD_ATTEMPTS, RETRY_WAIT_SECS,
};
use siwi_download::time::Timestamp;
use siwi_download::utils::{FileMetadata, DEFAULT_FILE_NAME};

fn at(secs: i64) -> Timestamp {
    Timestamp::new(secs, 0).unwrap()
}

fn begin(url: &str, options: DownloadOptions) -> DownloadSession {
    let (session, action) = Download::new("/data/store").download(url, options).unwrap();
    assert_eq!(action, Action::Probe);
    session
}

fn probed(local_size: u64) -> DownloadSession {
    let mut session = begin("https://example.org/dist/pkg-1.0.zip", DownloadOptions::new());
    let action = session.step(Event::Probed { local_size, now: at(100) }).unwrap();
    assert_eq!(action, Action::Head { wait_secs: 0 });
    session
}

fn headed(local_size: u64, content_length: Option<u64>) -> DownloadSession {
    let mut session = probed(local_size);
    let action = session
        .step(Event::HeadResponse { status: 206, content_length, now: at(101) })
        .unwrap();
    assert_eq!(action, Action::Get);
    session
}

#[test]
fn a_download_is_named_after_the_url() {
    let session = begin("https://example.org/dist/pkg-1.0.zip", DownloadOptions::new());
    assert_eq!(session.phase(), Phase::Probe);
    let report = session.report();
    assert_eq!(report.url, "https://example.org/dist/pkg-1.0.zip");
    assert_eq!(report.file_name, "pkg-1.0.zip");
    assert_eq!(report.origin_file_name, "pkg-1.0.zip");
    assert_eq!(report.storage_path, "/data/store");
    assert_eq!(report.file_path, "/data/store/pkg-1.0.zip");
    assert_eq!(report.download_status, Some(DownloadStatus::Error));
    assert!(report.file_size.is_none());
    assert!(report.headers.is_none());
    assert!(report.download_start_at.is_none());
}

#[test]
fn a_download_is_named_as_the_options_ask() {
    let mut options = DownloadOptions::new();
    options.set_file_name("hello_world.pkg").set_proxy("http://127.0.0.1:8080").set_show_progress(true);
    let session = begin("https://example.org/dist/pkg-1.0.zip", options);
    let report = session.report();
    assert_eq!(report.file_name, "hello_world.pkg");
    assert_eq!(report.origin_file_name, "pkg-1.0.zip");
    assert_eq!(report.file_path, "/data/store/hello_world.pkg");
    assert_eq!(session.maybe_proxy().as_deref(), Some("http://127.0.0.1:8080"));
    assert!(session.show_progress());
}

#[test]
fn an_empty_name_in_the_options_gives_way() {
    let mut options = DownloadOptions::new();
    options.set_file_name("");
    let session = begin("https://example.org/dist/pkg-1.0.zip", options);
    assert_eq!(session.report().file_name, "pkg-1.0.zip");
    assert_eq!(session.report().file_path, "/data/store/pkg-1.0.zip");
}

#[test]
fn a_url_without_a_file_gets_the_default_name() {
    let session = begin("https://example.org/", DownloadOptions::new());
    assert_eq!(session.report().file_name, DEFAULT_FILE_NAME);
    assert_eq!(session.report().origin_file_name, DEFAULT_FILE_NAME);
    assert_eq!(session.report().file_path, "/data/store/download");
}

#[test]
fn a_bad_url_aborts_the_download() {
    let result = Download::new("/data/store").download("dist/pkg-1.0.zip", DownloadOptions::new());
    assert!(matches!(result, Err(DownloadError::InvalidUrl(_))));
}

#[test]
fn the_probe_fixes_offset_size_and_headers() {
    let session = probed(0);
    assert_eq!(session.phase(), Phase::Head);
    assert_eq!(session.local_size(), 0);
    assert_eq!(session.position(), 0);
    let report = session.report();
    assert_eq!(report.file_size, Some(0));
    assert_eq!(report.range_from, Some(0));
    assert_eq!(report.download_start_at, Some(at(100)));
    assert_eq!(report.download_status, Some(DownloadStatus::Error));
    let headers = report.headers.as_ref().unwrap();
    assert_eq!(headers.len(), 1);
    assert_eq!(headers.get(RANGE).unwrap(), "bytes=0-");
}

#[test]
fn a_partial_file_is_resumed_where_it_ends() {
    let mut headers = HeaderMap::new();
    headers.insert(USER_AGENT, HeaderValue::from_static("agent/1.0"));
    headers.insert(RANGE, HeaderValue::from_static("bytes=0-9"));
    let mut options = DownloadOptions::new();
    options.set_headers(headers);
    let mut session = begin("https://example.org/dist/pkg-1.0.zip", options);
    let action = session.step(Event::Probed { local_size: 400, now: at(100) }).unwrap();
    assert_eq!(action, Action::Head { wait_secs: 0 });
    let sent = session.report().headers.as_ref().unwrap();
    assert_eq!(sent.get(RANGE).unwrap(), "bytes=400-");
    assert_eq!(sent.get_all(RANGE).iter().count(), 1);
    assert_eq!(sent.get(USER_AGENT).unwrap(), "agent/1.0");
    assert_eq!(session.report().range_from, Some(400));
    assert_eq!(session.report().file_size, Some(400));

    let action = session
        .step(Event::HeadResponse { status: 206, content_length: Some(600), now: at(101) })
        .unwrap();
    assert_eq!(action, Action::Get);
    assert_eq!(session.report().file_size, Some(1000));
    assert_eq!(session.report().head_status, Some(206));

    let action = session.step(Event::GetResponse { status: 206, now: at(102) }).unwrap();
    assert_eq!(action, Action::Open { progress: None });
    assert_eq!(session.report().download_status, Some(DownloadStatus::Append));
    assert_eq!(session.report().resp_status, Some(206));

    assert_eq!(session.step(Event::Chunk { len: 250 }).unwrap(), Action::Next { advance: None });
    assert_eq!(session.position(), 650);
    assert_eq!(session.step(Event::Chunk { len: 350 }).unwrap(), Action::Next { advance: None });
    assert_eq!(session.position(), 1000);
    assert_eq!(session.step(Event::End { now: at(110) }).unwrap(), Action::Finish);

    assert_eq!(session.phase(), Phase::Done);
    let report = session.into_report();
    assert_eq!(report.download_status, Some(DownloadStatus::Complete));
    assert_eq!(report.file_size, Some(1000));
    assert_eq!(report.range_from, Some(400));
    assert_eq!(report.download_end_at, Some(at(110)));
    assert_eq!(report.time_used, Some(10));
    assert!(report.msg.is_none());
}

#[test]
fn a_fresh_download_goes_from_create_to_append_to_complete() {
    let mut session = begin("https://example.org/dist/pkg-1.0.zip", DownloadOptions::new());
    assert_eq!(session.report().file_name, "pkg-1.0.zip");
    assert_eq!(session.report().download_status, Some(DownloadStatus::Error));
    session.step(Event::Probed { local_size: 0, now: at(100) }).unwrap();
    session
        .step(Event::HeadResponse { status: 206, content_length: Some(2048), now: at(101) })
        .unwrap();
    assert_eq!(session.report().file_size, Some(2048));
    assert_eq!(session.report().download_status, Some(DownloadStatus::Error));
    session.step(Event::GetResponse { status: 200, now: at(102) }).unwrap();
    assert_eq!(session.report().download_status, Some(DownloadStatus::Create));
    session.step(Event::Chunk { len: 1024 }).unwrap();
    assert_eq!(session.report().download_status, Some(DownloadStatus::Append));
    session.step(Event::Chunk { len: 1024 }).unwrap();
    assert_eq!(session.report().download_status, Some(DownloadStatus::Append));
    assert_eq!(session.step(Event::End { now: at(105) }).unwrap(), Action::Finish);
    assert_eq!(session.position(), 2048);
    let report = session.into_report();
    assert_eq!(report.download_status, Some(DownloadStatus::Complete));
    assert_eq!(report.file_size, Some(2048));
    assert_eq!(report.time_used, Some(5));
}

#[test]
fn an_empty_body_goes_from_create_to_complete() {
    let mut session = headed(0, Some(0));
    session.step(Event::GetResponse { status: 200, now: at(102) }).unwrap();
    assert_eq!(session.report().download_status, Some(DownloadStatus::Create));
    assert_eq!(session.step(Event::End { now: at(103) }).unwrap(), Action::Finish);
    assert_eq!(session.report().download_status, Some(DownloadStatus::Complete));
    assert_eq!(session.report().file_size, Some(0));
}

#[test]
fn a_missing_content_length_counts_as_zero() {
    let session = headed(40, None);
    assert_eq!(session.report().file_size, Some(40));
}

#[test]
fn a_complete_file_is_found_by_the_head_request() {
    let mut session = probed(1000);
    let action = session
        .step(Event::HeadResponse { status: 416, content_length: None, now: at(104) })
        .unwrap();
    assert_eq!(action, Action::Finish);
    assert_eq!(session.phase(), Phase::Done);
    assert_eq!(session.position(), 1000);
    let report = session.into_report();
    assert_eq!(report.download_status, Some(DownloadStatus::Exists));
    assert_eq!(report.head_status, Some(416));
    assert!(report.resp_status.is_none());
    assert_eq!(report.file_size, Some(1000));
    assert_eq!(report.download_end_at, Some(at(104)));
    assert_eq!(report.time_used, Some(4));
    assert!(report.msg.is_none());
}

#[test]
fn a_complete_file_is_found_by_the_get_request() {
    let mut session = headed(1000, Some(0));
    let action = session.step(Event::GetResponse { status: 416, now: at(103) }).unwrap();
    assert_eq!(action, Action::Finish);
    let report = session.into_report();
    assert_eq!(report.download_status, Some(DownloadStatus::Exists));
    assert_eq!(report.resp_status, Some(416));
    assert_eq!(report.msg.as_deref(), Some("file exists"));
    assert_eq!(report.file_size, Some(1000));
    assert_eq!(report.time_used, Some(3));
}

#[test]
fn a_head_request_is_sent_five_times_at_most() {
    let mut session = probed(0);
    let mut sent = 1;
    loop {
        let action = session
            .step(Event::HeadResponse { status: 404, content_length: None, now: at(100 + sent) })
            .unwrap();
        if action == Action::Finish {
            break;
        }
        assert_eq!(action, Action::Head { wait_secs: 3 });
        assert!(session.report().head_status.is_none());
        assert_eq!(session.report().download_status, Some(DownloadStatus::Error));
        sent += 1;
    }
    assert_eq!(sent, 5);
    assert_eq!(MAX_HEAD_ATTEMPTS, 5);
    assert_eq!(RETRY_WAIT_SECS, 3);
    let report = session.into_report();
    assert_eq!(report.download_status, Some(DownloadStatus::Error));
    assert_eq!(report.head_status, Some(404));
    assert_eq!(report.msg.as_deref(), Some("head resp status error"));
    assert_eq!(report.download_end_at, Some(at(105)));
    assert_eq!(report.time_used, Some(5));
    assert!(report.resp_status.is_none());
}

#[test]
fn a_head_request_stops_being_sent_once_it_is_settled() {
    let mut session = probed(10);
    let action = session
        .step(Event::HeadResponse { status: 503, content_length: None, now: at(101) })
        .unwrap();
    assert_eq!(action, Action::Head { wait_secs: 3 });
    let action = session
        .step(Event::HeadResponse { status: 200, content_length: Some(5), now: at(104) })
        .unwrap();
    assert_eq!(action, Action::Head { wait_secs: 3 });
    let action = session
        .step(Event::HeadResponse { status: 206, content_length: Some(90), now: at(107) })
        .unwrap();
    assert_eq!(action, Action::Get);
    assert_eq!(session.report().head_status, Some(206));
    assert_eq!(session.report().file_size, Some(100));
}

#[test]
fn a_plain_success_goes_on_after_the_last_head_request() {
    let mut session = probed(0);
    let mut action = Action::Probe;
    let mut sent = 0;
    while sent < 5 {
        action = session
            .step(Event::HeadResponse { status: 200, content_length: Some(64), now: at(101) })
            .unwrap();
        sent += 1;
    }
    assert_eq!(action, Action::Get);
    assert_eq!(session.report().head_status, Some(200));
    assert_eq!(session.report().file_size, Some(64));
}

#[test]
fn a_status_of_300_is_no_refusal() {
    let mut session = headed(0, Some(10));
    let action = session.step(Event::GetResponse { status: 300, now: at(102) }).unwrap();
    assert_eq!(action, Action::Open { progress: None });
    let mut session = headed(0, Some(10));
    let action = session.step(Event::GetResponse { status: 301, now: at(102) }).unwrap();
    assert_eq!(action, Action::Finish);
    assert_eq!(session.report().download_status, Some(DownloadStatus::Error));
}

#[test]
fn a_failed_get_request_ends_in_an_error() {
    let mut session = headed(0, Some(10));
    let action = session.step(Event::GetResponse { status: 404, now: at(109) }).unwrap();
    assert_eq!(action, Action::Finish);
    assert_eq!(session.phase(), Phase::Done);
    let report = session.into_report();
    assert_eq!(report.download_status, Some(DownloadStatus::Error));
    assert_eq!(report.resp_status, Some(404));
    assert_eq!(report.msg.as_deref(), Some("download resp status error"));
    assert_eq!(report.download_end_at, Some(at(109)));
    assert_eq!(report.time_used, Some(9));
}

#[test]
fn progress_starts_at_what_is_on_disk() {
    let mut options = DownloadOptions::new();
    options.set_show_progress(true);
    let mut session = begin("https://example.org/dist/pkg-1.0.zip", options);
    session.step(Event::Probed { local_size: 400, now: at(100) }).unwrap();
    session
        .step(Event::HeadResponse { status: 206, content_length: Some(600), now: at(101) })
        .unwrap();
    let action = session.step(Event::GetResponse { status: 206, now: at(102) }).unwrap();
    assert_eq!(
        action,
        Action::Open { progress: Some(ProgressStart { total: 1000, position: 400 }) }
    );
    assert_eq!(session.step(Event::Chunk { len: 600 }).unwrap(), Action::Next { advance: Some(600) });
    assert_eq!(session.position(), 1000);
    assert_eq!(session.step(Event::End { now: at(103) }).unwrap(), Action::Finish);
    assert_eq!(session.report().file_size, Some(1000));
}

#[test]
fn showing_progress_changes_no_report_field() {
    let mut shown = DownloadOptions::new();
    shown.set_show_progress(true);
    let mut a = begin("https://example.org/dist/pkg-1.0.zip", shown);
    let mut b = begin("https://example.org/dist/pkg-1.0.zip", DownloadOptions::new());
    let events = [
        Event::Probed { local_size: 7, now: at(100) },
        Event::HeadResponse { status: 206, content_length: Some(13), now: at(101) },
        Event::GetResponse { status: 206, now: at(102) },
        Event::Chunk { len: 13 },
        Event::End { now: at(103) },
    ];
    for event in events {
        a.step(event).unwrap();
        b.step(event).unwrap();
        assert_eq!(format!("{:?}", a.report()), format!("{:?}", b.report()));
    }
    assert_eq!(a.report().download_status, Some(DownloadStatus::Complete));
}

#[test]
fn an_event_out_of_turn_is_turned_down() {
    let mut session = begin("https://example.org/dist/pkg-1.0.zip", DownloadOptions::new());
    assert!(matches!(
        session.step(Event::GetResponse { status: 200, now: at(1) }),
        Err(DownloadError::UnexpectedEvent)
    ));
    assert!(matches!(session.step(Event::Chunk { len: 1 }), Err(DownloadError::UnexpectedEvent)));
    assert!(matches!(session.step(Event::End { now: at(1) }), Err(DownloadError::UnexpectedEvent)));
    assert!(matches!(
        session.step(Event::HeadResponse { status: 206, content_length: None, now: at(1) }),
        Err(DownloadError::UnexpectedEvent)
    ));
    assert_eq!(session.phase(), Phase::Probe);
    assert!(session.report().download_start_at.is_none());
    session.step(Event::Probed { local_size: 0, now: at(2) }).unwrap();
    assert!(matches!(
        session.step(Event::Probed { local_size: 5, now: at(3) }),
        Err(DownloadError::UnexpectedEvent)
    ));
    assert_eq!(session.report().range_from, Some(0));
}

#[test]
fn a_finished_session_turns_everything_down() {
    let mut session = probed(1000);
    session.step(Event::HeadResponse { status: 416, content_length: None, now: at(104) }).unwrap();
    let before = format!("{:?}", session.report());
    assert!(matches!(
        session.step(Event::GetResponse { status: 200, now: at(105) }),
        Err(DownloadError::UnexpectedEvent)
    ));
    assert!(matches!(session.step(Event::Chunk { len: 9 }), Err(DownloadError::UnexpectedEvent)));
    assert!(matches!(session.step(Event::End { now: at(106) }), Err(DownloadError::UnexpectedEvent)));
    assert_eq!(format!("{:?}", session.report()), before);
    assert_eq!(session.position(), 1000);
}

#[test]
fn sizes_beyond_u64_abort_the_download() {
    let mut session = probed(u64::MAX - 5);
    assert!(matches!(
        session.step(Event::HeadResponse { status: 206, content_length: Some(6), now: at(101) }),
        Err(DownloadError::SizeOverflow)
    ));
    assert_eq!(session.phase(), Phase::Head);
    assert!(session.report().head_status.is_none());
    let action = session
        .step(Event::HeadResponse { status: 206, content_length: Some(5), now: at(101) })
        .unwrap();
    assert_eq!(action, Action::Get);
    assert_eq!(session.report().file_size, Some(u64::MAX));
    session.step(Event::GetResponse { status: 206, now: at(102) }).unwrap();
    session.step(Event::Chunk { len: 5 }).unwrap();
    assert!(matches!(session.step(Event::Chunk { len: 1 }), Err(DownloadError::SizeOverflow)));
    assert_eq!(session.position(), u64::MAX);
}

#[test]
fn too_many_headers_abort_the_download() {
    let mut headers = HeaderMap::new();
    let mut i = 0;
    while i < 6554 {
        let name = reqwest::header::HeaderName::from_bytes(format!("x-h{}", i).as_bytes()).unwrap();
        headers.insert(name, HeaderValue::from_static("v"));
        i += 1;
    }
    let mut options = DownloadOptions::new();
    options.set_headers(headers);
    let mut session = begin("https://example.org/dist/pkg-1.0.zip", options);
    assert!(matches!(
        session.step(Event::Probed { local_size: 0, now: at(100) }),
        Err(DownloadError::TooManyHeaders)
    ));
    assert_eq!(session.phase(), Phase::Probe);
    assert!(session.report().headers.is_none());
}

#[test]
fn a_clock_that_goes_back_leaves_the_times_in_order() {
    let mut session = probed(0);
    session.step(Event::HeadResponse { status: 416, content_length: None, now: at(50) }).unwrap();
    let report = session.into_report();
    assert_eq!(report.download_start_at, Some(at(100)));
    assert_eq!(report.download_end_at, Some(at(100)));
    assert_eq!(report.time_used, Some(0));
}

fn run(session: &mut DownloadSession, events: &[Event]) -> Vec<Action> {
    let mut actions = Vec::new();
    for event in events {
        if let Ok(action) = session.step(*event) {
            actions.push(action);
        }
    }
    actions
}

fn touches_file(action: &Action) -> bool {
    matches!(action, Action::Open { .. } | Action::Next { .. })
}

#[test]
fn a_refused_download_never_touches_the_file() {
    let mut session = begin("https://example.org/dist/pkg-1.0.zip", DownloadOptions::new());
    let actions = run(
        &mut session,
        &[
            Event::Probed { local_size: 0, now: at(100) },
            Event::HeadResponse { status: 206, content_length: Some(10), now: at(101) },
            Event::GetResponse { status: 500, now: at(102) },
            Event::Chunk { len: 10 },
            Event::End { now: at(103) },
        ],
    );
    assert_eq!(actions, vec![Action::Head { wait_secs: 0 }, Action::Get, Action::Finish]);
    assert!(!actions.iter().any(touches_file));
    assert_eq!(session.report().download_status, Some(DownloadStatus::Error));
    assert_eq!(session.position(), 0);

    let mut session = begin("https://example.org/dist/pkg-1.0.zip", DownloadOptions::new());
    let actions = run(
        &mut session,
        &[
            Event::Probed { local_size: 10, now: at(100) },
            Event::HeadResponse { status: 416, content_length: None, now: at(101) },
            Event::GetResponse { status: 206, now: at(102) },
            Event::Chunk { len: 10 },
        ],
    );
    assert_eq!(actions, vec![Action::Head { wait_secs: 0 }, Action::Finish]);
    assert!(!actions.iter().any(touches_file));
    assert_eq!(session.report().download_status, Some(DownloadStatus::Exists));
    assert_eq!(session.position(), 10);
}

#[test]
fn a_transfer_asks_to_open_once_and_then_for_chunks() {
    let mut session = begin("https://example.org/dist/pkg-1.0.zip", DownloadOptions::new());
    let actions = run(
        &mut session,
        &[
            Event::Probed { local_size: 0, now: at(100) },
            Event::HeadResponse { status: 206, content_length: Some(3), now: at(101) },
            Event::GetResponse { status: 206, now: at(102) },
            Event::Chunk { len: 1 },
            Event::Chunk { len: 2 },
            Event::End { now: at(103) },
        ],
    );
    assert_eq!(
        actions,
        vec![
            Action::Head { wait_secs: 0 },
            Action::Get,
            Action::Open { progress: None },
            Action::Next { advance: None },
            Action::Next { advance: None },
            Action::Finish,
        ]
    );
}

#[test]
fn the_storage_directory_is_created_unless_it_is_there() {
    let target = Download::new("/data/store");
    assert_eq!(target.auto_create_storage_path(None).unwrap(), true);
    let dir = FileMetadata { is_file: false, is_dir: true, len: 4096 };
    assert_eq!(target.auto_create_storage_path(Some(dir)).unwrap(), false);
    let file = FileMetadata { is_file: true, is_dir: false, len: 1 };
    assert_eq!(target.auto_create_storage_path(Some(file)).unwrap(), true);
}
