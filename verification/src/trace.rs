//! What holds of a download as a whole: of a session that is fed any
//! sequence of events, whatever the server and the disk do.

use crate::download::{DownloadReportView, DownloadStatus};
use crate::headers::{leaves_room, with_range};
use crate::session::{
    expected_size, is_refusal, transfer_status, Action, Event, Phase, ProgressStart, SessionView,
    MAX_HEAD_ATTEMPTS,
};
use crate::time::Timestamp;
use vstd::prelude::*;

verus! {

/// Whether carrying out an action creates or writes the file.
pub open spec fn touches_file(action: Action) -> bool {
    action is Open || action is Next
}

/// Whether one of the actions creates or writes the file.
pub open spec fn file_touched(actions: Seq<Action>) -> bool {
    exists|i: int| 0 <= i < actions.len() && touches_file(#[trigger] actions[i])
}

/// The number of HEAD requests among the actions.
pub open spec fn head_requests(actions: Seq<Action>) -> nat
    decreases actions.len(),
{
    if actions.len() == 0 {
        0
    } else {
        let before = head_requests(actions.drop_last());
        if actions.last() is Head {
            before + 1
        } else {
            before
        }
    }
}

/// The session that `start` becomes when it is fed `events` in their order,
/// and the actions it asks for on the way. An event that is turned down
/// leaves the session as it was and asks for nothing.
pub open spec fn run(start: SessionView, events: Seq<Event>) -> (SessionView, Seq<Action>)
    decreases events.len(),
{
    if events.len() == 0 {
        (start, Seq::empty())
    } else {
        let before = run(start, events.drop_last());
        match before.0.transition(events.last()) {
            Ok(moved) => (moved.0, before.1.push(moved.1)),
            Err(_) => before,
        }
    }
}

/// Whether the status says that no transfer took place: the download failed,
/// never came to an end, or found the file complete.
pub open spec fn without_transfer(status: Option<DownloadStatus>) -> bool {
    status == Some(DownloadStatus::Error) || status == Some(DownloadStatus::Exists)
}

/// A well-formed session stays well formed, whatever it is fed.
pub proof fn lemma_run_wf(start: SessionView, events: Seq<Event>)
    requires
        start.wf(),
    ensures
        run(start, events).0.wf(),
    decreases events.len(),
{
    if events.len() > 0 {
        lemma_run_wf(start, events.drop_last());
        run(start, events.drop_last()).0.lemma_transition_wf(events.last());
    }
}

/// A download that ends without a transfer has left the file alone: where
/// the report says `Exists` or `Error`, no action has created or written the
/// file, whatever the events were. So a refusal by the server, on the HEAD or
/// the GET request, never changes what is on disk.
pub proof fn lemma_no_transfer_no_write(start: SessionView, events: Seq<Event>)
    requires
        start.wf(),
        start.phase is Probe,
    ensures
        without_transfer(run(start, events).0.report.download_status) ==> !file_touched(
            run(start, events).1,
        ),
    decreases events.len(),
{
    if events.len() > 0 {
        let before = run(start, events.drop_last());
        lemma_no_transfer_no_write(start, events.drop_last());
        lemma_run_wf(start, events.drop_last());
        before.0.lemma_transition_wf(events.last());
        match before.0.transition(events.last()) {
            Ok(moved) => {
                let actions = before.1.push(moved.1);
                if without_transfer(moved.0.report.download_status) {
                    assert(without_transfer(before.0.report.download_status));
                    assert(!touches_file(moved.1));
                    assert forall|i: int| 0 <= i < actions.len() implies !touches_file(
                        #[trigger] actions[i],
                    ) by {
                        if i < before.1.len() {
                            assert(actions[i] == before.1[i]);
                        }
                    }
                }
            },
            Err(_) => {},
        }
    }
}

/// A download sends at most `MAX_HEAD_ATTEMPTS` HEAD requests, whatever the
/// server answers.
pub proof fn lemma_head_requests_bounded(start: SessionView, events: Seq<Event>)
    requires
        start.wf(),
        start.phase is Probe,
    ensures
        head_requests(run(start, events).1) <= MAX_HEAD_ATTEMPTS,
        head_requests(run(start, events).1) == if run(start, events).0.phase is Probe {
            0nat
        } else {
            (run(start, events).0.head_retries + 1) as nat
        },
    decreases events.len(),
{
    if events.len() > 0 {
        let before = run(start, events.drop_last());
        lemma_head_requests_bounded(start, events.drop_last());
        lemma_run_wf(start, events.drop_last());
        before.0.lemma_transition_wf(events.last());
        match before.0.transition(events.last()) {
            Ok(moved) => {
                assert(before.1.push(moved.1).drop_last() =~= before.1);
            },
            Err(_) => {},
        }
    } else {
        lemma_run_wf(start, events);
    }
}

/// Feeding one more event is one more step.
pub proof fn lemma_run_push(start: SessionView, events: Seq<Event>, event: Event)
    ensures
        run(start, events.push(event)) == match run(start, events).0.transition(event) {
            Ok(moved) => (moved.0, run(start, events).1.push(moved.1)),
            Err(_) => run(start, events),
        },
{
    assert(events.push(event).drop_last() =~= events);
}

/// The bytes of some chunks together.
pub open spec fn total_len(lens: Seq<u64>) -> nat
    decreases lens.len(),
{
    if lens.len() == 0 {
        0
    } else {
        total_len(lens.drop_last()) + lens.last() as nat
    }
}

/// The events of a transfer up to the first chunk: the file on disk holds
/// `local_size` bytes, the server answers the HEAD request with partial
/// content of `content_length` bytes, and the GET request with `get_status`.
pub open spec fn opening_events(
    local_size: u64,
    content_length: Option<u64>,
    get_status: u16,
    begun: Timestamp,
    headed: Timestamp,
    got: Timestamp,
) -> Seq<Event> {
    seq![
        Event::Probed { local_size, now: begun },
        Event::HeadResponse { status: 206, content_length, now: headed },
        Event::GetResponse { status: get_status, now: got },
    ]
}

/// The events of chunks of the lengths `lens`, in their order.
pub open spec fn chunk_events(lens: Seq<u64>) -> Seq<Event> {
    Seq::new(lens.len(), |i: int| Event::Chunk { len: lens[i] })
}

/// Where a transfer stands after its opening events.
pub proof fn lemma_opening(
    start: SessionView,
    local_size: u64,
    content_length: Option<u64>,
    get_status: u16,
    begun: Timestamp,
    headed: Timestamp,
    got: Timestamp,
)
    requires
        start.wf(),
        start.phase is Probe,
        leaves_room(start.base_entries()),
        expected_size(local_size, content_length) is Some,
        !is_refusal(get_status),
    ensures
        ({
            let events = opening_events(local_size, content_length, get_status, begun, headed, got);
            let opened = run(start, events).0;
            &&& opened.phase is Receive
            &&& opened.local_size == local_size
            &&& opened.position == local_size
            &&& opened.show_progress == start.show_progress
            &&& opened.report.file_size == expected_size(local_size, content_length)
            &&& opened.report.range_from == Some(local_size)
            &&& opened.report.download_start_at == Some(begun@)
            &&& opened.report.download_end_at is None
            &&& opened.report.headers == Some(with_range(start.base_entries(), local_size as nat))
            &&& opened.report.download_status == Some(transfer_status(local_size))
            &&& run(start, events).1 == seq![
                Action::Head { wait_secs: 0 },
                Action::Get,
                Action::Open {
                    progress: if start.show_progress {
                        Some(
                            ProgressStart {
                                total: expected_size(local_size, content_length)->Some_0,
                                position: local_size,
                            },
                        )
                    } else {
                        None
                    },
                },
            ]
        }),
{
    let probed = Event::Probed { local_size, now: begun };
    let head = Event::HeadResponse { status: 206, content_length, now: headed };
    let get = Event::GetResponse { status: get_status, now: got };
    let none = Seq::<Event>::empty();
    assert(run(start, none) == (start, Seq::<Action>::empty()));
    lemma_run_push(start, none, probed);
    lemma_run_push(start, none.push(probed), head);
    lemma_run_push(start, none.push(probed).push(head), get);
    assert(none.push(probed).push(head).push(get) =~= opening_events(
        local_size,
        content_length,
        get_status,
        begun,
        headed,
        got,
    ));
    let events = opening_events(local_size, content_length, get_status, begun, headed, got);
    assert(run(start, events).1 =~= seq![
        Action::Head { wait_secs: 0 },
        Action::Get,
        Action::Open {
            progress: if start.show_progress {
                Some(
                    ProgressStart {
                        total: expected_size(local_size, content_length)->Some_0,
                        position: local_size,
                    },
                )
            } else {
                None
            },
        },
    ]);
}

/// Chunks that are added to the file move the position by their length and
/// leave the rest of a transfer as it was, but for the status, which is
/// `Append` from the first chunk on.
pub proof fn lemma_chunks(start: SessionView, opening: Seq<Event>, lens: Seq<u64>)
    requires
        run(start, opening).0.phase is Receive,
        run(start, opening).0.position + total_len(lens) <= u64::MAX,
    ensures
        ({
            let opened = run(start, opening).0;
            let fed = run(start, opening + chunk_events(lens)).0;
            &&& fed.position == opened.position + total_len(lens)
            &&& fed.report.download_status == if lens.len() == 0 {
                opened.report.download_status
            } else {
                Some(DownloadStatus::Append)
            }
            &&& fed == SessionView {
                position: fed.position,
                report: DownloadReportView {
                    download_status: fed.report.download_status,
                    ..opened.report
                },
                ..opened
            }
        }),
    decreases lens.len(),
{
    if lens.len() == 0 {
        assert(opening + chunk_events(lens) =~= opening);
    } else {
        let before = lens.drop_last();
        lemma_chunks(start, opening, before);
        lemma_run_push(start, opening + chunk_events(before), Event::Chunk { len: lens.last() });
        assert((opening + chunk_events(before)).push(Event::Chunk { len: lens.last() }) =~= opening
            + chunk_events(lens));
    }
}

/// A transfer that runs its course ends with the status `Complete`. The
/// report gives the size on disk plus the length that the server announced,
/// and that is what lies on disk where the chunks add up to the announced
/// length; the request resumed at the size on disk; and the times are in
/// order.
pub proof fn lemma_transfer_completes(
    start: SessionView,
    local_size: u64,
    content_length: Option<u64>,
    get_status: u16,
    lens: Seq<u64>,
    begun: Timestamp,
    headed: Timestamp,
    got: Timestamp,
    ended: Timestamp,
)
    requires
        start.wf(),
        start.phase is Probe,
        leaves_room(start.base_entries()),
        expected_size(local_size, content_length) is Some,
        !is_refusal(get_status),
        local_size + total_len(lens) <= u64::MAX,
    ensures
        ({
            let opening = opening_events(
                local_size,
                content_length,
                get_status,
                begun,
                headed,
                got,
            );
            let events = (opening + chunk_events(lens)).push(Event::End { now: ended });
            let done = run(start, events).0;
            &&& done.phase is Done
            &&& done.report.download_status == Some(DownloadStatus::Complete)
            &&& done.report.file_size == expected_size(local_size, content_length)
            &&& done.report.range_from == Some(local_size)
            &&& done.report.headers == Some(with_range(start.base_entries(), local_size as nat))
            &&& done.position == local_size + total_len(lens)
            &&& done.report.download_start_at == Some(begun@)
            &&& done.report.download_end_at == Some(begun@.max(ended@))
            &&& done.report.time_used == Some(begun@.max(ended@).secs - begun@.secs)
        }),
{
    let opening = opening_events(local_size, content_length, get_status, begun, headed, got);
    lemma_opening(start, local_size, content_length, get_status, begun, headed, got);
    lemma_chunks(start, opening, lens);
    lemma_run_push(start, opening + chunk_events(lens), Event::End { now: ended });
}

} // verus!
