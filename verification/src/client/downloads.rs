//! Fetching the files on the remote clipboard, one after the other.
use vstd::prelude::*;

use crate::bytes;
use crate::cliprdr;
use crate::cliprdr::file_transfer;
use crate::cliprdr::file_transfer::{
    Counted, FileTransferManager, ManagerView, StateView, TransferView,
};
use crate::cliprdr::pdu::{ContentsResponseView, FileContentsFlags};
use crate::cliprdr::transfer_laws;
use crate::cliprdr::{EventView, FileInfo, FileInfoView, HandlerView};
use crate::connection::session;
use crate::connection::session::ClipboardCommandView;
use crate::messages::{NewsView, RequestView, ToNetwork};
use crate::views;

verus! {

/// What to do next: ask the network thread for something, or put files on the
/// local clipboard.
pub struct DownloadStep {
    /// What to ask the network thread for.
    pub request: Option<ToNetwork>,
    /// The files to put on the local clipboard.
    pub clipboard: Option<Vec<String>>,
}

/// The view of `DownloadStep`.
pub struct DownloadStepView {
    /// What to ask the network thread for.
    pub request: Option<RequestView>,
    /// The files to put on the local clipboard.
    pub clipboard: Option<Seq<Seq<char>>>,
}

impl View for DownloadStep {
    type V = DownloadStepView;

    open spec fn view(&self) -> DownloadStepView {
        DownloadStepView {
            request: views::option_view(self.request),
            clipboard: match self.clipboard {
                Some(files) => Some(views::seq_view(files@)),
                None => None,
            },
        }
    }
}

/// Nothing is to be done.
pub open spec fn no_step() -> DownloadStepView {
    DownloadStepView { request: None, clipboard: None }
}

/// One thing is to be asked for.
pub open spec fn asks(r: RequestView) -> DownloadStepView {
    DownloadStepView { request: Some(r), clipboard: None }
}

/// What beginning the next download leads to.
pub open spec fn next_download(m: ManagerView) -> (ManagerView, DownloadStepView) {
    match m.on_start() {
        (next, Some((_, file_index))) => (
            next,
            asks(RequestView::RequestFileSize { file_index }),
        ),
        (next, None) => (next, no_step()),
    }
}

/// All downloads came to an end.
pub open spec fn all_ended(m: ManagerView) -> bool {
    file_transfer::count_of(Counted::Waiting, m.transfers) == 0 && file_transfer::count_of(
        Counted::Active,
        m.transfers,
    ) == 0
}

/// What the end of a download leads to: the next one begins, or, where all came to
/// an end, the complete files go on the local clipboard.
pub open spec fn after_download(m: ManagerView) -> (ManagerView, DownloadStepView) {
    let (next, started) = m.on_start();
    let complete = file_transfer::completed_paths(next.transfers);
    if started is Some {
        next_download(m)
    } else if all_ended(next) && complete.len() > 0 {
        (next, DownloadStepView { request: None, clipboard: Some(complete) })
    } else {
        (next, no_step())
    }
}

/// What an answer leads to, from what the manager makes of it.
pub open spec fn after_answer(
    m: ManagerView,
    r: Result<Option<file_transfer::ContentRequest>, Seq<char>>,
) -> (ManagerView, DownloadStepView) {
    match r {
        Ok(Some((_, file_index, offset, length))) => (
            m,
            asks(RequestView::RequestFileContent { file_index, offset, length }),
        ),
        Ok(None) => after_download(m),
        Err(_) => (m, no_step()),
    }
}

/// Downloads that did not begin.
pub open spec fn fresh_downloads(files: Seq<FileInfoView>) -> Seq<TransferView> {
    Seq::new(
        files.len(),
        |i: int| TransferView::fresh(i as u32, files[i].name, files[i].size, files[i].is_directory),
    )
}

/// What a list of remote files leads to: a manager of its own downloads them.
pub open spec fn on_file_list(staging_dir: Seq<char>, files: Seq<FileInfoView>) -> (
    ManagerView,
    DownloadStepView,
) {
    next_download(
        ManagerView {
            transfers: fresh_downloads(files),
            ..file_transfer::fresh_manager(staging_dir)
        },
    )
}

/// What a failed download leads to: the manager, the file to remove, and what to do
/// next.
pub open spec fn on_failed(m: ManagerView, stream_id: u32) -> (
    ManagerView,
    Option<Seq<char>>,
    DownloadStepView,
) {
    let (next, removed) = m.on_failure(stream_id);
    let (last, step) = next_download(next);
    (last, removed, step)
}

/// Nothing is to be done.
fn nothing() -> (s: DownloadStep)
    ensures
        s@ == no_step(),
{
    DownloadStep { request: None, clipboard: None }
}

/// Begins the next download.
fn begin_next(manager: &mut FileTransferManager) -> (s: DownloadStep)
    requires
        old(manager)@.wf(),
    ensures
        final(manager)@.wf(),
        (final(manager)@, s@) == next_download(old(manager)@),
{
    match manager.start_next_transfer() {
        Some((_, file_index)) => DownloadStep {
            request: Some(ToNetwork::RequestFileSize { file_index }),
            clipboard: None,
        },
        None => nothing(),
    }
}

/// Goes on after the end of a download.
fn go_on(manager: &mut FileTransferManager) -> (s: DownloadStep)
    requires
        old(manager)@.wf(),
    ensures
        final(manager)@.wf(),
        (final(manager)@, s@) == after_download(old(manager)@),
{
    let step = begin_next(manager);
    if step.request.is_some() {
        return step;
    }
    if manager.pending_count() == 0 && manager.active_count() == 0 {
        let complete = manager.completed_files();
        if complete.len() > 0 {
            return DownloadStep { request: None, clipboard: Some(complete) };
        }
    }
    nothing()
}

/// Goes on with what the manager makes of an answer.
fn go_on_with(
    manager: &mut FileTransferManager,
    r: Result<Option<file_transfer::ContentRequest>, String>,
) -> (s: DownloadStep)
    requires
        old(manager)@.wf(),
    ensures
        final(manager)@.wf(),
        (final(manager)@, s@) == after_answer(old(manager)@, file_transfer::request_view(r)),
{
    match r {
        Ok(Some((_, file_index, offset, length))) => DownloadStep {
            request: Some(ToNetwork::RequestFileContent { file_index, offset, length }),
            clipboard: None,
        },
        Ok(None) => go_on(manager),
        Err(_) => nothing(),
    }
}

/// Begins to download the files of a list into a directory: the manager of the
/// downloads, and what to do next.
pub fn begin_downloads(staging_dir: String, files: &[FileInfo]) -> (r: (
    FileTransferManager,
    DownloadStep,
))
    requires
        files@.len() <= u32::MAX,
    ensures
        r.0@.wf(),
        (r.0@, r.1@) == on_file_list(staging_dir@, views::seq_view(files@)),
{
    let mut list: Vec<(String, Option<u64>, bool)> = Vec::new();
    let mut i: usize = 0;
    while i < files.len()
        invariant
            i <= files@.len(),
            list@.len() == i,
            forall|j: int|
                0 <= j < i ==> (#[trigger] list@[j]).0@ == files@[j].name@ && list@[j].1
                    == files@[j].size && list@[j].2 == files@[j].is_directory,
        decreases files@.len() - i,
    {
        list.push((files[i].name.clone(), files[i].size, files[i].is_directory));
        i = i + 1;
    }
    assert(file_transfer::fresh_transfers(list@) == fresh_downloads(views::seq_view(files@)));
    let mut manager = FileTransferManager::new(staging_dir);
    let ghost fresh = manager@;
    let _removed = manager.add_files(list.as_slice());
    assert(fresh.cleared() == fresh);
    let step = begin_next(&mut manager);
    (manager, step)
}

/// Handles the size of a file, where the operation that the manager planned had
/// the given outcome.
pub fn size_arrived(
    manager: &mut FileTransferManager,
    stream_id: u32,
    size: u64,
    outcome: Result<(), String>,
) -> (s: DownloadStep)
    requires
        old(manager)@.wf(),
    ensures
        final(manager)@.wf(),
        ({
            let (m, r) = old(manager)@.on_size(
                stream_id,
                size,
                file_transfer::outcome_view(outcome),
            );
            (final(manager)@, s@) == after_answer(m, r)
        }),
{
    let r = manager.handle_size_response(stream_id, size, outcome);
    go_on_with(manager, r)
}

/// Handles a part of a file, where writing it and renaming the file had the given
/// outcomes.
pub fn content_arrived(
    manager: &mut FileTransferManager,
    stream_id: u32,
    data: &[u8],
    written: Result<(), String>,
    renamed: Result<(), String>,
) -> (s: DownloadStep)
    requires
        old(manager)@.wf(),
    ensures
        final(manager)@.wf(),
        ({
            let (m, r) = old(manager)@.on_content(
                stream_id,
                data@.len() as int,
                file_transfer::outcome_view(written),
                file_transfer::outcome_view(renamed),
            );
            (final(manager)@, s@) == after_answer(m, r)
        }),
{
    let r = manager.handle_content_response(stream_id, data, written, renamed);
    go_on_with(manager, r)
}

/// Handles a failed download: the file to remove, and what to do next.
pub fn download_failed(manager: &mut FileTransferManager, stream_id: u32) -> (r: (
    Option<String>,
    DownloadStep,
))
    requires
        old(manager)@.wf(),
    ensures
        final(manager)@.wf(),
        (final(manager)@, views::option_view(r.0), r.1@) == on_failed(old(manager)@, stream_id),
{
    let removed = manager.handle_failure(stream_id);
    let step = begin_next(manager);
    (removed, step)
}

/// The manager takes an answer with the given identifier for the file that the
/// request is about.
pub open spec fn expects(m: ManagerView, r: RequestView, stream_id: u32) -> bool {
    &&& m.streams.contains_key(stream_id)
    &&& match r {
        RequestView::RequestFileSize { file_index } => {
            &&& m.streams[stream_id] == file_index
            &&& m.transfers[file_index as int].state == (StateView::AwaitingSize { stream_id })
        },
        RequestView::RequestFileContent { file_index, offset, .. } => {
            &&& m.streams[stream_id] == file_index
            &&& m.transfers[file_index as int].temp_path is Some
            &&& match m.transfers[file_index as int].state {
                StateView::Downloading { bytes_received, current_stream_id, .. } => bytes_received
                    == offset && current_stream_id == stream_id,
                _ => false,
            }
        },
        _ => false,
    }
}

/// From one state to the next the manager gives out one identifier for what is asked
/// for, and expects the answer under it; where nothing is asked for, it gives out
/// none.
pub open spec fn one_id_each(m: ManagerView, next: ManagerView, step: DownloadStepView) -> bool {
    match step.request {
        Some(r) => expects(next, r, m.next_stream_id) && next.next_stream_id
            == cliprdr::following_id(m.next_stream_id),
        None => next.next_stream_id == m.next_stream_id,
    }
}

/// Whatever happens, the manager gives out one identifier for each request and
/// expects the answer under it: for a file list, a size, a part or a failure.
pub proof fn law_one_id_for_each_request(
    m: ManagerView,
    staging_dir: Seq<char>,
    files: Seq<FileInfoView>,
    stream_id: u32,
    size: u64,
    len: int,
    a: Option<Seq<char>>,
    b: Option<Seq<char>>,
)
    requires
        m.wf(),
        files.len() <= u32::MAX,
        0 <= len,
    ensures
        ({
            let (next, step) = on_file_list(staging_dir, files);
            one_id_each(file_transfer::fresh_manager(staging_dir), next, step)
        }),
        ({
            let (answered, r) = m.on_size(stream_id, size, a);
            let (next, step) = after_answer(answered, r);
            one_id_each(m, next, step)
        }),
        ({
            let (answered, r) = m.on_content(stream_id, len, a, b);
            let (next, step) = after_answer(answered, r);
            one_id_each(m, next, step)
        }),
        ({
            let (next, _, step) = on_failed(m, stream_id);
            one_id_each(m, next, step)
        }),
{
    let listed = ManagerView {
        transfers: fresh_downloads(files),
        ..file_transfer::fresh_manager(staging_dir)
    };
    lemma_start_gives_one_id(listed);
    lemma_start_gives_one_id(m.on_failure(stream_id).0);
    lemma_start_gives_one_id(m.on_size(stream_id, size, a).0);
    lemma_start_gives_one_id(m.on_content(stream_id, len, a, b).0);
}

/// The beginning of a download gives out one identifier.
proof fn lemma_start_gives_one_id(m: ManagerView)
    requires
        m.transfers.len() <= u32::MAX,
    ensures
        one_id_each(m, next_download(m).0, next_download(m).1),
        after_download(m).1.request is None ==> after_download(m).0.next_stream_id
            == m.next_stream_id,
{
    transfer_laws::law_first_waiting_begins(m, 0);
}

/// The clipboard handler and the manager give out the same identifier next.
pub open spec fn in_step(h: HandlerView, m: ManagerView) -> bool {
    h.next_stream_id == m.next_stream_id
}

/// A fresh handler and a fresh manager give out the same identifier, and after each
/// request that the handler passes on they do again, with the answer expected under
/// the identifier that the handler gave to the request.
pub proof fn law_identifiers_stay_in_step(
    h: HandlerView,
    m: ManagerView,
    next: ManagerView,
    step: DownloadStepView,
    flags: FileContentsFlags,
)
    requires
        in_step(h, m),
        one_id_each(m, next, step),
    ensures
        forall|enabled: bool, events: bool, dir: Seq<char>| #[trigger]
            in_step(
                cliprdr::fresh_handler(enabled, events),
                file_transfer::fresh_manager(dir),
            ),
        step.request is None ==> in_step(h, next),
        step.request matches Some(r) ==> in_step(cliprdr::asked(h, flags), next) && expects(
            next,
            r,
            h.next_stream_id,
        ),
{
}

/// An answer is taken for the file that was asked for, where the manager expects it
/// under the identifier that the handler gives to the request. The server's answer
/// is reported with that identifier, a size as a size and a part as a part; and the
/// manager then changes the download of that file and no other.
pub proof fn law_answer_is_taken_for_its_file(
    m: ManagerView,
    r: RequestView,
    h: HandlerView,
    answer: ContentsResponseView,
    size: u64,
    a: Option<Seq<char>>,
    b: Option<Seq<char>>,
    j: int,
)
    requires
        m.wf(),
        expects(m, r, h.next_stream_id),
        h.events_enabled,
        answer.success,
        answer.stream_id == h.next_stream_id,
        0 <= j < m.transfers.len(),
    ensures
        ({
            let id = h.next_stream_id;
            match r {
                RequestView::RequestFileSize { file_index } => {
                    &&& session::clipboard_command(r) == Some(
                        ClipboardCommandView::RequestFileSize { file_index },
                    )
                    &&& answer.data == bytes::le64(size) ==> {
                        let asked = cliprdr::asked(h, FileContentsFlags::Size);
                        let event = EventView::FileSizeReceived { stream_id: id, size };
                        &&& cliprdr::on_contents_response(asked, answer).handler.events
                            == h.events.push(event)
                        &&& session::clipboard_news_of(event) == seq![
                            NewsView::ClipboardFileSizeReceived { stream_id: id, size },
                        ]
                    }
                    &&& j != file_index ==> m.on_size(id, size, a).0.transfers[j] == m.transfers[j]
                    &&& a is None ==> m.on_size(
                        id,
                        size,
                        a,
                    ).0.transfers[file_index as int].state !is AwaitingSize
                },
                RequestView::RequestFileContent { file_index, offset, length } => {
                    let (next, _) = m.on_content(id, answer.data.len() as int, a, b);
                    let asked = cliprdr::asked(h, FileContentsFlags::Range);
                    let event = EventView::FileContentReceived {
                        stream_id: id,
                        data: answer.data,
                    };
                    &&& session::clipboard_command(r) == Some(
                        ClipboardCommandView::RequestFileContent { file_index, offset, length },
                    )
                    &&& cliprdr::on_contents_response(asked, answer).handler.events
                        == h.events.push(event)
                    &&& session::clipboard_news_of(event) == seq![
                        NewsView::ClipboardFileContentReceived {
                            stream_id: id,
                            data: answer.data,
                        },
                    ]
                    &&& j != file_index ==> next.transfers[j] == m.transfers[j]
                    &&& a is None && b is None ==> match next.transfers[file_index as int].state {
                        StateView::Downloading { bytes_received, .. } => bytes_received == offset
                            + answer.data.len(),
                        StateView::Completed { path } => path == m.final_path(file_index),
                        _ => false,
                    }
                },
                _ => false,
            }
        }),
{
    cliprdr::laws::law_answer_matches_request(h, answer, size);
}

/// Files go on the local clipboard only when no download waits or runs, and then
/// all complete ones do.
pub proof fn law_clipboard_waits_for_all(m: ManagerView)
    ensures
        after_download(m).1.clipboard is Some ==> all_ended(after_download(m).0)
            && after_download(m).1.clipboard->0 == file_transfer::completed_paths(
            after_download(m).0.transfers,
        ),
{
}

/// As long as a download waits, the end of one begins another.
pub proof fn law_waiting_download_begins(m: ManagerView)
    requires
        m.first_waiting(0) < m.transfers.len(),
    ensures
        after_download(m).1.request is Some,
{
}

/// A list of files is downloaded one by one: the size of the first file that is no
/// directory is asked for, under the identifier one, and each file keeps the name, the
/// size and the place that it has in the list.
pub proof fn law_list_begins_with_first_file(
    staging_dir: Seq<char>,
    files: Seq<FileInfoView>,
    i: int,
)
    requires
        0 <= i < files.len() <= u32::MAX,
        !files[i].is_directory,
        forall|j: int| 0 <= j < i ==> (#[trigger] files[j]).is_directory,
    ensures
        ({
            let (m, step) = on_file_list(staging_dir, files);
            &&& step.request == Some(RequestView::RequestFileSize { file_index: i as u32 })
            &&& step.clipboard is None
            &&& m.staging_dir == staging_dir && m.transfers.len() == files.len()
            &&& m.streams.contains_key(1) && m.streams[1] == i
            &&& m.transfers[i].state == (StateView::AwaitingSize { stream_id: 1 })
            &&& forall|j: int|
                0 <= j < files.len() ==> {
                    let t = #[trigger] m.transfers[j];
                    &&& t.file_index == j && t.file_name == files[j].name
                    &&& t.declared_size == files[j].size
                    &&& t.is_directory == files[j].is_directory
                    &&& j != i ==> t.state is Pending
                }
        }),
{
    let m = ManagerView {
        transfers: fresh_downloads(files),
        ..file_transfer::fresh_manager(staging_dir)
    };
    transfer_laws::law_first_waiting_begins(m, 0);
    let k = m.first_waiting(0);
    assert(m.transfers[i].waiting());
    assert(k == i) by {
        if k < i {
            assert(m.transfers[k].waiting());
            assert(files[k].is_directory);
        }
    }
}

/// A list without files to download asks for nothing.
pub proof fn law_list_without_files(staging_dir: Seq<char>, files: Seq<FileInfoView>)
    requires
        files.len() <= u32::MAX,
        forall|j: int| 0 <= j < files.len() ==> (#[trigger] files[j]).is_directory,
    ensures
        on_file_list(staging_dir, files).1.request is None,
        on_file_list(staging_dir, files).1.clipboard is None,
{
    let m = ManagerView {
        transfers: fresh_downloads(files),
        ..file_transfer::fresh_manager(staging_dir)
    };
    transfer_laws::law_first_waiting_begins(m, 0);
    let k = m.first_waiting(0);
    if k < m.transfers.len() {
        assert(m.transfers[k].waiting());
        assert(files[k].is_directory);
    }
}

/// An answer is followed by what it makes necessary: the next part of the file, or,
/// when the file has ended, the next file, or, when all have, the complete files on
/// the clipboard. After an error nothing is asked for.
pub proof fn law_answer_is_followed_up(
    m: ManagerView,
    id: u32,
    file_index: u32,
    offset: u64,
    length: u32,
    e: Seq<char>,
)
    requires
        m.wf(),
    ensures
        after_answer(m, Ok(Some((id, file_index, offset, length)))) == (
            m,
            DownloadStepView {
                request: Some(RequestView::RequestFileContent { file_index, offset, length }),
                clipboard: None,
            },
        ),
        after_answer(m, Err(e)) == (m, DownloadStepView { request: None, clipboard: None }),
        match after_answer(m, Ok(None)) {
            (next, DownloadStepView { request: Some(r), clipboard }) => {
                &&& clipboard is None
                &&& r is RequestFileSize
                &&& m.transfers[r->RequestFileSize_file_index as int].waiting()
            },
            (next, DownloadStepView { request: None, clipboard: Some(paths) }) => {
                &&& next == m
                &&& paths == file_transfer::completed_paths(m.transfers) && paths.len() > 0
                &&& file_transfer::count_of(Counted::Active, m.transfers) == 0
                &&& forall|j: int|
                    0 <= j < m.transfers.len() ==> !(#[trigger] m.transfers[j]).waiting()
            },
            (next, DownloadStepView { request: None, clipboard: None }) => {
                &&& next == m
                &&& file_transfer::completed_paths(m.transfers).len() == 0
                    || file_transfer::count_of(Counted::Active, m.transfers) > 0
            },
        },
{
    transfer_laws::law_start_asks_for_size(m);
    transfer_laws::law_first_waiting_begins(m, 0);
    if m.first_waiting(0) >= m.transfers.len() {
        lemma_none_counted(Counted::Waiting, m.transfers);
    }
}

/// Where nothing is counted the count is zero.
proof fn lemma_none_counted(which: Counted, s: Seq<TransferView>)
    requires
        forall|j: int|
            0 <= j < s.len() ==> !file_transfer::is_counted(which, #[trigger] s[j]),
    ensures
        file_transfer::count_of(which, s) == 0,
    decreases s.len(),
{
    if s.len() > 0 {
        let front = s.drop_last();
        assert forall|j: int| 0 <= j < front.len() implies !file_transfer::is_counted(
            which,
            #[trigger] front[j],
        ) by {
            assert(front[j] == s[j]);
        }
        lemma_none_counted(which, front);
    }
}

/// A file that the server refuses ends as failed, what there is of it is removed, and
/// the next file that waits is asked for.
pub proof fn law_refused_file_is_passed_over(m: ManagerView, stream_id: u32)
    requires
        m.wf(),
        m.streams.contains_key(stream_id),
    ensures
        ({
            let i = m.streams[stream_id] as int;
            let (next, removed, step) = on_failed(m, stream_id);
            &&& next.transfers[i].state is Failed
            &&& removed == m.transfers[i].temp_path
            &&& step.clipboard is None
            &&& step.request matches Some(r) ==> r is RequestFileSize
                && r->RequestFileSize_file_index != i
        }),
{
    let (failed, _) = m.on_failure(stream_id);
    transfer_laws::law_first_waiting_begins(failed, 0);
    assert(failed.transfers.len() == m.transfers.len());
}

} // verus!
