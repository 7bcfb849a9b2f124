//! What holds of downloads as a whole.
use vstd::prelude::*;

use crate::cliprdr;
use crate::cliprdr::file_transfer;
use crate::cliprdr::file_transfer::{
    ContentPlanView, ContentRequest, Counted, ManagerView, SizePlanView, StateView, TransferView,
};
use crate::paths;
use crate::text;

verus! {

/// A request for a part of file `i` is under way and unanswered.
pub open spec fn live(m: ManagerView, stream_id: u32, i: u32) -> bool {
    &&& m.wf()
    &&& m.streams.contains_key(stream_id)
    &&& m.streams[stream_id] == i
    &&& m.transfers[i as int].state is Downloading
    &&& m.transfers[i as int].temp_path is Some
}

/// The size of the file.
pub open spec fn total(m: ManagerView, i: u32) -> u64 {
    m.transfers[i as int].state->Downloading_total_size
}

/// How many bytes have arrived.
pub open spec fn received(m: ManagerView, i: u32) -> u64 {
    m.transfers[i as int].state->Downloading_bytes_received
}

/// A size within the limit is followed by a request for the first part: it starts
/// at the beginning, is no longer than a chunk, and stays within the file.
pub proof fn law_size_starts_download(m: ManagerView, stream_id: u32, size: u64)
    requires
        m.wf(),
        m.streams.contains_key(stream_id),
        m.transfers[m.streams[stream_id] as int].state is AwaitingSize,
        paths::is_plain(m.transfers[m.streams[stream_id] as int].file_name),
        0 < size <= file_transfer::MAX_FILE_SIZE,
        m.chunk_size > 0,
    ensures
        ({
            let i = m.streams[stream_id];
            let (next, r) = m.on_size(stream_id, size, None);
            &&& r matches Ok(Some((id, file, offset, len)))
            &&& file == i && offset == 0 && 0 < len <= m.chunk_size && len <= size
            &&& live(next, id, i) && total(next, i) == size && received(next, i) == 0
        }),
{
    file_transfer::lemma_temp_name_plain(m.transfers[m.streams[stream_id] as int].file_name);
}

/// A file above the limit is never asked for, whatever the outcome of file
/// operations.
pub proof fn law_size_limit(
    m: ManagerView,
    stream_id: u32,
    size: u64,
    outcome: Option<Seq<char>>,
)
    requires
        m.wf(),
    ensures
        m.on_size(stream_id, size, outcome).1 matches Ok(Some(_)) ==> 0 < size
            <= file_transfer::MAX_FILE_SIZE,
{
}

/// Every file, complete or not, lies in the staging directory, whatever the server
/// calls it: those that are there, and those that are to be created or renamed.
pub proof fn law_files_stay_in_staging(
    m: ManagerView,
    stream_id: u32,
    size: u64,
    len: int,
)
    requires
        m.wf(),
    ensures
        forall|i: int|
            0 <= i < m.transfers.len() ==> {
                &&& (#[trigger] m.transfers[i]).temp_path is Some ==> paths::lies_in(
                    m.staging_dir,
                    m.transfers[i].temp_path->0,
                )
                &&& m.transfers[i].state is Completed ==> paths::lies_in(
                    m.staging_dir,
                    m.transfers[i].state->path,
                )
            },
        forall|i: int|
            0 <= i < file_transfer::completed_paths(m.transfers).len() ==> paths::lies_in(
                m.staging_dir,
                #[trigger] file_transfer::completed_paths(m.transfers)[i],
            ),
        match m.size_plan(stream_id, size) {
            SizePlanView::Nothing => true,
            SizePlanView::CreateFile { path, .. } => paths::lies_in(m.staging_dir, path),
            SizePlanView::CreateTemp { path, .. } => paths::lies_in(m.staging_dir, path),
        },
        match m.content_plan(stream_id, len) {
            ContentPlanView::WriteAndRename { from, to, .. } => paths::lies_in(m.staging_dir, from)
                && paths::lies_in(m.staging_dir, to),
            _ => true,
        },
{
    let name = m.transfers[m.streams[stream_id] as int].file_name;
    if paths::is_plain(name) {
        file_transfer::lemma_temp_name_plain(name);
    }
    lemma_completed_in(m.staging_dir, m.transfers);
}

/// Complete files lie in a directory where each of them does.
proof fn lemma_completed_in(dir: Seq<char>, transfers: Seq<TransferView>)
    requires
        forall|i: int|
            0 <= i < transfers.len() && (#[trigger] transfers[i]).state is Completed
                ==> paths::lies_in(dir, transfers[i].state->path),
    ensures
        forall|i: int|
            0 <= i < file_transfer::completed_paths(transfers).len() ==> paths::lies_in(
                dir,
                #[trigger] file_transfer::completed_paths(transfers)[i],
            ),
    decreases transfers.len(),
{
    if transfers.len() > 0 {
        let front = transfers.drop_last();
        assert forall|i: int|
            0 <= i < front.len() && (#[trigger] front[i]).state is Completed implies paths::lies_in(
            dir,
            front[i].state->path,
        ) by {
            assert(front[i] == transfers[i]);
        }
        lemma_completed_in(dir, front);
        let all = file_transfer::completed_paths(transfers);
        let shorter = file_transfer::completed_paths(front);
        assert forall|i: int| 0 <= i < all.len() implies paths::lies_in(dir, #[trigger] all[i]) by {
            if i < shorter.len() {
                assert(all[i] == shorter[i]);
            } else {
                assert(transfers[transfers.len() - 1].state is Completed);
            }
        }
    }
}

/// A file whose name would lead out of the staging directory is never asked for.
pub proof fn law_bad_name_refused(
    m: ManagerView,
    stream_id: u32,
    size: u64,
    outcome: Option<Seq<char>>,
)
    requires
        m.wf(),
        m.streams.contains_key(stream_id),
        m.transfers[m.streams[stream_id] as int].state is AwaitingSize,
        !paths::is_plain(m.transfers[m.streams[stream_id] as int].file_name),
    ensures
        m.size_plan(stream_id, size) == SizePlanView::Nothing,
        m.on_size(stream_id, size, outcome).1 == Ok::<Option<ContentRequest>, Seq<char>>(None),
        m.on_size(stream_id, size, outcome).0.transfers[m.streams[stream_id] as int].state
            is Failed,
{
}

/// Parts follow one another: after `len` bytes the next request starts where they
/// end, is no longer than a chunk and stays within the file; once all bytes are
/// there, the file is complete.
pub proof fn law_download_progress(m: ManagerView, stream_id: u32, i: u32, len: int)
    requires
        live(m, stream_id, i),
        m.chunk_size > 0,
        0 <= len,
    ensures
        ({
            let (next, r) = m.on_content(stream_id, len, None, None);
            if received(m, i) + len >= total(m, i) {
                &&& r == Ok::<Option<ContentRequest>, Seq<char>>(None)
                &&& next.transfers[i as int].state == (StateView::Completed {
                    path: m.final_path(i),
                })
                &&& next.transfers[i as int].temp_path is None
                &&& next.wf()
            } else {
                &&& r matches Ok(Some((id, file, offset, n)))
                &&& file == i && offset == received(m, i) + len
                &&& 0 < n <= m.chunk_size && offset + n <= total(m, i)
                &&& live(next, id, i)
                &&& total(next, i) == total(m, i) && received(next, i) == offset
            }
        }),
{
    let next = m.on_content(stream_id, len, None, None).0;
    assert(next.transfers.len() == m.transfers.len());
}

/// The downloads after the server answered up to `answers` requests for parts of
/// one file, each with as many bytes as were asked for.
pub open spec fn answered_in_full(m: ManagerView, stream_id: u32, answers: nat) -> ManagerView
    decreases answers,
{
    let i = m.streams[stream_id];
    if answers == 0 || !live(m, stream_id, i) {
        m
    } else {
        let len = file_transfer::chunk_len(m.chunk_size, (total(m, i) - received(m, i)) as u64);
        let (next, r) = m.on_content(stream_id, len as int, None, None);
        match r {
            Ok(Some(q)) => answered_in_full(next, q.0, (answers - 1) as nat),
            _ => next,
        }
    }
}

/// A server that answers every request in full completes the file, in no more
/// answers than bytes were missing.
pub proof fn law_download_completes(m: ManagerView, stream_id: u32, i: u32, answers: nat)
    requires
        live(m, stream_id, i),
        m.chunk_size > 0,
        answers >= total(m, i) - received(m, i),
    ensures
        answered_in_full(m, stream_id, answers).transfers[i as int].state == (
        StateView::Completed { path: m.final_path(i) }),
    decreases answers,
{
    let len = file_transfer::chunk_len(m.chunk_size, (total(m, i) - received(m, i)) as u64);
    law_download_progress(m, stream_id, i, len as int);
    let (next, r) = m.on_content(stream_id, len as int, None, None);
    match r {
        Ok(Some(q)) => {
            law_download_completes(next, q.0, i, (answers - 1) as nat);
            assert(next.final_path(i) == m.final_path(i));
        },
        _ => {},
    }
}

/// An answer to an unknown request changes nothing.
pub proof fn law_unknown_stream_ignored(
    m: ManagerView,
    stream_id: u32,
    size: u64,
    len: int,
    a: Option<Seq<char>>,
    b: Option<Seq<char>>,
)
    requires
        !m.streams.contains_key(stream_id),
    ensures
        m.on_size(stream_id, size, a).0 == m,
        m.on_size(stream_id, size, a).1 is Err,
        m.on_content(stream_id, len, a, b).0 == m,
        m.on_content(stream_id, len, a, b).1 is Err,
        m.on_failure(stream_id).0 == m,
{
}

/// An answer about one file leaves the others as they are.
pub proof fn law_other_files_untouched(
    m: ManagerView,
    stream_id: u32,
    j: int,
    size: u64,
    len: int,
    a: Option<Seq<char>>,
    b: Option<Seq<char>>,
)
    requires
        m.wf(),
        m.streams.contains_key(stream_id),
        0 <= j < m.transfers.len(),
        j != m.streams[stream_id],
    ensures
        m.on_size(stream_id, size, a).0.transfers[j] == m.transfers[j],
        m.on_content(stream_id, len, a, b).0.transfers[j] == m.transfers[j],
        m.on_failure(stream_id).0.transfers[j] == m.transfers[j],
{
}

/// A refused request ends the download.
pub proof fn law_failure_ends_download(m: ManagerView, stream_id: u32)
    requires
        m.wf(),
        m.streams.contains_key(stream_id),
    ensures
        ({
            let i = m.streams[stream_id];
            let next = m.on_failure(stream_id).0;
            &&& next.transfers[i as int].state is Failed
            &&& next.transfers[i as int].temp_path is None
            &&& !next.streams.contains_key(stream_id)
        }),
{
}

/// The download that begins is the first that can, directories left out.
pub proof fn law_first_waiting_begins(m: ManagerView, from: int)
    requires
        0 <= from <= m.transfers.len(),
    ensures
        from <= m.first_waiting(from) <= m.transfers.len(),
        m.first_waiting(from) < m.transfers.len() ==> m.transfers[m.first_waiting(from)].waiting(),
        forall|j: int|
            from <= j < m.first_waiting(from) ==> !(#[trigger] m.transfers[j]).waiting(),
    decreases m.transfers.len() - from,
{
    if from < m.transfers.len() && !m.transfers[from].waiting() {
        law_first_waiting_begins(m, from + 1);
    }
}

/// A file of up to a gibibyte is taken, in parts of 65536 bytes. Downloads begin with
/// no file and with the identifier one; identifiers count up, and after the last one follows zero.
pub proof fn law_download_settings(staging_dir: Seq<char>, id: u32)
    ensures
        file_transfer::MAX_FILE_SIZE == 1073741824,
        file_transfer::DEFAULT_CHUNK_SIZE == 65536,
        ({
            let m = file_transfer::fresh_manager(staging_dir);
            &&& m.staging_dir == staging_dir
            &&& m.transfers.len() == 0 && m.streams == Map::<u32, u32>::empty()
            &&& m.next_stream_id == 1 && m.chunk_size == 65536
        }),
        id < u32::MAX ==> cliprdr::following_id(id) == id + 1,
        cliprdr::following_id(u32::MAX) == 0,
{
}

/// A file lies in the staging directory under its own name, and is called
/// `.name.part` there while it is downloaded.
pub proof fn law_paths_in_staging(m: ManagerView, i: u32)
    requires
        m.staging_dir.len() > 0,
        m.staging_dir.last() != '/',
        paths::is_plain(m.transfers[i as int].file_name),
    ensures
        ({
            let name = m.transfers[i as int].file_name;
            &&& m.final_path(i) == m.staging_dir + seq!['/'] + name
            &&& m.temp_path(i) == m.staging_dir + seq!['/', '.'] + name + seq![
                '.',
                'p',
                'a',
                'r',
                't',
            ]
            &&& m.final_path(i) != m.temp_path(i)
        }),
{
    let name = m.transfers[i as int].file_name;
    reveal_strlit(".part");
    if name[0] == '/' {
        assert(name.contains(name[0]));
    }
    paths::law_name_in_directory(m.staging_dir, name);
    paths::law_name_in_directory(m.staging_dir, file_transfer::temp_name(name));
    assert(m.temp_path(i) =~= m.staging_dir + seq!['/', '.'] + name + seq![
        '.',
        'p',
        'a',
        'r',
        't',
    ]);
    assert(m.final_path(i).len() != m.temp_path(i).len());
}

/// What a size leads to: an empty file is created at once and is complete, a file of up
/// to a gibibyte is begun, and a larger one is given up; the answer is used up.
pub proof fn law_size_decides_download(m: ManagerView, stream_id: u32, size: u64, e: Seq<char>)
    requires
        m.wf(),
        m.streams.contains_key(stream_id),
        m.transfers[m.streams[stream_id] as int].state is AwaitingSize,
        paths::is_plain(m.transfers[m.streams[stream_id] as int].file_name),
        stream_id != m.next_stream_id,
    ensures
        ({
            let i = m.streams[stream_id];
            let (done, answer) = m.on_size(stream_id, size, None);
            let (failed, refusal) = m.on_size(stream_id, size, Some(e));
            let state = done.transfers[i as int].state;
            &&& !done.streams.contains_key(stream_id)
            &&& size == 0 ==> {
                &&& m.size_plan(stream_id, size) == (SizePlanView::CreateFile {
                    file_index: i,
                    path: m.final_path(i),
                })
                &&& state == (StateView::Completed { path: m.final_path(i) })
                &&& answer == Ok::<Option<ContentRequest>, Seq<char>>(None)
                &&& failed.transfers[i as int].state matches StateView::Failed { error }
                &&& e.is_suffix_of(error)
            }
            &&& 0 < size <= 1073741824 ==> {
                &&& m.size_plan(stream_id, size) == (SizePlanView::CreateTemp {
                    file_index: i,
                    path: m.temp_path(i),
                })
                &&& state == (StateView::Downloading {
                    total_size: size,
                    bytes_received: 0,
                    current_stream_id: m.next_stream_id,
                })
                &&& done.transfers[i as int].temp_path == Some(m.temp_path(i))
                &&& done.streams.contains_key(m.next_stream_id)
                &&& done.streams[m.next_stream_id] == i
                &&& refusal matches Err(s)
                &&& e.is_suffix_of(s)
            }
            &&& size > 1073741824 ==> {
                &&& m.size_plan(stream_id, size) == SizePlanView::Nothing
                &&& state is Failed && answer == Ok::<Option<ContentRequest>, Seq<char>>(None)
                &&& text::occurs(state->error, text::decimal(size as nat))
            }
        }),
{
    let a = "Failed to create file: "@ + e;
    let b = "Failed to create temp file: "@ + e;
    assert(a.subrange(a.len() - e.len(), a.len() as int) =~= e);
    assert(b.subrange(b.len() - e.len(), b.len() as int) =~= e);
    if size > 1073741824 {
        let n = text::decimal(size as nat);
        let after = " bytes (max "@ + text::decimal(file_transfer::MAX_FILE_SIZE as nat) + ")"@;
        text::law_part_occurs("File too large: "@, n, after);
        assert("File too large: "@ + n + " bytes (max "@ + text::decimal(
            file_transfer::MAX_FILE_SIZE as nat,
        ) + ")"@ =~= "File too large: "@ + n + after);
    }
}

/// The length that is asked for: a whole chunk, or what is left where that is less.
pub proof fn law_parts_are_chunks(chunk_size: u32, left: u64)
    ensures
        file_transfer::chunk_len(chunk_size, left) <= chunk_size,
        file_transfer::chunk_len(chunk_size, left) <= left,
        file_transfer::chunk_len(chunk_size, left) == chunk_size
            || file_transfer::chunk_len(chunk_size, left) == left,
{
}

/// What is done with the bytes of a part: they are written, and with the last of them
/// the file gets its name.
pub proof fn law_last_part_names_file(
    m: ManagerView,
    stream_id: u32,
    i: u32,
    len: int,
    e: Seq<char>,
)
    requires
        live(m, stream_id, i),
        0 <= len,
    ensures
        received(m, i) + len < total(m, i) ==> m.content_plan(stream_id, len) == (
        ContentPlanView::Write { file_index: i }),
        received(m, i) + len >= total(m, i) ==> m.content_plan(stream_id, len) == (
        ContentPlanView::WriteAndRename {
            file_index: i,
            from: m.transfers[i as int].temp_path->0,
            to: m.final_path(i),
        }),
        match m.on_content(stream_id, len, Some(e), None).1 {
            Err(s) => e.is_suffix_of(s),
            Ok(_) => false,
        },
        m.on_content(stream_id, len, Some(e), None).0.transfers == m.transfers,
        received(m, i) + len >= total(m, i) ==> match m.on_content(
            stream_id,
            len,
            None,
            Some(e),
        ).1 {
            Err(s) => e.is_suffix_of(s),
            Ok(_) => false,
        },
{
    let a = "Write failed: "@ + e;
    let b = "Failed to rename temp file: "@ + e;
    assert(a.subrange(a.len() - e.len(), a.len() as int) =~= e);
    assert(b.subrange(b.len() - e.len(), b.len() as int) =~= e);
}

/// Where the server refuses a file, what was downloaded of it is removed.
pub proof fn law_failure_removes_temporary(m: ManagerView, stream_id: u32)
    requires
        m.wf(),
    ensures
        m.streams.contains_key(stream_id) ==> m.on_failure(stream_id).1
            == m.transfers[m.streams[stream_id] as int].temp_path,
        !m.streams.contains_key(stream_id) ==> m.on_failure(stream_id) == (
            m,
            None::<Seq<char>>,
        ),
{
}

/// The download that begins waits for its size under the identifier that is next.
pub proof fn law_start_asks_for_size(m: ManagerView)
    requires
        m.wf(),
    ensures
        match m.on_start() {
            (next, Some((id, i))) => {
                &&& i < m.transfers.len() && m.transfers[i as int].waiting()
                &&& forall|j: int| 0 <= j < i ==> !(#[trigger] m.transfers[j]).waiting()
                &&& id == m.next_stream_id
                &&& next.transfers[i as int].state == (StateView::AwaitingSize { stream_id: id })
                &&& next.transfers[i as int].file_name == m.transfers[i as int].file_name
                &&& next.streams.contains_key(id) && next.streams[id] == i
                &&& next.next_stream_id == cliprdr::following_id(id)
                &&& next.staging_dir == m.staging_dir && next.chunk_size == m.chunk_size
            },
            (next, None) => {
                &&& next == m
                &&& forall|j: int|
                    0 <= j < m.transfers.len() ==> !(#[trigger] m.transfers[j]).waiting()
            },
        },
{
    law_first_waiting_begins(m, 0);
}

/// A transfer waits as long as nothing was asked of it and it is no directory; it is
/// under way from then on until it is complete or has failed.
pub proof fn law_states_are_told_apart(t: TransferView)
    ensures
        t.waiting() <==> t.state is Pending && !t.is_directory,
        t.state.active() <==> t.state is AwaitingSize || t.state is Downloading,
        file_transfer::is_counted(Counted::Waiting, t) <==> t.waiting(),
        file_transfer::is_counted(Counted::Active, t) <==> t.state.active(),
        file_transfer::is_counted(Counted::Completed, t) <==> t.state is Completed,
{
}

/// Counts go transfer by transfer; there are as many complete files as complete
/// transfers, in the order of the transfers, and as many temporary files as transfers
/// that have one.
pub proof fn law_transfers_are_counted(s: Seq<TransferView>, t: TransferView, which: Counted)
    ensures
        file_transfer::count_of(which, s.push(t)) == file_transfer::count_of(which, s) + if (
        file_transfer::is_counted(which, t)) {
            1int
        } else {
            0
        },
        file_transfer::count_of(which, Seq::empty()) == 0,
        t.state matches StateView::Completed { path } ==> file_transfer::completed_paths(s.push(t))
            == file_transfer::completed_paths(s).push(path),
        !(t.state is Completed) ==> file_transfer::completed_paths(s.push(t))
            == file_transfer::completed_paths(s),
        file_transfer::completed_paths(Seq::empty()).len() == 0,
        t.temp_path matches Some(p) ==> file_transfer::open_temps(s.push(t))
            == file_transfer::open_temps(s).push(p),
        t.temp_path is None ==> file_transfer::open_temps(s.push(t)) == file_transfer::open_temps(
            s,
        ),
        file_transfer::open_temps(Seq::empty()).len() == 0,
{
    assert(s.push(t).drop_last() =~= s);
}

/// There are as many complete files as complete transfers.
pub proof fn law_complete_files_are_counted(s: Seq<TransferView>)
    ensures
        file_transfer::completed_paths(s).len() == file_transfer::count_of(Counted::Completed, s),
    decreases s.len(),
{
    if s.len() > 0 {
        law_complete_files_are_counted(s.drop_last());
    }
}

/// New transfers wait, numbered in the order of the list, under the names and with the
/// sizes of the list; a list does away with what was there before.
pub proof fn law_listed_files_wait(
    files: Seq<(String, Option<u64>, bool)>,
    m: ManagerView,
    i: int,
)
    requires
        0 <= i < files.len() <= u32::MAX,
    ensures
        ({
            let t = file_transfer::fresh_transfers(files)[i];
            &&& file_transfer::fresh_transfers(files).len() == files.len()
            &&& t.file_index == i && t.file_name == files[i].0@
            &&& t.declared_size == files[i].1 && t.is_directory == files[i].2
            &&& t.state is Pending && t.temp_path is None
        }),
        m.cleared().transfers.len() == 0,
        m.cleared().streams == Map::<u32, u32>::empty(),
        m.cleared().staging_dir == m.staging_dir && m.cleared().chunk_size == m.chunk_size,
        m.cleared().next_stream_id == m.next_stream_id,
        m.temp_files() == file_transfer::open_temps(m.transfers),
{
}

/// Files are staged below the directory of the user's session where there is one, or
/// else below the directory for temporary files, apart for each process.
pub proof fn law_staging_directory(dir: Seq<char>, pid: u32)
    requires
        dir.len() > 0,
        dir.last() != '/',
    ensures
        file_transfer::staging_dir_for(Some(dir), Seq::empty(), pid) == dir + "/yard/clipboard"@,
        file_transfer::staging_dir_for(None, dir, pid) == dir + "/yard-clipboard-"@
            + text::decimal(pid as nat),
{
    reveal_strlit("yard");
    reveal_strlit("clipboard");
    reveal_strlit("/yard/clipboard");
    reveal_strlit("yard-clipboard-");
    reveal_strlit("/yard-clipboard-");
    assert(file_transfer::staging_dir_for(Some(dir), Seq::empty(), pid) =~= dir
        + "/yard/clipboard"@);
    assert(file_transfer::staging_dir_for(None, dir, pid) =~= dir + "/yard-clipboard-"@
        + text::decimal(pid as nat));
}

} // verus!
