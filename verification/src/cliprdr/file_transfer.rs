//! Downloading the files of the remote clipboard into a staging directory.
//!
//! A file is downloaded in three steps: its size is asked for, then its parts one
//! after the other, and at last the temporary file that holds them is renamed.
//! The manager decides what is asked for and which file operations are due. The
//! program around it performs the operation that a plan names and hands the
//! outcome back.
use vstd::prelude::*;

use std::collections::HashMap;

use crate::cliprdr;
use crate::paths;
use crate::text;
use crate::views;

verus! {

broadcast use vstd::std_specs::hash::group_hash_axioms;

/// How many bytes of a file are asked for at once.
pub const DEFAULT_CHUNK_SIZE: u32 = 65536;

/// The largest file that is downloaded.
pub const MAX_FILE_SIZE: u64 = 1073741824;

/// How far a download is.
#[derive(Debug, Clone, PartialEq, Eq)]
pub enum FileTransferState {
    /// It has not begun.
    Pending,
    /// The size was asked for.
    AwaitingSize {
        /// The identifier of the request.
        stream_id: u32,
    },
    /// Parts are being asked for.
    Downloading {
        /// The size of the file.
        total_size: u64,
        /// How many bytes have arrived.
        bytes_received: u64,
        /// The identifier of the last request.
        current_stream_id: u32,
    },
    /// The file is there.
    Completed {
        /// Where it is.
        path: String,
    },
    /// The download failed.
    Failed {
        /// Why.
        error: String,
    },
}

/// The view of `FileTransferState`.
pub enum StateView {
    /// It has not begun.
    Pending,
    /// The size was asked for.
    AwaitingSize {
        /// The identifier of the request.
        stream_id: u32,
    },
    /// Parts are being asked for.
    Downloading {
        /// The size of the file.
        total_size: u64,
        /// How many bytes have arrived.
        bytes_received: u64,
        /// The identifier of the last request.
        current_stream_id: u32,
    },
    /// The file is there.
    Completed {
        /// Where it is.
        path: Seq<char>,
    },
    /// The download failed.
    Failed {
        /// Why.
        error: Seq<char>,
    },
}

impl View for FileTransferState {
    type V = StateView;

    open spec fn view(&self) -> StateView {
        match *self {
            FileTransferState::Pending => StateView::Pending,
            FileTransferState::AwaitingSize { stream_id } => StateView::AwaitingSize { stream_id },
            FileTransferState::Downloading { total_size, bytes_received, current_stream_id } => {
                StateView::Downloading { total_size, bytes_received, current_stream_id }
            },
            FileTransferState::Completed { path } => StateView::Completed { path: path@ },
            FileTransferState::Failed { error } => StateView::Failed { error: error@ },
        }
    }
}

impl StateView {
    /// The state as it is written in errors.
    pub open spec fn text(self) -> Seq<char> {
        match self {
            StateView::Pending => "Pending"@,
            StateView::AwaitingSize { stream_id } => "AwaitingSize { stream_id: "@ + text::decimal(
                stream_id as nat,
            ) + " }"@,
            StateView::Downloading { total_size, bytes_received, current_stream_id } => {
                "Downloading { total_size: "@ + text::decimal(total_size as nat)
                    + ", bytes_received: "@ + text::decimal(bytes_received as nat)
                    + ", current_stream_id: "@ + text::decimal(current_stream_id as nat) + " }"@
            },
            StateView::Completed { path } => "Completed { path: "@ + text::quoted(path) + " }"@,
            StateView::Failed { error } => "Failed { error: "@ + text::quoted(error) + " }"@,
        }
    }

    /// A request is under way.
    pub open spec fn active(self) -> bool {
        self is AwaitingSize || self is Downloading
    }
}

/// Appends a state as it is written in errors.
fn push_state(out: &mut String, state: &FileTransferState)
    ensures
        final(out)@ == old(out)@ + state@.text(),
{
    let ghost before = out@;
    match state {
        FileTransferState::Pending => {
            out.push_str("Pending");
        },
        FileTransferState::AwaitingSize { stream_id } => {
            out.push_str("AwaitingSize { stream_id: ");
            text::push_decimal(out, *stream_id as u64);
            out.push_str(" }");
        },
        FileTransferState::Downloading { total_size, bytes_received, current_stream_id } => {
            out.push_str("Downloading { total_size: ");
            text::push_decimal(out, *total_size);
            out.push_str(", bytes_received: ");
            text::push_decimal(out, *bytes_received);
            out.push_str(", current_stream_id: ");
            text::push_decimal(out, *current_stream_id as u64);
            out.push_str(" }");
        },
        FileTransferState::Completed { path } => {
            out.push_str("Completed { path: ");
            text::push_quoted(out, path.as_str());
            out.push_str(" }");
        },
        FileTransferState::Failed { error } => {
            out.push_str("Failed { error: ");
            text::push_quoted(out, error.as_str());
            out.push_str(" }");
        },
    }
    assert(out@ == before + state@.text());
}

/// One file that is to be downloaded.
#[derive(Debug)]
pub struct PendingFileTransfer {
    /// Its place in the file list.
    pub file_index: u32,
    /// Its name, as the server gave it.
    pub file_name: String,
    /// Its size according to the file list.
    pub declared_size: Option<u64>,
    /// Whether it is a directory.
    pub is_directory: bool,
    /// How far the download is.
    pub state: FileTransferState,
    /// The temporary file that is open for it.
    pub temp_path: Option<String>,
}

/// The view of `PendingFileTransfer`.
pub struct TransferView {
    /// Its place in the file list.
    pub file_index: u32,
    /// Its name, as the server gave it.
    pub file_name: Seq<char>,
    /// Its size according to the file list.
    pub declared_size: Option<u64>,
    /// Whether it is a directory.
    pub is_directory: bool,
    /// How far the download is.
    pub state: StateView,
    /// The temporary file that is open for it.
    pub temp_path: Option<Seq<char>>,
}

impl View for PendingFileTransfer {
    type V = TransferView;

    open spec fn view(&self) -> TransferView {
        TransferView {
            file_index: self.file_index,
            file_name: self.file_name@,
            declared_size: self.declared_size,
            is_directory: self.is_directory,
            state: self.state@,
            temp_path: views::option_view(self.temp_path),
        }
    }
}

impl TransferView {
    /// A download that has not begun.
    pub open spec fn fresh(
        file_index: u32,
        file_name: Seq<char>,
        declared_size: Option<u64>,
        is_directory: bool,
    ) -> TransferView {
        TransferView {
            file_index,
            file_name,
            declared_size,
            is_directory,
            state: StateView::Pending,
            temp_path: None,
        }
    }

    /// The download can begin.
    pub open spec fn waiting(self) -> bool {
        self.state is Pending && !self.is_directory
    }
}

impl PendingFileTransfer {
    /// A download that has not begun.
    pub fn new(
        file_index: u32,
        file_name: String,
        declared_size: Option<u64>,
        is_directory: bool,
    ) -> (t: PendingFileTransfer)
        ensures
            t@ == TransferView::fresh(file_index, file_name@, declared_size, is_directory),
    {
        PendingFileTransfer {
            file_index,
            file_name,
            declared_size,
            is_directory,
            state: FileTransferState::Pending,
            temp_path: None,
        }
    }

    /// Where the file is, once it is there.
    pub fn final_path(&self) -> (p: Option<&str>)
        ensures
            p is Some <==> self@.state is Completed,
            p matches Some(s) ==> s@ == self@.state->path,
    {
        match &self.state {
            FileTransferState::Completed { path } => Some(path.as_str()),
            _ => None,
        }
    }

    /// Tests whether the download can begin.
    fn is_waiting(&self) -> (b: bool)
        ensures
            b == self@.waiting(),
    {
        match &self.state {
            FileTransferState::Pending => !self.is_directory,
            _ => false,
        }
    }
}

/// The downloads of one file list.
#[derive(Debug)]
pub struct FileTransferManager {
    staging_dir: String,
    stream_to_file: HashMap<u32, u32>,
    transfers: Vec<PendingFileTransfer>,
    next_stream_id: u32,
    chunk_size: u32,
}

/// The view of `FileTransferManager`.
pub struct ManagerView {
    /// Where the files are put.
    pub staging_dir: Seq<char>,
    /// The file that each unanswered request is about.
    pub streams: Map<u32, u32>,
    /// The downloads, in the order of the file list.
    pub transfers: Seq<TransferView>,
    /// The identifier of the next request.
    pub next_stream_id: u32,
    /// How many bytes are asked for at once.
    pub chunk_size: u32,
}

impl View for FileTransferManager {
    type V = ManagerView;

    closed spec fn view(&self) -> ManagerView {
        ManagerView {
            staging_dir: self.staging_dir@,
            streams: self.stream_to_file@,
            transfers: views::seq_view(self.transfers@),
            next_stream_id: self.next_stream_id,
            chunk_size: self.chunk_size,
        }
    }
}

/// What the program has to do before a size is handled.
#[derive(Debug)]
pub enum SizePlan {
    /// Nothing.
    Nothing,
    /// Create the file itself, which is empty.
    CreateFile {
        /// The place of the file in the list.
        file_index: u32,
        /// The file to create.
        path: String,
    },
    /// Create the temporary file and keep it open.
    CreateTemp {
        /// The place of the file in the list.
        file_index: u32,
        /// The file to create.
        path: String,
    },
}

/// The view of `SizePlan`.
pub enum SizePlanView {
    /// Nothing.
    Nothing,
    /// Create the file itself, which is empty.
    CreateFile {
        /// The place of the file in the list.
        file_index: u32,
        /// The file to create.
        path: Seq<char>,
    },
    /// Create the temporary file and keep it open.
    CreateTemp {
        /// The place of the file in the list.
        file_index: u32,
        /// The file to create.
        path: Seq<char>,
    },
}

impl View for SizePlan {
    type V = SizePlanView;

    open spec fn view(&self) -> SizePlanView {
        match *self {
            SizePlan::Nothing => SizePlanView::Nothing,
            SizePlan::CreateFile { file_index, path } => {
                SizePlanView::CreateFile { file_index, path: path@ }
            },
            SizePlan::CreateTemp { file_index, path } => {
                SizePlanView::CreateTemp { file_index, path: path@ }
            },
        }
    }
}

/// What the program has to do before a part is handled.
#[derive(Debug)]
pub enum ContentPlan {
    /// Nothing.
    Nothing,
    /// Write the part to the open temporary file.
    Write {
        /// The place of the file in the list.
        file_index: u32,
    },
    /// Write the part, close the temporary file and rename it.
    WriteAndRename {
        /// The place of the file in the list.
        file_index: u32,
        /// The temporary file.
        from: String,
        /// Its name from then on.
        to: String,
    },
}

/// The view of `ContentPlan`.
pub enum ContentPlanView {
    /// Nothing.
    Nothing,
    /// Write the part to the open temporary file.
    Write {
        /// The place of the file in the list.
        file_index: u32,
    },
    /// Write the part, close the temporary file and rename it.
    WriteAndRename {
        /// The place of the file in the list.
        file_index: u32,
        /// The temporary file.
        from: Seq<char>,
        /// Its name from then on.
        to: Seq<char>,
    },
}

impl View for ContentPlan {
    type V = ContentPlanView;

    open spec fn view(&self) -> ContentPlanView {
        match *self {
            ContentPlan::Nothing => ContentPlanView::Nothing,
            ContentPlan::Write { file_index } => ContentPlanView::Write { file_index },
            ContentPlan::WriteAndRename { file_index, from, to } => {
                ContentPlanView::WriteAndRename { file_index, from: from@, to: to@ }
            },
        }
    }
}

/// The outcome of a file operation: the text of the error where it failed.
pub open spec fn outcome_view(r: Result<(), String>) -> Option<Seq<char>> {
    match r {
        Ok(_) => None,
        Err(e) => Some(e@),
    }
}

/// A request for a part: stream identifier, place of the file in the list, where
/// the part starts, how many bytes it has.
pub type ContentRequest = (u32, u32, u64, u32);

/// The outcome of handling an answer, by its view.
pub open spec fn request_view(r: Result<Option<ContentRequest>, String>) -> Result<
    Option<ContentRequest>,
    Seq<char>,
> {
    match r {
        Ok(q) => Ok(q),
        Err(e) => Err(e@),
    }
}

/// The temporary name of a file.
pub open spec fn temp_name(file_name: Seq<char>) -> Seq<char> {
    seq!['.'] + file_name + ".part"@
}

/// The temporary name of a file in a directory is that of a file in it, too.
pub proof fn lemma_temp_name_plain(file_name: Seq<char>)
    requires
        paths::is_plain(file_name),
    ensures
        paths::is_plain(temp_name(file_name)),
{
    reveal_strlit(".part");
    reveal_strlit(".");
    reveal_strlit("..");
    let name = temp_name(file_name);
    assert(name.len() == file_name.len() + 6);
    assert forall|i: int| 0 <= i < name.len() implies name[i] != '/' by {
        if 1 <= i <= file_name.len() {
            assert(name[i] == file_name[i - 1]);
            assert(!file_name.contains('/'));
        }
    }
}

/// The smaller of the chunk size and what is left.
pub open spec fn chunk_len(chunk_size: u32, left: u64) -> u32 {
    if left < chunk_size {
        left as u32
    } else {
        chunk_size
    }
}

impl ManagerView {
    /// Every unanswered request is about a file of the list, every file knows its
    /// place, and a file that is being downloaded is within the limit and not
    /// complete. Files, complete or not, lie in the staging directory.
    pub open spec fn wf(self) -> bool {
        &&& self.transfers.len() <= u32::MAX
        &&& forall|s: u32| #[trigger]
            self.streams.contains_key(s) ==> self.streams[s] < self.transfers.len()
        &&& forall|i: int|
            0 <= i < self.transfers.len() ==> (#[trigger] self.transfers[i]).file_index == i
        &&& forall|i: int|
            0 <= i < self.transfers.len() ==> match (#[trigger] self.transfers[i]).state {
                StateView::Downloading { total_size, bytes_received, .. } => bytes_received
                    < total_size <= MAX_FILE_SIZE && paths::is_plain(self.transfers[i].file_name),
                StateView::Completed { path } => paths::lies_in(self.staging_dir, path),
                _ => true,
            }
        &&& forall|i: int|
            0 <= i < self.transfers.len() && (#[trigger] self.transfers[i]).temp_path is Some
                ==> paths::lies_in(self.staging_dir, self.transfers[i].temp_path->0)
    }

    /// The manager with another state of one download.
    pub open spec fn with_state(self, i: u32, state: StateView) -> ManagerView {
        ManagerView {
            transfers: self.transfers.update(
                i as int,
                TransferView { state, ..self.transfers[i as int] },
            ),
            ..self
        }
    }

    /// The manager with another temporary file of one download.
    pub open spec fn with_temp(self, i: u32, temp_path: Option<Seq<char>>) -> ManagerView {
        ManagerView {
            transfers: self.transfers.update(
                i as int,
                TransferView { temp_path, ..self.transfers[i as int] },
            ),
            ..self
        }
    }

    /// The manager after it gave out a stream identifier for a file.
    pub open spec fn with_stream(self, i: u32) -> ManagerView {
        ManagerView {
            streams: self.streams.insert(self.next_stream_id, i),
            next_stream_id: cliprdr::following_id(self.next_stream_id),
            ..self
        }
    }

    /// The manager after a request was answered.
    pub open spec fn answered(self, stream_id: u32) -> ManagerView {
        ManagerView { streams: self.streams.remove(stream_id), ..self }
    }

    /// Where a file is put.
    pub open spec fn final_path(self, i: u32) -> Seq<char> {
        paths::joined(self.staging_dir, self.transfers[i as int].file_name)
    }

    /// Where the parts of a file are put before it is complete.
    pub open spec fn temp_path(self, i: u32) -> Seq<char> {
        paths::joined(self.staging_dir, temp_name(self.transfers[i as int].file_name))
    }

    /// What has to be done before a size is handled.
    pub open spec fn size_plan(self, stream_id: u32, size: u64) -> SizePlanView {
        let i = self.streams[stream_id];
        if !self.streams.contains_key(stream_id) || !(self.transfers[i as int].state is AwaitingSize)
            || !paths::is_plain(self.transfers[i as int].file_name) || size > MAX_FILE_SIZE {
            SizePlanView::Nothing
        } else if size == 0 {
            SizePlanView::CreateFile { file_index: i, path: self.final_path(i) }
        } else {
            SizePlanView::CreateTemp { file_index: i, path: self.temp_path(i) }
        }
    }

    /// What a size leads to, where the planned operation had the given outcome.
    pub open spec fn on_size(self, stream_id: u32, size: u64, outcome: Option<Seq<char>>) -> (
        ManagerView,
        Result<Option<ContentRequest>, Seq<char>>,
    ) {
        let i = self.streams[stream_id];
        let m = self.answered(stream_id);
        let state = self.transfers[i as int].state;
        if !self.streams.contains_key(stream_id) {
            (self, Err("Unknown stream_id: "@ + text::decimal(stream_id as nat)))
        } else if !(state is AwaitingSize) {
            (
                m,
                Err(
                    "Unexpected size response for file "@ + text::decimal(i as nat) + " in state "@
                        + state.text(),
                ),
            )
        } else if !paths::is_plain(self.transfers[i as int].file_name) {
            (
                m.with_state(
                    i,
                    StateView::Failed {
                        error: "Invalid file name: "@ + self.transfers[i as int].file_name,
                    },
                ),
                Ok(None),
            )
        } else if size > MAX_FILE_SIZE {
            (
                m.with_state(
                    i,
                    StateView::Failed {
                        error: "File too large: "@ + text::decimal(size as nat) + " bytes (max "@
                            + text::decimal(MAX_FILE_SIZE as nat) + ")"@,
                    },
                ),
                Ok(None),
            )
        } else if size == 0 {
            match outcome {
                None => (
                    m.with_state(i, StateView::Completed { path: self.final_path(i) }),
                    Ok(None),
                ),
                Some(e) => (
                    m.with_state(i, StateView::Failed { error: "Failed to create file: "@ + e }),
                    Ok(None),
                ),
            }
        } else {
            match outcome {
                None => (
                    m.with_state(
                        i,
                        StateView::Downloading {
                            total_size: size,
                            bytes_received: 0,
                            current_stream_id: self.next_stream_id,
                        },
                    ).with_temp(i, Some(self.temp_path(i))).with_stream(i),
                    Ok(Some((self.next_stream_id, i, 0, chunk_len(self.chunk_size, size)))),
                ),
                Some(e) => (m, Err("Failed to create temp file: "@ + e)),
            }
        }
    }

    /// What has to be done before a part of `len` bytes is handled.
    pub open spec fn content_plan(self, stream_id: u32, len: int) -> ContentPlanView {
        let i = self.streams[stream_id];
        if !self.streams.contains_key(stream_id) {
            ContentPlanView::Nothing
        } else {
            match (self.transfers[i as int].state, self.transfers[i as int].temp_path) {
                (
                    StateView::Downloading { total_size, bytes_received, .. },
                    Some(from),
                ) => if bytes_received + len >= total_size {
                    ContentPlanView::WriteAndRename { file_index: i, from, to: self.final_path(i) }
                } else {
                    ContentPlanView::Write { file_index: i }
                },
                _ => ContentPlanView::Nothing,
            }
        }
    }

    /// What a part of `len` bytes leads to, where the planned operations had the
    /// given outcomes.
    pub open spec fn on_content(
        self,
        stream_id: u32,
        len: int,
        written: Option<Seq<char>>,
        renamed: Option<Seq<char>>,
    ) -> (ManagerView, Result<Option<ContentRequest>, Seq<char>>) {
        let i = self.streams[stream_id];
        let m = self.answered(stream_id);
        let t = self.transfers[i as int];
        if !self.streams.contains_key(stream_id) {
            (self, Err("Unknown stream_id: "@ + text::decimal(stream_id as nat)))
        } else {
            match t.state {
                StateView::Downloading { total_size, bytes_received, .. } => {
                    if t.temp_path is None {
                        (m, Err("No temp file handle"@))
                    } else if written is Some {
                        (m, Err("Write failed: "@ + written->0))
                    } else if bytes_received + len >= total_size {
                        match renamed {
                            None => (
                                m.with_temp(i, None).with_state(
                                    i,
                                    StateView::Completed { path: self.final_path(i) },
                                ),
                                Ok(None),
                            ),
                            Some(e) => (
                                m.with_temp(i, None),
                                Err("Failed to rename temp file: "@ + e),
                            ),
                        }
                    } else {
                        let received = (bytes_received + len) as u64;
                        (
                            m.with_state(
                                i,
                                StateView::Downloading {
                                    total_size,
                                    bytes_received: received,
                                    current_stream_id: self.next_stream_id,
                                },
                            ).with_stream(i),
                            Ok(
                                Some(
                                    (
                                        self.next_stream_id,
                                        i,
                                        received,
                                        chunk_len(
                                            self.chunk_size,
                                            (total_size - received) as u64,
                                        ),
                                    ),
                                ),
                            ),
                        )
                    }
                },
                _ => (
                    m,
                    Err(
                        "Unexpected content response for file "@ + text::decimal(i as nat)
                            + " in state "@ + t.state.text(),
                    ),
                ),
            }
        }
    }

    /// What a refused request leads to: the manager, and the temporary file that
    /// is to be removed.
    pub open spec fn on_failure(self, stream_id: u32) -> (ManagerView, Option<Seq<char>>) {
        let i = self.streams[stream_id];
        if !self.streams.contains_key(stream_id) {
            (self, None)
        } else {
            (
                self.answered(stream_id).with_temp(i, None).with_state(
                    i,
                    StateView::Failed { error: "Server returned failure"@ },
                ),
                self.transfers[i as int].temp_path,
            )
        }
    }

    /// The first download that can begin, at or after place `from`.
    pub open spec fn first_waiting(self, from: int) -> int
        decreases self.transfers.len() - from,
    {
        if from >= self.transfers.len() || self.transfers[from].waiting() {
            from
        } else {
            self.first_waiting(from + 1)
        }
    }

    /// What the beginning of the next download leads to: the manager, and the
    /// stream identifier and the place of the file for the request.
    pub open spec fn on_start(self) -> (ManagerView, Option<(u32, u32)>) {
        let i = self.first_waiting(0);
        if i >= self.transfers.len() {
            (self, None)
        } else {
            (
                self.with_state(
                    i as u32,
                    StateView::AwaitingSize { stream_id: self.next_stream_id },
                ).with_stream(i as u32),
                Some((self.next_stream_id, i as u32)),
            )
        }
    }

    /// The temporary files that are open.
    pub open spec fn temp_files(self) -> Seq<Seq<char>> {
        open_temps(self.transfers)
    }

    /// The manager without downloads.
    pub open spec fn cleared(self) -> ManagerView {
        ManagerView { streams: Map::empty(), transfers: Seq::empty(), ..self }
    }
}

/// A manager without downloads that puts files in the given directory.
pub open spec fn fresh_manager(staging_dir: Seq<char>) -> ManagerView {
    ManagerView {
        staging_dir,
        streams: Map::empty(),
        transfers: Seq::empty(),
        next_stream_id: 1,
        chunk_size: DEFAULT_CHUNK_SIZE,
    }
}

/// The temporary files of downloads.
pub open spec fn open_temps(transfers: Seq<TransferView>) -> Seq<Seq<char>>
    decreases transfers.len(),
{
    if transfers.len() == 0 {
        Seq::empty()
    } else {
        match transfers.last().temp_path {
            Some(p) => open_temps(transfers.drop_last()).push(p),
            None => open_temps(transfers.drop_last()),
        }
    }
}

/// The paths of the downloads that are complete.
pub open spec fn completed_paths(transfers: Seq<TransferView>) -> Seq<Seq<char>>
    decreases transfers.len(),
{
    if transfers.len() == 0 {
        Seq::empty()
    } else {
        match transfers.last().state {
            StateView::Completed { path } => completed_paths(transfers.drop_last()).push(path),
            _ => completed_paths(transfers.drop_last()),
        }
    }
}

/// Which downloads are counted.
#[derive(Debug, Clone, Copy, PartialEq, Eq, Structural)]
pub enum Counted {
    /// Those that can begin.
    Waiting,
    /// Those with a request under way.
    Active,
    /// Those that are complete.
    Completed,
}

/// A download is among those that are counted.
pub open spec fn is_counted(which: Counted, t: TransferView) -> bool {
    match which {
        Counted::Waiting => t.waiting(),
        Counted::Active => t.state.active(),
        Counted::Completed => t.state is Completed,
    }
}

/// How many downloads are counted.
pub open spec fn count_of(which: Counted, transfers: Seq<TransferView>) -> nat
    decreases transfers.len(),
{
    if transfers.len() == 0 {
        0
    } else {
        count_of(which, transfers.drop_last()) + if is_counted(which, transfers.last()) {
            1nat
        } else {
            0nat
        }
    }
}

/// What a file list entry becomes.
pub open spec fn fresh_transfers(files: Seq<(String, Option<u64>, bool)>) -> Seq<TransferView> {
    Seq::new(
        files.len(),
        |i: int| TransferView::fresh(i as u32, files[i].0@, files[i].1, files[i].2),
    )
}

/// The text of an unknown stream identifier.
fn unknown_stream(stream_id: u32) -> (s: String)
    ensures
        s@ == "Unknown stream_id: "@ + text::decimal(stream_id as nat),
{
    let mut s = "Unknown stream_id: ".to_owned();
    text::push_decimal(&mut s, stream_id as u64);
    s
}

/// The text of an answer that the state does not allow.
fn unexpected(what: &str, file_index: u32, state: &FileTransferState) -> (s: String)
    ensures
        s@ == what@ + text::decimal(file_index as nat) + " in state "@ + state@.text(),
{
    let mut s = what.to_owned();
    text::push_decimal(&mut s, file_index as u64);
    s.push_str(" in state ");
    push_state(&mut s, state);
    s
}

/// Two texts, one after the other.
fn concat(a: &str, b: &str) -> (s: String)
    ensures
        s@ == a@ + b@,
{
    let mut s = a.to_owned();
    s.push_str(b);
    s
}

/// The smaller of the chunk size and what is left.
fn next_chunk(chunk_size: u32, left: u64) -> (n: u32)
    ensures
        n == chunk_len(chunk_size, left),
{
    if left < chunk_size as u64 {
        left as u32
    } else {
        chunk_size
    }
}

impl FileTransferManager {
    /// A manager that puts files in the given directory.
    pub fn new(staging_dir: String) -> (m: FileTransferManager)
        ensures
            m@.wf(),
            m@ == fresh_manager(staging_dir@),
    {
        let m = FileTransferManager {
            staging_dir,
            stream_to_file: HashMap::new(),
            transfers: Vec::new(),
            next_stream_id: 1,
            chunk_size: DEFAULT_CHUNK_SIZE,
        };
        assert(views::seq_view(m.transfers@) == Seq::<TransferView>::empty());
        m
    }

    /// Where the files are put.
    pub fn staging_dir(&self) -> (s: &str)
        ensures
            s@ == self@.staging_dir,
    {
        self.staging_dir.as_str()
    }

    /// Sets how many bytes are asked for at once.
    pub fn set_chunk_size(&mut self, chunk_size: u32)
        requires
            old(self)@.wf(),
        ensures
            final(self)@.wf(),
            final(self)@ == (ManagerView { chunk_size, ..old(self)@ }),
    {
        self.chunk_size = chunk_size;
    }

    /// Gives out a stream identifier for a file.
    fn next_stream_id(&mut self, file_index: u32) -> (id: u32)
        ensures
            id == old(self)@.next_stream_id,
            final(self)@ == old(self)@.with_stream(file_index),
    {
        let id: u32 = self.next_stream_id;
        self.next_stream_id = id.wrapping_add(1);
        self.stream_to_file.insert(id, file_index);
        id
    }

    /// Sets the state of a download.
    fn set_state(&mut self, file_index: u32, state: FileTransferState)
        requires
            file_index < old(self)@.transfers.len(),
        ensures
            final(self)@ == old(self)@.with_state(file_index, state@),
    {
        let ghost before = self.transfers@;
        let i: usize = file_index as usize;
        self.transfers[i].state = state;
        proof {
            views::lemma_seq_view_update(before, i as int, self.transfers@[i as int]);
            assert(self.transfers@ == before.update(i as int, self.transfers@[i as int]));
        }
    }

    /// Sets the temporary file of a download.
    fn set_temp(&mut self, file_index: u32, temp_path: Option<String>)
        requires
            file_index < old(self)@.transfers.len(),
        ensures
            final(self)@ == old(self)@.with_temp(file_index, views::option_view(temp_path)),
    {
        let ghost before = self.transfers@;
        let i: usize = file_index as usize;
        self.transfers[i].temp_path = temp_path;
        proof {
            views::lemma_seq_view_update(before, i as int, self.transfers@[i as int]);
            assert(self.transfers@ == before.update(i as int, self.transfers@[i as int]));
        }
    }

    /// Where a file is put.
    fn path_of(&self, file_index: u32) -> (p: String)
        requires
            file_index < self@.transfers.len(),
        ensures
            p@ == self@.final_path(file_index),
    {
        paths::join_path(
            self.staging_dir.as_str(),
            self.transfers[file_index as usize].file_name.as_str(),
        )
    }

    /// Where the parts of a file are put.
    fn temp_path_of(&self, file_index: u32) -> (p: String)
        requires
            file_index < self@.transfers.len(),
        ensures
            p@ == self@.temp_path(file_index),
    {
        let mut name = ".".to_owned();
        proof {
            reveal_strlit(".");
            assert("."@ == seq!['.']);
        }
        name.push_str(self.transfers[file_index as usize].file_name.as_str());
        name.push_str(".part");
        assert(name@ == temp_name(self@.transfers[file_index as int].file_name));
        paths::join_path(self.staging_dir.as_str(), name.as_str())
    }

    /// The file that an unanswered request is about.
    fn file_of(&self, stream_id: u32) -> (i: Option<u32>)
        ensures
            i is Some <==> self@.streams.contains_key(stream_id),
            i matches Some(n) ==> n == self@.streams[stream_id],
    {
        match self.stream_to_file.get(&stream_id) {
            Some(i) => Some(*i),
            None => None,
        }
    }

    /// Takes a file list in place of the one before. Gives the temporary files
    /// that are to be removed.
    pub fn add_files(&mut self, files: &[(String, Option<u64>, bool)]) -> (removed: Vec<String>)
        requires
            old(self)@.wf(),
            files@.len() <= u32::MAX,
        ensures
            final(self)@.wf(),
            final(self)@ == (ManagerView {
                transfers: fresh_transfers(files@),
                ..old(self)@.cleared()
            }),
            views::seq_view(removed@) == old(self)@.temp_files(),
    {
        let removed = self.clear();
        let ghost base = self@;
        let mut i: usize = 0;
        assert(fresh_transfers(files@).take(0) == Seq::<TransferView>::empty());
        while i < files.len()
            invariant
                i <= files@.len() <= u32::MAX,
                self@ == (ManagerView {
                    transfers: fresh_transfers(files@).take(i as int),
                    ..base
                }),
            decreases files@.len() - i,
        {
            let t = PendingFileTransfer::new(
                i as u32,
                files[i].0.clone(),
                files[i].1,
                files[i].2,
            );
            proof {
                views::lemma_seq_view_push(self.transfers@, t);
                assert(fresh_transfers(files@).take(i + 1) == fresh_transfers(files@).take(
                    i as int,
                ).push(t@));
            }
            self.transfers.push(t);
            i = i + 1;
        }
        assert(self@.transfers == fresh_transfers(files@));
        removed
    }

    /// Begins the first download that can begin. Gives the stream identifier and
    /// the place of the file for the request of its size.
    pub fn start_next_transfer(&mut self) -> (r: Option<(u32, u32)>)
        requires
            old(self)@.wf(),
        ensures
            final(self)@.wf(),
            (final(self)@, r) == old(self)@.on_start(),
    {
        let mut i: usize = 0;
        while i < self.transfers.len() && !self.transfers[i].is_waiting()
            invariant
                i <= self.transfers@.len(),
                self@.first_waiting(0) == self@.first_waiting(i as int),
                *self == *old(self),
            decreases self.transfers@.len() - i,
        {
            assert(!self@.transfers[i as int].waiting());
            i = i + 1;
        }
        if i >= self.transfers.len() {
            return None;
        }
        assert(self@.transfers[i as int].waiting());
        let file_index: u32 = i as u32;
        self.set_state(
            file_index,
            FileTransferState::AwaitingSize { stream_id: self.next_stream_id },
        );
        let stream_id: u32 = self.next_stream_id(file_index);
        Some((stream_id, file_index))
    }

    /// What has to be done before `handle_size_response`.
    pub fn plan_size_response(&self, stream_id: u32, size: u64) -> (plan: SizePlan)
        requires
            self@.wf(),
        ensures
            plan@ == self@.size_plan(stream_id, size),
    {
        let file_index: u32 = match self.file_of(stream_id) {
            Some(i) => i,
            None => {
                return SizePlan::Nothing;
            },
        };
        match &self.transfers[file_index as usize].state {
            FileTransferState::AwaitingSize { .. } => {},
            _ => {
                return SizePlan::Nothing;
            },
        }
        let name = &self.transfers[file_index as usize].file_name;
        if !paths::is_plain_name(name.as_str()) || size > MAX_FILE_SIZE {
            SizePlan::Nothing
        } else if size == 0 {
            SizePlan::CreateFile { file_index, path: self.path_of(file_index) }
        } else {
            SizePlan::CreateTemp { file_index, path: self.temp_path_of(file_index) }
        }
    }

    /// The size of a file arrived, and the planned operation had the given
    /// outcome. Gives the request for the first part, if there is one.
    pub fn handle_size_response(
        &mut self,
        stream_id: u32,
        size: u64,
        outcome: Result<(), String>,
    ) -> (r: Result<Option<ContentRequest>, String>)
        requires
            old(self)@.wf(),
        ensures
            final(self)@.wf(),
            (final(self)@, request_view(r)) == old(self)@.on_size(
                stream_id,
                size,
                outcome_view(outcome),
            ),
    {
        let file_index: u32 = match self.stream_to_file.remove(&stream_id) {
            Some(i) => i,
            None => {
                assert(self@.streams == old(self)@.streams);
                return Err(unknown_stream(stream_id));
            },
        };
        assert(self@ == old(self)@.answered(stream_id));
        match &self.transfers[file_index as usize].state {
            FileTransferState::AwaitingSize { .. } => {},
            state => {
                return Err(unexpected("Unexpected size response for file ", file_index, state));
            },
        }
        let name = &self.transfers[file_index as usize].file_name;
        if !paths::is_plain_name(name.as_str()) {
            let error = concat("Invalid file name: ", name.as_str());
            self.set_state(file_index, FileTransferState::Failed { error });
            return Ok(None);
        }
        if size > MAX_FILE_SIZE {
            let mut error = "File too large: ".to_owned();
            text::push_decimal(&mut error, size);
            error.push_str(" bytes (max ");
            text::push_decimal(&mut error, MAX_FILE_SIZE);
            error.push_str(")");
            self.set_state(file_index, FileTransferState::Failed { error });
            return Ok(None);
        }
        if size == 0 {
            let path = self.path_of(file_index);
            match outcome {
                Ok(_) => {
                    self.set_state(file_index, FileTransferState::Completed { path });
                },
                Err(e) => {
                    self.set_state(
                        file_index,
                        FileTransferState::Failed {
                            error: concat("Failed to create file: ", e.as_str()),
                        },
                    );
                },
            }
            return Ok(None);
        }
        if let Err(e) = outcome {
            return Err(concat("Failed to create temp file: ", e.as_str()));
        }
        let temp = self.temp_path_of(file_index);
        proof {
            lemma_temp_name_plain(old(self)@.transfers[file_index as int].file_name);
        }
        self.set_state(
            file_index,
            FileTransferState::Downloading {
                total_size: size,
                bytes_received: 0,
                current_stream_id: self.next_stream_id,
            },
        );
        self.set_temp(file_index, Some(temp));
        let chunk: u32 = next_chunk(self.chunk_size, size);
        let new_stream_id: u32 = self.next_stream_id(file_index);
        Ok(Some((new_stream_id, file_index, 0, chunk)))
    }

    /// What has to be done before `handle_content_response`.
    pub fn plan_content_response(&self, stream_id: u32, data: &[u8]) -> (plan: ContentPlan)
        requires
            self@.wf(),
        ensures
            plan@ == self@.content_plan(stream_id, data@.len() as int),
    {
        let file_index: u32 = match self.file_of(stream_id) {
            Some(i) => i,
            None => {
                return ContentPlan::Nothing;
            },
        };
        let transfer = &self.transfers[file_index as usize];
        assert(transfer@ == self@.transfers[file_index as int]);
        match (&transfer.state, &transfer.temp_path) {
            (
                FileTransferState::Downloading { total_size, bytes_received, .. },
                Some(from),
            ) => {
                if data.len() as u64 >= *total_size - *bytes_received {
                    ContentPlan::WriteAndRename {
                        file_index,
                        from: from.clone(),
                        to: self.path_of(file_index),
                    }
                } else {
                    ContentPlan::Write { file_index }
                }
            },
            _ => ContentPlan::Nothing,
        }
    }

    /// A part of a file arrived, and the planned operations had the given
    /// outcomes. Gives the request for the next part, if there is one.
    pub fn handle_content_response(
        &mut self,
        stream_id: u32,
        data: &[u8],
        written: Result<(), String>,
        renamed: Result<(), String>,
    ) -> (r: Result<Option<ContentRequest>, String>)
        requires
            old(self)@.wf(),
        ensures
            final(self)@.wf(),
            (final(self)@, request_view(r)) == old(self)@.on_content(
                stream_id,
                data@.len() as int,
                outcome_view(written),
                outcome_view(renamed),
            ),
    {
        let file_index: u32 = match self.stream_to_file.remove(&stream_id) {
            Some(i) => i,
            None => {
                assert(self@.streams == old(self)@.streams);
                return Err(unknown_stream(stream_id));
            },
        };
        assert(self@ == old(self)@.answered(stream_id));
        let transfer = &self.transfers[file_index as usize];
        assert(transfer@ == self@.transfers[file_index as int]);
        let (total_size, bytes_received): (u64, u64) = match &transfer.state {
            FileTransferState::Downloading { total_size, bytes_received, .. } => (
                *total_size,
                *bytes_received,
            ),
            state => {
                return Err(
                    unexpected("Unexpected content response for file ", file_index, state),
                );
            },
        };
        if transfer.temp_path.is_none() {
            return Err("No temp file handle".to_owned());
        }
        if let Err(e) = written {
            return Err(concat("Write failed: ", e.as_str()));
        }
        if data.len() as u64 >= total_size - bytes_received {
            self.set_temp(file_index, None);
            if let Err(e) = renamed {
                return Err(concat("Failed to rename temp file: ", e.as_str()));
            }
            let path = self.path_of(file_index);
            self.set_state(file_index, FileTransferState::Completed { path });
            return Ok(None);
        }
        let received: u64 = bytes_received + data.len() as u64;
        let chunk: u32 = next_chunk(self.chunk_size, total_size - received);
        self.set_state(
            file_index,
            FileTransferState::Downloading {
                total_size,
                bytes_received: received,
                current_stream_id: self.next_stream_id,
            },
        );
        let new_stream_id: u32 = self.next_stream_id(file_index);
        Ok(Some((new_stream_id, file_index, received, chunk)))
    }

    /// A request was refused. Gives the temporary file that is to be removed.
    pub fn handle_failure(&mut self, stream_id: u32) -> (removed: Option<String>)
        requires
            old(self)@.wf(),
        ensures
            final(self)@.wf(),
            (final(self)@, views::option_view(removed)) == old(self)@.on_failure(stream_id),
    {
        let file_index: u32 = match self.stream_to_file.remove(&stream_id) {
            Some(i) => i,
            None => {
                assert(self@.streams == old(self)@.streams);
                return None;
            },
        };
        assert(self@ == old(self)@.answered(stream_id));
        let removed = text::copy_option(&self.transfers[file_index as usize].temp_path);
        assert(views::option_view(removed) == self@.transfers[file_index as int].temp_path);
        self.set_temp(file_index, None);
        self.set_state(
            file_index,
            FileTransferState::Failed { error: "Server returned failure".to_owned() },
        );
        removed
    }

    /// Where the files are that are complete.
    pub fn completed_files(&self) -> (files: Vec<String>)
        ensures
            views::seq_view(files@) == completed_paths(self@.transfers),
    {
        let mut files: Vec<String> = Vec::new();
        let mut i: usize = 0;
        assert(views::seq_view(files@) == Seq::<Seq<char>>::empty());
        assert(completed_paths(self@.transfers.take(0)) == Seq::<Seq<char>>::empty());
        while i < self.transfers.len()
            invariant
                i <= self.transfers@.len(),
                views::seq_view(files@) == completed_paths(self@.transfers.take(i as int)),
            decreases self.transfers@.len() - i,
        {
            proof {
                let longer = self@.transfers.take(i + 1);
                assert(longer.drop_last() == self@.transfers.take(i as int));
                assert(longer.last() == self.transfers@[i as int]@);
            }
            if let Some(p) = self.transfers[i].final_path() {
                let path = p.to_owned();
                proof {
                    views::lemma_seq_view_push(files@, path);
                }
                files.push(path);
            }
            i = i + 1;
        }
        assert(self@.transfers.take(self.transfers@.len() as int) == self@.transfers);
        files
    }

    /// Counts downloads.
    fn count(&self, which: Counted) -> (n: usize)
        ensures
            n == count_of(which, self@.transfers),
    {
        let mut n: usize = 0;
        let mut i: usize = 0;
        assert(count_of(which, self@.transfers.take(0)) == 0);
        while i < self.transfers.len()
            invariant
                n <= i <= self.transfers@.len(),
                n == count_of(which, self@.transfers.take(i as int)),
            decreases self.transfers@.len() - i,
        {
            proof {
                let longer = self@.transfers.take(i + 1);
                assert(longer.drop_last() == self@.transfers.take(i as int));
                assert(longer.last() == self.transfers@[i as int]@);
            }
            let t = &self.transfers[i];
            let counted = match which {
                Counted::Waiting => t.is_waiting(),
                Counted::Active => match &t.state {
                    FileTransferState::AwaitingSize { .. } => true,
                    FileTransferState::Downloading { .. } => true,
                    _ => false,
                },
                Counted::Completed => match &t.state {
                    FileTransferState::Completed { .. } => true,
                    _ => false,
                },
            };
            if counted {
                n = n + 1;
            }
            i = i + 1;
        }
        assert(self@.transfers.take(self.transfers@.len() as int) == self@.transfers);
        n
    }

    /// How many downloads can begin; directories are not downloaded.
    pub fn pending_count(&self) -> (n: usize)
        ensures
            n == count_of(Counted::Waiting, self@.transfers),
    {
        self.count(Counted::Waiting)
    }

    /// How many downloads have a request under way.
    pub fn active_count(&self) -> (n: usize)
        ensures
            n == count_of(Counted::Active, self@.transfers),
    {
        self.count(Counted::Active)
    }

    /// How many downloads are complete.
    pub fn completed_count(&self) -> (n: usize)
        ensures
            n == count_of(Counted::Completed, self@.transfers),
    {
        self.count(Counted::Completed)
    }

    /// Drops all downloads. Gives the temporary files that are to be removed.
    pub fn clear(&mut self) -> (removed: Vec<String>)
        requires
            old(self)@.wf(),
        ensures
            final(self)@.wf(),
            final(self)@ == old(self)@.cleared(),
            views::seq_view(removed@) == old(self)@.temp_files(),
    {
        let mut removed: Vec<String> = Vec::new();
        let mut i: usize = 0;
        assert(views::seq_view(removed@) == Seq::<Seq<char>>::empty());
        assert(open_temps(self@.transfers.take(0)) == Seq::<Seq<char>>::empty());
        while i < self.transfers.len()
            invariant
                i <= self.transfers@.len(),
                *self == *old(self),
                views::seq_view(removed@) == open_temps(self@.transfers.take(i as int)),
            decreases self.transfers@.len() - i,
        {
            proof {
                let longer = self@.transfers.take(i + 1);
                assert(longer.drop_last() == self@.transfers.take(i as int));
                assert(longer.last() == self.transfers@[i as int]@);
            }
            if let Some(p) = &self.transfers[i].temp_path {
                let path = p.clone();
                proof {
                    views::lemma_seq_view_push(removed@, path);
                }
                removed.push(path);
            }
            i = i + 1;
        }
        assert(self@.transfers.take(self.transfers@.len() as int) == self@.transfers);
        self.transfers.clear();
        self.stream_to_file.clear();
        assert(views::seq_view(self.transfers@) == Seq::<TransferView>::empty());
        removed
    }
}

/// The staging directory where none is configured: below the user's runtime
/// directory, or in the directory for temporary files under the number of the
/// process.
pub open spec fn staging_dir_for(
    runtime_dir: Option<Seq<char>>,
    temp_dir: Seq<char>,
    pid: u32,
) -> Seq<char> {
    match runtime_dir {
        Some(dir) => paths::joined(paths::joined(dir, "yard"@), "clipboard"@),
        None => paths::joined(temp_dir, "yard-clipboard-"@ + text::decimal(pid as nat)),
    }
}

/// The staging directory where none is configured.
pub fn default_staging_dir(runtime_dir: Option<&str>, temp_dir: &str, pid: u32) -> (dir: String)
    ensures
        dir@ == staging_dir_for(
            match runtime_dir {
                Some(d) => Some(d@),
                None => None,
            },
            temp_dir@,
            pid,
        ),
{
    match runtime_dir {
        Some(d) => {
            let yard = paths::join_path(d, "yard");
            paths::join_path(yard.as_str(), "clipboard")
        },
        None => {
            let mut name = "yard-clipboard-".to_owned();
            text::push_decimal(&mut name, pid as u64);
            paths::join_path(temp_dir, name.as_str())
        },
    }
}

} // verus!
