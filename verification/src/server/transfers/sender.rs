//! The sending end of a transfer: the chunks it sends, the walk over the
//! sources on a virtual filesystem, and the state the transfer ends in.
use vstd::prelude::*;
use crate::duration::Duration;
use crate::filesystem::vfs::{answers_list_dir, answers_metadata, metadata, VirtualEntry, VirtualFilesystem, VirtualFilesystemError, VirtualMetadata};
use crate::filesystem::vfs::walkdir::{VirtualWalkDir, WalkDirEntry, is_child_entry, queued_listing, relative_path_of};
use crate::proto::{FileChunk, FileTime};
use crate::server::remote_manager::{RemoteManagerInner, WarpEvent, spec_find_transfer, UpdateError};
use crate::server::remote_worker::{RemoteWorkerError, transfer_changed};
use crate::server::transfers::{FileType, file_type_code};
use crate::types::transfer::{TransferError, TransferState, TransferView};

verus! {

/// How many bytes of a file one chunk carries at most.
pub const CHUNK_SIZE: usize = 65536;

/// The permissions sent with a directory.
pub const DIRECTORY_MODE: u32 = 0o755;

/// The permissions sent with a file.
pub const FILE_MODE: u32 = 0o644;

/// The chunk that announces the directory `relative_path`: no data, no
/// time, directory permissions.
pub fn directory_chunk(relative_path: String) -> (r: FileChunk)
    ensures
        r.relative_path == relative_path,
        r.file_type == file_type_code(FileType::Directory),
        r.chunk@.len() == 0,
        r.file_mode == DIRECTORY_MODE,
        r.time is None,
        r.symlink_target@.len() == 0,
{
    FileChunk {
        relative_path,
        file_type: FileType::Directory.code(),
        symlink_target: String::new(),
        chunk: Vec::new(),
        file_mode: DIRECTORY_MODE,
        time: None,
    }
}

/// A chunk of the file `relative_path` carrying `data`; only the first
/// chunk of a file carries its modification time.
pub fn file_chunk(relative_path: String, data: Vec<u8>, first: bool, file_time: Option<FileTime>) -> (r: FileChunk)
    ensures
        r.relative_path == relative_path,
        r.file_type == file_type_code(FileType::File),
        r.chunk@ == data@,
        r.file_mode == FILE_MODE,
        r.time == (if first { file_time } else { None }),
        r.symlink_target@.len() == 0,
{
    FileChunk {
        relative_path,
        file_type: FileType::File.code(),
        symlink_target: String::new(),
        chunk: data,
        file_mode: FILE_MODE,
        time: if first { file_time } else { None },
    }
}

/// The modification time sent for a file modified `since_epoch` after the
/// Unix epoch: whole seconds, and the milliseconds of the rest written as
/// microseconds.
pub fn file_time_of(since_epoch: Duration) -> (r: FileTime)
    ensures
        r.mtime == since_epoch.spec_secs(),
        r.mtime_usec == (since_epoch.spec_nanos() / 1_000_000) * 1000,
{
    let secs = since_epoch.as_secs();
    let millis = since_epoch.subsec_nanos() / 1_000_000;
    FileTime { mtime: secs, mtime_usec: millis * 1000 }
}

/// The state a sent transfer ends in: completed when every source was
/// sent; failed with the error when it failed without being cancelled;
/// canceled otherwise.
pub open spec fn spec_send_outcome(result: Result<bool, TransferError>, cancelled: bool) -> TransferState {
    match result {
        Ok(true) => TransferState::Completed,
        Err(e) => if !cancelled { TransferState::Failed(e) } else { TransferState::Canceled },
        Ok(false) => TransferState::Canceled,
    }
}

pub fn send_outcome(result: Result<bool, TransferError>, cancelled: bool) -> (r: TransferState)
    ensures
        r == spec_send_outcome(result, cancelled),
{
    match result {
        Ok(true) => TransferState::Completed,
        Err(e) => if !cancelled {
            TransferState::Failed(e)
        } else {
            TransferState::Canceled
        },
        Ok(false) => TransferState::Canceled,
    }
}

/// A sent transfer once it ended: in `final_state`, its speed 0.
pub open spec fn spec_sent_end(t: TransferView, final_state: TransferState) -> TransferView {
    TransferView { state: final_state, bytes_per_second: 0, ..t }
}

/// Records the end of a sent transfer (see [`spec_sent_end`]).
pub fn finish_sent_transfer(
    store: &mut RemoteManagerInner,
    ruuid: &str,
    tuuid: &str,
    final_state: TransferState,
    pending_events: usize,
) -> (r: Result<Option<WarpEvent>, RemoteWorkerError>)
    ensures
        transfer_changed(
            old(store)@,
            final(store)@,
            ruuid@,
            tuuid@,
            spec_sent_end(spec_find_transfer(old(store)@, ruuid@, tuuid@)->0, final_state),
            pending_events,
            r,
        ),
{
    let mut t = match store.transfer(ruuid, tuuid) {
        Some(t) => t,
        None => return Err(RemoteWorkerError::UpdateFailed(UpdateError::NotFound)),
    };
    t.state = final_state;
    t.bytes_per_second = 0;
    match store.update_transfer(ruuid, tuuid, t, pending_events) {
        Ok(e) => Ok(e),
        Err(e) => Err(RemoteWorkerError::UpdateFailed(e)),
    }
}

/// Something to send: a directory to announce, or a file to send from
/// `path`, under the name `relative_path` on the other side.
#[derive(Debug)]
pub struct SendItem {
    pub directory: bool,
    pub path: String,
    pub relative_path: String,
}

/// Whether `item` stands for the walk entry `e`.
pub open spec fn item_for_entry(item: SendItem, e: WalkDirEntry) -> bool {
    &&& item.directory == e.is_dir
    &&& item.path == e.path
    &&& item.relative_path@ == relative_path_of(e.base_path@, e.name@)
}

/// What a source is sent as, by its metadata `meta`: a directory to
/// announce or a file to send, from the source's own path `source`, under
/// the name that its metadata gives.
pub open spec fn spec_source_item(item: SendItem, source: String, meta: VirtualMetadata) -> bool {
    &&& item.directory == meta.is_dir
    &&& item.path == source
    &&& item.relative_path == meta.name
}

/// Whether the walk entry `e` stands for the listed child `child` of a
/// source directory named `name`.
pub open spec fn is_source_child(e: WalkDirEntry, name: String, child: VirtualEntry) -> bool {
    &&& e.is_dir == child.is_dir
    &&& e.name == child.name
    &&& e.path == child.path
    &&& e.base_path@ == name@
}

/// Whether `pending` are the entries that stand for the children of a
/// source directory named `name` in the listing `listing`: all of them, in
/// listing order, when it succeeded; none when it failed.
pub open spec fn listed_children(
    pending: Seq<WalkDirEntry>,
    name: String,
    listing: Result<Vec<VirtualEntry>, VirtualFilesystemError>,
) -> bool {
    match listing {
        Ok(children) => pending.len() == children@.len() && forall|i: int|
            0 <= i < children@.len() ==> is_source_child(#[trigger] pending[i], name, children@[i]),
        Err(_) => pending.len() == 0,
    }
}

/// Whether `item` is what the source `source` is sent as, by the metadata
/// that the filesystem `vfs` gave for it (see [`spec_source_item`]), with
/// `pending` what is then left to walk: nothing for a file, for a directory
/// the children that `vfs` listed for the source's path.
pub open spec fn started_source<V: VirtualFilesystem>(
    vfs: V,
    item: SendItem,
    source: String,
    pending: Seq<WalkDirEntry>,
) -> bool {
    exists|meta: VirtualMetadata|
        #![trigger spec_source_item(item, source, meta)]
        {
            &&& answers_metadata(vfs, source@, Ok(meta))
            &&& spec_source_item(item, source, meta)
            &&& !meta.is_dir ==> pending.len() == 0
            &&& meta.is_dir ==> exists|listing: Result<Vec<VirtualEntry>, VirtualFilesystemError>|
                #![trigger listed_children(pending, meta.name, listing)]
                answers_list_dir(vfs, source@, listing) && listed_children(pending, meta.name, listing)
        }
}

/// The item for the source `source` whose metadata is `meta` (see
/// [`spec_source_item`]).
pub fn source_item(source: String, meta: &VirtualMetadata) -> (r: SendItem)
    ensures
        spec_source_item(r, source, *meta),
{
    SendItem { directory: meta.is_dir, path: source, relative_path: meta.name.clone() }
}

/// The walk over the sources of a transfer on a virtual filesystem: each
/// source in turn; a file is sent as it is, a directory is walked breadth
/// first, itself included.
pub struct SendWalker {
    sources: Vec<String>,
    next_source: usize,
    walk: VirtualWalkDir,
}

impl SendWalker {
    pub closed spec fn sources(&self) -> Seq<String> {
        self.sources@
    }

    /// How many sources were taken up.
    pub closed spec fn next_source(&self) -> int {
        self.next_source as int
    }

    /// The entries of the current directory still to be sent.
    pub closed spec fn pending(&self) -> Seq<WalkDirEntry> {
        self.walk@
    }

    #[verifier::type_invariant]
    spec fn wf(&self) -> bool {
        self.next_source <= self.sources@.len()
    }

    /// A walk over `sources`, none taken up yet.
    pub fn new(sources: Vec<String>) -> (r: SendWalker)
        ensures
            r.sources() == sources@,
            r.next_source() == 0,
            r.pending().len() == 0,
    {
        SendWalker { sources, next_source: 0, walk: VirtualWalkDir::empty() }
    }

    /// The next thing to send, or `None` when all was sent. An entry of the
    /// directory being walked comes first; otherwise the next source is
    /// taken up: its metadata is read (a failure of the filesystem fails the
    /// walk, and with no filesystem set it fails with `NotSet`), a file is
    /// sent from its path under its name, and a directory is announced under
    /// its name and then walked: its listed children are queued.
    pub fn next_item<V: VirtualFilesystem>(&mut self, vfs: &Option<V>) -> (r: Result<
        Option<SendItem>,
        TransferError,
    >)
        ensures
            final(self).sources() == old(self).sources(),
            final(self).next_source() <= final(self).sources().len(),
            old(self).pending().len() > 0 ==> {
                &&& r is Ok && r->Ok_0 is Some
                &&& item_for_entry(r->Ok_0->0, old(self).pending()[0])
                &&& final(self).next_source() == old(self).next_source()
                &&& final(self).pending().len() >= old(self).pending().len() - 1
                &&& final(self).pending().subrange(0, old(self).pending().len() - 1)
                    == old(self).pending().drop_first()
                &&& !old(self).pending()[0].is_dir ==> final(self).pending() == old(self).pending().drop_first()
                &&& old(self).pending()[0].is_dir && vfs is Some ==> exists|
                    listing: Result<Vec<VirtualEntry>, VirtualFilesystemError>,
                |
                    #![trigger queued_listing(old(self).pending().drop_first(), final(self).pending(), old(self).pending()[0], listing)]
                    answers_list_dir(vfs->0, old(self).pending()[0].path@, listing) && queued_listing(
                        old(self).pending().drop_first(),
                        final(self).pending(),
                        old(self).pending()[0],
                        listing,
                    )
            },
            old(self).pending().len() == 0 && old(self).next_source() < old(self).sources().len() ==> {
                &&& final(self).next_source() == old(self).next_source() + 1
                &&& r is Err ==> r->Err_0 is VirtualFilesystemError
                &&& vfs is None ==> r == Err::<Option<SendItem>, TransferError>(
                    TransferError::VirtualFilesystemError(VirtualFilesystemError::NotSet),
                )
                &&& r is Err && vfs is Some ==> exists|e: VirtualFilesystemError|
                    r->Err_0 == TransferError::VirtualFilesystemError(e) && answers_metadata(
                        vfs->0,
                        old(self).sources()[old(self).next_source()]@,
                        Err(e),
                    )
                &&& r is Ok ==> vfs is Some && r->Ok_0 is Some && started_source(
                    vfs->0,
                    r->Ok_0->0,
                    old(self).sources()[old(self).next_source()],
                    final(self).pending(),
                )
            },
            old(self).pending().len() == 0 && old(self).next_source() == old(self).sources().len() ==> {
                &&& r is Ok && r->Ok_0 is None
                &&& final(self).next_source() == old(self).next_source()
                &&& final(self).pending().len() == 0
            },
    {
        proof {
            use_type_invariant(&*self);
        }
        let mut walk = VirtualWalkDir::empty();
        std::mem::swap(&mut walk, &mut self.walk);
        let first = walk.next(vfs);
        if let Ok(Some(entry)) = first {
            self.walk = walk;
            let rel = entry.relative_path();
            return Ok(Some(SendItem { directory: entry.is_dir, path: entry.path, relative_path: rel }));
        }
        self.walk = walk;
        if self.next_source >= self.sources.len() {
            return Ok(None);
        }
        let source = self.sources[self.next_source].clone();
        self.next_source = self.next_source + 1;
        let meta = match metadata(vfs, source.as_str()) {
            Ok(m) => m,
            Err(e) => return Err(TransferError::VirtualFilesystemError(e)),
        };
        let item = source_item(source.clone(), &meta);
        if meta.is_dir {
            let mut walk = VirtualWalkDir::new(source, meta.name.clone());
            let ghost pre = walk@;
            let _ = walk.next(vfs);
            self.walk = walk;
            proof {
                assert(vfs is Some);
                let listing = choose|listing: Result<Vec<VirtualEntry>, VirtualFilesystemError>|
                    #![trigger queued_listing(pre.drop_first(), self.walk@, pre[0], listing)]
                    answers_list_dir(vfs->0, pre[0].path@, listing) && queued_listing(
                        pre.drop_first(),
                        self.walk@,
                        pre[0],
                        listing,
                    );
                assert(pre.drop_first().len() == 0);
                match listing {
                    Ok(children) => {
                        assert forall|i: int| 0 <= i < children@.len() implies is_source_child(
                            #[trigger] self.walk@[i],
                            meta.name,
                            children@[i],
                        ) by {
                            assert(is_child_entry(self.walk@[pre.drop_first().len() + i], pre[0], children@[i]));
                        }
                    },
                    Err(_) => {},
                }
                assert(listed_children(self.pending(), meta.name, listing));
            }
        } else {
            assert(self.walk@.len() == 0);
        }
        assert(started_source(vfs->0, item, old(self).sources()[old(self).next_source()], self.pending()));
        Ok(Some(item))
    }
}

} // verus!

verus! {

// ---------------------------------------------------------------------------
// The decisions of the send loop.

/// Where the send loop is: between items of the walk, or sending a file
/// (`first` while its first chunk is still to be sent).
#[derive(Clone, Copy, Debug, PartialEq, Eq, Structural)]
pub enum SendPhase {
    Walking,
    InFile { first: bool },
}

/// What happened since the last action of the send loop.
#[derive(Debug)]
pub enum SendEvent {
    /// The loop begins.
    Start,
    /// The walk gave its next item: none when all was sent, else whether it
    /// is a directory.
    Item(Option<bool>),
    /// The other side took (`true`) or refused (`false`) a directory chunk.
    DirectorySent(bool),
    /// This many bytes were read from the file; none at its end.
    Read(usize),
    /// The other side took (`true`) or refused (`false`) a file chunk.
    ChunkSent(bool),
    /// The progress of the chunk sent was recorded.
    Recorded,
    /// Walking, opening or reading failed.
    Failed(TransferError),
}

/// What the send loop does next.
#[derive(Debug)]
pub enum SendAction {
    /// Take the next item of the walk.
    TakeItem,
    /// Send the item's directory chunk.
    SendDirectory,
    /// Read the next chunk of the item's file (opening it first if needed).
    ReadChunk,
    /// Send the chunk read, with the file's time when `with_time`.
    SendChunk { with_time: bool },
    /// Record the progress of the chunk sent.
    RecordProgress,
    /// Stop with the result: `Ok(true)` when all was sent, `Ok(false)` when
    /// cancelled, the error otherwise.
    Finish(Result<bool, TransferError>),
}

/// Whether `event` can follow an action taken in `phase`.
pub open spec fn send_event_fits(phase: SendPhase, event: SendEvent) -> bool {
    match event {
        SendEvent::Start | SendEvent::Item(_) | SendEvent::DirectorySent(_) => phase is Walking,
        SendEvent::Read(_) | SendEvent::ChunkSent(_) | SendEvent::Recorded => phase is InFile,
        SendEvent::Failed(_) => true,
    }
}

/// The next phase and action of the send loop after `event` in `phase`,
/// with `cancelled` whether the transfer was cancelled. Cancellation is
/// heeded before each item and before each chunk read: the loop then stops
/// with `Ok(false)`. A refused chunk is a lost connection; every other
/// failure ends the loop with its error; a walk with nothing left ends it
/// with `Ok(true)`.
pub open spec fn spec_send_step(phase: SendPhase, cancelled: bool, event: SendEvent) -> (SendPhase, SendAction) {
    match event {
        SendEvent::Failed(e) => (phase, SendAction::Finish(Err(e))),
        SendEvent::Start => if cancelled {
            (SendPhase::Walking, SendAction::Finish(Ok(false)))
        } else {
            (SendPhase::Walking, SendAction::TakeItem)
        },
        SendEvent::Item(None) => (SendPhase::Walking, SendAction::Finish(Ok(true))),
        SendEvent::Item(Some(true)) => (SendPhase::Walking, SendAction::SendDirectory),
        SendEvent::Item(Some(false)) => if cancelled {
            (SendPhase::Walking, SendAction::Finish(Ok(false)))
        } else {
            (SendPhase::InFile { first: true }, SendAction::ReadChunk)
        },
        SendEvent::DirectorySent(false) | SendEvent::ChunkSent(false) => (
            phase,
            SendAction::Finish(Err(TransferError::ConnectionLost)),
        ),
        SendEvent::DirectorySent(true) => if cancelled {
            (SendPhase::Walking, SendAction::Finish(Ok(false)))
        } else {
            (SendPhase::Walking, SendAction::TakeItem)
        },
        SendEvent::Read(n) => if n == 0 {
            if cancelled {
                (SendPhase::Walking, SendAction::Finish(Ok(false)))
            } else {
                (SendPhase::Walking, SendAction::TakeItem)
            }
        } else {
            match phase {
                SendPhase::InFile { first } => (
                    SendPhase::InFile { first: false },
                    SendAction::SendChunk { with_time: first },
                ),
                SendPhase::Walking => (phase, SendAction::TakeItem),
            }
        },
        SendEvent::ChunkSent(true) => (phase, SendAction::RecordProgress),
        SendEvent::Recorded => if cancelled {
            (phase, SendAction::Finish(Ok(false)))
        } else {
            (phase, SendAction::ReadChunk)
        },
    }
}

/// One step of the send loop (see [`spec_send_step`]).
pub fn send_step(phase: SendPhase, cancelled: bool, event: SendEvent) -> (r: (SendPhase, SendAction))
    requires
        send_event_fits(phase, event),
    ensures
        r == spec_send_step(phase, cancelled, event),
{
    match event {
        SendEvent::Failed(e) => (phase, SendAction::Finish(Err(e))),
        SendEvent::Start => if cancelled {
            (SendPhase::Walking, SendAction::Finish(Ok(false)))
        } else {
            (SendPhase::Walking, SendAction::TakeItem)
        },
        SendEvent::Item(None) => (SendPhase::Walking, SendAction::Finish(Ok(true))),
        SendEvent::Item(Some(directory)) => if directory {
            (SendPhase::Walking, SendAction::SendDirectory)
        } else if cancelled {
            (SendPhase::Walking, SendAction::Finish(Ok(false)))
        } else {
            (SendPhase::InFile { first: true }, SendAction::ReadChunk)
        },
        SendEvent::DirectorySent(taken) => if !taken {
            (phase, SendAction::Finish(Err(TransferError::ConnectionLost)))
        } else if cancelled {
            (SendPhase::Walking, SendAction::Finish(Ok(false)))
        } else {
            (SendPhase::Walking, SendAction::TakeItem)
        },
        SendEvent::ChunkSent(taken) => if !taken {
            (phase, SendAction::Finish(Err(TransferError::ConnectionLost)))
        } else {
            (phase, SendAction::RecordProgress)
        },
        SendEvent::Read(n) => if n == 0 {
            if cancelled {
                (SendPhase::Walking, SendAction::Finish(Ok(false)))
            } else {
                (SendPhase::Walking, SendAction::TakeItem)
            }
        } else {
            match phase {
                SendPhase::InFile { first } => (
                    SendPhase::InFile { first: false },
                    SendAction::SendChunk { with_time: first },
                ),
                SendPhase::Walking => (phase, SendAction::TakeItem),
            }
        },
        SendEvent::Recorded => if cancelled {
            (phase, SendAction::Finish(Ok(false)))
        } else {
            (phase, SendAction::ReadChunk)
        },
    }
}

/// Once the transfer is cancelled, the send loop stops with `Ok(false)` at
/// the next point where it heeds cancellation (before an item, before a
/// chunk read); a refused chunk always ends it as a lost connection.
pub proof fn law_cancel_stops_sending(phase: SendPhase)
    ensures
        spec_send_step(SendPhase::Walking, true, SendEvent::Start).1 == SendAction::Finish(Ok(false)),
        spec_send_step(SendPhase::Walking, true, SendEvent::DirectorySent(true)).1 == SendAction::Finish(
            Ok(false),
        ),
        spec_send_step(SendPhase::Walking, true, SendEvent::Item(Some(false))).1 == SendAction::Finish(
            Ok(false),
        ),
        phase is InFile ==> spec_send_step(phase, true, SendEvent::Recorded).1 == SendAction::Finish(Ok(false)),
        phase is InFile ==> spec_send_step(phase, true, SendEvent::Read(0)).1 == SendAction::Finish(Ok(false)),
        spec_send_step(phase, false, SendEvent::ChunkSent(false)).1 == SendAction::Finish(
            Err(TransferError::ConnectionLost),
        ),
        spec_send_step(phase, false, SendEvent::DirectorySent(false)).1 == SendAction::Finish(
            Err(TransferError::ConnectionLost),
        ),
{
}

/// The error of a walk over the local filesystem, as a transfer tells it: a
/// missing file is `FilesNotFound`, a refused one `PermissionDenied`; any
/// other error stays as it is.
pub open spec fn spec_local_send_error(e: TransferError) -> TransferError {
    match e {
        TransferError::VirtualFilesystemError(VirtualFilesystemError::FileNotFound) => TransferError::FilesNotFound,
        TransferError::VirtualFilesystemError(VirtualFilesystemError::PermissionDenied) => {
            TransferError::PermissionDenied
        },
        _ => e,
    }
}

pub fn local_send_error(e: TransferError) -> (r: TransferError)
    ensures
        r == spec_local_send_error(e),
{
    match e {
        TransferError::VirtualFilesystemError(VirtualFilesystemError::FileNotFound) => TransferError::FilesNotFound,
        TransferError::VirtualFilesystemError(VirtualFilesystemError::PermissionDenied) => {
            TransferError::PermissionDenied
        },
        other => other,
    }
}

} // verus!

verus! {

/// The send loop reports a transfer completed only when the walk has
/// nothing left: no other event, in any phase, ends it with `Ok(true)`.
pub proof fn law_completed_only_at_end_of_walk(phase: SendPhase, cancelled: bool, event: SendEvent)
    requires
        send_event_fits(phase, event),
    ensures
        spec_send_step(phase, cancelled, event).1 == SendAction::Finish(Ok(true)) ==> event == SendEvent::Item(
            None,
        ),
{
}

/// Unless the transfer is cancelled, something fails, the other side
/// refuses a chunk or the walk is done, the send loop goes on: after a
/// directory chunk was taken it takes the next item of the walk, after a
/// file chunk it records the progress, and it never stops.
pub proof fn law_send_goes_on(phase: SendPhase, event: SendEvent)
    requires
        send_event_fits(phase, event),
        !(event is Failed),
        event != SendEvent::Item(None),
        event != SendEvent::DirectorySent(false),
        event != SendEvent::ChunkSent(false),
    ensures
        !(spec_send_step(phase, false, event).1 is Finish),
        event == SendEvent::DirectorySent(true) ==> spec_send_step(phase, false, event) == (
            SendPhase::Walking,
            SendAction::TakeItem,
        ),
        event == SendEvent::ChunkSent(true) ==> spec_send_step(phase, false, event).1 == SendAction::RecordProgress,
{
}

/// Only the first chunk of a file carries the file's time: a chunk read
/// leaves the loop in the file with its first chunk behind it, and a chunk
/// is sent with the time only when it is the first.
pub proof fn law_time_only_on_first_chunk(first: bool, cancelled: bool, n: usize)
    requires
        n > 0,
    ensures
        ({
            let (next, action) = spec_send_step(SendPhase::InFile { first }, cancelled, SendEvent::Read(n));
            &&& next == (SendPhase::InFile { first: false })
            &&& action is SendChunk
            &&& action->with_time ==> first
        }),
        ({
            let (_, action) = spec_send_step(SendPhase::InFile { first: false }, cancelled, SendEvent::Read(n));
            action == (SendAction::SendChunk { with_time: false })
        }),
{
}

} // verus!
