//! The receiving end of a transfer: what to make of each chunk that comes
//! in, and the state the transfer ends in.
use vstd::prelude::*;
use crate::proto::FileTime;
use crate::server::remote_manager::{RemoteManagerInner, WarpEvent, spec_find_transfer};
use crate::server::remote_worker::{RemoteWorkerError, transfer_changed};
use crate::server::transfers::FileType;
use crate::text::{chars_of, contains_dot_dot, has_dot_dot, string_from_chars, str_eq};
use crate::types::transfer::{TransferError, TransferState, TransferView, opt_chars};

verus! {

/// Whether `c` may not stand in a file name on some systems.
pub open spec fn is_reserved_char(c: char) -> bool {
    c == '\\' || c == '<' || c == '>' || c == '*' || c == '|' || c == '?' || c == ':' || c == '"'
}

/// `s` with every reserved character replaced by `_`.
pub open spec fn spec_sanitize(s: Seq<char>) -> Seq<char> {
    s.map_values(|c: char| if is_reserved_char(c) { '_' } else { c })
}

/// Replaces the characters that some systems refuse in file names
/// (`\ < > * | ? : "`) by `_`.
pub fn sanitize_path_component(name: &str) -> (r: String)
    ensures
        r@ == spec_sanitize(name@),
{
    let chars = chars_of(name);
    let mut out: Vec<char> = Vec::new();
    let mut i: usize = 0;
    while i < chars.len()
        invariant
            chars@ == name@,
            i <= chars@.len(),
            out@ == spec_sanitize(chars@.subrange(0, i as int)),
        decreases chars@.len() - i,
    {
        let c = chars[i];
        let d = if c == '\\' || c == '<' || c == '>' || c == '*' || c == '|' || c == '?' || c == ':'
            || c == '"' {
            '_'
        } else {
            c
        };
        out.push(d);
        assert(spec_sanitize(chars@.subrange(0, i + 1)) =~= spec_sanitize(chars@.subrange(0, i as int)).push(d));
        i = i + 1;
    }
    assert(chars@.subrange(0, chars@.len() as int) == chars@);
    string_from_chars(out.as_slice())
}

/// A sanitized name holds no reserved character, and sanitizing it again
/// changes nothing.
pub proof fn law_sanitize_clears_reserved(s: Seq<char>)
    ensures
        forall|i: int| 0 <= i < spec_sanitize(s).len() ==> !is_reserved_char(#[trigger] spec_sanitize(s)[i]),
        spec_sanitize(spec_sanitize(s)) == spec_sanitize(s),
        spec_sanitize(s).len() == s.len(),
{
    assert(spec_sanitize(spec_sanitize(s)) =~= spec_sanitize(s));
}

/// The path `rel` joined under `base` (`Path::join`), as text.
pub uninterp spec fn joined_path(base: Seq<char>, rel: Seq<char>) -> Seq<char>;

/// Whether the path `path` begins with the components of `base`
/// (`Path::starts_with`).
pub uninterp spec fn path_has_prefix(path: Seq<char>, base: Seq<char>) -> bool;

/// `Path::join`: the text is named by [`joined_path`]. Both paths are UTF-8,
/// so the joined one is too and converts without loss.
#[verifier::external_body]
pub(crate) fn join_path(base: &str, rel: &str) -> (r: String)
    ensures
        r@ == joined_path(base@, rel@),
{
    std::path::Path::new(base).join(rel).to_string_lossy().into_owned()
}

/// `Path::starts_with`: named by [`path_has_prefix`].
#[verifier::external_body]
fn path_starts_with(path: &str, base: &str) -> (r: bool)
    ensures
        r == path_has_prefix(path@, base@),
{
    std::path::Path::new(path).starts_with(base)
}

/// Where received entries are written.
#[derive(Clone, Copy, Debug, PartialEq, Eq, Structural)]
pub enum Storage {
    /// The local filesystem, under a destination directory.
    Local,
    /// A virtual filesystem, by the host application.
    Virtual,
}

/// Whether a `..` component (the parent directory) starts at `i` in the
/// `/`-separated name `rel`.
pub open spec fn parent_component_at(rel: Seq<char>, i: int) -> bool {
    &&& 0 <= i
    &&& i + 2 <= rel.len()
    &&& i == 0 || rel[i - 1] == '/'
    &&& rel[i] == '.'
    &&& rel[i + 1] == '.'
    &&& i + 2 == rel.len() || rel[i + 2] == '/'
}

/// Whether the name `rel` climbs to a parent directory somewhere.
pub open spec fn has_parent_component(rel: Seq<char>) -> bool {
    exists|i: int| #[trigger] parent_component_at(rel, i)
}

/// Whether the name `rel` is absolute: it begins at the root.
pub open spec fn is_absolute_name(rel: Seq<char>) -> bool {
    rel.len() > 0 && rel[0] == '/'
}

/// Whether the sanitized name `rel` is refused as unsafe, because what it
/// names would not stay inside `destination`: an absolute name is refused
/// everywhere; on the local filesystem also a name that climbs to a parent
/// directory, or whose join under `destination` does not begin with it; on
/// a virtual filesystem also any name that holds `..`.
pub open spec fn spec_unsafe_path(storage: Storage, destination: Seq<char>, rel: Seq<char>) -> bool {
    is_absolute_name(rel) || match storage {
        Storage::Local => has_parent_component(rel) || !path_has_prefix(joined_path(destination, rel), destination),
        Storage::Virtual => has_dot_dot(rel),
    }
}

/// Whether `rel` has a `..` component.
fn climbs_to_parent(rel: &str) -> (r: bool)
    ensures
        r == has_parent_component(rel@),
{
    let chars = chars_of(rel);
    let n = chars.len();
    let mut i: usize = 0;
    while i < n && n - i >= 2
        invariant
            i <= n,
            chars@ == rel@,
            n == rel@.len(),
            forall|k: int| 0 <= k < i ==> !parent_component_at(rel@, k),
        decreases n - i,
    {
        if (i == 0 || chars[i - 1] == '/') && chars[i] == '.' && chars[i + 1] == '.' && (n - i == 2
            || chars[i + 2] == '/') {
            assert(parent_component_at(rel@, i as int));
            return true;
        }
        i = i + 1;
    }
    proof {
        if has_parent_component(rel@) {
            let k = choose|k: int| #[trigger] parent_component_at(rel@, k);
            assert(k < i);
        }
    }
    false
}

pub fn is_unsafe_path(storage: Storage, destination: &str, rel: &str) -> (r: bool)
    ensures
        r == spec_unsafe_path(storage, destination@, rel@),
{
    let chars = chars_of(rel);
    if chars.len() > 0 && chars[0] == '/' {
        return true;
    }
    match storage {
        Storage::Local => {
            if climbs_to_parent(rel) {
                return true;
            }
            let target = join_path(destination, rel);
            !path_starts_with(target.as_str(), destination)
        },
        Storage::Virtual => contains_dot_dot(rel),
    }
}

/// What the receiver keeps between chunks: the entry being written, and
/// the modification time to give its file when it is done.
#[derive(Debug)]
pub struct ReceiveTracker {
    pub current_path: Option<String>,
    pub current_mtime: Option<FileTime>,
}

/// What to do with a chunk.
#[derive(Debug)]
pub enum ChunkPlan {
    /// Nothing: symbolic links are not received.
    Skip,
    /// A new entry begins: finish the file being written (giving it the
    /// modification time `finish_mtime` when there is one), then make
    /// `path` a directory, or create it as a file and write the chunk to it.
    NewEntry { finish_mtime: Option<FileTime>, path: String, directory: bool },
    /// More of the current entry: write the chunk to the open file, if any.
    Append,
}

/// The kind of entry a chunk announces; an unknown number stands for a
/// file.
pub open spec fn chunk_kind(code: i32) -> FileType {
    if code == 2 {
        FileType::Directory
    } else if code == 3 {
        FileType::Symlink
    } else {
        FileType::File
    }
}

impl ReceiveTracker {
    /// Nothing received yet.
    pub fn new() -> (r: ReceiveTracker)
        ensures
            r.current_path is None,
            r.current_mtime is None,
    {
        ReceiveTracker { current_path: None, current_mtime: None }
    }

    /// Decides what to do with a chunk for `relative_path` of kind
    /// `file_type` carrying the time `time`. A symbolic link is skipped; a
    /// name that is unsafe once sanitized (see [`spec_unsafe_path`]) fails
    /// with `UnsafePath`; a name other than the current entry's begins a new
    /// entry, which becomes the current one with the chunk's time; the
    /// current entry's name continues it.
    pub fn plan_chunk(
        &mut self,
        relative_path: &str,
        file_type: i32,
        time: Option<FileTime>,
        storage: Storage,
        destination: &str,
    ) -> (r: Result<ChunkPlan, TransferError>)
        ensures
            chunk_kind(file_type) == FileType::Symlink ==> r is Ok && r->Ok_0 is Skip
                && final(self).current_path == old(self).current_path
                && final(self).current_mtime == old(self).current_mtime,
            chunk_kind(file_type) != FileType::Symlink ==> {
                let name = spec_sanitize(relative_path@);
                if spec_unsafe_path(storage, destination@, name) {
                    r == Err::<ChunkPlan, TransferError>(TransferError::UnsafePath)
                        && opt_chars(final(self).current_path) == opt_chars(old(self).current_path)
                        && final(self).current_mtime == old(self).current_mtime
                } else if opt_chars(old(self).current_path) == Some(name) {
                    r is Ok && r->Ok_0 is Append && opt_chars(final(self).current_path) == opt_chars(
                        old(self).current_path,
                    ) && final(self).current_mtime == old(self).current_mtime
                } else {
                    &&& r is Ok
                    &&& r->Ok_0 is NewEntry
                    &&& r->Ok_0->finish_mtime == old(self).current_mtime
                    &&& r->Ok_0->path@ == name
                    &&& r->Ok_0->directory == (chunk_kind(file_type) == FileType::Directory)
                    &&& opt_chars(final(self).current_path) == Some(name)
                    &&& final(self).current_mtime == time
                }
            },
    {
        let kind = match FileType::try_from_code(file_type) {
            Ok(k) => k,
            Err(_) => FileType::File,
        };
        assert(kind == chunk_kind(file_type));
        if let FileType::Symlink = kind {
            return Ok(ChunkPlan::Skip);
        }
        let name = sanitize_path_component(relative_path);
        if is_unsafe_path(storage, destination, name.as_str()) {
            return Err(TransferError::UnsafePath);
        }
        let same = match &self.current_path {
            Some(p) => str_eq(p.as_str(), name.as_str()),
            None => false,
        };
        if same {
            return Ok(ChunkPlan::Append);
        }
        let finish_mtime = self.current_mtime;
        self.current_path = Some(name.clone());
        self.current_mtime = time;
        let directory = match kind {
            FileType::Directory => true,
            _ => false,
        };
        Ok(ChunkPlan::NewEntry { finish_mtime, path: name, directory })
    }

    /// Ends the current entry: returns the modification time to give its
    /// file, if any, and forgets the entry.
    pub fn finish(&mut self) -> (r: Option<FileTime>)
        ensures
            r == old(self).current_mtime,
            final(self).current_path is None,
            final(self).current_mtime is None,
    {
        let t = self.current_mtime;
        self.current_mtime = None;
        self.current_path = None;
        t
    }
}

/// The state a received transfer ends in: completed when the stream ended,
/// canceled when the receiver was cancelled, failed with the error
/// otherwise.
pub open spec fn spec_receive_outcome(result: Result<bool, TransferError>) -> TransferState {
    match result {
        Ok(true) => TransferState::Completed,
        Ok(false) => TransferState::Canceled,
        Err(e) => TransferState::Failed(e),
    }
}

pub fn receive_outcome(result: Result<bool, TransferError>) -> (r: TransferState)
    ensures
        r == spec_receive_outcome(result),
{
    match result {
        Ok(true) => TransferState::Completed,
        Ok(false) => TransferState::Canceled,
        Err(e) => TransferState::Failed(e),
    }
}

/// A received transfer once it ended: it keeps a state of stopped or
/// canceled (the user's decision stands), otherwise takes `final_state`;
/// its speed drops to 0.
pub open spec fn spec_received_end(t: TransferView, final_state: TransferState) -> TransferView {
    TransferView {
        state: if t.state is Stopped || t.state is Canceled { t.state } else { final_state },
        bytes_per_second: 0,
        ..t
    }
}

/// Records the end of a received transfer (see [`spec_received_end`]).
pub fn finish_received_transfer(
    store: &mut RemoteManagerInner,
    ruuid: &str,
    tuuid: &str,
    final_state: TransferState,
    pending_events: usize,
) -> (r: Result<Option<WarpEvent>, RemoteWorkerError>)
    ensures
        transfer_changed(
            old(store)@,
            final(store)@,
            ruuid@,
            tuuid@,
            spec_received_end(spec_find_transfer(old(store)@, ruuid@, tuuid@)->0, final_state),
            pending_events,
            r,
        ),
{
    let mut t = match store.transfer(ruuid, tuuid) {
        Some(t) => t,
        None => return Err(RemoteWorkerError::UpdateFailed(crate::server::remote_manager::UpdateError::NotFound)),
    };
    match t.state {
        TransferState::Stopped | TransferState::Canceled => {},
        _ => {
            t.state = final_state;
        },
    }
    t.bytes_per_second = 0;
    match store.update_transfer(ruuid, tuuid, t, pending_events) {
        Ok(e) => Ok(e),
        Err(e) => Err(RemoteWorkerError::UpdateFailed(e)),
    }
}

/// A transfer that stopped or was canceled by the user stays so, whatever
/// the end of its stream.
pub proof fn law_user_decision_stands(t: TransferView, final_state: TransferState)
    requires
        t.state is Stopped || t.state is Canceled,
    ensures
        spec_received_end(t, final_state).state == t.state,
        spec_received_end(t, final_state).bytes_per_second == 0,
{
}

} // verus!

verus! {

// ---------------------------------------------------------------------------
// The decisions of the receive loop.

/// What the stream of a received transfer gave, or that it was cancelled.
#[derive(Debug)]
pub enum StreamEvent {
    /// The transfer was cancelled.
    Cancelled,
    /// A chunk came and was handled; `Err` when handling it failed.
    Chunk(Result<(), TransferError>),
    /// The stream ended.
    End,
    /// The stream broke.
    Broken,
}

/// What the receive loop does next.
#[derive(Debug)]
pub enum ReceiveAction {
    /// Wait for the next chunk.
    Continue,
    /// Stop with `result`, closing the file being written first when
    /// `close_file`.
    Finish { close_file: bool, result: Result<bool, TransferError> },
}

/// The receive loop's answer to `event`: it goes on after a chunk that was
/// handled; a cancellation ends it with `Ok(false)`, the end of the stream
/// with `Ok(true)`, a broken stream as a lost connection, each closing the
/// current file; a chunk that failed ends it with its error, the file left
/// as it is.
pub open spec fn spec_receive_step(event: StreamEvent) -> ReceiveAction {
    match event {
        StreamEvent::Cancelled => ReceiveAction::Finish { close_file: true, result: Ok(false) },
        StreamEvent::Chunk(Ok(())) => ReceiveAction::Continue,
        StreamEvent::Chunk(Err(e)) => ReceiveAction::Finish { close_file: false, result: Err(e) },
        StreamEvent::End => ReceiveAction::Finish { close_file: true, result: Ok(true) },
        StreamEvent::Broken => ReceiveAction::Finish {
            close_file: true,
            result: Err(TransferError::ConnectionLost),
        },
    }
}

pub fn receive_step(event: StreamEvent) -> (r: ReceiveAction)
    ensures
        r == spec_receive_step(event),
{
    match event {
        StreamEvent::Cancelled => ReceiveAction::Finish { close_file: true, result: Ok(false) },
        StreamEvent::Chunk(Ok(())) => ReceiveAction::Continue,
        StreamEvent::Chunk(Err(e)) => ReceiveAction::Finish { close_file: false, result: Err(e) },
        StreamEvent::End => ReceiveAction::Finish { close_file: true, result: Ok(true) },
        StreamEvent::Broken => ReceiveAction::Finish { close_file: true, result: Err(TransferError::ConnectionLost) },
    }
}

/// How a received transfer ends, from the event that ended its loop: the
/// end of the stream completes it, a cancellation cancels it, a broken
/// stream or a failed chunk fails it with that error.
pub proof fn law_receive_end_states(e: TransferError)
    ensures
        spec_receive_outcome(spec_receive_step(StreamEvent::End)->result) == TransferState::Completed,
        spec_receive_outcome(spec_receive_step(StreamEvent::Cancelled)->result) == TransferState::Canceled,
        spec_receive_outcome(spec_receive_step(StreamEvent::Broken)->result) == TransferState::Failed(
            TransferError::ConnectionLost,
        ),
        spec_receive_outcome(spec_receive_step(StreamEvent::Chunk(Err(e)))->result) == TransferState::Failed(e),
{
}

} // verus!
