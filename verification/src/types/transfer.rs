//! File transfers between two peers.
use vstd::prelude::*;
use crate::filesystem::vfs::VirtualFilesystemError;
use crate::ids::{new_uuid_v4_value, now_millis, protocol_id_from_uuid, protocol_id_of, uuid_text, uuid_to_string};
use crate::proto::{OpInfo, TransferOpRequest};
use crate::text::to_owned_string;

verus! {

/// The kinds of input/output failure that a transfer tells apart.
#[derive(Clone, Copy, Debug, PartialEq, Eq, Structural)]
pub enum IoErrorKind {
    NotFound,
    PermissionDenied,
    ReadOnlyFilesystem,
    StorageFull,
    FileTooLarge,
    InvalidFilename,
    OutOfMemory,
    Other,
}

/// Why a transfer failed.
#[derive(Debug)]
pub enum TransferError {
    ConnectionLost,
    StorageFull,
    FailedToProcessFiles,
    /// The peer refused to start the transfer; the message of its status.
    FailedToStartTransfer(String),
    UnsafePath,
    FilesNotFound,
    PermissionDenied,
    FileTooLarge,
    InvalidFilename,
    OutOfMemory,
    IoError(IoErrorKind),
    RemoteError,
    VirtualFilesystemError(VirtualFilesystemError),
}

impl Clone for TransferError {
    fn clone(&self) -> (r: TransferError)
        ensures
            r == *self,
    {
        match self {
            TransferError::ConnectionLost => TransferError::ConnectionLost,
            TransferError::StorageFull => TransferError::StorageFull,
            TransferError::FailedToProcessFiles => TransferError::FailedToProcessFiles,
            TransferError::FailedToStartTransfer(s) => TransferError::FailedToStartTransfer(s.clone()),
            TransferError::UnsafePath => TransferError::UnsafePath,
            TransferError::FilesNotFound => TransferError::FilesNotFound,
            TransferError::PermissionDenied => TransferError::PermissionDenied,
            TransferError::FileTooLarge => TransferError::FileTooLarge,
            TransferError::InvalidFilename => TransferError::InvalidFilename,
            TransferError::OutOfMemory => TransferError::OutOfMemory,
            TransferError::IoError(k) => TransferError::IoError(*k),
            TransferError::RemoteError => TransferError::RemoteError,
            TransferError::VirtualFilesystemError(e) => TransferError::VirtualFilesystemError(*e),
        }
    }
}

/// The transfer error that an input/output failure of `kind` stands for.
pub open spec fn transfer_error_of_io(kind: IoErrorKind) -> TransferError {
    match kind {
        IoErrorKind::NotFound => TransferError::FilesNotFound,
        IoErrorKind::PermissionDenied => TransferError::PermissionDenied,
        IoErrorKind::ReadOnlyFilesystem => TransferError::PermissionDenied,
        IoErrorKind::StorageFull => TransferError::StorageFull,
        IoErrorKind::FileTooLarge => TransferError::FileTooLarge,
        IoErrorKind::InvalidFilename => TransferError::InvalidFilename,
        IoErrorKind::OutOfMemory => TransferError::OutOfMemory,
        IoErrorKind::Other => TransferError::IoError(IoErrorKind::Other),
    }
}

impl TransferError {
    /// The transfer error for an input/output failure.
    pub fn from_io_error_kind(kind: IoErrorKind) -> (r: TransferError)
        ensures
            r == transfer_error_of_io(kind),
    {
        match kind {
            IoErrorKind::NotFound => TransferError::FilesNotFound,
            IoErrorKind::PermissionDenied | IoErrorKind::ReadOnlyFilesystem => {
                TransferError::PermissionDenied
            },
            IoErrorKind::StorageFull => TransferError::StorageFull,
            IoErrorKind::FileTooLarge => TransferError::FileTooLarge,
            IoErrorKind::InvalidFilename => TransferError::InvalidFilename,
            IoErrorKind::OutOfMemory => TransferError::OutOfMemory,
            IoErrorKind::Other => TransferError::IoError(IoErrorKind::Other),
        }
    }
}

/// Where a transfer stands.
#[derive(Debug)]
pub enum TransferState {
    /// A new outgoing transfer.
    Initializing,
    /// Waiting for the other party to accept.
    WaitingPermission,
    InProgress,
    Paused,
    Completed,
    /// Stopped while in progress.
    Stopped,
    /// Canceled by the sender.
    Canceled,
    /// Denied by the other party.
    Denied,
    Failed(TransferError),
}

impl Clone for TransferState {
    fn clone(&self) -> (r: TransferState)
        ensures
            r == *self,
    {
        match self {
            TransferState::Initializing => TransferState::Initializing,
            TransferState::WaitingPermission => TransferState::WaitingPermission,
            TransferState::InProgress => TransferState::InProgress,
            TransferState::Paused => TransferState::Paused,
            TransferState::Completed => TransferState::Completed,
            TransferState::Stopped => TransferState::Stopped,
            TransferState::Canceled => TransferState::Canceled,
            TransferState::Denied => TransferState::Denied,
            TransferState::Failed(e) => TransferState::Failed(e.clone()),
        }
    }
}

/// The variant of a state, without its payload (`std::mem::discriminant`).
pub open spec fn state_tag(s: TransferState) -> int {
    match s {
        TransferState::Initializing => 0,
        TransferState::WaitingPermission => 1,
        TransferState::InProgress => 2,
        TransferState::Paused => 3,
        TransferState::Completed => 4,
        TransferState::Stopped => 5,
        TransferState::Canceled => 6,
        TransferState::Denied => 7,
        TransferState::Failed(_) => 8,
    }
}

/// Whether two states are of the same variant.
pub fn same_state_variant(a: &TransferState, b: &TransferState) -> (r: bool)
    ensures
        r == (state_tag(*a) == state_tag(*b)),
{
    match (a, b) {
        (TransferState::Initializing, TransferState::Initializing) => true,
        (TransferState::WaitingPermission, TransferState::WaitingPermission) => true,
        (TransferState::InProgress, TransferState::InProgress) => true,
        (TransferState::Paused, TransferState::Paused) => true,
        (TransferState::Completed, TransferState::Completed) => true,
        (TransferState::Stopped, TransferState::Stopped) => true,
        (TransferState::Canceled, TransferState::Canceled) => true,
        (TransferState::Denied, TransferState::Denied) => true,
        (TransferState::Failed(_), TransferState::Failed(_)) => true,
        _ => false,
    }
}

/// Whether the transfer is outgoing (with the paths it sends) or incoming
/// (with where it is saved).
#[derive(Debug)]
pub enum TransferKind {
    Outgoing { source_paths: Vec<String> },
    Incoming { destination: String },
}

/// A transfer kind with its strings as character sequences.
pub enum TransferKindView {
    Outgoing { source_paths: Seq<Seq<char>> },
    Incoming { destination: Seq<char> },
}

impl View for TransferKind {
    type V = TransferKindView;

    open spec fn view(&self) -> TransferKindView {
        match self {
            TransferKind::Outgoing { source_paths } => TransferKindView::Outgoing {
                source_paths: source_paths.deep_view(),
            },
            TransferKind::Incoming { destination } => TransferKindView::Incoming {
                destination: destination@,
            },
        }
    }
}

/// A copy of a list of strings.
pub fn clone_strings(v: &Vec<String>) -> (r: Vec<String>)
    ensures
        r.deep_view() == v.deep_view(),
{
    let r = v.clone();
    assert(r.deep_view() =~= v.deep_view()) by {
        assert forall|i: int| 0 <= i < v@.len() implies #[trigger] r.deep_view()[i] == v.deep_view()[i] by {
            assert(cloned::<String>(v@[i], r@[i]));
        }
    }
    r
}

impl Clone for TransferKind {
    fn clone(&self) -> (r: TransferKind)
        ensures
            r@ == self@,
    {
        match self {
            TransferKind::Outgoing { source_paths } => {
                TransferKind::Outgoing { source_paths: clone_strings(source_paths) }
            },
            TransferKind::Incoming { destination } => TransferKind::Incoming {
                destination: destination.clone(),
            },
        }
    }
}

/// A transfer of files with a peer.
#[derive(Debug)]
pub struct Transfer {
    pub uuid: String,
    /// The UUID of the peer.
    pub remote_uuid: String,
    /// The id of the transfer in the protocol.
    pub protocol_id: u64,
    pub state: TransferState,
    /// Milliseconds since the Unix epoch when the transfer was made.
    pub timestamp: u64,
    pub total_bytes: u64,
    pub bytes_transferred: u64,
    /// The current speed, a moving average.
    pub bytes_per_second: u64,
    pub file_count: u64,
    /// The names of the top entries.
    pub entry_names: Vec<String>,
    /// The name of the file, when the transfer holds a single file.
    pub single_name: Option<String>,
    /// The MIME type of the file, when the transfer holds a single file.
    pub single_mime_type: Option<String>,
    pub kind: TransferKind,
}

/// A transfer with its strings as character sequences.
pub struct TransferView {
    pub uuid: Seq<char>,
    pub remote_uuid: Seq<char>,
    pub protocol_id: u64,
    pub state: TransferState,
    pub timestamp: u64,
    pub total_bytes: u64,
    pub bytes_transferred: u64,
    pub bytes_per_second: u64,
    pub file_count: u64,
    pub entry_names: Seq<Seq<char>>,
    pub single_name: Option<Seq<char>>,
    pub single_mime_type: Option<Seq<char>>,
    pub kind: TransferKindView,
}

/// The view of an optional string.
pub open spec fn opt_chars(s: Option<String>) -> Option<Seq<char>> {
    match s {
        Some(v) => Some(v@),
        None => None,
    }
}

impl View for Transfer {
    type V = TransferView;

    open spec fn view(&self) -> TransferView {
        TransferView {
            uuid: self.uuid@,
            remote_uuid: self.remote_uuid@,
            protocol_id: self.protocol_id,
            state: self.state,
            timestamp: self.timestamp,
            total_bytes: self.total_bytes,
            bytes_transferred: self.bytes_transferred,
            bytes_per_second: self.bytes_per_second,
            file_count: self.file_count,
            entry_names: self.entry_names.deep_view(),
            single_name: opt_chars(self.single_name),
            single_mime_type: opt_chars(self.single_mime_type),
            kind: self.kind@,
        }
    }
}

impl Clone for Transfer {
    fn clone(&self) -> (r: Transfer)
        ensures
            r@ == self@,
    {
        let names = clone_strings(&self.entry_names);
        Transfer {
            uuid: self.uuid.clone(),
            remote_uuid: self.remote_uuid.clone(),
            protocol_id: self.protocol_id,
            state: self.state.clone(),
            timestamp: self.timestamp,
            total_bytes: self.total_bytes,
            bytes_transferred: self.bytes_transferred,
            bytes_per_second: self.bytes_per_second,
            file_count: self.file_count,
            entry_names: names,
            single_name: match &self.single_name {
                Some(s) => Some(s.clone()),
                None => None,
            },
            single_mime_type: match &self.single_mime_type {
                Some(s) => Some(s.clone()),
                None => None,
            },
            kind: self.kind.clone(),
        }
    }
}

/// A copy of an optional string.
pub fn clone_opt_string(s: &Option<String>) -> (r: Option<String>)
    ensures
        opt_chars(r) == opt_chars(*s),
{
    match s {
        Some(v) => Some(v.clone()),
        None => None,
    }
}

/// The text of an optional string, empty when absent.
pub open spec fn text_or_empty(s: Option<String>) -> Seq<char> {
    match s {
        Some(v) => v@,
        None => Seq::empty(),
    }
}

fn string_or_empty(s: &Option<String>) -> (r: String)
    ensures
        r@ == text_or_empty(*s),
{
    match s {
        Some(v) => v.clone(),
        None => String::new(),
    }
}

/// The text of an optional string view, empty when absent.
pub open spec fn text_or_empty_view(s: Option<Seq<char>>) -> Seq<char> {
    match s {
        Some(v) => v,
        None => Seq::empty(),
    }
}

/// `r` is the request that offers the transfer `t` from the service
/// `service_id`.
pub open spec fn is_offer_of(t: TransferView, service_id: Seq<char>, r: TransferOpRequest) -> bool {
    &&& r.info is Some
    &&& r.info->0.ident@ == service_id
    &&& r.info->0.timestamp == t.protocol_id
    &&& r.receiver@ == service_id
    &&& r.size == t.total_bytes
    &&& r.count == t.file_count
    &&& r.name_if_single@ == text_or_empty_view(t.single_name)
    &&& r.mime_if_single@ == text_or_empty_view(t.single_mime_type)
    &&& r.top_dir_basenames.deep_view() == t.entry_names
}

/// `t` is the incoming transfer that the offer `value` stands for (its
/// UUID and timestamp aside).
pub open spec fn is_received_offer(value: TransferOpRequest, t: TransferView) -> bool {
    &&& value.info is Some
    &&& t.remote_uuid == value.info->0.ident@
    &&& t.protocol_id == value.info->0.timestamp
    &&& t.state == TransferState::WaitingPermission
    &&& t.total_bytes == value.size
    &&& t.bytes_transferred == 0
    &&& t.file_count == value.count
    &&& t.entry_names == value.top_dir_basenames.deep_view()
    &&& t.single_name == (if value.count == 1 && value.name_if_single@.len() > 0 {
        Some(value.name_if_single@)
    } else {
        None
    })
    &&& t.single_mime_type == (if value.count == 1 && value.mime_if_single@.len() > 0 {
        Some(value.mime_if_single@)
    } else {
        None
    })
    &&& t.kind is Incoming
}

/// A transfer offered to a peer arrives as an incoming transfer from the
/// offering service, with the same protocol id, size, file count and entry
/// names, waiting for permission; a single file keeps its name and MIME type
/// when they are not empty.
pub proof fn law_offer_round_trip(t: TransferView, service_id: Seq<char>, req: TransferOpRequest, back: TransferView)
    requires
        is_offer_of(t, service_id, req),
        is_received_offer(req, back),
    ensures
        back.remote_uuid == service_id,
        back.protocol_id == t.protocol_id,
        back.total_bytes == t.total_bytes,
        back.file_count == t.file_count,
        back.entry_names == t.entry_names,
        back.state == TransferState::WaitingPermission,
        back.kind is Incoming,
        t.file_count == 1 && t.single_name is Some && t.single_name->0.len() > 0 ==> back.single_name == t.single_name,
        t.file_count == 1 && t.single_mime_type is Some && t.single_mime_type->0.len() > 0 ==> back.single_mime_type == t.single_mime_type,
        t.file_count != 1 ==> back.single_name is None && back.single_mime_type is None,
{
}

impl Transfer {
    /// A new outgoing transfer of `source_paths`, initializing, with the given
    /// UUID value and timestamp. Its protocol id is the sum of the UUID's
    /// halves.
    pub fn new_outgoing_with(
        remote_uuid: String,
        source_paths: Vec<String>,
        uuid_value: u128,
        timestamp: u64,
    ) -> (r: Transfer)
        ensures
            r.uuid@ == uuid_text(uuid_value),
            r.remote_uuid == remote_uuid,
            r.protocol_id == protocol_id_of(uuid_value),
            r.state == TransferState::Initializing,
            r.timestamp == timestamp,
            r.total_bytes == 0,
            r.bytes_transferred == 0,
            r.bytes_per_second == 0,
            r.file_count == 0,
            r.entry_names@.len() == 0,
            r.single_name is None,
            r.single_mime_type is None,
            r.kind@ == (TransferKindView::Outgoing { source_paths: source_paths.deep_view() }),
    {
        Transfer {
            uuid: uuid_to_string(uuid_value),
            remote_uuid,
            protocol_id: protocol_id_from_uuid(uuid_value),
            state: TransferState::Initializing,
            timestamp,
            total_bytes: 0,
            bytes_transferred: 0,
            bytes_per_second: 0,
            file_count: 0,
            entry_names: Vec::new(),
            single_name: None,
            single_mime_type: None,
            kind: TransferKind::Outgoing { source_paths },
        }
    }

    /// A new outgoing transfer, with a fresh random UUID and the current time.
    pub fn new_outgoing(remote_uuid: String, source_paths: Vec<String>) -> (r: Transfer)
        ensures
            exists|v: u128| r.uuid@ == uuid_text(v) && r.protocol_id == protocol_id_of(v),
            r.remote_uuid == remote_uuid,
            r.state == TransferState::Initializing,
            r.total_bytes == 0,
            r.bytes_transferred == 0,
            r.bytes_per_second == 0,
            r.file_count == 0,
            r.entry_names@.len() == 0,
            r.single_name is None,
            r.single_mime_type is None,
            r.kind@ == (TransferKindView::Outgoing { source_paths: source_paths.deep_view() }),
    {
        let v = new_uuid_v4_value();
        let t = now_millis();
        Transfer::new_outgoing_with(remote_uuid, source_paths, v, t)
    }

    /// The request that offers this transfer to a peer, sent as the service
    /// `service_id`.
    pub fn as_proto(&self, service_id: &str) -> (r: TransferOpRequest)
        ensures
            r.info is Some,
            r.info->0.ident@ == service_id@,
            r.info->0.timestamp == self.protocol_id,
            r.info->0.readable_name@.len() == 0,
            !r.info->0.use_compression,
            r.sender_name@.len() == 0,
            r.receiver_name@.len() == 0,
            r.receiver@ == service_id@,
            r.size == self.total_bytes,
            r.count == self.file_count,
            r.name_if_single@ == text_or_empty(self.single_name),
            r.mime_if_single@ == text_or_empty(self.single_mime_type),
            r.top_dir_basenames.deep_view() == self.entry_names.deep_view(),
            is_offer_of(self@, service_id@, r),
    {
        let names = clone_strings(&self.entry_names);
        TransferOpRequest {
            info: Some(OpInfo {
                ident: to_owned_string(service_id),
                timestamp: self.protocol_id,
                readable_name: String::new(),
                use_compression: false,
            }),
            sender_name: String::new(),
            receiver_name: String::new(),
            receiver: to_owned_string(service_id),
            size: self.total_bytes,
            count: self.file_count,
            name_if_single: string_or_empty(&self.single_name),
            mime_if_single: string_or_empty(&self.single_mime_type),
            top_dir_basenames: names,
        }
    }

    /// The incoming transfer that a peer's offer stands for, with the given
    /// UUID value and timestamp: waiting for permission, sized and counted as
    /// offered, with a single name and MIME type only for a single file whose
    /// offer names them, and saved to `/` until it is accepted.
    pub fn from_op_request_with(value: TransferOpRequest, uuid_value: u128, timestamp: u64) -> (r:
        Transfer)
        requires
            value.info is Some,
        ensures
            r.uuid@ == uuid_text(uuid_value),
            r.remote_uuid == value.info->0.ident,
            r.protocol_id == value.info->0.timestamp,
            r.state == TransferState::WaitingPermission,
            r.timestamp == timestamp,
            r.total_bytes == value.size,
            r.bytes_transferred == 0,
            r.bytes_per_second == 0,
            r.file_count == value.count,
            r.entry_names == value.top_dir_basenames,
            r.single_name == (if value.count == 1 && value.name_if_single@.len() > 0 {
                Some(value.name_if_single)
            } else {
                None
            }),
            r.single_mime_type == (if value.count == 1 && value.mime_if_single@.len() > 0 {
                Some(value.mime_if_single)
            } else {
                None
            }),
            r.kind is Incoming,
            r.kind->Incoming_destination@ == seq!['/'],
            is_received_offer(value, r@),
    {
        let info = value.info.unwrap();
        let single_name = if value.count == 1 && value.name_if_single.unicode_len() > 0 {
            Some(value.name_if_single)
        } else {
            None
        };
        let single_mime_type = if value.count == 1 && value.mime_if_single.unicode_len() > 0 {
            Some(value.mime_if_single)
        } else {
            None
        };
        let root = "/";
        proof {
            reveal_strlit("/");
        }
        Transfer {
            uuid: uuid_to_string(uuid_value),
            remote_uuid: info.ident,
            protocol_id: info.timestamp,
            state: TransferState::WaitingPermission,
            timestamp,
            total_bytes: value.size,
            bytes_transferred: 0,
            bytes_per_second: 0,
            file_count: value.count,
            entry_names: value.top_dir_basenames,
            single_name,
            single_mime_type,
            kind: TransferKind::Incoming { destination: to_owned_string(root) },
        }
    }

    /// The incoming transfer that a peer's offer stands for, with a fresh
    /// UUID and the current time.
    pub fn from_op_request(value: TransferOpRequest) -> (r: Transfer)
        requires
            value.info is Some,
        ensures
            exists|v: u128| r.uuid@ == uuid_text(v),
            r.remote_uuid == value.info->0.ident,
            r.protocol_id == value.info->0.timestamp,
            r.state == TransferState::WaitingPermission,
            r.total_bytes == value.size,
            r.bytes_transferred == 0,
            r.bytes_per_second == 0,
            r.file_count == value.count,
            r.entry_names == value.top_dir_basenames,
            r.single_name == (if value.count == 1 && value.name_if_single@.len() > 0 {
                Some(value.name_if_single)
            } else {
                None
            }),
            r.single_mime_type == (if value.count == 1 && value.mime_if_single@.len() > 0 {
                Some(value.mime_if_single)
            } else {
                None
            }),
            r.kind is Incoming,
            r.kind->Incoming_destination@ == seq!['/'],
    {
        let v = new_uuid_v4_value();
        let t = now_millis();
        Transfer::from_op_request_with(value, v, t)
    }
}

/// Why the source paths of a transfer could not be summed up.
#[derive(Debug)]
pub enum SourcePathError {
    VirtualFilesystemError(VirtualFilesystemError),
    IoError(IoErrorKind),
    UnsupportedPathType(String),
}

} // verus!
