//! The messages of the Warpinator wire protocol, as plain values.
use vstd::prelude::*;

verus! {

/// A text message sent to a peer.
#[derive(Debug)]
pub struct TextMessage {
    pub ident: String,
    pub timestamp: u64,
    pub message: String,
}

/// Names an operation (a transfer) between two peers.
#[derive(Debug)]
pub struct OpInfo {
    pub ident: String,
    pub timestamp: u64,
    pub readable_name: String,
    pub use_compression: bool,
}

/// Offers a transfer to a peer.
#[derive(Debug)]
pub struct TransferOpRequest {
    pub info: Option<OpInfo>,
    pub sender_name: String,
    pub receiver_name: String,
    pub receiver: String,
    pub size: u64,
    pub count: u64,
    pub name_if_single: String,
    pub mime_if_single: String,
    pub top_dir_basenames: Vec<String>,
}

/// Stops a transfer.
#[derive(Debug)]
pub struct StopInfo {
    pub info: Option<OpInfo>,
    pub error: bool,
}

/// A peer's service, as exchanged at registration.
#[derive(Debug)]
pub struct ServiceRegistration {
    pub service_id: String,
    pub ip: String,
    pub port: u32,
    pub hostname: String,
    pub api_version: u32,
    pub auth_port: u32,
    pub ipv6: String,
}

/// Asks a peer for its certificate.
#[derive(Debug)]
pub struct RegRequest {
    pub ip: String,
    pub hostname: String,
    pub ipv6: String,
}

/// A peer's certificate, boxed with the group code and then Base64-encoded.
#[derive(Debug)]
pub struct RegResponse {
    pub locked_cert: String,
}

/// Names the asking peer.
#[derive(Debug)]
pub struct LookupName {
    pub id: String,
    pub readable_name: String,
}

/// The modification time of a file.
#[derive(Clone, Copy, Debug, PartialEq, Eq, Structural)]
pub struct FileTime {
    pub mtime: u64,
    pub mtime_usec: u32,
}

/// A piece of a transfer: a directory, or a part of a file's contents.
#[derive(Debug)]
pub struct FileChunk {
    pub relative_path: String,
    pub file_type: i32,
    pub symlink_target: String,
    pub chunk: Vec<u8>,
    pub file_mode: u32,
    pub time: Option<FileTime>,
}

/// What a peer says of its user.
#[derive(Debug)]
pub struct RemoteMachineInfo {
    pub display_name: String,
    pub user_name: String,
    pub feature_flags: u32,
}

} // verus!

verus! {

/// The status codes of a failed call that the library tells apart.
#[derive(Clone, Copy, Debug, PartialEq, Eq, Structural)]
pub enum Code {
    InvalidArgument,
    Internal,
    Unimplemented,
    Unavailable,
    Other,
}

/// The status of a failed call: its code and message.
#[derive(Debug)]
pub struct Status {
    pub code: Code,
    pub message: String,
}

} // verus!
