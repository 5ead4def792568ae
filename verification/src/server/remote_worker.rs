//! The worker that keeps the connection to one peer: opening the
//! certificate it receives, what it writes into the record of peers, and
//! what each operation on a transfer makes of it.
use vstd::prelude::*;
use base64::Engine;
use crate::server::connection::{CertFailure, state_after_cert_failure, state_after_cert_failure_of};
use crate::server::authenticator::{Authenticator, CertUnboxError, spec_unbox};
use crate::server::remote_manager::{
    RemoteManagerInner, UpdateError, WarpEvent, WarpEventView, spec_add_transfer, spec_find_remote,
    spec_update_remote, spec_find_transfer, spec_update_transfer, update_announced,
};
use crate::ids::{protocol_id_of, uuid_text};
use crate::proto::TransferOpRequest;
use crate::types::transfer::{SourcePathError, is_offer_of};
use crate::config::features::{ProtocolFeatures, ALL_FEATURE_BITS};
use crate::proto::{LookupName, OpInfo, RegRequest, RemoteMachineInfo, StopInfo};
use crate::net::{IpAddr, Ipv4Addr, decimal_chars, ip_text, ipv4_text, push_u64_decimal};
use crate::types::remote::RemoteView;
use crate::types::transfer::{Transfer, TransferError, TransferKind, TransferKindView, TransferState, TransferView};
use crate::types::remote::RemoteState;
use crate::types::remote::RemoteConnectionError;
use crate::text::{chars_of, string_from_chars, to_owned_string};
use crate::types::transfer::{clone_strings, clone_opt_string, opt_chars};

verus! {

/// The error of Base64 decoding (`base64::DecodeError`).
#[verifier::external_type_specification]
#[verifier::external_body]
pub struct ExDecodeError(base64::DecodeError);

/// The standard Base64 text (with padding) of `bytes`.
pub uninterp spec fn base64_encoded(bytes: Seq<u8>) -> Seq<char>;

/// The bytes that the standard Base64 text `text` decodes to, if it is valid.
pub uninterp spec fn base64_decoded(text: Seq<char>) -> Option<Seq<u8>>;

/// A character of the standard Base64 alphabet, or the padding `=`.
pub open spec fn is_base64_char(c: char) -> bool {
    ('A' <= c && c <= 'Z') || ('a' <= c && c <= 'z') || ('0' <= c && c <= '9') || c == '+'
        || c == '/' || c == '='
}

/// `STANDARD.encode`. The text is named by [`base64_encoded`]; it is made of
/// the standard alphabet and padding only, and decodes back to `bytes`.
#[verifier::external_body]
pub(crate) fn base64_encode(bytes: &[u8]) -> (r: String)
    ensures
        r@ == base64_encoded(bytes@),
        forall|i: int| 0 <= i < r@.len() ==> is_base64_char(#[trigger] r@[i]),
        base64_decoded(r@) == Some(bytes@),
{
    base64::engine::general_purpose::STANDARD.encode(bytes)
}

/// `STANDARD.decode`: the decoded bytes exactly when [`base64_decoded`]
/// names some.
#[verifier::external_body]
pub(crate) fn base64_decode(text: &str) -> (r: Result<Vec<u8>, base64::DecodeError>)
    ensures
        match r {
            Ok(v) => base64_decoded(text@) == Some(v@),
            Err(_) => base64_decoded(text@) is None,
        },
{
    base64::engine::general_purpose::STANDARD.decode(text)
}

/// Why a worker operation failed.
#[derive(Debug)]
pub enum RemoteWorkerError {
    /// The record of peers is gone.
    NoManager,
    RemoteNotFound,
    TransferNotFound,
    /// Not connected yet.
    NoClient,
    /// A call to the peer failed; the message of its status.
    RemoteFailed(String),
    /// Processing the sources of a transfer failed.
    OperationFailed(SourcePathError),
    OperationTimedOut,
    IllegalOperation(String),
    UpdateFailed(UpdateError),
}

/// Why the peer's certificate could not be had.
#[derive(Debug)]
pub enum ReceiveCertError {
    RemoteWorkerError(RemoteWorkerError),
    /// The peer is not in the record.
    NoRemote,
    /// The registration address is not a valid URI; its text.
    InvalidUri(String),
    /// The certificate request failed; the message of its status.
    RequestFailed(String),
    DecodingCertificateFailed(base64::DecodeError),
    MalformedCertificate,
    WrongGroupCode,
    /// The peer's registration service cannot be reached.
    Offline,
}

/// Why connecting to a peer failed.
#[derive(Debug)]
pub enum ConnectRemoteError {
    CertificateError(ReceiveCertError),
    /// The TLS channel could not be built; the message of the failure.
    TlsError(String),
    PingError(String),
    DuplexError(String),
    RemoteWorkerNotFound,
    RemoteWorkerError(RemoteWorkerError),
}

/// `s` without its line breaks (`\n` and `\r`).
pub open spec fn without_line_breaks(s: Seq<char>) -> Seq<char> {
    s.filter(|c: char| c != '\n' && c != '\r')
}

/// Removes the line breaks of `s`.
pub fn remove_line_breaks(s: &str) -> (r: String)
    ensures
        r@ == without_line_breaks(s@),
{
    let chars = chars_of(s);
    let mut kept: Vec<char> = Vec::new();
    let mut i: usize = 0;
    while i < chars.len()
        invariant
            i <= chars@.len(),
            chars@ == s@,
            kept@ == without_line_breaks(chars@.subrange(0, i as int)),
        decreases chars@.len() - i,
    {
        let c = chars[i];
        assert(chars@.subrange(0, i + 1).drop_last() == chars@.subrange(0, i as int));
        reveal_with_fuel(Seq::filter, 1);
        if c != '\n' && c != '\r' {
            kept.push(c);
        }
        i = i + 1;
    }
    assert(chars@.subrange(0, chars@.len() as int) == chars@);
    string_from_chars(kept.as_slice())
}

/// What opening a locked certificate received from a peer gives: its line
/// breaks dropped, Base64-decoded, then unboxed with the key of the group
/// code. A box too short is a malformed certificate; one that does not open,
/// a group code mismatch.
pub open spec fn spec_open_locked_cert(group_code: Seq<char>, locked: Seq<char>) -> Option<
    Result<Seq<u8>, ReceiveCertErrorKind>,
> {
    match base64_decoded(without_line_breaks(locked)) {
        None => None,
        Some(boxed) => Some(
            match spec_unbox(group_code, boxed) {
                Ok(p) => Ok(p),
                Err(CertUnboxError::BoxTooShort) => Err(ReceiveCertErrorKind::MalformedCertificate),
                Err(CertUnboxError::DecryptionFailed) => Err(ReceiveCertErrorKind::WrongGroupCode),
            },
        ),
    }
}

/// The failures of opening a locked certificate, besides decoding.
#[derive(Clone, Copy, Debug, PartialEq, Eq, Structural)]
pub enum ReceiveCertErrorKind {
    MalformedCertificate,
    WrongGroupCode,
}

/// Opens a locked certificate received from a peer (see
/// [`spec_open_locked_cert`]); a text that is not Base64 fails with
/// `DecodingCertificateFailed`.
pub fn open_locked_cert(auth: &Authenticator, locked: &str) -> (r: Result<Vec<u8>, ReceiveCertError>)
    ensures
        match spec_open_locked_cert(auth.spec_group_code(), locked@) {
            None => r is Err && r->Err_0 is DecodingCertificateFailed,
            Some(Ok(p)) => r is Ok && r->Ok_0@ == p,
            Some(Err(ReceiveCertErrorKind::MalformedCertificate)) => r is Err && r->Err_0 is MalformedCertificate,
            Some(Err(ReceiveCertErrorKind::WrongGroupCode)) => r is Err && r->Err_0 is WrongGroupCode,
        },
{
    let cleaned = remove_line_breaks(locked);
    let decoded = match base64_decode(cleaned.as_str()) {
        Ok(d) => d,
        Err(e) => return Err(ReceiveCertError::DecodingCertificateFailed(e)),
    };
    match auth.unbox_cert(decoded.as_slice()) {
        Ok(cert) => Ok(cert),
        Err(CertUnboxError::BoxTooShort) => Err(ReceiveCertError::MalformedCertificate),
        Err(CertUnboxError::DecryptionFailed) => Err(ReceiveCertError::WrongGroupCode),
    }
}

/// What of a failure to get a peer's certificate decides the peer's state.
pub open spec fn spec_cert_failure(e: ReceiveCertError) -> CertFailure {
    match e {
        ReceiveCertError::WrongGroupCode => CertFailure::WrongGroupCode,
        ReceiveCertError::Offline => CertFailure::Offline,
        _ => CertFailure::Other,
    }
}

pub fn cert_failure(e: &ReceiveCertError) -> (r: CertFailure)
    ensures
        r == spec_cert_failure(*e),
{
    match e {
        ReceiveCertError::WrongGroupCode => CertFailure::WrongGroupCode,
        ReceiveCertError::Offline => CertFailure::Offline,
        _ => CertFailure::Other,
    }
}

/// The state a peer is left in when its certificate could not be had (see
/// [`state_after_cert_failure`]).
pub fn state_after_cert_error(e: &ReceiveCertError) -> (r: RemoteState)
    ensures
        r == state_after_cert_failure(spec_cert_failure(*e)),
{
    state_after_cert_failure_of(cert_failure(e))
}

} // verus!

verus! {

// ---------------------------------------------------------------------------
// What the worker writes into the record of peers.

/// `r` with the certificate `cert`.
pub open spec fn with_certificate(r: RemoteView, cert: Seq<u8>) -> RemoteView {
    RemoteView { cert_pem: Some(cert), ..r }
}

/// `r` with what the peer said of its user: display name, user name, and
/// the features of its flags that this library knows.
pub open spec fn with_machine_info(r: RemoteView, display_name: Seq<char>, user_name: Seq<char>, flags: u32) -> RemoteView {
    RemoteView {
        display_name,
        username: user_name,
        features: ProtocolFeatures::spec_from_bits(flags & ALL_FEATURE_BITS),
        ..r
    }
}

/// `r` with the picture made of `bytes`: none when there are no bytes; the
/// picture's version moves on by one, wrapping.
pub open spec fn with_avatar(r: RemoteView, bytes: Seq<u8>) -> RemoteView {
    RemoteView {
        picture: if bytes.len() == 0 { None } else { Some(bytes) },
        picture_version: ((r.picture_version + 1) % 256) as u8,
        ..r
    }
}

/// `r` in state `s`.
pub open spec fn with_state(r: RemoteView, s: RemoteState) -> RemoteView {
    RemoteView { state: s, ..r }
}

/// The record after the peer `uuid` was changed by `f`, or unchanged when
/// there is no such peer.
pub open spec fn changed_remote(s: Seq<RemoteView>, uuid: Seq<char>, new: RemoteView) -> Seq<RemoteView> {
    match spec_update_remote(s, uuid, new) {
        Some(t) => t,
        None => s,
    }
}

/// Keeps the certificate received from the peer `uuid`. Fails with
/// `NoRemote`, the record unchanged, when there is no such peer.
pub fn record_certificate(store: &mut RemoteManagerInner, uuid: &str, cert: Vec<u8>) -> (r: Result<
    WarpEvent,
    ReceiveCertError,
>)
    ensures
        match spec_find_remote(old(store)@, uuid@) {
            Some(p) => r is Ok && final(store)@ == changed_remote(old(store)@, uuid@, with_certificate(p, cert@)),
            None => r is Err && r->Err_0 is NoRemote && final(store)@ == old(store)@,
        },
{
    let mut remote = match store.remote(uuid) {
        Some(p) => p,
        None => return Err(ReceiveCertError::NoRemote),
    };
    remote.cert_pem = Some(cert);
    match store.update_remote(uuid, remote) {
        Ok(e) => Ok(e),
        Err(_) => Err(ReceiveCertError::NoRemote),
    }
}

/// Keeps what the peer `uuid` said of its user. Fails with
/// `UpdateFailed(NotFound)`, the record unchanged, when there is no such
/// peer.
pub fn record_machine_info(store: &mut RemoteManagerInner, uuid: &str, info: RemoteMachineInfo) -> (r: Result<
    WarpEvent,
    RemoteWorkerError,
>)
    ensures
        match spec_find_remote(old(store)@, uuid@) {
            Some(p) => r is Ok && final(store)@ == changed_remote(
                old(store)@,
                uuid@,
                with_machine_info(p, info.display_name@, info.user_name@, info.feature_flags),
            ),
            None => r is Err && r->Err_0 == RemoteWorkerError::UpdateFailed(UpdateError::NotFound)
                && final(store)@ == old(store)@,
        },
{
    let mut remote = match store.remote(uuid) {
        Some(p) => p,
        None => return Err(RemoteWorkerError::UpdateFailed(UpdateError::NotFound)),
    };
    remote.display_name = info.display_name;
    remote.username = info.user_name;
    remote.features = ProtocolFeatures::from_bits_truncate(info.feature_flags);
    match store.update_remote(uuid, remote) {
        Ok(e) => Ok(e),
        Err(e) => Err(RemoteWorkerError::UpdateFailed(e)),
    }
}

/// Keeps the picture of the peer `uuid`, made of the chunks it sent joined
/// in `bytes`. Fails with `UpdateFailed(NotFound)`, the record unchanged,
/// when there is no such peer.
pub fn record_avatar(store: &mut RemoteManagerInner, uuid: &str, bytes: Vec<u8>) -> (r: Result<
    WarpEvent,
    RemoteWorkerError,
>)
    ensures
        match spec_find_remote(old(store)@, uuid@) {
            Some(p) => r is Ok && final(store)@ == changed_remote(old(store)@, uuid@, with_avatar(p, bytes@)),
            None => r is Err && r->Err_0 == RemoteWorkerError::UpdateFailed(UpdateError::NotFound)
                && final(store)@ == old(store)@,
        },
{
    let mut remote = match store.remote(uuid) {
        Some(p) => p,
        None => return Err(RemoteWorkerError::UpdateFailed(UpdateError::NotFound)),
    };
    let ghost bytes_view = bytes@;
    if bytes.len() == 0 {
        remote.picture = None;
    } else {
        remote.picture = Some(bytes);
    }
    remote.picture_version = remote.picture_version.wrapping_add(1);
    assert(remote@ == with_avatar(spec_find_remote(old(store)@, uuid@)->0, bytes_view));
    match store.update_remote(uuid, remote) {
        Ok(e) => Ok(e),
        Err(e) => Err(RemoteWorkerError::UpdateFailed(e)),
    }
}

/// Gives the peer `uuid` the state `state`. When there is no such peer the
/// record is left as it is and no event comes back: the state is only
/// announced to the worker's own listeners then.
pub fn set_remote_state(store: &mut RemoteManagerInner, uuid: &str, state: RemoteState) -> (r: Option<WarpEvent>)
    ensures
        match spec_find_remote(old(store)@, uuid@) {
            Some(p) => r is Some && final(store)@ == changed_remote(old(store)@, uuid@, with_state(p, state)),
            None => r is None && final(store)@ == old(store)@,
        },
{
    let mut remote = match store.remote(uuid) {
        Some(p) => p,
        None => return None,
    };
    remote.state = state;
    match store.update_remote(uuid, remote) {
        Ok(e) => Some(e),
        Err(_) => None,
    }
}

} // verus!

verus! {

// ---------------------------------------------------------------------------
// Operations on a peer's transfers.

/// `t` in state `s`.
pub open spec fn transfer_with_state(t: TransferView, s: TransferState) -> TransferView {
    TransferView { state: s, ..t }
}

/// `t` accepted: in progress, incoming, saved under `destination`.
pub open spec fn transfer_accepted(t: TransferView, destination: Seq<char>) -> TransferView {
    TransferView {
        state: TransferState::InProgress,
        kind: TransferKindView::Incoming { destination },
        ..t
    }
}

/// `t` with what processing its paths found (the total size, the number of
/// files, the names of the top entries, the name and MIME type of a single
/// file) taken from `p`, waiting for the peer's permission.
pub open spec fn transfer_processed(t: TransferView, p: TransferView) -> TransferView {
    TransferView {
        total_bytes: p.total_bytes,
        file_count: p.file_count,
        entry_names: p.entry_names,
        single_name: p.single_name,
        single_mime_type: p.single_mime_type,
        state: TransferState::WaitingPermission,
        ..t
    }
}

/// The operation info that names the transfer with protocol id `id` to a
/// peer, from the service `service_id`.
pub open spec fn spec_op_info(service_id: Seq<char>, id: u64, info: OpInfo) -> bool {
    &&& info.ident@ == service_id
    &&& info.timestamp == id
    &&& info.readable_name@ == Seq::<char>::empty()
    &&& !info.use_compression
}

pub fn op_info(service_id: &str, id: u64) -> (r: OpInfo)
    ensures
        spec_op_info(service_id@, id, r),
{
    OpInfo { ident: to_owned_string(service_id), timestamp: id, readable_name: String::new(), use_compression: false }
}

/// What a change of one transfer does to the record and what it answers:
/// with the transfer found, the record holds `new` in its place and an event
/// comes back exactly when it is announced; without it, `NotFound` and the
/// record unchanged.
pub open spec fn transfer_changed(
    old: Seq<RemoteView>,
    new_store: Seq<RemoteView>,
    ruuid: Seq<char>,
    tuuid: Seq<char>,
    new: TransferView,
    pending_events: usize,
    r: Result<Option<WarpEvent>, RemoteWorkerError>,
) -> bool {
    match spec_find_transfer(old, ruuid, tuuid) {
        Some(t) => {
            &&& r is Ok
            &&& new_store == spec_update_transfer(old, ruuid, tuuid, new)->0
            &&& (r->Ok_0 is Some <==> update_announced(pending_events, t.state, new.state))
        },
        None => {
            &&& r == Err::<Option<WarpEvent>, RemoteWorkerError>(RemoteWorkerError::UpdateFailed(UpdateError::NotFound))
            &&& new_store == old
        },
    }
}

/// Replaces the transfer by `t`, mapping a missing transfer to
/// `UpdateFailed`.
fn put_transfer(store: &mut RemoteManagerInner, ruuid: &str, tuuid: &str, t: Transfer, pending_events: usize) -> (r: Result<
    Option<WarpEvent>,
    RemoteWorkerError,
>)
    requires
        spec_find_transfer(old(store)@, ruuid@, tuuid@) is Some,
    ensures
        transfer_changed(old(store)@, final(store)@, ruuid@, tuuid@, t@, pending_events, r),
{
    let ghost tv = t@;
    match store.update_transfer(ruuid, tuuid, t, pending_events) {
        Ok(e) => Ok(e),
        Err(e) => Err(RemoteWorkerError::UpdateFailed(e)),
    }
}

/// Gives the transfer `tuuid` of the peer `ruuid` the state `state`.
pub fn set_transfer_state(
    store: &mut RemoteManagerInner,
    ruuid: &str,
    tuuid: &str,
    state: TransferState,
    pending_events: usize,
) -> (r: Result<Option<WarpEvent>, RemoteWorkerError>)
    ensures
        transfer_changed(
            old(store)@,
            final(store)@,
            ruuid@,
            tuuid@,
            transfer_with_state(spec_find_transfer(old(store)@, ruuid@, tuuid@)->0, state),
            pending_events,
            r,
        ),
{
    let mut t = match store.transfer(ruuid, tuuid) {
        Some(t) => t,
        None => return Err(RemoteWorkerError::UpdateFailed(UpdateError::NotFound)),
    };
    t.state = state;
    put_transfer(store, ruuid, tuuid, t, pending_events)
}

/// Marks the transfer `tuuid` of the peer `ruuid` accepted, to be saved
/// under `destination`.
pub fn mark_transfer_accepted(
    store: &mut RemoteManagerInner,
    ruuid: &str,
    tuuid: &str,
    destination: String,
    pending_events: usize,
) -> (r: Result<Option<WarpEvent>, RemoteWorkerError>)
    ensures
        transfer_changed(
            old(store)@,
            final(store)@,
            ruuid@,
            tuuid@,
            transfer_accepted(spec_find_transfer(old(store)@, ruuid@, tuuid@)->0, destination@),
            pending_events,
            r,
        ),
{
    let mut t = match store.transfer(ruuid, tuuid) {
        Some(t) => t,
        None => return Err(RemoteWorkerError::UpdateFailed(UpdateError::NotFound)),
    };
    t.state = TransferState::InProgress;
    t.kind = TransferKind::Incoming { destination };
    put_transfer(store, ruuid, tuuid, t, pending_events)
}

/// Keeps what processing the paths of an outgoing transfer found, taken from
/// `processed`, and marks the transfer waiting for the peer's permission.
pub fn record_processed_transfer(
    store: &mut RemoteManagerInner,
    ruuid: &str,
    tuuid: &str,
    processed: &Transfer,
    pending_events: usize,
) -> (r: Result<Option<WarpEvent>, RemoteWorkerError>)
    ensures
        transfer_changed(
            old(store)@,
            final(store)@,
            ruuid@,
            tuuid@,
            transfer_processed(spec_find_transfer(old(store)@, ruuid@, tuuid@)->0, processed@),
            pending_events,
            r,
        ),
{
    let mut t = match store.transfer(ruuid, tuuid) {
        Some(t) => t,
        None => return Err(RemoteWorkerError::UpdateFailed(UpdateError::NotFound)),
    };
    t.total_bytes = processed.total_bytes;
    t.file_count = processed.file_count;
    t.entry_names = clone_strings(&processed.entry_names);
    t.single_name = clone_opt_string(&processed.single_name);
    t.single_mime_type = clone_opt_string(&processed.single_mime_type);
    t.state = TransferState::WaitingPermission;
    put_transfer(store, ruuid, tuuid, t, pending_events)
}

/// A new outgoing transfer to the peer `ruuid` of the sources `paths`,
/// made with the UUID value `uuid_value` at `timestamp`: initializing, with
/// nothing summed up yet.
pub open spec fn spec_new_offer(ruuid: Seq<char>, paths: Seq<Seq<char>>, uuid_value: u128, timestamp: u64) -> TransferView {
    TransferView {
        uuid: uuid_text(uuid_value),
        remote_uuid: ruuid,
        protocol_id: protocol_id_of(uuid_value),
        state: TransferState::Initializing,
        timestamp,
        total_bytes: 0,
        bytes_transferred: 0,
        bytes_per_second: 0,
        file_count: 0,
        entry_names: Seq::empty(),
        single_name: None,
        single_mime_type: None,
        kind: TransferKindView::Outgoing { source_paths: paths },
    }
}

/// The first step of offering the sources `source_paths` to the peer
/// `ruuid`: with a channel to the peer (`has_client`), a new outgoing
/// transfer (see [`spec_new_offer`]) is added to the record at once, so that
/// it shows before its sources are summed up, and comes back with the event
/// that announces it. Without a channel nothing changes (`NoClient`); without
/// the peer in the record, `UpdateFailed`.
pub fn begin_offer(
    store: &mut RemoteManagerInner,
    ruuid: &str,
    has_client: bool,
    source_paths: Vec<String>,
    uuid_value: u128,
    timestamp: u64,
) -> (r: Result<(Transfer, WarpEvent), RemoteWorkerError>)
    ensures
        !has_client ==> r is Err && r->Err_0 == RemoteWorkerError::NoClient && final(store)@ == old(store)@,
        has_client ==> match spec_find_remote(old(store)@, ruuid@) {
            None => r is Err && r->Err_0 == RemoteWorkerError::UpdateFailed(UpdateError::NotFound)
                && final(store)@ == old(store)@,
            Some(_) => {
                &&& r is Ok
                &&& r->Ok_0.0@ == spec_new_offer(ruuid@, source_paths.deep_view(), uuid_value, timestamp)
                &&& final(store)@ == spec_add_transfer(old(store)@, ruuid@, r->Ok_0.0@)->0
                &&& r->Ok_0.1@ == WarpEventView::TransferAdded(ruuid@, r->Ok_0.0.uuid@)
            },
        },
{
    if !has_client {
        return Err(RemoteWorkerError::NoClient);
    }
    let ghost paths = source_paths.deep_view();
    let t = Transfer::new_outgoing_with(to_owned_string(ruuid), source_paths, uuid_value, timestamp);
    assert(t.entry_names.deep_view() =~= Seq::<Seq<char>>::empty());
    assert(t@ == spec_new_offer(ruuid@, paths, uuid_value, timestamp));
    let kept = t.clone();
    match store.add_transfer(ruuid, t) {
        Ok(e) => Ok((kept, e)),
        Err(e) => Err(RemoteWorkerError::UpdateFailed(e)),
    }
}

/// What summing up the sources of an offered transfer led to.
#[derive(Debug)]
pub enum OfferOutcome {
    /// The request to send to the peer.
    Offer(TransferOpRequest),
    /// Summing up failed: the transfer was marked failed in the record (the
    /// event that announces it, if any), and the offer ends with `error`.
    Failed { error: RemoteWorkerError, event: Option<WarpEvent> },
}

/// The second step of offering `transfer` to the peer `ruuid`, once its
/// sources were summed up into it with the result `processed`: on success
/// the request that offers it, sent as the service `service_id`, the record
/// unchanged (it is brought up to date once the peer took the request, by
/// [`record_processed_transfer`]); on a failure the transfer is marked
/// failed to process its files in the record, and the offer ends with
/// `OperationFailed` and the failure, or with `UpdateFailed` where the
/// transfer is no longer in the record.
pub fn settle_processing(
    store: &mut RemoteManagerInner,
    ruuid: &str,
    transfer: &Transfer,
    processed: Result<(), SourcePathError>,
    service_id: &str,
    pending_events: usize,
) -> (r: OfferOutcome)
    ensures
        match processed {
            Ok(()) => r is Offer && is_offer_of(transfer@, service_id@, r->Offer_0) && final(store)@ == old(store)@,
            Err(e) => match spec_find_transfer(old(store)@, ruuid@, transfer.uuid@) {
                Some(t) => {
                    &&& r is Failed
                    &&& r->error == RemoteWorkerError::OperationFailed(e)
                    &&& final(store)@ == spec_update_transfer(
                        old(store)@,
                        ruuid@,
                        transfer.uuid@,
                        transfer_with_state(t, TransferState::Failed(TransferError::FailedToProcessFiles)),
                    )->0
                    &&& (r->event is Some <==> update_announced(
                        pending_events,
                        t.state,
                        TransferState::Failed(TransferError::FailedToProcessFiles),
                    ))
                },
                None => r is Failed && r->error == RemoteWorkerError::UpdateFailed(UpdateError::NotFound)
                    && r->event is None && final(store)@ == old(store)@,
            },
        },
{
    match processed {
        Ok(()) => OfferOutcome::Offer(transfer.as_proto(service_id)),
        Err(e) => match mark_processing_failed(store, ruuid, transfer.uuid.as_str(), pending_events) {
            Ok(event) => OfferOutcome::Failed { error: RemoteWorkerError::OperationFailed(e), event },
            Err(error) => OfferOutcome::Failed { error, event: None },
        },
    }
}

/// Marks the transfer failed because its paths could not be processed.
pub fn mark_processing_failed(
    store: &mut RemoteManagerInner,
    ruuid: &str,
    tuuid: &str,
    pending_events: usize,
) -> (r: Result<Option<WarpEvent>, RemoteWorkerError>)
    ensures
        transfer_changed(
            old(store)@,
            final(store)@,
            ruuid@,
            tuuid@,
            transfer_with_state(
                spec_find_transfer(old(store)@, ruuid@, tuuid@)->0,
                TransferState::Failed(TransferError::FailedToProcessFiles),
            ),
            pending_events,
            r,
        ),
{
    set_transfer_state(store, ruuid, tuuid, TransferState::Failed(TransferError::FailedToProcessFiles), pending_events)
}

/// The transfer `tuuid` of the peer `ruuid`, or why an operation on it
/// cannot start: `NoClient` when the worker is not connected (`has_client`
/// false), else `TransferNotFound`.
pub fn transfer_for_operation(store: &RemoteManagerInner, ruuid: &str, tuuid: &str, has_client: bool) -> (r: Result<
    Transfer,
    RemoteWorkerError,
>)
    ensures
        !has_client ==> r == Err::<Transfer, RemoteWorkerError>(RemoteWorkerError::NoClient),
        has_client ==> match spec_find_transfer(store@, ruuid@, tuuid@) {
            Some(t) => r is Ok && r->Ok_0@ == t,
            None => r == Err::<Transfer, RemoteWorkerError>(RemoteWorkerError::TransferNotFound),
        },
{
    if !has_client {
        return Err(RemoteWorkerError::NoClient);
    }
    match store.transfer(ruuid, tuuid) {
        Some(t) => Ok(t),
        None => Err(RemoteWorkerError::TransferNotFound),
    }
}

/// The request that starts the transfer `tuuid` of the peer `ruuid` once
/// the user accepted it: refused with `IllegalOperation` for an outgoing
/// transfer, which only the peer can accept.
pub fn accept_transfer_request(
    store: &RemoteManagerInner,
    ruuid: &str,
    tuuid: &str,
    has_client: bool,
    service_id: &str,
) -> (r: Result<OpInfo, RemoteWorkerError>)
    ensures
        !has_client ==> r == Err::<OpInfo, RemoteWorkerError>(RemoteWorkerError::NoClient),
        has_client ==> match spec_find_transfer(store@, ruuid@, tuuid@) {
            Some(t) => match t.kind {
                TransferKindView::Outgoing { .. } => r is Err && r->Err_0 is IllegalOperation
                    && r->Err_0->IllegalOperation_0@ == outgoing_accept_message(),
                TransferKindView::Incoming { .. } => r is Ok && spec_op_info(service_id@, t.protocol_id, r->Ok_0),
            },
            None => r == Err::<OpInfo, RemoteWorkerError>(RemoteWorkerError::TransferNotFound),
        },
{
    let t = transfer_for_operation(store, ruuid, tuuid, has_client)?;
    match &t.kind {
        TransferKind::Outgoing { .. } => {
            Err(RemoteWorkerError::IllegalOperation(outgoing_accept_text()))
        },
        TransferKind::Incoming { .. } => Ok(op_info(service_id, t.protocol_id)),
    }
}

/// The reason given when accepting an outgoing transfer.
pub open spec fn outgoing_accept_message() -> Seq<char> {
    "Cannot accept an outgoing transfer"@
}

fn outgoing_accept_text() -> (r: String)
    ensures
        r@ == outgoing_accept_message(),
{
    to_owned_string("Cannot accept an outgoing transfer")
}

/// The request that stops the transfer `tuuid` of the peer `ruuid` (with
/// `error` telling whether it stops for an error); whether the worker stops
/// sending it, which it does for an outgoing transfer before it sends the
/// request, whatever the request then returns; and the state the transfer
/// takes once the peer took the request: stopped.
pub fn stop_transfer_request(
    store: &RemoteManagerInner,
    ruuid: &str,
    tuuid: &str,
    has_client: bool,
    service_id: &str,
    error: bool,
) -> (r: Result<(StopInfo, bool, TransferState), RemoteWorkerError>)
    ensures
        !has_client ==> r is Err && r->Err_0 == RemoteWorkerError::NoClient,
        has_client ==> match spec_find_transfer(store@, ruuid@, tuuid@) {
            Some(t) => r is Ok && r->Ok_0.0.info is Some && spec_op_info(service_id@, t.protocol_id, r->Ok_0.0.info->0)
                && r->Ok_0.0.error == error && (r->Ok_0.1 <==> t.kind is Outgoing)
                && r->Ok_0.2 == TransferState::Stopped,
            None => r is Err && r->Err_0 == RemoteWorkerError::TransferNotFound,
        },
{
    let t = transfer_for_operation(store, ruuid, tuuid, has_client)?;
    let outgoing = match &t.kind {
        TransferKind::Outgoing { .. } => true,
        TransferKind::Incoming { .. } => false,
    };
    Ok((StopInfo { info: Some(op_info(service_id, t.protocol_id)), error }, outgoing, TransferState::Stopped))
}

/// The state a transfer waiting for permission takes when it is called off:
/// an incoming one is denied, an outgoing one canceled.
pub open spec fn called_off_state(kind: TransferKindView) -> TransferState {
    match kind {
        TransferKindView::Incoming { .. } => TransferState::Denied,
        TransferKindView::Outgoing { .. } => TransferState::Canceled,
    }
}

/// The request that calls off the transfer `tuuid` of the peer `ruuid`
/// (rejects an incoming one, cancels an outgoing one); the state it takes
/// once the peer took the request; and whether the worker stops sending it,
/// which it does for an outgoing transfer before it sends the request,
/// whatever the request then returns.
pub fn cancel_transfer_request(
    store: &RemoteManagerInner,
    ruuid: &str,
    tuuid: &str,
    has_client: bool,
    service_id: &str,
) -> (r: Result<(OpInfo, TransferState, bool), RemoteWorkerError>)
    ensures
        !has_client ==> r is Err && r->Err_0 == RemoteWorkerError::NoClient,
        has_client ==> match spec_find_transfer(store@, ruuid@, tuuid@) {
            Some(t) => r is Ok && spec_op_info(service_id@, t.protocol_id, r->Ok_0.0)
                && r->Ok_0.1 == called_off_state(t.kind) && (r->Ok_0.2 <==> t.kind is Outgoing),
            None => r is Err && r->Err_0 == RemoteWorkerError::TransferNotFound,
        },
{
    let t = transfer_for_operation(store, ruuid, tuuid, has_client)?;
    let (state, outgoing) = match &t.kind {
        TransferKind::Incoming { .. } => (TransferState::Denied, false),
        TransferKind::Outgoing { .. } => (TransferState::Canceled, true),
    };
    Ok((op_info(service_id, t.protocol_id), state, outgoing))
}

// ---------------------------------------------------------------------------
// The requests the worker sends.

/// The request for a peer's certificate, from this machine (`hostname`, at
/// `server_ip`); no IPv6 address is sent.
pub fn certificate_request(hostname: &str, server_ip: Ipv4Addr) -> (r: RegRequest)
    ensures
        r.hostname@ == hostname@,
        r.ip@ == ipv4_text(server_ip),
        r.ipv6@ == Seq::<char>::empty(),
{
    RegRequest { ip: server_ip.to_text(), hostname: to_owned_string(hostname), ipv6: String::new() }
}

/// What names this machine to a peer in a ping: the peer's UUID, and this
/// machine's host name.
pub fn ping_request(peer_uuid: &str, hostname: &str) -> (r: LookupName)
    ensures
        r.id@ == peer_uuid@,
        r.readable_name@ == hostname@,
{
    LookupName { id: to_owned_string(peer_uuid), readable_name: to_owned_string(hostname) }
}

/// What names this machine to a peer while waiting for the duplex: this
/// machine's full service name and host name.
pub fn duplex_request(service_fullname: &str, hostname: &str) -> (r: LookupName)
    ensures
        r.id@ == service_fullname@,
        r.readable_name@ == hostname@,
{
    LookupName { id: to_owned_string(service_fullname), readable_name: to_owned_string(hostname) }
}

/// The address of a peer's service at `ip` and `port`: `http://` for the
/// registration service, `https://` for the secured one; an IPv6 address in
/// brackets.
pub open spec fn spec_peer_url(secure: bool, ip: IpAddr, port: u16) -> Seq<char> {
    let scheme = if secure { "https://"@ } else { "http://"@ };
    let host = match ip {
        IpAddr::V4(_) => ip_text(ip),
        IpAddr::V6(_) => seq!['['] + ip_text(ip) + seq![']'],
    };
    scheme + host + seq![':'] + decimal_chars(port as nat)
}

pub fn peer_url(secure: bool, ip: IpAddr, port: u16) -> (r: String)
    ensures
        r@ == spec_peer_url(secure, ip, port),
{
    proof {
        reveal_strlit("https://");
        reveal_strlit("http://");
    }
    let mut s = if secure { to_owned_string("https://") } else { to_owned_string("http://") };
    match ip {
        IpAddr::V4(_) => s.append(ip.to_text().as_str()),
        IpAddr::V6(_) => {
            crate::text::push_char(&mut s, '[');
            s.append(ip.to_text().as_str());
            crate::text::push_char(&mut s, ']');
        },
    }
    crate::text::push_char(&mut s, ':');
    push_u64_decimal(&mut s, port as u64);
    s
}

} // verus!
