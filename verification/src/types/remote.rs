//! Peers on the network.
use vstd::prelude::*;
use crate::config::features::ProtocolFeatures;
use crate::net::IpAddr;
use crate::types::message::Message;
use crate::types::transfer::{Transfer, TransferView};

verus! {

/// Why the connection to a peer failed.
#[derive(Clone, Copy, Debug, PartialEq, Eq, Structural)]
pub enum RemoteConnectionError {
    SslError,
    GroupCodeMismatch,
    NoCertificate,
    DuplexError,
}

/// Where the connection to a peer stands.
#[derive(Clone, Copy, Debug, PartialEq, Eq, Structural)]
pub enum RemoteState {
    Error(RemoteConnectionError),
    Disconnected,
    Connecting,
    AwaitingDuplex,
    Connected,
}

/// A peer.
#[derive(Debug)]
pub struct Remote {
    pub uuid: String,
    pub ip: IpAddr,
    pub port: u16,
    pub auth_port: u16,
    pub service_name: String,
    pub features: ProtocolFeatures,
    pub display_name: String,
    pub username: String,
    pub hostname: String,
    /// The peer's picture, a PNG image, if it has one.
    pub picture: Option<Vec<u8>>,
    /// A small number that changes every time the picture does.
    pub picture_version: u8,
    pub state: RemoteState,
    pub messages: Vec<Message>,
    pub transfers: Vec<Transfer>,
    /// Whether the peer was registered by hand rather than discovered.
    pub service_static: bool,
    /// Whether the peer's discovery service is currently seen.
    pub service_available: bool,
    /// The peer's certificate, unboxed, in PEM.
    pub cert_pem: Option<Vec<u8>>,
}

/// A peer with its strings and lists as sequences.
pub struct RemoteView {
    pub uuid: Seq<char>,
    pub ip: IpAddr,
    pub port: u16,
    pub auth_port: u16,
    pub service_name: Seq<char>,
    pub features: ProtocolFeatures,
    pub display_name: Seq<char>,
    pub username: Seq<char>,
    pub hostname: Seq<char>,
    pub picture: Option<Seq<u8>>,
    pub picture_version: u8,
    pub state: RemoteState,
    pub messages: Seq<Message>,
    pub transfers: Seq<TransferView>,
    pub service_static: bool,
    pub service_available: bool,
    pub cert_pem: Option<Seq<u8>>,
}

/// The view of optional bytes.
pub open spec fn opt_bytes(v: Option<Vec<u8>>) -> Option<Seq<u8>> {
    match v {
        Some(b) => Some(b@),
        None => None,
    }
}

/// The views of a list of transfers.
pub open spec fn transfers_view(v: Seq<Transfer>) -> Seq<TransferView> {
    v.map_values(|t: Transfer| t@)
}

impl View for Remote {
    type V = RemoteView;

    open spec fn view(&self) -> RemoteView {
        RemoteView {
            uuid: self.uuid@,
            ip: self.ip,
            port: self.port,
            auth_port: self.auth_port,
            service_name: self.service_name@,
            features: self.features,
            display_name: self.display_name@,
            username: self.username@,
            hostname: self.hostname@,
            picture: opt_bytes(self.picture),
            picture_version: self.picture_version,
            state: self.state,
            messages: self.messages@,
            transfers: transfers_view(self.transfers@),
            service_static: self.service_static,
            service_available: self.service_available,
            cert_pem: opt_bytes(self.cert_pem),
        }
    }
}

/// A copy of optional bytes.
pub fn clone_opt_bytes(v: &Option<Vec<u8>>) -> (r: Option<Vec<u8>>)
    ensures
        opt_bytes(r) == opt_bytes(*v),
{
    match v {
        Some(b) => {
            let c = b.clone();
            assert(c@ =~= b@);
            Some(c)
        },
        None => None,
    }
}

/// A copy of a list of transfers.
pub fn clone_transfers(v: &Vec<Transfer>) -> (r: Vec<Transfer>)
    ensures
        transfers_view(r@) == transfers_view(v@),
{
    let mut out: Vec<Transfer> = Vec::new();
    let mut i: usize = 0;
    while i < v.len()
        invariant
            i <= v@.len(),
            out@.len() == i,
            transfers_view(out@) =~= transfers_view(v@.subrange(0, i as int)),
        decreases v@.len() - i,
    {
        let t = v[i].clone();
        let ghost before = out@;
        out.push(t);
        assert(out@ == before.push(t));
        assert(v@.subrange(0, i + 1) == v@.subrange(0, i as int).push(v@[i as int]));
        assert forall|j: int| 0 <= j < i + 1 implies #[trigger] transfers_view(out@)[j]
            == transfers_view(v@.subrange(0, i + 1))[j] by {
            if j < i {
                assert(out@[j] == before[j]);
                assert(transfers_view(before)[j] == before[j]@);
                assert(transfers_view(before)[j] == transfers_view(v@.subrange(0, i as int))[j]);
                assert(v@.subrange(0, i as int)[j] == v@.subrange(0, i + 1)[j]);
            } else {
                assert(out@[j] == t);
                assert(v@.subrange(0, i + 1)[j] == v@[i as int]);
            }
        }
        assert(transfers_view(out@) =~= transfers_view(v@.subrange(0, i + 1)));
        i = i + 1;
    }
    assert(v@.subrange(0, v@.len() as int) == v@);
    out
}

/// A copy of a list of messages.
pub fn clone_messages(v: &Vec<Message>) -> (r: Vec<Message>)
    ensures
        r@ == v@,
{
    let mut out: Vec<Message> = Vec::new();
    let mut i: usize = 0;
    while i < v.len()
        invariant
            i <= v@.len(),
            out@ =~= v@.subrange(0, i as int),
        decreases v@.len() - i,
    {
        out.push(v[i].clone());
        i = i + 1;
    }
    assert(v@.subrange(0, v@.len() as int) == v@);
    out
}

impl Clone for Remote {
    fn clone(&self) -> (r: Remote)
        ensures
            r@ == self@,
    {
        Remote {
            uuid: self.uuid.clone(),
            ip: self.ip,
            port: self.port,
            auth_port: self.auth_port,
            service_name: self.service_name.clone(),
            features: self.features,
            display_name: self.display_name.clone(),
            username: self.username.clone(),
            hostname: self.hostname.clone(),
            picture: clone_opt_bytes(&self.picture),
            picture_version: self.picture_version,
            state: self.state,
            messages: clone_messages(&self.messages),
            transfers: clone_transfers(&self.transfers),
            service_static: self.service_static,
            service_available: self.service_available,
            cert_pem: clone_opt_bytes(&self.cert_pem),
        }
    }
}

/// A newly seen peer: disconnected, with no features, names, picture,
/// messages, transfers or certificate, neither static nor available.
pub open spec fn spec_new_remote(
    uuid: Seq<char>,
    ip: IpAddr,
    port: u16,
    auth_port: u16,
    service_name: Seq<char>,
    hostname: Seq<char>,
) -> RemoteView {
    RemoteView {
        uuid,
        ip,
        port,
        auth_port,
        service_name,
        features: ProtocolFeatures::spec_empty(),
        display_name: Seq::empty(),
        username: Seq::empty(),
        hostname,
        picture: None,
        picture_version: 0,
        state: RemoteState::Disconnected,
        messages: Seq::empty(),
        transfers: Seq::empty(),
        service_static: false,
        service_available: false,
        cert_pem: None,
    }
}

impl Remote {
    /// A newly seen peer: disconnected, with no features, names, picture,
    /// messages, transfers or certificate, neither static nor available.
    pub fn new(
        uuid: String,
        ip: IpAddr,
        port: u16,
        auth_port: u16,
        service_name: String,
        hostname: String,
    ) -> (r: Remote)
        ensures
            r@ == spec_new_remote(uuid@, ip, port, auth_port, service_name@, hostname@),
    {
        let r = Remote {
            uuid,
            ip,
            port,
            auth_port,
            service_name,
            features: ProtocolFeatures::empty(),
            display_name: String::new(),
            username: String::new(),
            hostname,
            picture: None,
            picture_version: 0,
            state: RemoteState::Disconnected,
            messages: Vec::new(),
            transfers: Vec::new(),
            service_static: false,
            service_available: false,
            cert_pem: None,
        };
        assert(transfers_view(r.transfers@) =~= Seq::empty());
        assert(r.messages@ =~= Seq::empty());
        r
    }
}

} // verus!
