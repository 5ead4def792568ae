//! Connecting to a peer by hand, by its address, and the registration that
//! this machine offers to such peers.
use vstd::prelude::*;
use crate::config::user::UserConfig;
use crate::net::{IpAddr, Ipv4Addr, ipv4_text};
use crate::proto::{Code, ServiceRegistration};
use crate::server::remote_manager::{
    RemoteManagerInner, spec_add_remote, spec_find_remote, spec_update_remote,
    law_added_remote_is_found, law_updated_remote_is_found, lemma_found_remote_has_uuid,
};
use crate::server::remote_worker::ConnectRemoteError;
use crate::text::{chars_of, rfind_char, is_last_index_of, substring, to_owned_string};
use crate::types::remote::{Remote, RemoteState, RemoteView, spec_new_remote};

verus! {

/// The API version this machine announces.
pub const SERVICE_API_VERSION: u32 = 2;

/// Why connecting to a peer by hand failed.
#[derive(Debug)]
pub enum ManualConnectionError {
    InvalidUrl,
    FailedToRegister,
    /// The peer's registration service is unavailable.
    Unavailable,
    RemoteInternal,
    /// The peer does not take registrations by hand.
    RemoteUnimplemented,
    AlreadyConnecting,
    AlreadyConnected,
    FailedToConnect(ConnectRemoteError),
}

/// The host and port of an address `host:port`, split at its last colon.
pub open spec fn spec_split_url(url: Seq<char>) -> Option<(Seq<char>, Seq<char>)> {
    if exists|i: int| is_last_index_of(url, ':', i) {
        let i = choose|i: int| is_last_index_of(url, ':', i);
        Some((url.subrange(0, i), url.subrange(i + 1, url.len() as int)))
    } else {
        None
    }
}

/// Splits `url` at its last colon into host and port; `InvalidUrl` when it
/// has none.
pub fn split_url(url: &str) -> (r: Result<(String, String), ManualConnectionError>)
    ensures
        match spec_split_url(url@) {
            Some((host, port)) => r is Ok && r->Ok_0.0@ == host && r->Ok_0.1@ == port,
            None => r is Err && r->Err_0 is InvalidUrl,
        },
{
    let chars = chars_of(url);
    match rfind_char(&chars, ':') {
        Some(i) => {
            let n = chars.len();
            assert(i < n);
            let host = substring(&chars, 0, i);
            let port = substring(&chars, i + 1, n);
            Ok((host, port))
        },
        None => Err(ManualConnectionError::InvalidUrl),
    }
}

/// The error for a refused registration, by the status code of the refusal.
pub open spec fn spec_registration_error(code: Code) -> ManualConnectionError {
    match code {
        Code::Unimplemented => ManualConnectionError::RemoteUnimplemented,
        Code::Internal => ManualConnectionError::RemoteInternal,
        Code::Unavailable => ManualConnectionError::Unavailable,
        _ => ManualConnectionError::FailedToRegister,
    }
}

pub fn registration_error(code: Code) -> (r: ManualConnectionError)
    ensures
        r == spec_registration_error(code),
{
    match code {
        Code::Unimplemented => ManualConnectionError::RemoteUnimplemented,
        Code::Internal => ManualConnectionError::RemoteInternal,
        Code::Unavailable => ManualConnectionError::Unavailable,
        _ => ManualConnectionError::FailedToRegister,
    }
}

/// A known peer registered again by hand: its address (when the host part
/// of the URL is an address), host name and ports taken from the answer
/// (the ports cut to 16 bits), and static.
pub open spec fn spec_reregistered(r: RemoteView, reg: ServiceRegistration, ip: Option<IpAddr>) -> RemoteView {
    RemoteView {
        ip: match ip {
            Some(a) => a,
            None => r.ip,
        },
        hostname: reg.hostname@,
        port: reg.port as u16,
        auth_port: reg.auth_port as u16,
        service_static: true,
        ..r
    }
}

/// A peer first registered by hand: new, and static.
pub open spec fn spec_registered_by_hand(reg: ServiceRegistration, ip: IpAddr) -> RemoteView {
    RemoteView {
        service_static: true,
        ..spec_new_remote(
            reg.service_id@,
            ip,
            reg.port as u16,
            reg.auth_port as u16,
            reg.service_id@,
            reg.hostname@,
        )
    }
}

/// What a registration by hand did: the peer was added, or refreshed in a
/// state from which it is to be connected; the worker of the peer with the
/// given UUID is to connect.
#[derive(Debug)]
pub enum ManualOutcome {
    Added(String),
    Reconnect(String),
}

/// What a registration by hand answers when the peer is known in state `s`:
/// connect again from an error or disconnected; refuse while connecting or
/// awaiting the duplex, or when connected.
pub open spec fn spec_known_peer_answer(s: RemoteState) -> Option<ManualConnectionError> {
    match s {
        RemoteState::Error(_) | RemoteState::Disconnected => None,
        RemoteState::Connecting | RemoteState::AwaitingDuplex => Some(ManualConnectionError::AlreadyConnecting),
        RemoteState::Connected => Some(ManualConnectionError::AlreadyConnected),
    }
}

/// Applies the answer `reg` of a peer registered by hand, whose URL had the
/// host part `ip` when that parsed as an address. A known peer is refreshed
/// and is then to be connected, or the registration is refused by its state
/// (see [`spec_known_peer_answer`]); an unknown peer needs the address
/// (`InvalidUrl` without one) and is added.
pub fn apply_manual_registration(store: &mut RemoteManagerInner, reg: ServiceRegistration, ip: Option<IpAddr>) -> (r: Result<
    ManualOutcome,
    ManualConnectionError,
>)
    ensures
        match spec_find_remote(old(store)@, reg.service_id@) {
            Some(p) => {
                &&& final(store)@ == spec_update_remote(old(store)@, reg.service_id@, spec_reregistered(p, reg, ip))->0
                &&& match spec_known_peer_answer(p.state) {
                    None => r is Ok && r->Ok_0 is Reconnect && r->Ok_0->Reconnect_0@ == reg.service_id@,
                    Some(e) => r == Err::<ManualOutcome, ManualConnectionError>(e),
                }
            },
            None => match ip {
                Some(a) => r is Ok && r->Ok_0 is Added && r->Ok_0->Added_0@ == reg.service_id@
                    && final(store)@ == spec_add_remote(old(store)@, spec_registered_by_hand(reg, a)),
                None => r is Err && r->Err_0 is InvalidUrl && final(store)@ == old(store)@,
            },
        },
{
    match store.remote(reg.service_id.as_str()) {
        Some(mut p) => {
            let state = p.state;
            if let Some(a) = ip {
                p.ip = a;
            }
            p.hostname = reg.hostname;
            p.port = reg.port as u16;
            p.auth_port = reg.auth_port as u16;
            p.service_static = true;
            let _ = store.update_remote(reg.service_id.as_str(), p);
            match state {
                RemoteState::Error(_) | RemoteState::Disconnected => Ok(ManualOutcome::Reconnect(reg.service_id)),
                RemoteState::Connecting | RemoteState::AwaitingDuplex => Err(ManualConnectionError::AlreadyConnecting),
                RemoteState::Connected => Err(ManualConnectionError::AlreadyConnected),
            }
        },
        None => {
            let a = match ip {
                Some(a) => a,
                None => return Err(ManualConnectionError::InvalidUrl),
            };
            let uuid = reg.service_id.clone();
            let id = reg.service_id.clone();
            let mut remote = Remote::new(reg.service_id, a, reg.port as u16, reg.auth_port as u16, id, reg.hostname);
            remote.service_static = true;
            let _ = store.add_remote(remote);
            Ok(ManualOutcome::Added(uuid))
        },
    }
}

/// A peer registered by hand is, afterwards, in the record under its
/// service id and static, with the ports of its answer; a new one at the
/// address of its URL.
pub proof fn law_registered_by_hand_is_static(s: Seq<RemoteView>, reg: ServiceRegistration, ip: Option<IpAddr>)
    requires
        spec_find_remote(s, reg.service_id@) is Some || ip is Some,
    ensures
        ({
            let after = match spec_find_remote(s, reg.service_id@) {
                Some(p) => spec_update_remote(s, reg.service_id@, spec_reregistered(p, reg, ip))->0,
                None => spec_add_remote(s, spec_registered_by_hand(reg, ip->0)),
            };
            let found = spec_find_remote(after, reg.service_id@);
            &&& found is Some
            &&& found->0.service_static
            &&& found->0.port == reg.port as u16
            &&& found->0.auth_port == reg.auth_port as u16
            &&& found->0.hostname == reg.hostname@
            &&& spec_find_remote(s, reg.service_id@) is None ==> found->0.ip == ip->0
        }),
{
    match spec_find_remote(s, reg.service_id@) {
        Some(p) => {
            lemma_found_remote_has_uuid(s, reg.service_id@);
            law_updated_remote_is_found(s, reg.service_id@, spec_reregistered(p, reg, ip));
        },
        None => {
            law_added_remote_is_found(s, spec_registered_by_hand(reg, ip->0));
        },
    }
}

/// A connection by hand to a known peer that is disconnected or in any
/// error connects it again; it is refused as already connecting only while
/// the peer connects or awaits the duplex, and as already connected only
/// when it is connected.
pub proof fn law_manual_connection_reconnects_idle_peers(st: RemoteState)
    ensures
        st is Disconnected || st is Error ==> spec_known_peer_answer(st) is None,
        spec_known_peer_answer(st) == Some(ManualConnectionError::AlreadyConnecting) <==> (st is Connecting
            || st is AwaitingDuplex),
        spec_known_peer_answer(st) == Some(ManualConnectionError::AlreadyConnected) <==> st is Connected,
{
}

/// The registration this machine offers to peers: its full name, its IPv4
/// address as text, its ports, its host name and API version, and no IPv6
/// address. There is none without an IPv4 address.
pub open spec fn spec_registration_message(cfg: UserConfig, fullname: Seq<char>, msg: ServiceRegistration) -> bool {
    &&& cfg.bind_addr_v4 is Some
    &&& msg.service_id@ == fullname
    &&& msg.ip@ == ipv4_text(cfg.bind_addr_v4->0)
    &&& msg.port == cfg.port as u32
    &&& msg.hostname@ == cfg.hostname@
    &&& msg.api_version == SERVICE_API_VERSION
    &&& msg.auth_port == cfg.reg_port as u32
    &&& msg.ipv6@ == Seq::<char>::empty()
}

/// The registration this machine offers (see [`spec_registration_message`]);
/// none when the configuration has no IPv4 address.
pub fn registration_message(cfg: &UserConfig, fullname: &str) -> (r: Option<ServiceRegistration>)
    ensures
        match r {
            Some(m) => spec_registration_message(*cfg, fullname@, m),
            None => cfg.bind_addr_v4 is None,
        },
{
    let v4: Ipv4Addr = match cfg.bind_addr_v4 {
        Some(a) => a,
        None => return None,
    };
    Some(ServiceRegistration {
        service_id: to_owned_string(fullname),
        ip: v4.to_text(),
        port: cfg.port as u32,
        hostname: cfg.hostname.clone(),
        api_version: SERVICE_API_VERSION,
        auth_port: cfg.reg_port as u32,
        ipv6: String::new(),
    })
}

} // verus!
