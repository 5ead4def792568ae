//! Peers found by multicast DNS: reading a resolved service, and what it
//! does to the record of peers.
use vstd::prelude::*;
use crate::net::IpAddr;
use crate::server::remote_manager::{
    RemoteManagerInner, WarpEvent, spec_add_remote, spec_find_remote, spec_update_remote,
    law_added_remote_is_found, law_updated_remote_is_found, lemma_found_remote_has_uuid,
};
use crate::server::remote_worker::ConnectRemoteError;
use crate::text::{
    lowercased, parse_u16, parse_u8, parse_unsigned, str_eq, to_lowercase, to_owned_string,
    trim_end_char, trim_end_char_seq, trim_end_matches, trim_end_seq, push_char,
};
use crate::types::remote::{Remote, RemoteState, RemoteView, spec_new_remote};

verus! {

/// One TXT property of a service: its key and its value as text (empty when
/// it has none or it is not UTF-8).
#[derive(Debug)]
pub struct TxtEntry {
    pub key: String,
    pub value: String,
}

/// A service resolved by multicast DNS, as plain values.
#[derive(Debug)]
pub struct ResolvedServiceInfo {
    /// The service's full name, such as `name._warpinator._tcp.local.`.
    pub fullname: String,
    /// The service type and domain, such as `_warpinator._tcp.local.`.
    pub ty_domain: String,
    pub addresses: Vec<IpAddr>,
    pub port: u16,
    pub properties: Vec<TxtEntry>,
}

/// Why a resolved service does not make a peer.
#[derive(Debug)]
pub enum DiscoveryNewServiceError {
    NoValidIpAddress,
    /// The peer's API version, which is not 2.
    UnsupportedApiVersion(u8),
    /// The service only announces that its registration is flushed.
    FlushRegistration,
    /// A required property is missing (its name).
    MissingTxtProperty(String),
    /// A property does not parse (its name and value).
    InvalidTxtProperty(String, String),
    FailedToConnectToRemote(ConnectRemoteError),
}

/// A peer as a resolved service describes it.
#[derive(Debug)]
pub struct DiscoveredService {
    /// The name of the service, which is the peer's UUID.
    pub name: String,
    pub address: IpAddr,
    pub port: u16,
    pub auth_port: u16,
    pub hostname: String,
}

/// The API version this library speaks.
pub const SUPPORTED_API_VERSION: u8 = 2;

/// The name of a service: its full name without the trailing `.` and
/// service type and domain, then without trailing dots.
pub open spec fn spec_service_name(fullname: Seq<char>, ty_domain: Seq<char>) -> Seq<char> {
    trim_end_char_seq(trim_end_seq(fullname, seq!['.'] + ty_domain), '.')
}

pub fn service_name(fullname: &str, ty_domain: &str) -> (r: String)
    ensures
        r@ == spec_service_name(fullname@, ty_domain@),
{
    let mut suffix = String::new();
    push_char(&mut suffix, '.');
    suffix.append(ty_domain);
    assert(suffix@ == seq!['.'] + ty_domain@);
    let trimmed = trim_end_matches(fullname, suffix.as_str());
    trim_end_char(trimmed.as_str(), '.')
}

/// `i` is the first position of a property whose key is `key`, both taken
/// in lowercase.
pub open spec fn is_first_property(props: Seq<TxtEntry>, key: Seq<char>, i: int) -> bool {
    &&& 0 <= i < props.len()
    &&& lowercased(props[i].key@) == lowercased(key)
    &&& forall|j: int| 0 <= j < i ==> lowercased(#[trigger] props[j].key@) != lowercased(key)
}

/// The value of the first property named `key` (names compared in
/// lowercase), if any.
pub open spec fn spec_property(props: Seq<TxtEntry>, key: Seq<char>) -> Option<Seq<char>> {
    if exists|i: int| is_first_property(props, key, i) {
        Some(props[choose|i: int| is_first_property(props, key, i)].value@)
    } else {
        None
    }
}

proof fn lemma_first_property_unique(props: Seq<TxtEntry>, key: Seq<char>, i: int)
    requires
        is_first_property(props, key, i),
    ensures
        spec_property(props, key) == Some(props[i].value@),
{
    let k = choose|k: int| is_first_property(props, key, k);
    assert(is_first_property(props, key, k));
    if k < i {
        assert(lowercased(props[k].key@) != lowercased(key));
    } else if i < k {
        assert(lowercased(props[i].key@) != lowercased(key));
    }
}

/// The value of the first property named `key`, names compared in
/// lowercase (`TxtProperties::get`).
pub fn property<'a>(props: &'a Vec<TxtEntry>, key: &str) -> (r: Option<&'a String>)
    ensures
        match spec_property(props@, key@) {
            Some(v) => r is Some && r->0@ == v,
            None => r is None,
        },
{
    let wanted = to_lowercase(key);
    let mut i: usize = 0;
    while i < props.len()
        invariant
            i <= props@.len(),
            wanted@ == lowercased(key@),
            forall|j: int| 0 <= j < i ==> lowercased(#[trigger] props@[j].key@) != lowercased(key@),
        decreases props@.len() - i,
    {
        let k = to_lowercase(props[i].key.as_str());
        if str_eq(k.as_str(), wanted.as_str()) {
            proof {
                lemma_first_property_unique(props@, key@, i as int);
            }
            return Some(&props[i].value);
        }
        i = i + 1;
    }
    assert(!exists|i: int| is_first_property(props@, key@, i));
    None
}

/// The first IPv4 address of a list, if any.
pub open spec fn first_ipv4(addrs: Seq<IpAddr>) -> Option<IpAddr> {
    if exists|i: int| 0 <= i < addrs.len() && addrs[i] is V4 {
        let i = choose|i: int|
            0 <= i < addrs.len() && addrs[i] is V4 && forall|j: int| 0 <= j < i ==> !(addrs[j] is V4);
        Some(addrs[i])
    } else {
        None
    }
}

proof fn lemma_first_ipv4(addrs: Seq<IpAddr>, i: int)
    requires
        0 <= i < addrs.len(),
        addrs[i] is V4,
        forall|j: int| 0 <= j < i ==> !(#[trigger] addrs[j] is V4),
    ensures
        first_ipv4(addrs) == Some(addrs[i]),
{
    assert(exists|k: int| 0 <= k < addrs.len() && addrs[k] is V4 && forall|j: int| 0 <= j < k ==> !(addrs[j] is V4));
    let k = choose|k: int|
        0 <= k < addrs.len() && addrs[k] is V4 && forall|j: int| 0 <= j < k ==> !(addrs[j] is V4);
    if k < i {
        assert(!(addrs[k] is V4));
    } else if i < k {
        assert(!(addrs[i] is V4));
    }
}

fn find_ipv4(addrs: &Vec<IpAddr>) -> (r: Option<IpAddr>)
    ensures
        r == first_ipv4(addrs@),
{
    let mut i: usize = 0;
    while i < addrs.len()
        invariant
            i <= addrs@.len(),
            forall|j: int| 0 <= j < i ==> !(#[trigger] addrs@[j] is V4),
        decreases addrs@.len() - i,
    {
        if let IpAddr::V4(_) = addrs[i] {
            proof {
                lemma_first_ipv4(addrs@, i as int);
            }
            return Some(addrs[i]);
        }
        i = i + 1;
    }
    None
}

/// What a resolved service says of a peer, or why it says nothing usable:
/// the name is [`spec_service_name`]; the address is the first IPv4
/// address (`NoValidIpAddress` without one); `auth-port` must be there
/// and be a `u16`; `hostname` must be there; `api-version` defaults to `1`,
/// must be a `u8`, and must be 2; a `type` of `flush` is refused. The
/// checks come in that order.
pub open spec fn spec_read_service(info: ResolvedServiceInfo) -> Result<
    (Seq<char>, IpAddr, u16, u16, Seq<char>),
    ServiceRefusal,
> {
    let props = info.properties@;
    let api_text = match spec_property(props, "api-version"@) {
        Some(v) => v,
        None => "1"@,
    };
    if first_ipv4(info.addresses@) is None {
        Err(ServiceRefusal::NoValidIpAddress)
    } else if spec_property(props, "auth-port"@) is None {
        Err(ServiceRefusal::MissingAuthPort)
    } else if parse_unsigned(spec_property(props, "auth-port"@)->0, u16::MAX as int) is None {
        Err(ServiceRefusal::InvalidAuthPort)
    } else if spec_property(props, "hostname"@) is None {
        Err(ServiceRefusal::MissingHostname)
    } else if parse_unsigned(api_text, u8::MAX as int) is None {
        Err(ServiceRefusal::InvalidApiVersion)
    } else if parse_unsigned(api_text, u8::MAX as int)->0 != SUPPORTED_API_VERSION {
        Err(ServiceRefusal::UnsupportedApiVersion(parse_unsigned(api_text, u8::MAX as int)->0 as u8))
    } else if spec_property(props, "type"@) == Some("flush"@) {
        Err(ServiceRefusal::FlushRegistration)
    } else {
        Ok(
            (
                spec_service_name(info.fullname@, info.ty_domain@),
                first_ipv4(info.addresses@)->0,
                info.port,
                parse_unsigned(spec_property(props, "auth-port"@)->0, u16::MAX as int)->0 as u16,
                spec_property(props, "hostname"@)->0,
            ),
        )
    }
}

/// The refusals of [`spec_read_service`], without their texts.
#[derive(Clone, Copy, Debug, PartialEq, Eq, Structural)]
pub enum ServiceRefusal {
    NoValidIpAddress,
    MissingAuthPort,
    InvalidAuthPort,
    MissingHostname,
    InvalidApiVersion,
    UnsupportedApiVersion(u8),
    FlushRegistration,
}

/// Whether the error `e` is the refusal `k`, with the property names and
/// values that it carries.
pub open spec fn error_matches(e: DiscoveryNewServiceError, k: ServiceRefusal, props: Seq<TxtEntry>) -> bool {
    match k {
        ServiceRefusal::NoValidIpAddress => e is NoValidIpAddress,
        ServiceRefusal::MissingAuthPort => e is MissingTxtProperty && e->MissingTxtProperty_0@ == "auth-port"@,
        ServiceRefusal::InvalidAuthPort => e is InvalidTxtProperty && e->InvalidTxtProperty_0@ == "auth-port"@
            && e->InvalidTxtProperty_1@ == spec_property(props, "auth-port"@)->0,
        ServiceRefusal::MissingHostname => e is MissingTxtProperty && e->MissingTxtProperty_0@ == "hostname"@,
        ServiceRefusal::InvalidApiVersion => e is InvalidTxtProperty && e->InvalidTxtProperty_0@
            == "api-version"@ && e->InvalidTxtProperty_1@ == (match spec_property(props, "api-version"@) {
            Some(v) => v,
            None => "1"@,
        }),
        ServiceRefusal::UnsupportedApiVersion(v) => e == DiscoveryNewServiceError::UnsupportedApiVersion(v),
        ServiceRefusal::FlushRegistration => e is FlushRegistration,
    }
}

/// Reads what a resolved service says of a peer (see [`spec_read_service`]).
pub fn read_service(info: &ResolvedServiceInfo) -> (r: Result<DiscoveredService, DiscoveryNewServiceError>)
    ensures
        match spec_read_service(*info) {
            Ok((name, address, port, auth_port, hostname)) => r is Ok && r->Ok_0.name@ == name
                && r->Ok_0.address == address && r->Ok_0.port == port && r->Ok_0.auth_port == auth_port
                && r->Ok_0.hostname@ == hostname,
            Err(k) => r is Err && error_matches(r->Err_0, k, info.properties@),
        },
{
    proof {
        reveal_strlit("auth-port");
        reveal_strlit("hostname");
        reveal_strlit("api-version");
        reveal_strlit("type");
        reveal_strlit("flush");
        reveal_strlit("1");
    }
    let name = service_name(info.fullname.as_str(), info.ty_domain.as_str());
    let address = match find_ipv4(&info.addresses) {
        Some(a) => a,
        None => return Err(DiscoveryNewServiceError::NoValidIpAddress),
    };
    let auth_port_text = match property(&info.properties, "auth-port") {
        Some(v) => v,
        None => return Err(DiscoveryNewServiceError::MissingTxtProperty(to_owned_string("auth-port"))),
    };
    let auth_port = match parse_u16(auth_port_text.as_str()) {
        Some(p) => p,
        None => return Err(
            DiscoveryNewServiceError::InvalidTxtProperty(to_owned_string("auth-port"), auth_port_text.clone()),
        ),
    };
    let hostname = match property(&info.properties, "hostname") {
        Some(v) => v.clone(),
        None => return Err(DiscoveryNewServiceError::MissingTxtProperty(to_owned_string("hostname"))),
    };
    let api_text = match property(&info.properties, "api-version") {
        Some(v) => v.clone(),
        None => to_owned_string("1"),
    };
    let api_version = match parse_u8(api_text.as_str()) {
        Some(v) => v,
        None => return Err(DiscoveryNewServiceError::InvalidTxtProperty(to_owned_string("api-version"), api_text)),
    };
    if api_version != SUPPORTED_API_VERSION {
        return Err(DiscoveryNewServiceError::UnsupportedApiVersion(api_version));
    }
    if let Some(t) = property(&info.properties, "type") {
        if str_eq(t.as_str(), "flush") {
            return Err(DiscoveryNewServiceError::FlushRegistration);
        }
    }
    Ok(DiscoveredService { name, address, port: info.port, auth_port, hostname })
}

} // verus!

verus! {

/// What a resolved service did to the record of peers.
#[derive(Debug)]
pub enum DiscoveryOutcome {
    /// A new peer was added (the event announces it); the worker is to
    /// connect to it.
    Added(WarpEvent),
    /// A known peer's address and names were refreshed; `reconnect` tells
    /// whether to connect to it again.
    Updated { event: Option<WarpEvent>, reconnect: bool },
}

/// A peer newly found by discovery: new, and available.
pub open spec fn spec_discovered_remote(
    name: Seq<char>,
    address: IpAddr,
    port: u16,
    auth_port: u16,
    hostname: Seq<char>,
) -> RemoteView {
    RemoteView { service_available: true, ..spec_new_remote(name, address, port, auth_port, name, hostname) }
}

/// A known peer seen again by discovery: its host name, ports and address
/// refreshed, and available.
pub open spec fn spec_rediscovered(r: RemoteView, address: IpAddr, port: u16, auth_port: u16, hostname: Seq<char>) -> RemoteView {
    RemoteView { hostname, auth_port, ip: address, port, service_available: true, ..r }
}

/// Whether discovery makes a known peer in state `s` connect again: when it
/// is disconnected or in error.
pub open spec fn reconnects_on_discovery(s: RemoteState) -> bool {
    s is Disconnected || s is Error
}

/// Applies a discovered service to the record: a peer it does not hold is
/// added (available) and is to be connected; a peer it holds is refreshed,
/// and is to be connected again when it was disconnected or in error.
pub fn apply_discovered_service(store: &mut RemoteManagerInner, svc: DiscoveredService) -> (r: DiscoveryOutcome)
    ensures
        match spec_find_remote(old(store)@, svc.name@) {
            None => r is Added && final(store)@ == spec_add_remote(
                old(store)@,
                spec_discovered_remote(svc.name@, svc.address, svc.port, svc.auth_port, svc.hostname@),
            ),
            Some(p) => r is Updated && r->reconnect == reconnects_on_discovery(p.state) && r->event is Some
                && final(store)@ == spec_update_remote(
                old(store)@,
                svc.name@,
                spec_rediscovered(p, svc.address, svc.port, svc.auth_port, svc.hostname@),
            )->0,
        },
{
    match store.remote(svc.name.as_str()) {
        None => {
            let name = svc.name.clone();
            let mut remote = Remote::new(name, svc.address, svc.port, svc.auth_port, svc.name, svc.hostname);
            remote.service_available = true;
            let e = store.add_remote(remote);
            DiscoveryOutcome::Added(e)
        },
        Some(mut p) => {
            let reconnect = match p.state {
                RemoteState::Disconnected | RemoteState::Error(_) => true,
                _ => false,
            };
            p.hostname = svc.hostname;
            p.auth_port = svc.auth_port;
            p.ip = svc.address;
            p.port = svc.port;
            p.service_available = true;
            let event = match store.update_remote(svc.name.as_str(), p) {
                Ok(e) => Some(e),
                Err(_) => None,
            };
            DiscoveryOutcome::Updated { event, reconnect }
        },
    }
}

/// A peer whose service disappeared: unavailable and disconnected.
pub open spec fn spec_service_gone(r: RemoteView) -> RemoteView {
    RemoteView { service_available: false, state: RemoteState::Disconnected, ..r }
}

/// Marks the peer `key` unavailable and disconnected because its service
/// was removed; nothing changes when there is no such peer.
pub fn mark_service_removed(store: &mut RemoteManagerInner, key: &str) -> (r: Option<WarpEvent>)
    ensures
        match spec_find_remote(old(store)@, key@) {
            Some(p) => r is Some && final(store)@ == spec_update_remote(old(store)@, key@, spec_service_gone(p))->0,
            None => r is None && final(store)@ == old(store)@,
        },
{
    let mut p = match store.remote(key) {
        Some(p) => p,
        None => return None,
    };
    p.service_available = false;
    p.state = RemoteState::Disconnected;
    match store.update_remote(key, p) {
        Ok(e) => Some(e),
        Err(_) => None,
    }
}

/// Marks the peer of the removed service `fullname` (of the service type
/// and domain `ty_domain`) unavailable and disconnected: the peer is found
/// by the service's name (see [`spec_service_name`]), as discovery keys it.
pub fn remove_service(store: &mut RemoteManagerInner, fullname: &str, ty_domain: &str) -> (r: Option<WarpEvent>)
    ensures
        match spec_find_remote(old(store)@, spec_service_name(fullname@, ty_domain@)) {
            Some(p) => r is Some && final(store)@ == spec_update_remote(
                old(store)@,
                spec_service_name(fullname@, ty_domain@),
                spec_service_gone(p),
            )->0,
            None => r is None && final(store)@ == old(store)@,
        },
{
    let name = service_name(fullname, ty_domain);
    mark_service_removed(store, name.as_str())
}

/// The record after a discovered service was applied.
pub open spec fn spec_after_discovery(
    s: Seq<RemoteView>,
    name: Seq<char>,
    address: IpAddr,
    port: u16,
    auth_port: u16,
    hostname: Seq<char>,
) -> Seq<RemoteView> {
    match spec_find_remote(s, name) {
        None => spec_add_remote(s, spec_discovered_remote(name, address, port, auth_port, hostname)),
        Some(p) => spec_update_remote(s, name, spec_rediscovered(p, address, port, auth_port, hostname))->0,
    }
}

/// Once a service was discovered, its peer is in the record under the
/// service's name, available, at the announced address and ports, with the
/// announced host name.
pub proof fn law_discovered_peer_is_available(
    s: Seq<RemoteView>,
    name: Seq<char>,
    address: IpAddr,
    port: u16,
    auth_port: u16,
    hostname: Seq<char>,
)
    ensures
        ({
            let found = spec_find_remote(spec_after_discovery(s, name, address, port, auth_port, hostname), name);
            &&& found is Some
            &&& found->0.service_available
            &&& found->0.ip == address
            &&& found->0.port == port
            &&& found->0.auth_port == auth_port
            &&& found->0.hostname == hostname
        }),
{
    match spec_find_remote(s, name) {
        None => {
            law_added_remote_is_found(s, spec_discovered_remote(name, address, port, auth_port, hostname));
        },
        Some(p) => {
            lemma_found_remote_has_uuid(s, name);
            law_updated_remote_is_found(s, name, spec_rediscovered(p, address, port, auth_port, hostname));
        },
    }
}

/// A peer whose service was removed is, afterwards, unavailable and
/// disconnected.
pub proof fn law_removed_service_is_unavailable(s: Seq<RemoteView>, key: Seq<char>)
    requires
        spec_find_remote(s, key) is Some,
    ensures
        ({
            let after = spec_update_remote(s, key, spec_service_gone(spec_find_remote(s, key)->0))->0;
            &&& !spec_find_remote(after, key)->0.service_available
            &&& spec_find_remote(after, key)->0.state == RemoteState::Disconnected
        }),
{
    lemma_found_remote_has_uuid(s, key);
    law_updated_remote_is_found(s, key, spec_service_gone(spec_find_remote(s, key)->0));
}

/// Discovery connects again to every known peer that is not connected
/// and not on its way to be: one disconnected, or in any error, is
/// reconnected when its service shows up; one connected, connecting or
/// awaiting the duplex is left to its worker.
pub proof fn law_rediscovery_reconnects_idle_peers(st: RemoteState)
    ensures
        st is Disconnected ==> reconnects_on_discovery(st),
        st is Error ==> reconnects_on_discovery(st),
        st is Connected || st is Connecting || st is AwaitingDuplex ==> !reconnects_on_discovery(st),
{
}

/// A peer whose service went away and then shows up again is connected
/// again: removing the service leaves it disconnected, and discovery
/// reconnects a disconnected peer.
pub proof fn law_returning_service_reconnects(s: Seq<RemoteView>, key: Seq<char>)
    requires
        spec_find_remote(s, key) is Some,
    ensures
        ({
            let after = spec_update_remote(s, key, spec_service_gone(spec_find_remote(s, key)->0))->0;
            reconnects_on_discovery(spec_find_remote(after, key)->0.state)
        }),
{
    law_removed_service_is_unavailable(s, key);
}

} // verus!
