use warpinator_lib::net::{IpAddr, Ipv4Addr, Ipv6Addr};
use warpinator_lib::proto::{Code, ServiceRegistration};
use warpinator_lib::server::discovery::{
    apply_discovered_service, mark_service_removed, remove_service, property, read_service, service_name,
    DiscoveryNewServiceError, DiscoveryOutcome, ResolvedServiceInfo, TxtEntry,
};
use warpinator_lib::server::manual::{
    apply_manual_registration, registration_error, registration_message, split_url,
    ManualConnectionError, ManualOutcome,
};
use warpinator_lib::config::user::UserConfig;
use warpinator_lib::server::remote_manager::RemoteManagerInner;
use warpinator_lib::types::remote::{Remote, RemoteConnectionError, RemoteState};

fn entry(k: &str, v: &str) -> TxtEntry {
    TxtEntry { key: k.to_string(), value: v.to_string() }
}

fn v4(d: u8) -> IpAddr {
    IpAddr::V4(Ipv4Addr::new(192, 168, 1, d))
}

fn resolved(props: Vec<TxtEntry>) -> ResolvedServiceInfo {
    ResolvedServiceInfo {
        fullname: "PEER-1._warpinator._tcp.local.".to_string(),
        ty_domain: "_warpinator._tcp.local.".to_string(),
        addresses: vec![IpAddr::V6(Ipv6Addr { bits: 1 }), v4(20), v4(21)],
        port: 42000,
        properties: props,
    }
}

fn good_props() -> Vec<TxtEntry> {
    vec![entry("hostname", "their-box"), entry("auth-port", "42001"), entry("api-version", "2"), entry("type", "real")]
}

#[test]
fn service_names() {
    assert_eq!(service_name("PEER-1._warpinator._tcp.local.", "_warpinator._tcp.local."), "PEER-1");
    assert_eq!(service_name("PEER-1.", "_other._tcp.local."), "PEER-1");
    assert_eq!(service_name("abc", "x"), "abc");
}

#[test]
fn properties_are_found_ignoring_case() {
    let props = vec![entry("Auth-Port", "1"), entry("auth-port", "2")];
    assert_eq!(property(&props, "auth-port").map(|s| s.as_str()), Some("1"));
    assert_eq!(property(&props, "hostname"), None);
}

#[test]
fn reads_a_good_service() {
    let s = read_service(&resolved(good_props())).unwrap();
    assert_eq!(s.name, "PEER-1");
    assert_eq!(s.address, v4(20));
    assert_eq!(s.port, 42000);
    assert_eq!(s.auth_port, 42001);
    assert_eq!(s.hostname, "their-box");
}

#[test]
fn refuses_bad_services() {
    let mut r = resolved(good_props());
    r.addresses = vec![IpAddr::V6(Ipv6Addr { bits: 1 })];
    assert!(matches!(read_service(&r), Err(DiscoveryNewServiceError::NoValidIpAddress)));

    let r = resolved(vec![entry("hostname", "h"), entry("api-version", "2")]);
    assert!(matches!(read_service(&r), Err(DiscoveryNewServiceError::MissingTxtProperty(ref p)) if p == "auth-port"));

    let r = resolved(vec![entry("auth-port", "70000"), entry("hostname", "h")]);
    assert!(matches!(read_service(&r), Err(DiscoveryNewServiceError::InvalidTxtProperty(ref p, ref v)) if p == "auth-port" && v == "70000"));

    let r = resolved(vec![entry("auth-port", "1")]);
    assert!(matches!(read_service(&r), Err(DiscoveryNewServiceError::MissingTxtProperty(ref p)) if p == "hostname"));

    // api-version missing means 1, which is not supported
    let r = resolved(vec![entry("auth-port", "1"), entry("hostname", "h")]);
    assert!(matches!(read_service(&r), Err(DiscoveryNewServiceError::UnsupportedApiVersion(1))));

    let r = resolved(vec![entry("auth-port", "1"), entry("hostname", "h"), entry("api-version", "two")]);
    assert!(matches!(read_service(&r), Err(DiscoveryNewServiceError::InvalidTxtProperty(ref p, ref v)) if p == "api-version" && v == "two"));

    let r = resolved(vec![entry("auth-port", "1"), entry("hostname", "h"), entry("api-version", "2"), entry("type", "flush")]);
    assert!(matches!(read_service(&r), Err(DiscoveryNewServiceError::FlushRegistration)));
}

#[test]
fn discovered_services_update_the_record() {
    let mut store = RemoteManagerInner::new();
    let svc = read_service(&resolved(good_props())).unwrap();
    assert!(matches!(apply_discovered_service(&mut store, svc), DiscoveryOutcome::Added(_)));
    let p = store.remote("PEER-1").unwrap();
    assert!(p.service_available);
    assert_eq!(p.hostname, "their-box");
    assert_eq!(p.service_name, "PEER-1");

    let mut p = store.remote("PEER-1").unwrap();
    p.state = RemoteState::Connected;
    store.update_remote("PEER-1", p).unwrap();
    let mut r = resolved(good_props());
    r.port = 5000;
    let svc = read_service(&r).unwrap();
    match apply_discovered_service(&mut store, svc) {
        DiscoveryOutcome::Updated { event, reconnect } => {
            assert!(event.is_some());
            assert!(!reconnect);
        }
        _ => panic!("expected an update"),
    }
    assert_eq!(store.remote("PEER-1").unwrap().port, 5000);

    let mut p = store.remote("PEER-1").unwrap();
    p.state = RemoteState::Error(RemoteConnectionError::SslError);
    store.update_remote("PEER-1", p).unwrap();
    let svc = read_service(&resolved(good_props())).unwrap();
    assert!(matches!(apply_discovered_service(&mut store, svc), DiscoveryOutcome::Updated { reconnect: true, .. }));
}

#[test]
fn removed_services_become_unavailable() {
    let mut store = RemoteManagerInner::new();
    let svc = read_service(&resolved(good_props())).unwrap();
    apply_discovered_service(&mut store, svc);
    assert!(mark_service_removed(&mut store, "PEER-1").is_some());
    let p = store.remote("PEER-1").unwrap();
    assert!(!p.service_available);
    assert_eq!(p.state, RemoteState::Disconnected);
    assert!(mark_service_removed(&mut store, "PEER-1._warpinator._tcp.local.").is_none());
}

#[test]
fn removed_service_found_by_its_full_name() {
    let mut store = RemoteManagerInner::new();
    let svc = read_service(&resolved(good_props())).unwrap();
    apply_discovered_service(&mut store, svc);
    assert!(remove_service(&mut store, "PEER-1._warpinator._tcp.local.", "_warpinator._tcp.local.").is_some());
    let p = store.remote("PEER-1").unwrap();
    assert!(!p.service_available);
    assert_eq!(p.state, RemoteState::Disconnected);
    assert!(remove_service(&mut store, "OTHER._warpinator._tcp.local.", "_warpinator._tcp.local.").is_none());
}

#[test]
fn urls_split_at_the_last_colon() {
    let (h, p) = split_url("192.168.1.5:42001").unwrap();
    assert_eq!(h, "192.168.1.5");
    assert_eq!(p, "42001");
    let (h, p) = split_url("::1:80").unwrap();
    assert_eq!(h, "::1");
    assert_eq!(p, "80");
    let (h, p) = split_url("host:").unwrap();
    assert_eq!((h.as_str(), p.as_str()), ("host", ""));
    assert!(matches!(split_url("nocolon"), Err(ManualConnectionError::InvalidUrl)));
}

#[test]
fn refused_registrations() {
    assert!(matches!(registration_error(Code::Unimplemented), ManualConnectionError::RemoteUnimplemented));
    assert!(matches!(registration_error(Code::Internal), ManualConnectionError::RemoteInternal));
    assert!(matches!(registration_error(Code::Unavailable), ManualConnectionError::Unavailable));
    assert!(matches!(registration_error(Code::InvalidArgument), ManualConnectionError::FailedToRegister));
    assert!(matches!(registration_error(Code::Other), ManualConnectionError::FailedToRegister));
}

fn answer(port: u32) -> ServiceRegistration {
    ServiceRegistration {
        service_id: "THEM".to_string(),
        ip: "192.168.1.9".to_string(),
        port,
        hostname: "them-host".to_string(),
        api_version: 2,
        auth_port: port + 1,
        ipv6: String::new(),
    }
}

#[test]
fn manual_registration_of_new_peer() {
    let mut s = RemoteManagerInner::new();
    assert!(matches!(apply_manual_registration(&mut s, answer(1), None), Err(ManualConnectionError::InvalidUrl)));
    assert!(s.remote("THEM").is_none());
    match apply_manual_registration(&mut s, answer(7000), Some(v4(9))).unwrap() {
        ManualOutcome::Added(u) => assert_eq!(u, "THEM"),
        other => panic!("{:?}", other),
    }
    let p = s.remote("THEM").unwrap();
    assert!(p.service_static);
    assert_eq!(p.port, 7000);
    assert_eq!(p.auth_port, 7001);
    assert_eq!(p.ip, v4(9));
}

#[test]
fn manual_registration_of_known_peer() {
    let mut s = RemoteManagerInner::new();
    s.add_remote(Remote::new("THEM".to_string(), v4(1), 1, 2, "THEM".to_string(), "old".to_string()));
    // ports are cut to 16 bits
    match apply_manual_registration(&mut s, answer(70000), None).unwrap() {
        ManualOutcome::Reconnect(u) => assert_eq!(u, "THEM"),
        other => panic!("{:?}", other),
    }
    let p = s.remote("THEM").unwrap();
    assert_eq!(p.ip, v4(1));
    assert_eq!(p.port, (70000u32 as u16));
    assert_eq!(p.hostname, "them-host");
    assert!(p.service_static);

    let mut p = s.remote("THEM").unwrap();
    p.state = RemoteState::AwaitingDuplex;
    s.update_remote("THEM", p).unwrap();
    assert!(matches!(apply_manual_registration(&mut s, answer(5), Some(v4(3))), Err(ManualConnectionError::AlreadyConnecting)));
    assert_eq!(s.remote("THEM").unwrap().ip, v4(3));

    let mut p = s.remote("THEM").unwrap();
    p.state = RemoteState::Connected;
    s.update_remote("THEM", p).unwrap();
    assert!(matches!(apply_manual_registration(&mut s, answer(5), None), Err(ManualConnectionError::AlreadyConnected)));
}

#[test]
fn offered_registration() {
    let c = UserConfig::builder()
        .bind_addr_v4(Ipv4Addr::new(10, 1, 2, 3))
        .port(42000)
        .reg_port(42001)
        .hostname("mine")
        .build();
    let m = registration_message(&c, "ME-1").unwrap();
    assert_eq!(m.service_id, "ME-1");
    assert_eq!(m.ip, "10.1.2.3");
    assert_eq!(m.port, 42000);
    assert_eq!(m.auth_port, 42001);
    assert_eq!(m.hostname, "mine");
    assert_eq!(m.api_version, 2);
    assert_eq!(m.ipv6, "");
    let c = UserConfig::builder().bind_addr_v6(warpinator_lib::net::Ipv6Addr { bits: 1 }).build();
    assert!(registration_message(&c, "ME-1").is_none());
}
