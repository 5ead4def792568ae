use warpinator_lib::grpc::registration::{register_service, RegisterOutcome};
use warpinator_lib::net::{IpAddr, Ipv4Addr};
use warpinator_lib::proto::{Code, ServiceRegistration};
use warpinator_lib::server::remote_manager::{RemoteManagerInner, UpdateError, WarpEvent};
use warpinator_lib::types::message::{Direction, Message};
use warpinator_lib::types::remote::{Remote, RemoteState};
use warpinator_lib::types::transfer::{Transfer, TransferState};

fn ip(d: u8) -> IpAddr {
    IpAddr::V4(Ipv4Addr::new(10, 0, 0, d))
}

fn remote(uuid: &str) -> Remote {
    Remote::new(uuid.to_string(), ip(1), 42000, 42001, uuid.to_string(), "host".to_string())
}

fn transfer(uuid_value: u128, remote_uuid: &str) -> Transfer {
    Transfer::new_outgoing_with(remote_uuid.to_string(), vec!["/a".to_string()], uuid_value, 5)
}

#[test]
fn new_remote_is_disconnected_and_empty() {
    let r = remote("peer");
    assert_eq!(r.state, RemoteState::Disconnected);
    assert!(!r.service_static);
    assert!(!r.service_available);
    assert_eq!(r.picture, None);
    assert_eq!(r.picture_version, 0);
    assert_eq!(r.features.bits(), 0);
    assert!(r.transfers.is_empty());
    assert!(r.messages.is_empty());
    assert_eq!(r.display_name, "");
}

#[test]
fn added_remote_is_found() {
    let mut s = RemoteManagerInner::new();
    assert!(s.remote("peer").is_none());
    let e = s.add_remote(remote("peer"));
    assert!(matches!(e, WarpEvent::RemoteAdded(ref u) if u == "peer"));
    let r = s.remote("peer").unwrap();
    assert_eq!(r.uuid, "peer");
    assert_eq!(s.remotes().len(), 1);
    // adding again replaces
    let mut r2 = remote("peer");
    r2.hostname = "other".to_string();
    s.add_remote(r2);
    assert_eq!(s.remotes().len(), 1);
    assert_eq!(s.remote("peer").unwrap().hostname, "other");
}

#[test]
fn update_missing_remote_fails() {
    let mut s = RemoteManagerInner::new();
    assert!(matches!(s.update_remote("nobody", remote("nobody")), Err(UpdateError::NotFound)));
    s.add_remote(remote("a"));
    let mut r = s.remote("a").unwrap();
    r.display_name = "Ann".to_string();
    assert!(matches!(s.update_remote("a", r), Ok(WarpEvent::RemoteUpdated(ref u)) if u == "a"));
    assert_eq!(s.remote("a").unwrap().display_name, "Ann");
}

#[test]
fn transfers_add_find_update_remove() {
    let mut s = RemoteManagerInner::new();
    s.add_remote(remote("a"));
    s.add_remote(remote("b"));
    let t = transfer(1, "a");
    let tuuid = t.uuid.clone();
    let pid = t.protocol_id;
    assert!(matches!(s.add_transfer("zzz", t.clone()), Err(UpdateError::NotFound)));
    assert!(matches!(s.add_transfer("a", t), Ok(WarpEvent::TransferAdded(ref r, ref u)) if r == "a" && *u == tuuid));
    assert_eq!(s.transfer("a", &tuuid).unwrap().uuid, tuuid);
    assert!(s.transfer("b", &tuuid).is_none());
    assert_eq!(s.transfer_by_protocol_id("a", pid).unwrap().uuid, tuuid);
    assert_eq!(s.transfers("a").unwrap().len(), 1);
    assert_eq!(s.transfers("b").unwrap().len(), 0);
    assert!(s.transfers("c").is_none());

    let mut t2 = s.transfer("a", &tuuid).unwrap();
    t2.state = TransferState::InProgress;
    let e = s.update_transfer("a", &tuuid, t2, 0).unwrap();
    assert!(matches!(e, Some(WarpEvent::TransferUpdated(_, _))));
    assert!(matches!(s.transfer("a", &tuuid).unwrap().state, TransferState::InProgress));

    assert!(matches!(s.remove_transfer("a", "nope"), Err(UpdateError::NotFound)));
    assert!(matches!(s.remove_transfer("a", &tuuid), Ok(WarpEvent::TransferRemoved(_, _))));
    assert!(s.transfer("a", &tuuid).is_none());
}

#[test]
fn busy_updates_are_announced_only_on_state_change() {
    let mut s = RemoteManagerInner::new();
    s.add_remote(remote("a"));
    let t = transfer(2, "a");
    let tuuid = t.uuid.clone();
    s.add_transfer("a", t).unwrap();
    let mut t2 = s.transfer("a", &tuuid).unwrap();
    t2.bytes_transferred = 10;
    // same state, backlog full: not announced
    assert!(s.update_transfer("a", &tuuid, t2, 128).unwrap().is_none());
    assert_eq!(s.transfer("a", &tuuid).unwrap().bytes_transferred, 10);
    // same state, backlog below the limit: announced
    let t3 = s.transfer("a", &tuuid).unwrap();
    assert!(s.update_transfer("a", &tuuid, t3, 127).unwrap().is_some());
    // state changes, backlog full: announced
    let mut t4 = s.transfer("a", &tuuid).unwrap();
    t4.state = TransferState::Completed;
    assert!(s.update_transfer("a", &tuuid, t4, 1000).unwrap().is_some());
}

#[test]
fn messages_add_find_remove() {
    let mut s = RemoteManagerInner::new();
    s.add_remote(remote("a"));
    let m = Message::new_with("a".to_string(), Direction::Received, "hi".to_string(), 3, 9);
    let muuid = m.uuid.clone();
    assert!(matches!(s.add_message("x", m.clone()), Err(UpdateError::NotFound)));
    assert!(matches!(s.add_message("a", m), Ok(WarpEvent::MessageAdded(_, _))));
    assert_eq!(s.message("a", &muuid).unwrap().content, "hi");
    assert_eq!(s.messages("a").unwrap().len(), 1);
    assert!(matches!(s.remove_message("a", &muuid), Ok(WarpEvent::MessageRemoved(_, _))));
    assert!(s.message("a", &muuid).is_none());
    assert!(matches!(s.remove_message("a", &muuid), Err(UpdateError::NotFound)));
}

fn registration(id: &str, port: u32) -> ServiceRegistration {
    ServiceRegistration {
        service_id: id.to_string(),
        ip: "10.0.0.9".to_string(),
        port,
        hostname: "their-host".to_string(),
        api_version: 2,
        auth_port: port + 1,
        ipv6: String::new(),
    }
}

#[test]
fn registration_adds_new_peer() {
    let mut s = RemoteManagerInner::new();
    let r = register_service(&mut s, &registration("p", 5000), Some(ip(9))).unwrap();
    assert!(matches!(r, RegisterOutcome::Added(WarpEvent::RemoteAdded(ref u)) if u == "p"));
    let p = s.remote("p").unwrap();
    assert_eq!(p.ip, ip(9));
    assert_eq!(p.port, 5000);
    assert_eq!(p.auth_port, 5001);
    assert_eq!(p.hostname, "their-host");
}

#[test]
fn registration_with_bad_address_is_invalid_argument() {
    let mut s = RemoteManagerInner::new();
    let r = register_service(&mut s, &registration("p", 5000), None);
    let e = r.err().unwrap();
    assert_eq!(e.code, Code::InvalidArgument);
    assert_eq!(e.message, "invalid IP address syntax");
    assert!(s.remote("p").is_none());
}

#[test]
fn registration_of_known_peers() {
    let mut s = RemoteManagerInner::new();
    s.add_remote(remote("p"));
    let r = register_service(&mut s, &registration("p", 6000), Some(ip(7))).unwrap();
    assert!(matches!(r, RegisterOutcome::Updated(_, true)));
    assert_eq!(s.remote("p").unwrap().port, 6000);
    assert_eq!(s.remote("p").unwrap().ip, ip(7));

    let mut p = s.remote("p").unwrap();
    p.state = RemoteState::Connecting;
    s.update_remote("p", p).unwrap();
    let r = register_service(&mut s, &registration("p", 7000), Some(ip(8))).unwrap();
    assert!(matches!(r, RegisterOutcome::Updated(_, false)));

    let mut p = s.remote("p").unwrap();
    p.state = RemoteState::Connected;
    s.update_remote("p", p).unwrap();
    let r = register_service(&mut s, &registration("p", 8000), Some(ip(8))).unwrap();
    assert!(matches!(r, RegisterOutcome::AlreadyConnected));
    assert_eq!(s.remote("p").unwrap().port, 7000);
}

#[test]
fn offered_transfer_arrives_as_incoming() {
    let mut t = Transfer::new_outgoing_with("peer".to_string(), vec!["/a.txt".to_string()], 42, 7);
    t.total_bytes = 1234;
    t.file_count = 1;
    t.entry_names = vec!["a.txt".to_string()];
    t.single_name = Some("a.txt".to_string());
    t.single_mime_type = Some("text/plain".to_string());
    let offer = t.as_proto("ME-1");
    assert_eq!(offer.receiver, "ME-1");
    assert_eq!(offer.name_if_single, "a.txt");
    let back = Transfer::from_op_request_with(offer, 99, 8);
    assert_eq!(back.remote_uuid, "ME-1");
    assert_eq!(back.protocol_id, t.protocol_id);
    assert_eq!(back.total_bytes, 1234);
    assert_eq!(back.file_count, 1);
    assert_eq!(back.entry_names, vec!["a.txt".to_string()]);
    assert_eq!(back.single_name, Some("a.txt".to_string()));
    assert_eq!(back.single_mime_type, Some("text/plain".to_string()));
    assert!(matches!(back.state, TransferState::WaitingPermission));
    assert!(matches!(back.kind, warpinator_lib::types::transfer::TransferKind::Incoming { ref destination } if destination == "/"));

    let mut several = Transfer::new_outgoing_with("peer".to_string(), vec![], 43, 7);
    several.file_count = 3;
    several.single_name = Some("x".to_string());
    let back = Transfer::from_op_request_with(several.as_proto("ME-1"), 98, 8);
    assert_eq!(back.single_name, None);
    assert_eq!(back.single_mime_type, None);
}

#[test]
fn sent_message_arrives_as_received() {
    let m = Message::new_with("peer".to_string(), Direction::Sent, "hello".to_string(), 5, 77);
    let wire = m.as_proto("ME-1");
    assert_eq!(wire.ident, "ME-1");
    assert_eq!(wire.timestamp, 77);
    let back = Message::from_text_message_with(&wire, 6, 78);
    assert_eq!(back.content, "hello");
    assert_eq!(back.remote_uuid, "ME-1");
    assert_eq!(back.direction, Direction::Received);
    assert_eq!(back.timestamp, 78);
}

#[test]
fn fresh_identities() {
    let t = Transfer::new_outgoing("peer".to_string(), vec!["/x".to_string()]);
    assert_eq!(t.uuid.len(), 36);
    assert!(matches!(t.state, TransferState::Initializing));
    assert_eq!(t.total_bytes, 0);
    let req = t.as_proto("ME");
    let incoming = Transfer::from_op_request(req);
    assert_eq!(incoming.remote_uuid, "ME");
    assert_ne!(incoming.uuid, t.uuid);
    let m = Message::new("peer".to_string(), Direction::Sent, "x".to_string());
    let back = Message::from_text_message(&m.as_proto("ME"));
    assert_eq!(back.content, "x");
    assert_ne!(back.uuid, m.uuid);
}

#[test]
fn entries_from_metadata() {
    let meta = warpinator_lib::filesystem::vfs::VirtualMetadata { is_dir: true, name: "d".to_string(), size: 0, file_count: 0 };
    let e = warpinator_lib::filesystem::vfs::VirtualEntry::from_metadata("/d".to_string(), meta);
    assert!(e.is_dir);
    assert_eq!(e.path, "/d");
    assert_eq!(e.name, "d");
}
