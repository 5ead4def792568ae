use warpinator_lib::types::message::{Direction, Message};
use warpinator_lib::bindings::{self, LogLevel, PowerManagerWrapper, ThemeSettings};
use warpinator_lib::desktop::{
    service_id_for, startup_settings, auto_accept_target, avatar_bytes, message_notice, notice_for, open_transfer_target, transfer_notice, RemoteUi,
};
use warpinator_lib::net::{IpAddr, Ipv4Addr};
use warpinator_lib::proto::{OpInfo, TransferOpRequest};
use warpinator_lib::server::power_manager::{PowerManager, WakeLockGuard};
use warpinator_lib::server::remote_manager::{RemoteManagerInner, WarpEvent};
use warpinator_lib::server::remote_worker::mark_transfer_accepted;
use warpinator_lib::types::remote::{Remote, RemoteState};
use warpinator_lib::types::transfer::{Transfer, TransferError, TransferState};
use std::cell::Cell;
use std::rc::Rc;

fn peer(uuid: &str) -> Remote {
    Remote::new(uuid.to_string(), IpAddr::V4(Ipv4Addr::new(10, 0, 0, 3)), 1, 2, "svc".to_string(), "h".to_string())
}

#[test]
fn listed_peers() {
    let mut p = peer("abc");
    let ui = RemoteUi::from_remote(peer("abc"));
    assert_eq!(ui.picture, None);
    assert_eq!(ui.uuid, "abc");
    assert_eq!(ui.service_name, "svc");
    assert_eq!(ui.state, RemoteState::Disconnected);
    p.picture = Some(vec![1]);
    let ui = RemoteUi::from_remote(p);
    assert_eq!(ui.picture, Some("avatars://abc".to_string()));
}

fn incoming_request(peer: &str) -> TransferOpRequest {
    TransferOpRequest {
        info: Some(OpInfo { ident: peer.to_string(), timestamp: 4, readable_name: String::new(), use_compression: false }),
        sender_name: String::new(),
        receiver_name: String::new(),
        receiver: String::new(),
        size: 1,
        count: 1,
        name_if_single: String::new(),
        mime_if_single: String::new(),
        top_dir_basenames: vec!["a.txt".to_string()],
    }
}

#[test]
fn auto_accept_settings() {
    let mut s = RemoteManagerInner::new();
    s.add_remote(peer("p"));
    let inc = Transfer::from_op_request_with(incoming_request("p"), 2, 0);
    let iu = inc.uuid.clone();
    s.add_transfer("p", inc).unwrap();
    let e = WarpEvent::TransferAdded("p".to_string(), iu.clone());
    let favs = vec!["q".to_string(), "p".to_string()];
    let t = auto_accept_target(&e, &s, "all", &vec![]).unwrap();
    assert_eq!((t.remote_uuid.as_str(), t.transfer_uuid.as_str()), ("p", iu.as_str()));
    assert!(auto_accept_target(&e, &s, "favorites", &favs).is_some());
    assert!(auto_accept_target(&e, &s, "favorites", &vec!["q".to_string()]).is_none());
    assert!(auto_accept_target(&e, &s, "none", &favs).is_none());
    assert!(auto_accept_target(&WarpEvent::RemoteAdded("p".to_string()), &s, "all", &favs).is_none());
    let unknown = WarpEvent::TransferAdded("p".to_string(), "t".to_string());
    let t = auto_accept_target(&unknown, &s, "all", &favs).unwrap();
    assert_eq!(t.transfer_uuid, "t");
}

#[test]
fn own_transfers_are_not_auto_accepted() {
    let mut s = RemoteManagerInner::new();
    s.add_remote(peer("p"));
    let out = Transfer::new_outgoing_with("p".to_string(), vec![], 1, 0);
    let ou = out.uuid.clone();
    s.add_transfer("p", out).unwrap();
    let e = WarpEvent::TransferAdded("p".to_string(), ou);
    assert!(auto_accept_target(&e, &s, "all", &vec![]).is_none());
}

#[test]
fn opening_transfers() {
    let mut s = RemoteManagerInner::new();
    s.add_remote(peer("p"));
    assert_eq!(open_transfer_target(&s, "p", "t").unwrap_err(), "No transfer found");
    let out = Transfer::new_outgoing_with("p".to_string(), vec![], 1, 0);
    let ou = out.uuid.clone();
    s.add_transfer("p", out).unwrap();
    assert_eq!(open_transfer_target(&s, "p", &ou).unwrap_err(), "Can't open an outgoing transfer");
    let req = TransferOpRequest {
        info: Some(OpInfo { ident: "p".to_string(), timestamp: 4, readable_name: String::new(), use_compression: false }),
        sender_name: String::new(),
        receiver_name: String::new(),
        receiver: String::new(),
        size: 1,
        count: 2,
        name_if_single: String::new(),
        mime_if_single: String::new(),
        top_dir_basenames: vec!["photos".to_string()],
    };
    let inc = Transfer::from_op_request_with(req, 2, 0);
    let iu = inc.uuid.clone();
    s.add_transfer("p", inc).unwrap();
    mark_transfer_accepted(&mut s, "p", &iu, "/home/me/Warpinator".to_string(), 0).unwrap();
    assert_eq!(open_transfer_target(&s, "p", &iu).unwrap(), "/home/me/Warpinator/photos");
    let mut t = s.transfer("p", &iu).unwrap();
    t.entry_names.clear();
    s.update_transfer("p", &iu, t, 0).unwrap();
    assert_eq!(open_transfer_target(&s, "p", &iu).unwrap_err(), "Transfer has no entry names");
}

#[test]
fn avatars() {
    let mut s = RemoteManagerInner::new();
    let mut p = peer("p");
    p.picture = Some(vec![7, 7]);
    s.add_remote(p);
    s.add_remote(peer("q"));
    assert_eq!(avatar_bytes("self", &Some(vec![1]), &s), Some(vec![1]));
    assert_eq!(avatar_bytes("self", &None, &s), None);
    assert_eq!(avatar_bytes("p", &Some(vec![1]), &s), Some(vec![7, 7]));
    assert_eq!(avatar_bytes("q", &None, &s), None);
    assert_eq!(avatar_bytes("zz", &None, &s), None);
}

#[test]
fn notices() {
    let (t, b) = transfer_notice("Ann", 12);
    assert_eq!(t, "New transfer from Ann");
    assert_eq!(b, "12 files");
    let (_, b) = transfer_notice("Ann", 0);
    assert_eq!(b, "0 files");
    let (t, b) = message_notice("Bob", "hello");
    assert_eq!(t, "New message from Bob");
    assert_eq!(b, "hello");
}

struct CountingPower {
    held: Rc<Cell<i32>>,
}

impl PowerManager for CountingPower {
    fn acquire_wake_lock(&self) {
        self.held.set(self.held.get() + 1);
    }
    fn release_wake_lock(&self) {
        self.held.set(self.held.get() - 1);
    }
}

#[test]
fn wake_lock_is_held_until_released() {
    let held = Rc::new(Cell::new(0));
    let guard = WakeLockGuard::new(CountingPower { held: held.clone() });
    assert_eq!(held.get(), 1);
    guard.release();
    assert_eq!(held.get(), 0);
    let guard = WakeLockGuard::new(PowerManagerWrapper::new(CountingPower { held: held.clone() }));
    assert_eq!(held.get(), 1);
    guard.release();
    assert_eq!(held.get(), 0);
}

#[test]
fn host_transfer_states() {
    let s = bindings::TransferState::from_state(&TransferState::Failed(TransferError::FailedToStartTransfer("x".to_string())));
    assert_eq!(s, bindings::TransferState::Failed(bindings::TransferError::FailedToStartTransfer));
    let t = Transfer::new_outgoing_with("p".to_string(), vec!["/a".to_string()], 3, 8);
    let h = bindings::Transfer::from_transfer(&t);
    assert_eq!(h.uuid, t.uuid);
    assert_eq!(h.state, bindings::TransferState::Initializing);
    assert_eq!(h.timestamp, 8);
    let theme = ThemeSettings { theme: "dark".to_string() };
    assert_eq!(theme.clone().theme, "dark");
    assert_eq!(LogLevel::Warn, LogLevel::Warn);
}

#[test]
fn service_ids() {
    let v: u128 = 0x0123_4567_89ab_cdef_0123_4567_89ab_cdef;
    assert_eq!(service_id_for("my laptop_x", v).unwrap(), "MY-LAPTOP-X-0123456789ABCDEF0123456789ABCDEF");
    let long = "a".repeat(40);
    let id = service_id_for(&long, 0).unwrap();
    assert_eq!(id, format!("{}-{}", "A".repeat(30), "0".repeat(32)));
    let cut_inside = format!("{}é", "a".repeat(29));
    assert!(service_id_for(&cut_inside, 0).is_none());
    let cut_between = format!("{}é", "a".repeat(28));
    assert_eq!(service_id_for(&cut_between, 0).unwrap(), format!("{}É-{}", "A".repeat(28), "0".repeat(32)));
}

#[test]
fn startup_defaults() {
    let s = startup_settings(None, None, None, None, None, None, None, 0).unwrap();
    assert_eq!(s.theme, "system");
    assert_eq!(s.group_code, "Warpinator");
    assert_eq!(s.display_name, "Warpinator");
    assert_eq!(s.username, "warpinator");
    assert_eq!(s.hostname, "warpinator");
    assert_eq!(s.service_id, format!("WARPINATOR-{}", "0".repeat(32)));
    assert!(s.save_service_id);
    let s = startup_settings(
        Some("dark".to_string()),
        Some("code".to_string()),
        None,
        Some("SAVED-ID".to_string()),
        Some("Ann Real".to_string()),
        Some("ann".to_string()),
        Some("box".to_string()),
        0,
    )
    .unwrap();
    assert_eq!(s.theme, "dark");
    assert_eq!(s.group_code, "code");
    assert_eq!(s.display_name, "Ann Real");
    assert_eq!(s.username, "ann");
    assert_eq!(s.hostname, "box");
    assert_eq!(s.service_id, "SAVED-ID");
    assert!(!s.save_service_id);
}

#[test]
fn log_lines() {
    assert_eq!(bindings::log_line(&vec![], "hello"), "hello");
    assert_eq!(bindings::log_line(&vec!["outer".to_string()], "m"), "[outer] m");
    assert_eq!(bindings::log_line(&vec!["a".to_string(), "b".to_string(), "c".to_string()], "m"), "[a::b::c] m");
}

#[test]
fn host_remote_copy() {
    let mut r = peer("abc");
    r.picture = Some(vec![1]);
    r.features = warpinator_lib::config::features::ProtocolFeatures::message_support();
    let h = bindings::Remote::from_remote(&r);
    assert_eq!(h.ip, "10.0.0.3");
    assert!(h.picture);
    assert!(h.message_support);
    assert_eq!(h.state, RemoteState::Disconnected);
    let h = bindings::Remote::from_remote(&peer("x"));
    assert!(!h.picture);
    assert!(!h.message_support);
}

#[test]
fn notices_follow_settings() {
    let mut s = RemoteManagerInner::new();
    let mut p = peer("p");
    p.display_name = "Ann".to_string();
    s.add_remote(p);
    let inc = Transfer::from_op_request_with(incoming_request("p"), 2, 0);
    let iu = inc.uuid.clone();
    s.add_transfer("p", inc).unwrap();
    let e = WarpEvent::TransferAdded("p".to_string(), iu);
    assert_eq!(notice_for(&e, &s, true, false), Some(("New transfer from Ann".to_string(), "1 files".to_string())));
    assert_eq!(notice_for(&e, &s, false, true), None);
    let m = Message::new_with("p".to_string(), Direction::Received, "hi".to_string(), 5, 0);
    let mu = m.uuid.clone();
    s.add_message("p", m).unwrap();
    let e = WarpEvent::MessageAdded("p".to_string(), mu);
    assert_eq!(notice_for(&e, &s, false, true), Some(("New message from Ann".to_string(), "hi".to_string())));
    assert_eq!(notice_for(&e, &s, true, false), None);
    let gone = WarpEvent::MessageAdded("p".to_string(), "zz".to_string());
    assert_eq!(notice_for(&gone, &s, true, true), None);
    assert_eq!(notice_for(&WarpEvent::RemoteAdded("p".to_string()), &s, true, true), None);
}
