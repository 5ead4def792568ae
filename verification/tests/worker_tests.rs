use warpinator_lib::net::{IpAddr, Ipv4Addr};
use warpinator_lib::proto::{OpInfo, RemoteMachineInfo, TransferOpRequest};
use warpinator_lib::server::connection::{
    after_ping_failure, connect_step, loop_react, loop_wait, state_after_cert_failure_of, CertFailure,
    ConnectEvent, ConnectTask, LoopEvent, LoopReaction, LoopWait,
};
use warpinator_lib::server::remote_manager::{RemoteManagerInner, UpdateError};
use warpinator_lib::server::remote_worker::{
    accept_transfer_request, begin_offer, cancel_transfer_request, mark_processing_failed, settle_processing,
    OfferOutcome, mark_transfer_accepted,
    record_avatar, record_certificate, record_machine_info, record_processed_transfer, set_remote_state,
    set_transfer_state, state_after_cert_error, stop_transfer_request, ReceiveCertError, RemoteWorkerError,
};
use warpinator_lib::types::remote::{Remote, RemoteConnectionError, RemoteState};
use warpinator_lib::types::transfer::{SourcePathError, Transfer, TransferError, TransferKind, TransferState};
use warpinator_lib::filesystem::vfs::VirtualFilesystemError;

fn store_with_peer() -> RemoteManagerInner {
    let mut s = RemoteManagerInner::new();
    s.add_remote(Remote::new(
        "peer".to_string(),
        IpAddr::V4(Ipv4Addr::new(10, 0, 0, 1)),
        42000,
        42001,
        "peer".to_string(),
        "host".to_string(),
    ));
    s
}

fn incoming(id: u64) -> Transfer {
    let req = TransferOpRequest {
        info: Some(OpInfo { ident: "peer".to_string(), timestamp: id, readable_name: String::new(), use_compression: false }),
        sender_name: "Peer".to_string(),
        receiver_name: "me".to_string(),
        receiver: "me".to_string(),
        size: 100,
        count: 1,
        name_if_single: "a.txt".to_string(),
        mime_if_single: "text/plain".to_string(),
        top_dir_basenames: vec!["a.txt".to_string()],
    };
    Transfer::from_op_request_with(req, 77, 1000)
}

#[test]
fn connect_succeeds_through_every_step() {
    let a = connect_step(ConnectEvent::Begin);
    assert_eq!(a.set_state, Some(RemoteState::Connecting));
    assert_eq!(a.next, ConnectTask::ReceiveCertificate);
    let a = connect_step(ConnectEvent::CertificateReceived);
    assert_eq!(a.set_state, None);
    assert_eq!(a.next, ConnectTask::BuildChannel);
    let a = connect_step(ConnectEvent::ChannelBuilt);
    assert_eq!(a.next, ConnectTask::Ping);
    let a = connect_step(ConnectEvent::PingSucceeded);
    assert_eq!(a.set_state, Some(RemoteState::AwaitingDuplex));
    assert_eq!(a.next, ConnectTask::WaitForDuplex);
    let a = connect_step(ConnectEvent::DuplexEstablished);
    assert_eq!(a.set_state, Some(RemoteState::Connected));
    assert_eq!(a.next, ConnectTask::FetchDetails);
    assert!(!a.clear_channel);
}

#[test]
fn connect_failures() {
    let a = connect_step(ConnectEvent::CertificateFailed(CertFailure::WrongGroupCode));
    assert_eq!(a.set_state, Some(RemoteState::Error(RemoteConnectionError::GroupCodeMismatch)));
    assert_eq!(a.next, ConnectTask::GiveUp);
    let a = connect_step(ConnectEvent::CertificateFailed(CertFailure::Offline));
    assert_eq!(a.set_state, Some(RemoteState::Disconnected));
    let a = connect_step(ConnectEvent::CertificateFailed(CertFailure::Other));
    assert_eq!(a.set_state, Some(RemoteState::Error(RemoteConnectionError::NoCertificate)));
    let a = connect_step(ConnectEvent::ChannelFailed);
    assert_eq!(a.set_state, Some(RemoteState::Error(RemoteConnectionError::SslError)));
    assert!(!a.clear_channel);
    let a = connect_step(ConnectEvent::PingFailed);
    assert_eq!(a.set_state, Some(RemoteState::Error(RemoteConnectionError::SslError)));
    assert!(a.clear_channel);
    let a = connect_step(ConnectEvent::DuplexFailed);
    assert_eq!(a.set_state, Some(RemoteState::Error(RemoteConnectionError::DuplexError)));
    assert!(a.clear_channel);
    assert_eq!(a.next, ConnectTask::GiveUp);
    assert_eq!(state_after_cert_failure_of(CertFailure::Offline), RemoteState::Disconnected);
    assert_eq!(state_after_cert_error(&ReceiveCertError::Offline), RemoteState::Disconnected);
    assert_eq!(
        state_after_cert_error(&ReceiveCertError::MalformedCertificate),
        RemoteState::Error(RemoteConnectionError::NoCertificate)
    );
    assert_eq!(
        state_after_cert_error(&ReceiveCertError::WrongGroupCode),
        RemoteState::Error(RemoteConnectionError::GroupCodeMismatch)
    );
}

#[test]
fn loop_waits_by_state() {
    assert_eq!(loop_wait(RemoteState::Connected), LoopWait::PingTimer);
    assert_eq!(loop_wait(RemoteState::Disconnected), LoopWait::ReconnectTimer);
    assert_eq!(loop_wait(RemoteState::Error(RemoteConnectionError::SslError)), LoopWait::ReconnectTimer);
    assert_eq!(loop_wait(RemoteState::Error(RemoteConnectionError::GroupCodeMismatch)), LoopWait::Stop);
    assert_eq!(loop_wait(RemoteState::Connecting), LoopWait::StateChange);
    assert_eq!(loop_wait(RemoteState::AwaitingDuplex), LoopWait::StateChange);
}

#[test]
fn loop_reactions() {
    assert_eq!(loop_react(LoopWait::PingTimer, LoopEvent::TimerElapsed), LoopReaction::Ping);
    assert_eq!(loop_react(LoopWait::ReconnectTimer, LoopEvent::TimerElapsed), LoopReaction::Connect);
    assert_eq!(loop_react(LoopWait::PingTimer, LoopEvent::Cancelled), LoopReaction::DisconnectAndStop);
    assert_eq!(loop_react(LoopWait::StateChange, LoopEvent::Cancelled), LoopReaction::DisconnectAndStop);
    assert_eq!(loop_react(LoopWait::ReconnectTimer, LoopEvent::StateChanged), LoopReaction::Continue);
    let a = after_ping_failure();
    assert_eq!(a.set_state, RemoteState::Disconnected);
    assert!(a.clear_channel);
}

#[test]
fn worker_records_peer_details() {
    let mut s = store_with_peer();
    record_certificate(&mut s, "peer", b"CERT".to_vec()).unwrap();
    assert_eq!(s.remote("peer").unwrap().cert_pem, Some(b"CERT".to_vec()));
    assert!(matches!(record_certificate(&mut s, "x", vec![]), Err(ReceiveCertError::NoRemote)));

    let info = RemoteMachineInfo { display_name: "Ann".to_string(), user_name: "ann".to_string(), feature_flags: 3 };
    record_machine_info(&mut s, "peer", info).unwrap();
    let p = s.remote("peer").unwrap();
    assert_eq!(p.display_name, "Ann");
    assert_eq!(p.username, "ann");
    assert_eq!(p.features.bits(), 1);
    let info = RemoteMachineInfo { display_name: String::new(), user_name: String::new(), feature_flags: 0 };
    assert!(matches!(record_machine_info(&mut s, "x", info), Err(RemoteWorkerError::UpdateFailed(UpdateError::NotFound))));
}

#[test]
fn worker_records_avatar() {
    let mut s = store_with_peer();
    record_avatar(&mut s, "peer", vec![1, 2]).unwrap();
    let p = s.remote("peer").unwrap();
    assert_eq!(p.picture, Some(vec![1, 2]));
    assert_eq!(p.picture_version, 1);
    record_avatar(&mut s, "peer", vec![]).unwrap();
    let p = s.remote("peer").unwrap();
    assert_eq!(p.picture, None);
    assert_eq!(p.picture_version, 2);
    let mut p = s.remote("peer").unwrap();
    p.picture_version = 255;
    s.update_remote("peer", p).unwrap();
    record_avatar(&mut s, "peer", vec![5]).unwrap();
    assert_eq!(s.remote("peer").unwrap().picture_version, 0);
}

#[test]
fn worker_sets_state() {
    let mut s = store_with_peer();
    assert!(set_remote_state(&mut s, "peer", RemoteState::Connected).is_some());
    assert_eq!(s.remote("peer").unwrap().state, RemoteState::Connected);
    assert!(set_remote_state(&mut s, "nobody", RemoteState::Connected).is_none());
}

#[test]
fn accepting_transfers() {
    let mut s = store_with_peer();
    let t = incoming(555);
    let tuuid = t.uuid.clone();
    s.add_transfer("peer", t).unwrap();
    assert!(matches!(accept_transfer_request(&s, "peer", &tuuid, false, "me"), Err(RemoteWorkerError::NoClient)));
    assert!(matches!(accept_transfer_request(&s, "peer", "none", true, "me"), Err(RemoteWorkerError::TransferNotFound)));
    let op = accept_transfer_request(&s, "peer", &tuuid, true, "me").unwrap();
    assert_eq!(op.ident, "me");
    assert_eq!(op.timestamp, 555);
    assert_eq!(op.readable_name, "");
    assert!(!op.use_compression);
    mark_transfer_accepted(&mut s, "peer", &tuuid, "/downloads".to_string(), 0).unwrap();
    let t = s.transfer("peer", &tuuid).unwrap();
    assert!(matches!(t.state, TransferState::InProgress));
    assert!(matches!(t.kind, TransferKind::Incoming { ref destination } if destination == "/downloads"));

    let out = Transfer::new_outgoing_with("peer".to_string(), vec!["/x".to_string()], 9, 1);
    let ouuid = out.uuid.clone();
    s.add_transfer("peer", out).unwrap();
    match accept_transfer_request(&s, "peer", &ouuid, true, "me") {
        Err(RemoteWorkerError::IllegalOperation(m)) => assert_eq!(m, "Cannot accept an outgoing transfer"),
        other => panic!("unexpected {:?}", other),
    }
}

#[test]
fn stopping_and_cancelling_transfers() {
    let mut s = store_with_peer();
    let t = incoming(1);
    let tuuid = t.uuid.clone();
    s.add_transfer("peer", t).unwrap();
    let out = Transfer::new_outgoing_with("peer".to_string(), vec!["/x".to_string()], 9, 1);
    let ouuid = out.uuid.clone();
    let opid = out.protocol_id;
    s.add_transfer("peer", out).unwrap();

    let (stop, outgoing, after) = stop_transfer_request(&s, "peer", &ouuid, true, "me", true).unwrap();
    assert!(outgoing);
    assert!(matches!(after, TransferState::Stopped));
    assert!(stop.error);
    assert_eq!(stop.info.unwrap().timestamp, opid);
    let (_, outgoing, _) = stop_transfer_request(&s, "peer", &tuuid, true, "me", false).unwrap();
    assert!(!outgoing);
    set_transfer_state(&mut s, "peer", &tuuid, TransferState::Stopped, 0).unwrap();
    assert!(matches!(s.transfer("peer", &tuuid).unwrap().state, TransferState::Stopped));

    let (_, st, stop_sending) = cancel_transfer_request(&s, "peer", &tuuid, true, "me").unwrap();
    assert!(matches!(st, TransferState::Denied));
    assert!(!stop_sending);
    let (op, st, stop_sending) = cancel_transfer_request(&s, "peer", &ouuid, true, "me").unwrap();
    assert!(matches!(st, TransferState::Canceled));
    assert!(stop_sending);
    assert_eq!(op.timestamp, opid);
    assert!(matches!(cancel_transfer_request(&s, "peer", &ouuid, false, "me"), Err(RemoteWorkerError::NoClient)));
    assert!(matches!(set_transfer_state(&mut s, "peer", "zz", TransferState::Stopped, 0), Err(RemoteWorkerError::UpdateFailed(UpdateError::NotFound))));
}

#[test]
fn processed_transfers() {
    let mut s = store_with_peer();
    let out = Transfer::new_outgoing_with("peer".to_string(), vec!["/x/a.txt".to_string()], 9, 1);
    let ouuid = out.uuid.clone();
    s.add_transfer("peer", out).unwrap();
    let mut processed = s.transfer("peer", &ouuid).unwrap();
    processed.total_bytes = 12;
    processed.file_count = 1;
    processed.entry_names = vec!["a.txt".to_string()];
    processed.single_name = Some("a.txt".to_string());
    processed.single_mime_type = Some("text/plain".to_string());
    record_processed_transfer(&mut s, "peer", &ouuid, &processed, 0).unwrap();
    let t = s.transfer("peer", &ouuid).unwrap();
    assert_eq!(t.total_bytes, 12);
    assert_eq!(t.entry_names, vec!["a.txt".to_string()]);
    assert_eq!(t.single_mime_type, Some("text/plain".to_string()));
    assert!(matches!(t.state, TransferState::WaitingPermission));
    mark_processing_failed(&mut s, "peer", &ouuid, 0).unwrap();
    assert!(matches!(s.transfer("peer", &ouuid).unwrap().state, TransferState::Failed(TransferError::FailedToProcessFiles)));
}

#[test]
fn worker_requests() {
    let r = warpinator_lib::server::remote_worker::certificate_request("box", Ipv4Addr::new(10, 0, 0, 5));
    assert_eq!(r.hostname, "box");
    assert_eq!(r.ip, "10.0.0.5");
    assert_eq!(r.ipv6, "");
    let p = warpinator_lib::server::remote_worker::ping_request("peer", "box");
    assert_eq!((p.id.as_str(), p.readable_name.as_str()), ("peer", "box"));
    let d = warpinator_lib::server::remote_worker::duplex_request("ME-1", "box");
    assert_eq!((d.id.as_str(), d.readable_name.as_str()), ("ME-1", "box"));
}

#[test]
fn offering_a_transfer() {
    let mut s = store_with_peer();
    assert!(matches!(begin_offer(&mut s, "peer", false, vec!["/a".to_string()], 5, 9), Err(RemoteWorkerError::NoClient)));
    assert!(s.transfers("peer").unwrap_or_default().is_empty());
    assert!(matches!(
        begin_offer(&mut s, "nobody", true, vec!["/a".to_string()], 5, 9),
        Err(RemoteWorkerError::UpdateFailed(UpdateError::NotFound))
    ));
    let (mut t, _) = begin_offer(&mut s, "peer", true, vec!["/a".to_string()], 5, 9).unwrap();
    assert!(matches!(s.transfer("peer", &t.uuid).unwrap().state, TransferState::Initializing));
    assert_eq!(t.timestamp, 9);
    t.total_bytes = 3;
    t.file_count = 1;
    match settle_processing(&mut s, "peer", &t, Ok(()), "me", 0) {
        OfferOutcome::Offer(req) => {
            assert_eq!(req.size, 3);
            assert_eq!(req.info.unwrap().timestamp, t.protocol_id);
        }
        _ => panic!("expected an offer"),
    }
    assert!(matches!(s.transfer("peer", &t.uuid).unwrap().state, TransferState::Initializing));
    let failed = SourcePathError::VirtualFilesystemError(VirtualFilesystemError::FileNotFound);
    match settle_processing(&mut s, "peer", &t, Err(failed), "me", 0) {
        OfferOutcome::Failed { error: RemoteWorkerError::OperationFailed(_), .. } => {}
        _ => panic!("expected a failure"),
    }
    assert!(matches!(
        s.transfer("peer", &t.uuid).unwrap().state,
        TransferState::Failed(TransferError::FailedToProcessFiles)
    ));
}
