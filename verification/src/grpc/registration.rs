//! The registration service: handing out the locked certificate, and taking
//! in the services that peers register.
use vstd::prelude::*;
use crate::net::IpAddr;
use crate::proto::{Code, RegResponse, ServiceRegistration, Status};
use crate::server::authenticator::Authenticator;
use crate::server::remote_manager::{
    RemoteManagerInner, WarpEvent, WarpEventView, spec_find_remote, spec_add_remote, spec_update_remote,
    law_added_remote_is_found, law_updated_remote_is_found, lemma_found_remote_has_uuid,
};
use crate::server::remote_worker::{base64_encode, is_base64_char, spec_open_locked_cert, without_line_breaks};
use crate::types::remote::{Remote, RemoteState, RemoteView};
use crate::server::discovery::reconnects_on_discovery;
use crate::server::manual::{spec_known_peer_answer, ManualConnectionError};
use crate::text::to_owned_string;

verus! {

/// Dropping line breaks from a text that has none changes nothing.
pub proof fn lemma_no_line_breaks(s: Seq<char>)
    requires
        forall|i: int| 0 <= i < s.len() ==> is_base64_char(#[trigger] s[i]),
    ensures
        without_line_breaks(s) == s,
    decreases s.len(),
{
    reveal_with_fuel(Seq::filter, 1);
    if s.len() > 0 {
        assert forall|i: int| 0 <= i < s.drop_last().len() implies is_base64_char(
            #[trigger] s.drop_last()[i],
        ) by {
            assert(s.drop_last()[i] == s[i]);
        }
        lemma_no_line_breaks(s.drop_last());
        assert(is_base64_char(s[s.len() - 1]));
        assert(s.drop_last().push(s.last()) == s);
    }
}

/// The certificate of `auth`, boxed with its group code and Base64-encoded.
/// A peer that shares the group code opens it back to the certificate.
/// Boxing does not fail.
pub fn locked_certificate(auth: &Authenticator) -> (r: Result<String, crypto_secretbox::Error>)
    requires
        auth.spec_cert_pem().len() + crate::server::authenticator::NONCE_LEN + 16 <= isize::MAX,
    ensures
        r is Ok,
        r is Ok ==> spec_open_locked_cert(auth.spec_group_code(), r->Ok_0@) == Some(
            Ok::<Seq<u8>, crate::server::remote_worker::ReceiveCertErrorKind>(auth.spec_cert_pem()),
        ),
{
    let boxed = auth.box_cert()?;
    let text = base64_encode(boxed.as_slice());
    proof {
        lemma_no_line_breaks(text@);
    }
    Ok(text)
}

/// Answers a request for the certificate; a box that fails is an internal
/// error, which does not come.
pub fn request_certificate(auth: &Authenticator) -> (r: Result<RegResponse, Status>)
    requires
        auth.spec_cert_pem().len() + crate::server::authenticator::NONCE_LEN + 16 <= isize::MAX,
    ensures
        r is Ok,
        r is Ok ==> spec_open_locked_cert(auth.spec_group_code(), r->Ok_0.locked_cert@) == Some(
            Ok::<Seq<u8>, crate::server::remote_worker::ReceiveCertErrorKind>(auth.spec_cert_pem()),
        ),
        r is Err ==> r->Err_0.code == Code::Internal,
{
    match locked_certificate(auth) {
        Ok(locked_cert) => Ok(RegResponse { locked_cert }),
        Err(_) => {
            let m = "Failed to box certificate";
            Err(Status { code: Code::Internal, message: to_owned_string(m) })
        },
    }
}

} // verus!

verus! {

/// What registering a peer's service did.
#[derive(Debug)]
pub enum RegisterOutcome {
    /// A new peer was added (the event that announces it); its worker is to
    /// be made and started.
    Added(WarpEvent),
    /// The peer is already connected: nothing changed.
    AlreadyConnected,
    /// The peer's address and names were updated (the event that announces
    /// it); `reconnect` when it was disconnected or in error and is to be
    /// connected again.
    Updated(WarpEvent, bool),
}

/// The peer that a registration stands for when it is new: a registered
/// service, so a static one.
pub open spec fn registered_remote(req: ServiceRegistration, ip: IpAddr) -> RemoteView {
    RemoteView {
        service_static: true,
        ..crate::types::remote::spec_new_remote(
            req.service_id@,
            ip,
            req.port as u16,
            req.auth_port as u16,
            req.service_id@,
            req.hostname@,
        )
    }
}

/// A known peer after a registration: its address, ports, host name and
/// service name from the registration, and static, as a registered service
/// is.
pub open spec fn reregistered_remote(v: RemoteView, req: ServiceRegistration, ip: IpAddr) -> RemoteView {
    RemoteView {
        ip,
        port: req.port as u16,
        auth_port: req.auth_port as u16,
        hostname: req.hostname@,
        service_name: req.service_id@,
        service_static: true,
        ..v
    }
}

/// Whether a peer in `state` is to be connected again when it shows up.
pub open spec fn needs_reconnect(state: RemoteState) -> bool {
    state is Disconnected || state is Error
}

fn invalid_address() -> (r: Status)
    ensures
        r.code == Code::InvalidArgument,
        r.message@ == "invalid IP address syntax"@,
{
    let m = "invalid IP address syntax";
    Status { code: Code::InvalidArgument, message: to_owned_string(m) }
}

/// Takes in the service that a peer registers. `ip` is the registration's
/// address as parsed (none when it is not an address). An unknown peer is
/// added; a connected one is left as it is; any other has its address,
/// ports and names updated, and is to be reconnected when it was
/// disconnected or in error. A peer that registers is static. An address
/// that does not parse, where one is needed, is an invalid argument and
/// changes nothing; ports must fit in 16 bits where they are used.
pub fn register_service(store: &mut RemoteManagerInner, req: &ServiceRegistration, ip: Option<IpAddr>) -> (r: Result<
    RegisterOutcome,
    Status,
>)
    requires
        (req.port > u16::MAX || req.auth_port > u16::MAX) ==> ip is None || (spec_find_remote(
            old(store)@,
            req.service_id@,
        ) is Some && spec_find_remote(old(store)@, req.service_id@)->0.state == RemoteState::Connected),
    ensures
        match spec_find_remote(old(store)@, req.service_id@) {
            None => match ip {
                None => final(store)@ == old(store)@ && r is Err && r->Err_0.code == Code::InvalidArgument,
                Some(a) => final(store)@ == spec_add_remote(old(store)@, registered_remote(*req, a))
                    && r is Ok && r->Ok_0 is Added
                    && r->Ok_0->Added_0@ == WarpEventView::RemoteAdded(req.service_id@),
            },
            Some(v) => if v.state == RemoteState::Connected {
                final(store)@ == old(store)@ && r is Ok && r->Ok_0 is AlreadyConnected
            } else {
                match ip {
                    None => final(store)@ == old(store)@ && r is Err && r->Err_0.code == Code::InvalidArgument,
                    Some(a) => Some(final(store)@) == spec_update_remote(
                        old(store)@,
                        req.service_id@,
                        reregistered_remote(v, *req, a),
                    ) && r is Ok && r->Ok_0 is Updated
                        && r->Ok_0->Updated_0@ == WarpEventView::RemoteUpdated(req.service_id@)
                        && r->Ok_0->Updated_1 == needs_reconnect(v.state),
                }
            },
        },
{
    match store.remote(req.service_id.as_str()) {
        None => {
            let a = match ip {
                Some(a) => a,
                None => return Err(invalid_address()),
            };
            let mut remote = Remote::new(
                req.service_id.clone(),
                a,
                req.port as u16,
                req.auth_port as u16,
                req.service_id.clone(),
                req.hostname.clone(),
            );
            remote.service_static = true;
            let e = store.add_remote(remote);
            Ok(RegisterOutcome::Added(e))
        },
        Some(remote) => {
            if remote.state == RemoteState::Connected {
                return Ok(RegisterOutcome::AlreadyConnected);
            }
            let a = match ip {
                Some(a) => a,
                None => return Err(invalid_address()),
            };
            let reconnect = match remote.state {
                RemoteState::Disconnected | RemoteState::Error(_) => true,
                _ => false,
            };
            let mut updated = remote;
            updated.ip = a;
            updated.port = req.port as u16;
            updated.auth_port = req.auth_port as u16;
            updated.hostname = req.hostname.clone();
            updated.service_name = req.service_id.clone();
            updated.service_static = true;
            let e = store.update_remote(req.service_id.as_str(), updated);
            match e {
                Ok(e) => Ok(RegisterOutcome::Updated(e, reconnect)),
                Err(_) => {
                    assert(false);
                    Err(invalid_address())
                },
            }
        },
    }
}

/// A peer that registers with an address, unless it is already connected,
/// is afterwards in the record under its service id at that address, with
/// the ports and host name it registered.
pub proof fn law_registered_peer_is_found(s: Seq<RemoteView>, req: ServiceRegistration, a: IpAddr)
    requires
        spec_find_remote(s, req.service_id@) is Some ==> spec_find_remote(s, req.service_id@)->0.state
            != RemoteState::Connected,
    ensures
        ({
            let after = match spec_find_remote(s, req.service_id@) {
                None => spec_add_remote(s, registered_remote(req, a)),
                Some(v) => spec_update_remote(s, req.service_id@, reregistered_remote(v, req, a))->0,
            };
            let found = spec_find_remote(after, req.service_id@);
            &&& found is Some
            &&& found->0.ip == a
            &&& found->0.port == req.port as u16
            &&& found->0.auth_port == req.auth_port as u16
            &&& found->0.hostname == req.hostname@
            &&& found->0.service_static
        }),
{
    match spec_find_remote(s, req.service_id@) {
        None => {
            law_added_remote_is_found(s, registered_remote(req, a));
        },
        Some(v) => {
            lemma_found_remote_has_uuid(s, req.service_id@);
            law_updated_remote_is_found(s, req.service_id@, reregistered_remote(v, req, a));
        },
    }
}

/// A known peer that registers again while not connected is connected
/// again exactly when it is idle: disconnected, or in any error; one
/// connecting or awaiting the duplex is left to its worker.
pub proof fn law_reregistration_reconnects_idle_peers(st: RemoteState)
    ensures
        st is Disconnected ==> needs_reconnect(st),
        st is Error ==> needs_reconnect(st),
        st is Connecting || st is AwaitingDuplex ==> !needs_reconnect(st),
{
}

/// Registering, discovery and a connection by hand agree on which known
/// peers are connected again: a peer that one of them reconnects, the
/// others reconnect too; a connection by hand refuses as already connecting
/// only a peer that is connecting or awaiting the duplex.
pub proof fn law_reconnection_agrees(st: RemoteState)
    ensures
        needs_reconnect(st) == reconnects_on_discovery(st),
        spec_known_peer_answer(st) is None <==> reconnects_on_discovery(st),
        spec_known_peer_answer(st) == Some(ManualConnectionError::AlreadyConnecting) ==> st is Connecting
            || st is AwaitingDuplex,
{
}

} // verus!
