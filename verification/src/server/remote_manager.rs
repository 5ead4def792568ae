//! The record of every peer, with its transfers and messages, and the events
//! that each change of it announces.
use vstd::prelude::*;
use crate::text::{str_eq, to_owned_string};
use crate::types::message::Message;
use crate::types::remote::{Remote, RemoteView, transfers_view, clone_transfers, clone_messages};
use crate::types::transfer::{Transfer, TransferView, state_tag, same_state_variant};

verus! {

/// A change of the record, announced to whoever listens.
#[derive(Debug)]
pub enum WarpEvent {
    /// A peer was added (its UUID).
    RemoteAdded(String),
    /// A peer changed (its UUID).
    RemoteUpdated(String),
    /// A transfer was added (the peer's UUID, the transfer's UUID).
    TransferAdded(String, String),
    TransferUpdated(String, String),
    TransferRemoved(String, String),
    /// A message was added (the peer's UUID, the message's UUID).
    MessageAdded(String, String),
    MessageRemoved(String, String),
}

/// Why a change of the record failed.
#[derive(Clone, Copy, Debug, PartialEq, Eq, Structural)]
pub enum UpdateError {
    /// No peer, transfer or message has that UUID.
    NotFound,
}

/// An event with its strings as character sequences.
pub enum WarpEventView {
    RemoteAdded(Seq<char>),
    RemoteUpdated(Seq<char>),
    TransferAdded(Seq<char>, Seq<char>),
    TransferUpdated(Seq<char>, Seq<char>),
    TransferRemoved(Seq<char>, Seq<char>),
    MessageAdded(Seq<char>, Seq<char>),
    MessageRemoved(Seq<char>, Seq<char>),
}

impl View for WarpEvent {
    type V = WarpEventView;

    open spec fn view(&self) -> WarpEventView {
        match self {
            WarpEvent::RemoteAdded(a) => WarpEventView::RemoteAdded(a@),
            WarpEvent::RemoteUpdated(a) => WarpEventView::RemoteUpdated(a@),
            WarpEvent::TransferAdded(a, b) => WarpEventView::TransferAdded(a@, b@),
            WarpEvent::TransferUpdated(a, b) => WarpEventView::TransferUpdated(a@, b@),
            WarpEvent::TransferRemoved(a, b) => WarpEventView::TransferRemoved(a@, b@),
            WarpEvent::MessageAdded(a, b) => WarpEventView::MessageAdded(a@, b@),
            WarpEvent::MessageRemoved(a, b) => WarpEventView::MessageRemoved(a@, b@),
        }
    }
}

// ---------------------------------------------------------------------------
// Finding things by UUID: the first match counts.

/// `i` is the first position of a peer with UUID `uuid`.
pub open spec fn is_first_remote(s: Seq<RemoteView>, uuid: Seq<char>, i: int) -> bool {
    &&& 0 <= i < s.len()
    &&& s[i].uuid == uuid
    &&& forall|j: int| 0 <= j < i ==> (#[trigger] s[j]).uuid != uuid
}

/// The position of the first peer with UUID `uuid`, or -1.
pub open spec fn remote_index(s: Seq<RemoteView>, uuid: Seq<char>) -> int {
    if exists|i: int| is_first_remote(s, uuid, i) {
        choose|i: int| is_first_remote(s, uuid, i)
    } else {
        -1
    }
}

/// `i` is the first position of a transfer with UUID `uuid`.
pub open spec fn is_first_transfer(s: Seq<TransferView>, uuid: Seq<char>, i: int) -> bool {
    &&& 0 <= i < s.len()
    &&& s[i].uuid == uuid
    &&& forall|j: int| 0 <= j < i ==> (#[trigger] s[j]).uuid != uuid
}

pub open spec fn transfer_index(s: Seq<TransferView>, uuid: Seq<char>) -> int {
    if exists|i: int| is_first_transfer(s, uuid, i) {
        choose|i: int| is_first_transfer(s, uuid, i)
    } else {
        -1
    }
}

/// `i` is the first position of a transfer with protocol id `id`.
pub open spec fn is_first_protocol_id(s: Seq<TransferView>, id: u64, i: int) -> bool {
    &&& 0 <= i < s.len()
    &&& s[i].protocol_id == id
    &&& forall|j: int| 0 <= j < i ==> (#[trigger] s[j]).protocol_id != id
}

pub open spec fn protocol_id_index(s: Seq<TransferView>, id: u64) -> int {
    if exists|i: int| is_first_protocol_id(s, id, i) {
        choose|i: int| is_first_protocol_id(s, id, i)
    } else {
        -1
    }
}

/// `i` is the first position of a message with UUID `uuid`.
pub open spec fn is_first_message(s: Seq<Message>, uuid: Seq<char>, i: int) -> bool {
    &&& 0 <= i < s.len()
    &&& s[i].uuid@ == uuid
    &&& forall|j: int| 0 <= j < i ==> (#[trigger] s[j]).uuid@ != uuid
}

pub open spec fn message_index(s: Seq<Message>, uuid: Seq<char>) -> int {
    if exists|i: int| is_first_message(s, uuid, i) {
        choose|i: int| is_first_message(s, uuid, i)
    } else {
        -1
    }
}

pub proof fn lemma_first_remote_unique(s: Seq<RemoteView>, uuid: Seq<char>, i: int)
    requires
        is_first_remote(s, uuid, i),
    ensures
        remote_index(s, uuid) == i,
{
    let k = choose|k: int| is_first_remote(s, uuid, k);
    if k < i {
        assert(s[k].uuid != uuid);
    } else if i < k {
        assert(s[i].uuid != uuid);
    }
}

pub proof fn lemma_first_transfer_unique(s: Seq<TransferView>, uuid: Seq<char>, i: int)
    requires
        is_first_transfer(s, uuid, i),
    ensures
        transfer_index(s, uuid) == i,
{
    let k = choose|k: int| is_first_transfer(s, uuid, k);
    if k < i {
        assert(s[k].uuid != uuid);
    } else if i < k {
        assert(s[i].uuid != uuid);
    }
}

pub proof fn lemma_first_protocol_id_unique(s: Seq<TransferView>, id: u64, i: int)
    requires
        is_first_protocol_id(s, id, i),
    ensures
        protocol_id_index(s, id) == i,
{
    let k = choose|k: int| is_first_protocol_id(s, id, k);
    if k < i {
        assert(s[k].protocol_id != id);
    } else if i < k {
        assert(s[i].protocol_id != id);
    }
}

pub proof fn lemma_first_message_unique(s: Seq<Message>, uuid: Seq<char>, i: int)
    requires
        is_first_message(s, uuid, i),
    ensures
        message_index(s, uuid) == i,
{
    let k = choose|k: int| is_first_message(s, uuid, k);
    if k < i {
        assert(s[k].uuid@ != uuid);
    } else if i < k {
        assert(s[i].uuid@ != uuid);
    }
}

// ---------------------------------------------------------------------------
// The record.

/// Every peer, in the order they were first added.
pub struct RemoteManagerInner {
    remotes: Vec<Remote>,
}

impl View for RemoteManagerInner {
    type V = Seq<RemoteView>;

    closed spec fn view(&self) -> Seq<RemoteView> {
        self.remotes@.map_values(|r: Remote| r@)
    }
}

/// Finds the first peer with UUID `uuid` in `v`.
fn find_remote(v: &Vec<Remote>, uuid: &str) -> (r: Option<usize>)
    ensures
        match r {
            Some(i) => is_first_remote(v@.map_values(|x: Remote| x@), uuid@, i as int),
            None => remote_index(v@.map_values(|x: Remote| x@), uuid@) == -1,
        },
{
    let ghost s = v@.map_values(|x: Remote| x@);
    let mut i: usize = 0;
    while i < v.len()
        invariant
            i <= v@.len(),
            s == v@.map_values(|x: Remote| x@),
            forall|j: int| 0 <= j < i ==> (#[trigger] s[j]).uuid != uuid@,
        decreases v@.len() - i,
    {
        if str_eq(v[i].uuid.as_str(), uuid) {
            assert(s[i as int] == v@[i as int]@);
            return Some(i);
        }
        assert(s[i as int] == v@[i as int]@);
        i = i + 1;
    }
    proof {
        if exists|k: int| is_first_remote(s, uuid@, k) {
            let k = choose|k: int| is_first_remote(s, uuid@, k);
            assert(s[k].uuid != uuid@);
        }
    }
    None
}

/// Finds the first transfer with UUID `uuid` in `v`.
fn find_transfer(v: &Vec<Transfer>, uuid: &str) -> (r: Option<usize>)
    ensures
        match r {
            Some(i) => is_first_transfer(transfers_view(v@), uuid@, i as int),
            None => transfer_index(transfers_view(v@), uuid@) == -1,
        },
{
    let ghost s = transfers_view(v@);
    let mut i: usize = 0;
    while i < v.len()
        invariant
            i <= v@.len(),
            s == transfers_view(v@),
            forall|j: int| 0 <= j < i ==> (#[trigger] s[j]).uuid != uuid@,
        decreases v@.len() - i,
    {
        if str_eq(v[i].uuid.as_str(), uuid) {
            assert(s[i as int] == v@[i as int]@);
            return Some(i);
        }
        assert(s[i as int] == v@[i as int]@);
        i = i + 1;
    }
    proof {
        if exists|k: int| is_first_transfer(s, uuid@, k) {
            let k = choose|k: int| is_first_transfer(s, uuid@, k);
            assert(s[k].uuid != uuid@);
        }
    }
    None
}

/// Finds the first transfer with protocol id `id` in `v`.
fn find_protocol_id(v: &Vec<Transfer>, id: u64) -> (r: Option<usize>)
    ensures
        match r {
            Some(i) => is_first_protocol_id(transfers_view(v@), id, i as int),
            None => protocol_id_index(transfers_view(v@), id) == -1,
        },
{
    let ghost s = transfers_view(v@);
    let mut i: usize = 0;
    while i < v.len()
        invariant
            i <= v@.len(),
            s == transfers_view(v@),
            forall|j: int| 0 <= j < i ==> (#[trigger] s[j]).protocol_id != id,
        decreases v@.len() - i,
    {
        if v[i].protocol_id == id {
            assert(s[i as int] == v@[i as int]@);
            return Some(i);
        }
        assert(s[i as int] == v@[i as int]@);
        i = i + 1;
    }
    proof {
        if exists|k: int| is_first_protocol_id(s, id, k) {
            let k = choose|k: int| is_first_protocol_id(s, id, k);
            assert(s[k].protocol_id != id);
        }
    }
    None
}

/// Finds the first message with UUID `uuid` in `v`.
fn find_message(v: &Vec<Message>, uuid: &str) -> (r: Option<usize>)
    ensures
        match r {
            Some(i) => is_first_message(v@, uuid@, i as int),
            None => message_index(v@, uuid@) == -1,
        },
{
    let mut i: usize = 0;
    while i < v.len()
        invariant
            i <= v@.len(),
            forall|j: int| 0 <= j < i ==> (#[trigger] v@[j]).uuid@ != uuid@,
        decreases v@.len() - i,
    {
        if str_eq(v[i].uuid.as_str(), uuid) {
            return Some(i);
        }
        i = i + 1;
    }
    proof {
        if exists|k: int| is_first_message(v@, uuid@, k) {
            let k = choose|k: int| is_first_message(v@, uuid@, k);
            assert(v@[k].uuid@ != uuid@);
        }
    }
    None
}

} // verus!

verus! {

// ---------------------------------------------------------------------------
// What each change does to the record.

pub open spec fn with_transfers(r: RemoteView, ts: Seq<TransferView>) -> RemoteView {
    RemoteView { transfers: ts, ..r }
}

pub open spec fn with_messages(r: RemoteView, ms: Seq<Message>) -> RemoteView {
    RemoteView { messages: ms, ..r }
}

/// The peer with UUID `uuid`, if any.
pub open spec fn spec_find_remote(s: Seq<RemoteView>, uuid: Seq<char>) -> Option<RemoteView> {
    let i = remote_index(s, uuid);
    if i >= 0 {
        Some(s[i])
    } else {
        None
    }
}

/// Adding `r`: it takes the place of the peer with its UUID, or comes last.
pub open spec fn spec_add_remote(s: Seq<RemoteView>, r: RemoteView) -> Seq<RemoteView> {
    let i = remote_index(s, r.uuid);
    if i >= 0 {
        s.update(i, r)
    } else {
        s.push(r)
    }
}

/// Replacing the peer with UUID `uuid` by `r`; none when there is no such peer.
pub open spec fn spec_update_remote(s: Seq<RemoteView>, uuid: Seq<char>, r: RemoteView) -> Option<
    Seq<RemoteView>,
> {
    let i = remote_index(s, uuid);
    if i >= 0 {
        Some(s.update(i, r))
    } else {
        None
    }
}

/// The transfer `tuuid` of the peer `ruuid`, if any.
pub open spec fn spec_find_transfer(s: Seq<RemoteView>, ruuid: Seq<char>, tuuid: Seq<char>) -> Option<
    TransferView,
> {
    let i = remote_index(s, ruuid);
    if i >= 0 && transfer_index(s[i].transfers, tuuid) >= 0 {
        Some(s[i].transfers[transfer_index(s[i].transfers, tuuid)])
    } else {
        None
    }
}

/// The transfer of the peer `ruuid` whose protocol id is `id`, if any.
pub open spec fn spec_find_protocol_id(s: Seq<RemoteView>, ruuid: Seq<char>, id: u64) -> Option<
    TransferView,
> {
    let i = remote_index(s, ruuid);
    if i >= 0 && protocol_id_index(s[i].transfers, id) >= 0 {
        Some(s[i].transfers[protocol_id_index(s[i].transfers, id)])
    } else {
        None
    }
}

/// Adding the transfer `t` last to the peer `ruuid`; none when there is no
/// such peer.
pub open spec fn spec_add_transfer(s: Seq<RemoteView>, ruuid: Seq<char>, t: TransferView) -> Option<
    Seq<RemoteView>,
> {
    let i = remote_index(s, ruuid);
    if i >= 0 {
        Some(s.update(i, with_transfers(s[i], s[i].transfers.push(t))))
    } else {
        None
    }
}

/// Replacing the transfer `tuuid` of the peer `ruuid` by `t`; none when
/// there is no such transfer.
pub open spec fn spec_update_transfer(
    s: Seq<RemoteView>,
    ruuid: Seq<char>,
    tuuid: Seq<char>,
    t: TransferView,
) -> Option<Seq<RemoteView>> {
    let i = remote_index(s, ruuid);
    if i >= 0 && transfer_index(s[i].transfers, tuuid) >= 0 {
        let j = transfer_index(s[i].transfers, tuuid);
        Some(s.update(i, with_transfers(s[i], s[i].transfers.update(j, t))))
    } else {
        None
    }
}

/// Removing the transfer `tuuid` of the peer `ruuid`; none when there is no
/// such transfer.
pub open spec fn spec_remove_transfer(s: Seq<RemoteView>, ruuid: Seq<char>, tuuid: Seq<char>) -> Option<
    Seq<RemoteView>,
> {
    let i = remote_index(s, ruuid);
    if i >= 0 && transfer_index(s[i].transfers, tuuid) >= 0 {
        let j = transfer_index(s[i].transfers, tuuid);
        Some(s.update(i, with_transfers(s[i], s[i].transfers.remove(j))))
    } else {
        None
    }
}

/// The message `muuid` of the peer `ruuid`, if any.
pub open spec fn spec_find_message(s: Seq<RemoteView>, ruuid: Seq<char>, muuid: Seq<char>) -> Option<
    Message,
> {
    let i = remote_index(s, ruuid);
    if i >= 0 && message_index(s[i].messages, muuid) >= 0 {
        Some(s[i].messages[message_index(s[i].messages, muuid)])
    } else {
        None
    }
}

/// Adding the message `m` last to the peer `ruuid`; none when there is no
/// such peer.
pub open spec fn spec_add_message(s: Seq<RemoteView>, ruuid: Seq<char>, m: Message) -> Option<
    Seq<RemoteView>,
> {
    let i = remote_index(s, ruuid);
    if i >= 0 {
        Some(s.update(i, with_messages(s[i], s[i].messages.push(m))))
    } else {
        None
    }
}

/// Removing the message `muuid` of the peer `ruuid`; none when there is no
/// such message.
pub open spec fn spec_remove_message(s: Seq<RemoteView>, ruuid: Seq<char>, muuid: Seq<char>) -> Option<
    Seq<RemoteView>,
> {
    let i = remote_index(s, ruuid);
    if i >= 0 && message_index(s[i].messages, muuid) >= 0 {
        let j = message_index(s[i].messages, muuid);
        Some(s.update(i, with_messages(s[i], s[i].messages.remove(j))))
    } else {
        None
    }
}

/// How many unread events may wait before updates that keep a transfer's
/// state variant are no longer announced.
pub const EVENT_BACKLOG_LIMIT: usize = 128;

/// Whether an update of a transfer is announced: always while fewer than
/// [`EVENT_BACKLOG_LIMIT`] events wait, and otherwise only when its state
/// changes variant.
pub open spec fn update_announced(pending_events: usize, old_state: crate::types::transfer::TransferState, new_state: crate::types::transfer::TransferState) -> bool {
    pending_events < EVENT_BACKLOG_LIMIT || state_tag(old_state) != state_tag(new_state)
}

} // verus!

verus! {

pub proof fn lemma_map_update<A, B>(s: Seq<A>, i: int, x: A, f: spec_fn(A) -> B)
    requires
        0 <= i < s.len(),
    ensures
        s.remove(i).insert(i, x).map_values(f) == s.map_values(f).update(i, f(x)),
        s.update(i, x).map_values(f) == s.map_values(f).update(i, f(x)),
{
    assert(s.remove(i).insert(i, x).map_values(f) =~= s.map_values(f).update(i, f(x)));
    assert(s.update(i, x).map_values(f) =~= s.map_values(f).update(i, f(x)));
}

pub proof fn lemma_map_push<A, B>(s: Seq<A>, x: A, f: spec_fn(A) -> B)
    ensures
        s.push(x).map_values(f) == s.map_values(f).push(f(x)),
{
    assert(s.push(x).map_values(f) =~= s.map_values(f).push(f(x)));
}

pub proof fn lemma_map_remove<A, B>(s: Seq<A>, i: int, f: spec_fn(A) -> B)
    requires
        0 <= i < s.len(),
    ensures
        s.remove(i).map_values(f) == s.map_values(f).remove(i),
{
    assert(s.remove(i).map_values(f) =~= s.map_values(f).remove(i));
}

impl RemoteManagerInner {
    /// An empty record.
    pub fn new() -> (r: RemoteManagerInner)
        ensures
            r@ == Seq::<RemoteView>::empty(),
    {
        let r = RemoteManagerInner { remotes: Vec::new() };
        assert(r@ =~= Seq::<RemoteView>::empty());
        r
    }

    /// Takes the peer at `i` out, to be put back with `put_back`.
    fn take(&mut self, i: usize) -> (r: Remote)
        requires
            i < old(self)@.len(),
        ensures
            r@ == old(self)@[i as int],
            final(self).remotes@ == old(self).remotes@.remove(i as int),
    {
        proof {
            assert(old(self).remotes@.len() == old(self)@.len());
        }
        self.remotes.remove(i)
    }

    /// Puts a peer back where `take` took it from.
    fn put_back(&mut self, i: usize, r: Remote, Ghost(before): Ghost<Seq<Remote>>)
        requires
            0 <= i < before.len(),
            old(self).remotes@ == before.remove(i as int),
        ensures
            final(self)@ == before.map_values(|x: Remote| x@).update(i as int, r@),
    {
        self.remotes.insert(i, r);
        proof {
            lemma_map_update(before, i as int, r, |x: Remote| x@);
        }
    }

    /// Adds a peer; it takes the place of a peer with the same UUID. Returns
    /// the event that announces it.
    pub fn add_remote(&mut self, remote: Remote) -> (e: WarpEvent)
        ensures
            final(self)@ == spec_add_remote(old(self)@, remote@),
            e@ == WarpEventView::RemoteAdded(remote.uuid@),
    {
        let uuid = remote.uuid.clone();
        match find_remote(&self.remotes, remote.uuid.as_str()) {
            Some(i) => {
                proof {
                    lemma_first_remote_unique(self@, remote.uuid@, i as int);
                    lemma_map_update(self.remotes@, i as int, remote, |x: Remote| x@);
                }
                self.remotes.set(i, remote);
            },
            None => {
                proof {
                    lemma_map_push(self.remotes@, remote, |x: Remote| x@);
                }
                self.remotes.push(remote);
            },
        }
        WarpEvent::RemoteAdded(uuid)
    }

    /// Replaces the peer `uuid` by `remote`. Returns the event that announces
    /// it, or `NotFound` with the record unchanged.
    pub fn update_remote(&mut self, uuid: &str, remote: Remote) -> (r: Result<WarpEvent, UpdateError>)
        ensures
            match spec_update_remote(old(self)@, uuid@, remote@) {
                Some(s) => final(self)@ == s && r is Ok && r->Ok_0@ == WarpEventView::RemoteUpdated(uuid@),
                None => final(self)@ == old(self)@ && r == Err::<WarpEvent, UpdateError>(UpdateError::NotFound),
            },
    {
        match find_remote(&self.remotes, uuid) {
            Some(i) => {
                proof {
                    lemma_first_remote_unique(self@, uuid@, i as int);
                    lemma_map_update(self.remotes@, i as int, remote, |x: Remote| x@);
                }
                self.remotes.set(i, remote);
                Ok(WarpEvent::RemoteUpdated(to_owned_string(uuid)))
            },
            None => Err(UpdateError::NotFound),
        }
    }

    /// A copy of the peer `uuid`, if any.
    pub fn remote(&self, uuid: &str) -> (r: Option<Remote>)
        ensures
            match spec_find_remote(self@, uuid@) {
                Some(v) => r is Some && r->0@ == v,
                None => r is None,
            },
    {
        match find_remote(&self.remotes, uuid) {
            Some(i) => {
                proof {
                    lemma_first_remote_unique(self@, uuid@, i as int);
                }
                Some(self.remotes[i].clone())
            },
            None => None,
        }
    }

    /// Copies of every peer, in the record's order.
    pub fn remotes(&self) -> (r: Vec<Remote>)
        ensures
            r@.map_values(|x: Remote| x@) == self@,
    {
        let mut out: Vec<Remote> = Vec::new();
        let mut i: usize = 0;
        while i < self.remotes.len()
            invariant
                i <= self.remotes@.len(),
                out@.len() == i,
                forall|j: int| 0 <= j < i ==> (#[trigger] out@[j])@ == self.remotes@[j]@,
            decreases self.remotes@.len() - i,
        {
            out.push(self.remotes[i].clone());
            i = i + 1;
        }
        assert(out@.map_values(|x: Remote| x@) =~= self@);
        out
    }
}

} // verus!

verus! {

impl RemoteManagerInner {
    /// Adds a transfer last to the peer `remote_uuid`. Returns the event that
    /// announces it, or `NotFound` with the record unchanged.
    pub fn add_transfer(&mut self, remote_uuid: &str, transfer: Transfer) -> (r: Result<
        WarpEvent,
        UpdateError,
    >)
        ensures
            match spec_add_transfer(old(self)@, remote_uuid@, transfer@) {
                Some(s) => final(self)@ == s && r is Ok && r->Ok_0@ == WarpEventView::TransferAdded(
                    remote_uuid@,
                    transfer.uuid@,
                ),
                None => final(self)@ == old(self)@ && r == Err::<WarpEvent, UpdateError>(
                    UpdateError::NotFound,
                ),
            },
    {
        match find_remote(&self.remotes, remote_uuid) {
            Some(i) => {
                proof {
                    lemma_first_remote_unique(self@, remote_uuid@, i as int);
                }
                let ghost before = self.remotes@;
                let event = WarpEvent::TransferAdded(to_owned_string(remote_uuid), transfer.uuid.clone());
                let mut remote = self.take(i);
                let ghost old_transfers = remote.transfers@;
                proof {
                    lemma_map_push(old_transfers, transfer, |x: Transfer| x@);
                }
                remote.transfers.push(transfer);
                assert(remote@ == with_transfers(before[i as int]@, before[i as int]@.transfers.push(transfer@)));
                self.put_back(i, remote, Ghost(before));
                Ok(event)
            },
            None => Err(UpdateError::NotFound),
        }
    }

    /// Replaces the transfer `transfer_uuid` of the peer `remote_uuid` by
    /// `transfer`. Returns the event that announces it when it is announced
    /// (see [`update_announced`]; `pending_events` is how many events wait
    /// unread), or `NotFound` with the record unchanged.
    pub fn update_transfer(
        &mut self,
        remote_uuid: &str,
        transfer_uuid: &str,
        transfer: Transfer,
        pending_events: usize,
    ) -> (r: Result<Option<WarpEvent>, UpdateError>)
        ensures
            match spec_update_transfer(old(self)@, remote_uuid@, transfer_uuid@, transfer@) {
                Some(s) => {
                    &&& final(self)@ == s
                    &&& r is Ok
                    &&& match r->Ok_0 {
                        Some(e) => update_announced(
                            pending_events,
                            spec_find_transfer(old(self)@, remote_uuid@, transfer_uuid@)->0.state,
                            transfer.state,
                        ) && e@ == WarpEventView::TransferUpdated(remote_uuid@, transfer_uuid@),
                        None => !update_announced(
                            pending_events,
                            spec_find_transfer(old(self)@, remote_uuid@, transfer_uuid@)->0.state,
                            transfer.state,
                        ),
                    }
                },
                None => final(self)@ == old(self)@ && r == Err::<Option<WarpEvent>, UpdateError>(
                    UpdateError::NotFound,
                ),
            },
    {
        let i = match find_remote(&self.remotes, remote_uuid) {
            Some(i) => i,
            None => return Err(UpdateError::NotFound),
        };
        proof {
            lemma_first_remote_unique(self@, remote_uuid@, i as int);
        }
        let j = match find_transfer(&self.remotes[i].transfers, transfer_uuid) {
            Some(j) => j,
            None => return Err(UpdateError::NotFound),
        };
        proof {
            lemma_first_transfer_unique(self@[i as int].transfers, transfer_uuid@, j as int);
        }
        let ghost before = self.remotes@;
        let announce = pending_events < EVENT_BACKLOG_LIMIT || !same_state_variant(
            &self.remotes[i].transfers[j].state,
            &transfer.state,
        );
        let mut remote = self.take(i);
        let ghost old_transfers = remote.transfers@;
        proof {
            lemma_map_update(old_transfers, j as int, transfer, |x: Transfer| x@);
        }
        remote.transfers.set(j, transfer);
        assert(remote@ == with_transfers(
            before[i as int]@,
            before[i as int]@.transfers.update(j as int, transfer@),
        ));
        self.put_back(i, remote, Ghost(before));
        if announce {
            Ok(Some(WarpEvent::TransferUpdated(to_owned_string(remote_uuid), to_owned_string(transfer_uuid))))
        } else {
            Ok(None)
        }
    }

    /// Removes the transfer `transfer_uuid` of the peer `remote_uuid`. Returns
    /// the event that announces it, or `NotFound` with the record unchanged.
    pub fn remove_transfer(&mut self, remote_uuid: &str, transfer_uuid: &str) -> (r: Result<
        WarpEvent,
        UpdateError,
    >)
        ensures
            match spec_remove_transfer(old(self)@, remote_uuid@, transfer_uuid@) {
                Some(s) => final(self)@ == s && r is Ok && r->Ok_0@ == WarpEventView::TransferRemoved(
                    remote_uuid@,
                    transfer_uuid@,
                ),
                None => final(self)@ == old(self)@ && r == Err::<WarpEvent, UpdateError>(
                    UpdateError::NotFound,
                ),
            },
    {
        let i = match find_remote(&self.remotes, remote_uuid) {
            Some(i) => i,
            None => return Err(UpdateError::NotFound),
        };
        proof {
            lemma_first_remote_unique(self@, remote_uuid@, i as int);
        }
        let j = match find_transfer(&self.remotes[i].transfers, transfer_uuid) {
            Some(j) => j,
            None => return Err(UpdateError::NotFound),
        };
        proof {
            lemma_first_transfer_unique(self@[i as int].transfers, transfer_uuid@, j as int);
        }
        let ghost before = self.remotes@;
        let mut remote = self.take(i);
        let ghost old_transfers = remote.transfers@;
        proof {
            lemma_map_remove(old_transfers, j as int, |x: Transfer| x@);
        }
        remote.transfers.remove(j);
        assert(remote@ == with_transfers(
            before[i as int]@,
            before[i as int]@.transfers.remove(j as int),
        ));
        self.put_back(i, remote, Ghost(before));
        Ok(WarpEvent::TransferRemoved(to_owned_string(remote_uuid), to_owned_string(transfer_uuid)))
    }

    /// A copy of the transfer `transfer_uuid` of the peer `remote_uuid`.
    pub fn transfer(&self, remote_uuid: &str, transfer_uuid: &str) -> (r: Option<Transfer>)
        ensures
            match spec_find_transfer(self@, remote_uuid@, transfer_uuid@) {
                Some(t) => r is Some && r->0@ == t,
                None => r is None,
            },
    {
        let i = match find_remote(&self.remotes, remote_uuid) {
            Some(i) => i,
            None => return None,
        };
        proof {
            lemma_first_remote_unique(self@, remote_uuid@, i as int);
        }
        match find_transfer(&self.remotes[i].transfers, transfer_uuid) {
            Some(j) => {
                proof {
                    lemma_first_transfer_unique(self@[i as int].transfers, transfer_uuid@, j as int);
                }
                Some(self.remotes[i].transfers[j].clone())
            },
            None => None,
        }
    }

    /// A copy of the transfer of the peer `remote_uuid` whose protocol id is
    /// `id`.
    pub fn transfer_by_protocol_id(&self, remote_uuid: &str, id: u64) -> (r: Option<Transfer>)
        ensures
            match spec_find_protocol_id(self@, remote_uuid@, id) {
                Some(t) => r is Some && r->0@ == t,
                None => r is None,
            },
    {
        let i = match find_remote(&self.remotes, remote_uuid) {
            Some(i) => i,
            None => return None,
        };
        proof {
            lemma_first_remote_unique(self@, remote_uuid@, i as int);
        }
        match find_protocol_id(&self.remotes[i].transfers, id) {
            Some(j) => {
                proof {
                    lemma_first_protocol_id_unique(self@[i as int].transfers, id, j as int);
                }
                Some(self.remotes[i].transfers[j].clone())
            },
            None => None,
        }
    }

    /// Copies of the transfers of the peer `remote_uuid`.
    pub fn transfers(&self, remote_uuid: &str) -> (r: Option<Vec<Transfer>>)
        ensures
            match spec_find_remote(self@, remote_uuid@) {
                Some(v) => r is Some && transfers_view(r->0@) == v.transfers,
                None => r is None,
            },
    {
        match find_remote(&self.remotes, remote_uuid) {
            Some(i) => {
                proof {
                    lemma_first_remote_unique(self@, remote_uuid@, i as int);
                }
                Some(clone_transfers(&self.remotes[i].transfers))
            },
            None => None,
        }
    }

    /// Adds a message last to the peer `remote_uuid`. Returns the event that
    /// announces it, or `NotFound` with the record unchanged.
    pub fn add_message(&mut self, remote_uuid: &str, message: Message) -> (r: Result<
        WarpEvent,
        UpdateError,
    >)
        ensures
            match spec_add_message(old(self)@, remote_uuid@, message) {
                Some(s) => final(self)@ == s && r is Ok && r->Ok_0@ == WarpEventView::MessageAdded(
                    remote_uuid@,
                    message.uuid@,
                ),
                None => final(self)@ == old(self)@ && r == Err::<WarpEvent, UpdateError>(
                    UpdateError::NotFound,
                ),
            },
    {
        match find_remote(&self.remotes, remote_uuid) {
            Some(i) => {
                proof {
                    lemma_first_remote_unique(self@, remote_uuid@, i as int);
                }
                let ghost before = self.remotes@;
                let event = WarpEvent::MessageAdded(to_owned_string(remote_uuid), message.uuid.clone());
                let mut remote = self.take(i);
                remote.messages.push(message);
                assert(remote@ == with_messages(before[i as int]@, before[i as int]@.messages.push(message)));
                self.put_back(i, remote, Ghost(before));
                Ok(event)
            },
            None => Err(UpdateError::NotFound),
        }
    }

    /// Removes the message `message_uuid` of the peer `remote_uuid`. Returns
    /// the event that announces it, or `NotFound` with the record unchanged.
    pub fn remove_message(&mut self, remote_uuid: &str, message_uuid: &str) -> (r: Result<
        WarpEvent,
        UpdateError,
    >)
        ensures
            match spec_remove_message(old(self)@, remote_uuid@, message_uuid@) {
                Some(s) => final(self)@ == s && r is Ok && r->Ok_0@ == WarpEventView::MessageRemoved(
                    remote_uuid@,
                    message_uuid@,
                ),
                None => final(self)@ == old(self)@ && r == Err::<WarpEvent, UpdateError>(
                    UpdateError::NotFound,
                ),
            },
    {
        let i = match find_remote(&self.remotes, remote_uuid) {
            Some(i) => i,
            None => return Err(UpdateError::NotFound),
        };
        proof {
            lemma_first_remote_unique(self@, remote_uuid@, i as int);
        }
        let j = match find_message(&self.remotes[i].messages, message_uuid) {
            Some(j) => j,
            None => return Err(UpdateError::NotFound),
        };
        proof {
            lemma_first_message_unique(self@[i as int].messages, message_uuid@, j as int);
        }
        let ghost before = self.remotes@;
        let mut remote = self.take(i);
        remote.messages.remove(j);
        assert(remote@ == with_messages(before[i as int]@, before[i as int]@.messages.remove(j as int)));
        self.put_back(i, remote, Ghost(before));
        Ok(WarpEvent::MessageRemoved(to_owned_string(remote_uuid), to_owned_string(message_uuid)))
    }

    /// A copy of the message `message_uuid` of the peer `remote_uuid`.
    pub fn message(&self, remote_uuid: &str, message_uuid: &str) -> (r: Option<Message>)
        ensures
            r == spec_find_message(self@, remote_uuid@, message_uuid@),
    {
        let i = match find_remote(&self.remotes, remote_uuid) {
            Some(i) => i,
            None => return None,
        };
        proof {
            lemma_first_remote_unique(self@, remote_uuid@, i as int);
        }
        match find_message(&self.remotes[i].messages, message_uuid) {
            Some(j) => {
                proof {
                    lemma_first_message_unique(self@[i as int].messages, message_uuid@, j as int);
                }
                Some(self.remotes[i].messages[j].clone())
            },
            None => None,
        }
    }

    /// Copies of the messages of the peer `remote_uuid`.
    pub fn messages(&self, remote_uuid: &str) -> (r: Option<Vec<Message>>)
        ensures
            match spec_find_remote(self@, remote_uuid@) {
                Some(v) => r is Some && r->0@ == v.messages,
                None => r is None,
            },
    {
        match find_remote(&self.remotes, remote_uuid) {
            Some(i) => {
                proof {
                    lemma_first_remote_unique(self@, remote_uuid@, i as int);
                }
                Some(clone_messages(&self.remotes[i].messages))
            },
            None => None,
        }
    }
}

} // verus!

verus! {

// ---------------------------------------------------------------------------
// Laws of the record.

/// Changing a peer in place, keeping its UUID, keeps every peer where it was
/// found.
proof fn lemma_index_after_change(s: Seq<RemoteView>, i: int, r: RemoteView, uuid: Seq<char>)
    requires
        0 <= i < s.len(),
        r.uuid == s[i].uuid,
    ensures
        remote_index(s.update(i, r), uuid) == remote_index(s, uuid),
{
    let t = s.update(i, r);
    if exists|k: int| is_first_remote(s, uuid, k) {
        let k = choose|k: int| is_first_remote(s, uuid, k);
        assert(is_first_remote(t, uuid, k)) by {
            assert forall|j: int| 0 <= j < k implies (#[trigger] t[j]).uuid != uuid by {
                assert(s[j].uuid != uuid);
            }
        }
        lemma_first_remote_unique(t, uuid, k);
    } else {
        if exists|k: int| is_first_remote(t, uuid, k) {
            let k = choose|k: int| is_first_remote(t, uuid, k);
            assert(is_first_remote(s, uuid, k)) by {
                assert forall|j: int| 0 <= j < k implies (#[trigger] s[j]).uuid != uuid by {
                    assert(t[j].uuid != uuid);
                }
            }
        }
    }
}

/// A transfer added to a peer that had no transfer with its UUID is found
/// again by that UUID, unchanged.
pub proof fn law_added_transfer_is_found(s: Seq<RemoteView>, ruuid: Seq<char>, t: TransferView)
    requires
        spec_find_remote(s, ruuid) is Some,
        spec_find_transfer(s, ruuid, t.uuid) is None,
    ensures
        spec_add_transfer(s, ruuid, t) is Some,
        spec_find_transfer(spec_add_transfer(s, ruuid, t)->0, ruuid, t.uuid) == Some(t),
{
    let i = remote_index(s, ruuid);
    let ts = s[i].transfers.push(t);
    lemma_index_after_change(s, i, with_transfers(s[i], ts), ruuid);
    lemma_push_fresh_transfer(s[i].transfers, t);
}

/// A transfer pushed after transfers none of which has its UUID is the first
/// with that UUID.
proof fn lemma_push_fresh_transfer(ts0: Seq<TransferView>, t: TransferView)
    requires
        transfer_index(ts0, t.uuid) < 0,
    ensures
        transfer_index(ts0.push(t), t.uuid) == ts0.len(),
{
    let ts = ts0.push(t);
    assert(is_first_transfer(ts, t.uuid, ts.len() - 1)) by {
        assert forall|j: int| 0 <= j < ts.len() - 1 implies (#[trigger] ts[j]).uuid != t.uuid by {
            if ts[j].uuid == t.uuid {
                assert(ts0[j] == ts[j]);
                let k = choose_first_transfer(ts0, t.uuid, j);
            }
        }
    }
    lemma_first_transfer_unique(ts, t.uuid, ts.len() - 1);
}

/// Some first match exists below any match.
proof fn choose_first_transfer(s: Seq<TransferView>, uuid: Seq<char>, j: int) -> (k: int)
    requires
        0 <= j < s.len(),
        s[j].uuid == uuid,
    ensures
        is_first_transfer(s, uuid, k),
    decreases j,
{
    if exists|m: int| 0 <= m < j && (#[trigger] s[m]).uuid == uuid {
        let m = choose|m: int| 0 <= m < j && (#[trigger] s[m]).uuid == uuid;
        choose_first_transfer(s, uuid, m)
    } else {
        j
    }
}

/// Adding a transfer to a peer and then removing it by its UUID, when the
/// peer had no transfer with that UUID, gives back the record as it was.
pub proof fn law_add_then_remove_transfer(s: Seq<RemoteView>, ruuid: Seq<char>, t: TransferView)
    requires
        spec_find_remote(s, ruuid) is Some,
        spec_find_transfer(s, ruuid, t.uuid) is None,
    ensures
        spec_remove_transfer(spec_add_transfer(s, ruuid, t)->0, ruuid, t.uuid) == Some(s),
{
    law_added_transfer_is_found(s, ruuid, t);
    let i = remote_index(s, ruuid);
    let ts = s[i].transfers.push(t);
    let after = spec_add_transfer(s, ruuid, t)->0;
    lemma_index_after_change(s, i, with_transfers(s[i], ts), ruuid);
    lemma_push_fresh_transfer(s[i].transfers, t);
    assert(transfer_index(ts, t.uuid) == ts.len() - 1);
    assert(ts.remove(ts.len() - 1) =~= s[i].transfers);
    assert(with_transfers(s[i], s[i].transfers) == s[i]);
    assert(after.update(i, with_transfers(after[i], ts.remove(ts.len() - 1))) =~= s);
}

/// A peer added to the record is found by its UUID.
pub proof fn law_added_remote_is_found(s: Seq<RemoteView>, r: RemoteView)
    ensures
        spec_find_remote(spec_add_remote(s, r), r.uuid) == Some(r),
{
    let i = remote_index(s, r.uuid);
    if i >= 0 {
        lemma_index_after_change(s, i, r, r.uuid);
    } else {
        let t = s.push(r);
        assert(is_first_remote(t, r.uuid, s.len() as int)) by {
            assert forall|j: int| 0 <= j < s.len() implies (#[trigger] t[j]).uuid != r.uuid by {
                if s[j].uuid == r.uuid {
                    let k = choose_first_remote(s, r.uuid, j);
                }
            }
        }
        lemma_first_remote_unique(t, r.uuid, s.len() as int);
    }
}

proof fn choose_first_remote(s: Seq<RemoteView>, uuid: Seq<char>, j: int) -> (k: int)
    requires
        0 <= j < s.len(),
        s[j].uuid == uuid,
    ensures
        is_first_remote(s, uuid, k),
    decreases j,
{
    if exists|m: int| 0 <= m < j && (#[trigger] s[m]).uuid == uuid {
        let m = choose|m: int| 0 <= m < j && (#[trigger] s[m]).uuid == uuid;
        choose_first_remote(s, uuid, m)
    } else {
        j
    }
}

/// Adding a transfer to one peer changes no other peer.
pub proof fn law_add_transfer_leaves_other_peers(
    s: Seq<RemoteView>,
    ruuid: Seq<char>,
    t: TransferView,
    other: Seq<char>,
)
    requires
        spec_find_remote(s, ruuid) is Some,
        other != ruuid,
    ensures
        spec_find_remote(spec_add_transfer(s, ruuid, t)->0, other) == spec_find_remote(s, other),
{
    let i = remote_index(s, ruuid);
    let ts = s[i].transfers.push(t);
    lemma_index_after_change(s, i, with_transfers(s[i], ts), other);
    let k = remote_index(s, other);
    if k >= 0 {
        assert(k != i);
    }
}

/// A message added to a peer that had no message with its UUID is found again
/// by that UUID.
pub proof fn law_added_message_is_found(s: Seq<RemoteView>, ruuid: Seq<char>, m: Message)
    requires
        spec_find_remote(s, ruuid) is Some,
        spec_find_message(s, ruuid, m.uuid@) is None,
    ensures
        spec_find_message(spec_add_message(s, ruuid, m)->0, ruuid, m.uuid@) == Some(m),
{
    let i = remote_index(s, ruuid);
    let ms = s[i].messages.push(m);
    lemma_index_after_change(s, i, with_messages(s[i], ms), ruuid);
    assert(is_first_message(ms, m.uuid@, ms.len() - 1)) by {
        assert forall|j: int| 0 <= j < ms.len() - 1 implies (#[trigger] ms[j]).uuid@ != m.uuid@ by {
            if ms[j].uuid@ == m.uuid@ {
                let k = choose_first_message(s[i].messages, m.uuid@, j);
            }
        }
    }
    lemma_first_message_unique(ms, m.uuid@, ms.len() - 1);
}

proof fn choose_first_message(s: Seq<Message>, uuid: Seq<char>, j: int) -> (k: int)
    requires
        0 <= j < s.len(),
        s[j].uuid@ == uuid,
    ensures
        is_first_message(s, uuid, k),
    decreases j,
{
    if exists|m: int| 0 <= m < j && (#[trigger] s[m]).uuid@ == uuid {
        let m = choose|m: int| 0 <= m < j && (#[trigger] s[m]).uuid@ == uuid;
        choose_first_message(s, uuid, m)
    } else {
        j
    }
}

/// Replacing a transfer by one with the same UUID makes that the one found.
pub proof fn law_updated_transfer_is_found(
    s: Seq<RemoteView>,
    ruuid: Seq<char>,
    tuuid: Seq<char>,
    t: TransferView,
)
    requires
        spec_find_transfer(s, ruuid, tuuid) is Some,
        t.uuid == tuuid,
    ensures
        spec_update_transfer(s, ruuid, tuuid, t) is Some,
        spec_find_transfer(spec_update_transfer(s, ruuid, tuuid, t)->0, ruuid, tuuid) == Some(t),
{
    let i = remote_index(s, ruuid);
    let j = transfer_index(s[i].transfers, tuuid);
    let ts = s[i].transfers.update(j, t);
    lemma_index_after_change(s, i, with_transfers(s[i], ts), ruuid);
    assert(is_first_transfer(ts, tuuid, j)) by {
        assert forall|k: int| 0 <= k < j implies (#[trigger] ts[k]).uuid != tuuid by {
            assert(s[i].transfers[k].uuid != tuuid);
        }
    }
    lemma_first_transfer_unique(ts, tuuid, j);
}

/// A peer replaced by one with the same UUID is the one found afterwards.
pub proof fn law_updated_remote_is_found(s: Seq<RemoteView>, uuid: Seq<char>, r: RemoteView)
    requires
        spec_find_remote(s, uuid) is Some,
        r.uuid == uuid,
    ensures
        spec_update_remote(s, uuid, r) is Some,
        spec_find_remote(spec_update_remote(s, uuid, r)->0, uuid) == Some(r),
{
    let i = remote_index(s, uuid);
    lemma_index_after_change(s, i, r, uuid);
}

/// The peer found by a UUID has that UUID.
pub proof fn lemma_found_remote_has_uuid(s: Seq<RemoteView>, uuid: Seq<char>)
    requires
        spec_find_remote(s, uuid) is Some,
    ensures
        spec_find_remote(s, uuid)->0.uuid == uuid,
{
}

/// No two peers of the record share a UUID.
pub open spec fn uuids_distinct(s: Seq<RemoteView>) -> bool {
    forall|i: int, j: int| 0 <= i < j < s.len() ==> #[trigger] s[i].uuid != #[trigger] s[j].uuid
}

/// The UUIDs of the peers, in order.
pub open spec fn peer_uuids(s: Seq<RemoteView>) -> Seq<Seq<char>> {
    s.map_values(|r: RemoteView| r.uuid)
}

/// Adding a peer keeps the UUIDs of the record distinct: a peer whose UUID
/// is there takes its place.
pub proof fn law_add_remote_keeps_uuids_distinct(s: Seq<RemoteView>, r: RemoteView)
    requires
        uuids_distinct(s),
    ensures
        uuids_distinct(spec_add_remote(s, r)),
{
    let i = remote_index(s, r.uuid);
    let t = spec_add_remote(s, r);
    if i < 0 {
        assert forall|a: int, b: int| 0 <= a < b < t.len() implies #[trigger] t[a].uuid != #[trigger] t[b].uuid by {
            if b == s.len() {
                if s[a].uuid == r.uuid {
                    let k = choose_first_remote(s, r.uuid, a);
                }
            }
        }
    } else {
        assert forall|a: int, b: int| 0 <= a < b < t.len() implies #[trigger] t[a].uuid != #[trigger] t[b].uuid by {
            if a == i {
                assert(s[b].uuid != s[i].uuid);
            } else if b == i {
                assert(s[a].uuid != s[i].uuid);
            }
        }
    }
}

/// Replacing a peer by one with the same UUID keeps the UUIDs of the record
/// distinct.
pub proof fn law_update_remote_keeps_uuids_distinct(s: Seq<RemoteView>, uuid: Seq<char>, r: RemoteView)
    requires
        uuids_distinct(s),
        r.uuid == uuid,
    ensures
        spec_update_remote(s, uuid, r) is Some ==> uuids_distinct(spec_update_remote(s, uuid, r)->0),
{
    let i = remote_index(s, uuid);
    if i >= 0 {
        let t = s.update(i, r);
        assert forall|a: int, b: int| 0 <= a < b < t.len() implies #[trigger] t[a].uuid != #[trigger] t[b].uuid by {
            if a == i {
                assert(s[b].uuid != s[i].uuid);
            } else if b == i {
                assert(s[a].uuid != s[i].uuid);
            }
        }
    }
}

/// Adding, replacing or removing a transfer or a message changes no peer's
/// UUID, nor how many peers there are.
pub proof fn law_transfer_and_message_changes_keep_peers(
    s: Seq<RemoteView>,
    ruuid: Seq<char>,
    tuuid: Seq<char>,
    t: TransferView,
    m: Message,
)
    ensures
        spec_add_transfer(s, ruuid, t) is Some ==> peer_uuids(spec_add_transfer(s, ruuid, t)->0) == peer_uuids(s),
        spec_update_transfer(s, ruuid, tuuid, t) is Some ==> peer_uuids(spec_update_transfer(s, ruuid, tuuid, t)->0)
            == peer_uuids(s),
        spec_remove_transfer(s, ruuid, tuuid) is Some ==> peer_uuids(spec_remove_transfer(s, ruuid, tuuid)->0)
            == peer_uuids(s),
        spec_add_message(s, ruuid, m) is Some ==> peer_uuids(spec_add_message(s, ruuid, m)->0) == peer_uuids(s),
        spec_remove_message(s, ruuid, tuuid) is Some ==> peer_uuids(spec_remove_message(s, ruuid, tuuid)->0)
            == peer_uuids(s),
{
    let i = remote_index(s, ruuid);
    if i >= 0 {
        assert(peer_uuids(s.update(i, with_transfers(s[i], s[i].transfers.push(t)))) =~= peer_uuids(s));
        assert(peer_uuids(s.update(i, with_messages(s[i], s[i].messages.push(m)))) =~= peer_uuids(s));
        let j = transfer_index(s[i].transfers, tuuid);
        if j >= 0 {
            assert(peer_uuids(s.update(i, with_transfers(s[i], s[i].transfers.update(j, t)))) =~= peer_uuids(s));
            assert(peer_uuids(s.update(i, with_transfers(s[i], s[i].transfers.remove(j)))) =~= peer_uuids(s));
        }
        let k = message_index(s[i].messages, tuuid);
        if k >= 0 {
            assert(peer_uuids(s.update(i, with_messages(s[i], s[i].messages.remove(k)))) =~= peer_uuids(s));
        }
    }
}

/// A new record holds no peer, so its UUIDs are distinct.
pub proof fn law_empty_record_has_distinct_uuids()
    ensures
        uuids_distinct(Seq::<RemoteView>::empty()),
{
}

} // verus!
