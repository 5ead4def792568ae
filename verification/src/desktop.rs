//! The decisions of the desktop application: the peers it lists, which
//! transfers it accepts by itself, what it opens, which picture it shows,
//! and the texts of its notifications.
use vstd::prelude::*;
use crate::net::{IpAddr, decimal_chars, push_u64_decimal};
use crate::server::remote_manager::{
    RemoteManagerInner, WarpEvent, WarpEventView, spec_find_message, spec_find_remote, spec_find_transfer,
};
use crate::server::transfers::receiver::{join_path, joined_path};
use crate::text::{push_char, str_eq, to_owned_string};
use crate::types::remote::{Remote, RemoteState, RemoteView};
use crate::types::transfer::{TransferKind, TransferKindView};

verus! {

/// A peer as the desktop application lists it.
#[derive(Debug)]
pub struct RemoteUi {
    pub uuid: String,
    pub ip: IpAddr,
    pub port: u16,
    pub auth_port: u16,
    pub service_name: String,
    pub display_name: String,
    pub username: String,
    pub hostname: String,
    /// Where its picture is served, when it has one.
    pub picture: Option<String>,
    pub state: RemoteState,
    pub service_static: bool,
    pub service_available: bool,
}

/// The address under which the picture of the peer `uuid` is served.
pub open spec fn avatar_url(uuid: Seq<char>) -> Seq<char> {
    "avatars://"@ + uuid
}

impl RemoteUi {
    /// The listing of `remote`; a picture, if it has one, is served at
    /// [`avatar_url`] of its UUID.
    pub fn from_remote(remote: Remote) -> (r: RemoteUi)
        ensures
            r.uuid@ == remote.uuid@,
            r.ip == remote.ip,
            r.port == remote.port,
            r.auth_port == remote.auth_port,
            r.service_name@ == remote.service_name@,
            r.display_name@ == remote.display_name@,
            r.username@ == remote.username@,
            r.hostname@ == remote.hostname@,
            r.picture is Some <==> remote.picture is Some,
            r.picture is Some ==> r.picture->0@ == avatar_url(remote.uuid@),
            r.state == remote.state,
            r.service_static == remote.service_static,
            r.service_available == remote.service_available,
    {
        let picture = match &remote.picture {
            Some(_) => {
                let mut url = to_owned_string("avatars://");
                proof {
                    reveal_strlit("avatars://");
                }
                url.append(remote.uuid.as_str());
                Some(url)
            },
            None => None,
        };
        RemoteUi {
            uuid: remote.uuid,
            ip: remote.ip,
            port: remote.port,
            auth_port: remote.auth_port,
            service_name: remote.service_name,
            display_name: remote.display_name,
            username: remote.username,
            hostname: remote.hostname,
            picture,
            state: remote.state,
            service_static: remote.service_static,
            service_available: remote.service_available,
        }
    }
}

/// Whether a transfer from the peer `remote_uuid` is accepted without
/// asking, by the setting `setting`: `all` accepts every transfer,
/// `favorites` those of the peers in `favorites`, anything else none.
pub open spec fn spec_auto_accepts(setting: Seq<char>, favorites: Seq<Seq<char>>, remote_uuid: Seq<char>) -> bool {
    setting == "all"@ || (setting == "favorites"@ && favorites.contains(remote_uuid))
}

fn contains_text(list: &Vec<String>, item: &str) -> (r: bool)
    ensures
        r == list.deep_view().contains(item@),
{
    let mut i: usize = 0;
    while i < list.len()
        invariant
            i <= list@.len(),
            forall|j: int| 0 <= j < i ==> list@[j]@ != item@,
        decreases list@.len() - i,
    {
        if str_eq(list[i].as_str(), item) {
            assert(list.deep_view()[i as int] == item@);
            return true;
        }
        i = i + 1;
    }
    assert forall|j: int| 0 <= j < list.deep_view().len() implies list.deep_view()[j] != item@ by {
        assert(list.deep_view()[j] == list@[j]@);
    }
    false
}

/// A transfer to accept: the peer's UUID and the transfer's.
#[derive(Debug)]
pub struct AcceptTarget {
    pub remote_uuid: String,
    pub transfer_uuid: String,
}

/// The transfer that the event `event` makes the application accept by
/// itself (see [`spec_auto_accepts`]): only a new transfer can be, and
/// never one of the machine's own outgoing transfers (per `store`). A
/// transfer no longer in the record is still picked: accepting it then
/// fails, as the peer's worker finds no such transfer.
pub fn auto_accept_target(event: &WarpEvent, store: &RemoteManagerInner, setting: &str, favorites: &Vec<String>) -> (r:
    Option<AcceptTarget>)
    ensures
        match event@ {
            WarpEventView::TransferAdded(ruuid, tuuid) => if spec_auto_accepts(setting@, favorites.deep_view(), ruuid)
                && !(spec_find_transfer(store@, ruuid, tuuid) is Some
                && spec_find_transfer(store@, ruuid, tuuid)->0.kind is Outgoing) {
                r is Some && r->0.remote_uuid@ == ruuid && r->0.transfer_uuid@ == tuuid
            } else {
                r is None
            },
            _ => r is None,
        },
{
    proof {
        reveal_strlit("all");
        reveal_strlit("favorites");
    }
    match event {
        WarpEvent::TransferAdded(ruuid, tuuid) => {
            let accept = if str_eq(setting, "all") {
                true
            } else if str_eq(setting, "favorites") {
                contains_text(favorites, ruuid.as_str())
            } else {
                false
            };
            if !accept {
                return None;
            }
            let outgoing = match store.transfer(ruuid.as_str(), tuuid.as_str()) {
                Some(t) => match t.kind {
                    TransferKind::Outgoing { .. } => true,
                    _ => false,
                },
                None => false,
            };
            if !outgoing {
                Some(AcceptTarget { remote_uuid: ruuid.clone(), transfer_uuid: tuuid.clone() })
            } else {
                None
            }
        },
        _ => None,
    }
}

/// Why a transfer cannot be opened.
pub open spec fn no_transfer_message() -> Seq<char> {
    "No transfer found"@
}

pub open spec fn no_entry_message() -> Seq<char> {
    "Transfer has no entry names"@
}

pub open spec fn outgoing_open_message() -> Seq<char> {
    "Can't open an outgoing transfer"@
}

/// What opening the transfer `tuuid` of the peer `ruuid` shows: the first
/// entry of an incoming transfer, under its destination.
pub fn open_transfer_target(store: &RemoteManagerInner, ruuid: &str, tuuid: &str) -> (r: Result<String, String>)
    ensures
        match spec_find_transfer(store@, ruuid@, tuuid@) {
            None => r is Err && r->Err_0@ == no_transfer_message(),
            Some(t) => match t.kind {
                TransferKindView::Incoming { destination } => if t.entry_names.len() == 0 {
                    r is Err && r->Err_0@ == no_entry_message()
                } else {
                    r is Ok && r->Ok_0@ == joined_path(destination, t.entry_names[0])
                },
                TransferKindView::Outgoing { .. } => r is Err && r->Err_0@ == outgoing_open_message(),
            },
        },
{
    proof {
        reveal_strlit("No transfer found");
        reveal_strlit("Transfer has no entry names");
        reveal_strlit("Can't open an outgoing transfer");
    }
    let t = match store.transfer(ruuid, tuuid) {
        Some(t) => t,
        None => return Err(to_owned_string("No transfer found")),
    };
    match &t.kind {
        TransferKind::Incoming { destination } => {
            if t.entry_names.len() == 0 {
                return Err(to_owned_string("Transfer has no entry names"));
            }
            assert(t.entry_names.deep_view()[0] == t.entry_names@[0]@);
            Ok(join_path(destination.as_str(), t.entry_names[0].as_str()))
        },
        TransferKind::Outgoing { .. } => Err(to_owned_string("Can't open an outgoing transfer")),
    }
}

/// The picture served for `uuid`: the user's own for `self`, otherwise the
/// picture of that peer, if it is known and has one.
pub fn avatar_bytes(uuid: &str, own_picture: &Option<Vec<u8>>, store: &RemoteManagerInner) -> (r: Option<Vec<u8>>)
    ensures
        uuid@ == "self"@ ==> match own_picture {
            Some(p) => r is Some && r->0@ == p@,
            None => r is None,
        },
        uuid@ != "self"@ ==> match spec_find_remote(store@, uuid@) {
            Some(p) => match p.picture {
                Some(b) => r is Some && r->0@ == b,
                None => r is None,
            },
            None => r is None,
        },
{
    proof {
        reveal_strlit("self");
    }
    if str_eq(uuid, "self") {
        return match own_picture {
            Some(p) => Some(p.clone()),
            None => None,
        };
    }
    match store.remote(uuid) {
        Some(p) => p.picture,
        None => None,
    }
}

/// The title and body of the notice of a new transfer: who sent it, and
/// how many files it holds.
pub open spec fn spec_transfer_notice(display_name: Seq<char>, file_count: u64) -> (Seq<char>, Seq<char>) {
    ("New transfer from "@ + display_name, decimal_chars(file_count as nat) + " files"@)
}

pub fn transfer_notice(display_name: &str, file_count: u64) -> (r: (String, String))
    ensures
        r.0@ == spec_transfer_notice(display_name@, file_count).0,
        r.1@ == spec_transfer_notice(display_name@, file_count).1,
{
    proof {
        reveal_strlit("New transfer from ");
        reveal_strlit(" files");
    }
    let mut title = to_owned_string("New transfer from ");
    title.append(display_name);
    let mut body = String::new();
    push_u64_decimal(&mut body, file_count);
    body.append(" files");
    (title, body)
}

/// The title and body of the notice of a new message: who sent it, and
/// what it says.
pub open spec fn spec_message_notice(display_name: Seq<char>, content: Seq<char>) -> (Seq<char>, Seq<char>) {
    ("New message from "@ + display_name, content)
}

pub fn message_notice(display_name: &str, content: &str) -> (r: (String, String))
    ensures
        r.0@ == spec_message_notice(display_name@, content@).0,
        r.1@ == spec_message_notice(display_name@, content@).1,
{
    proof {
        reveal_strlit("New message from ");
    }
    let mut title = to_owned_string("New message from ");
    title.append(display_name);
    (title, to_owned_string(content))
}

/// The notice that the event `event` shows, with the notice settings
/// `notify_transfers` and `notify_messages`: a new transfer or message that
/// is in the record `s`, from its peer, when notices of its kind are on;
/// nothing otherwise.
pub open spec fn spec_notice_for(
    event: WarpEventView,
    s: Seq<RemoteView>,
    notify_transfers: bool,
    notify_messages: bool,
) -> Option<(Seq<char>, Seq<char>)> {
    match event {
        WarpEventView::TransferAdded(ruuid, tuuid) => if notify_transfers && spec_find_transfer(s, ruuid, tuuid) is Some {
            Some(spec_transfer_notice(
                spec_find_remote(s, ruuid)->0.display_name,
                spec_find_transfer(s, ruuid, tuuid)->0.file_count,
            ))
        } else {
            None
        },
        WarpEventView::MessageAdded(ruuid, muuid) => if notify_messages && spec_find_message(s, ruuid, muuid) is Some {
            Some(spec_message_notice(
                spec_find_remote(s, ruuid)->0.display_name,
                spec_find_message(s, ruuid, muuid)->0.content@,
            ))
        } else {
            None
        },
        _ => None,
    }
}

/// The title and body of a notice, as text.
pub open spec fn notice_view(notice: (String, String)) -> (Seq<char>, Seq<char>) {
    (notice.0@, notice.1@)
}

/// The notice that `event` shows (see [`spec_notice_for`]), as a title and
/// a body.
pub fn notice_for(event: &WarpEvent, store: &RemoteManagerInner, notify_transfers: bool, notify_messages: bool) -> (r:
    Option<(String, String)>)
    ensures
        match spec_notice_for(event@, store@, notify_transfers, notify_messages) {
            Some(n) => r is Some && notice_view(r->0) == n,
            None => r is None,
        },
{
    match event {
        WarpEvent::TransferAdded(ruuid, tuuid) => {
            if !notify_transfers {
                return None;
            }
            let t = match store.transfer(ruuid.as_str(), tuuid.as_str()) {
                Some(t) => t,
                None => return None,
            };
            let remote = match store.remote(ruuid.as_str()) {
                Some(p) => p,
                None => return None,
            };
            Some(transfer_notice(remote.display_name.as_str(), t.file_count))
        },
        WarpEvent::MessageAdded(ruuid, muuid) => {
            if !notify_messages {
                return None;
            }
            let m = match store.message(ruuid.as_str(), muuid.as_str()) {
                Some(m) => m,
                None => return None,
            };
            let remote = match store.remote(ruuid.as_str()) {
                Some(p) => p,
                None => return None,
            };
            Some(message_notice(remote.display_name.as_str(), m.content.as_str()))
        },
        _ => None,
    }
}

} // verus!

verus! {

// ---------------------------------------------------------------------------
// The settings the desktop application starts with.

/// How many bytes `c` takes in UTF-8 (`char::len_utf8`).
pub open spec fn utf8_len(c: char) -> nat {
    if (c as u32) < 0x80 {
        1
    } else if (c as u32) < 0x800 {
        2
    } else if (c as u32) < 0x10000 {
        3
    } else {
        4
    }
}

/// The characters of `s` that fit, from its start, in `budget` bytes of
/// UTF-8, and the bytes left over.
pub open spec fn greedy_prefix(s: Seq<char>, budget: int) -> (nat, int)
    decreases s.len(),
{
    if s.len() == 0 {
        (0, budget)
    } else if utf8_len(s[0]) <= budget {
        let rest = greedy_prefix(s.drop_first(), budget - utf8_len(s[0]));
        (rest.0 + 1, rest.1)
    } else {
        (0, budget)
    }
}

/// Whether `s` can be cut after its first `n` bytes of UTF-8 (or holds no
/// more): the cut falls between two characters.
pub open spec fn cut_on_boundary(s: Seq<char>, n: int) -> bool {
    greedy_prefix(s, n).0 == s.len() || greedy_prefix(s, n).1 == 0
}

/// The first `n` bytes of `s` when they end on a character boundary.
pub open spec fn byte_prefix(s: Seq<char>, n: int) -> Seq<char> {
    s.take(greedy_prefix(s, n).0 as int)
}

/// `s` with spaces and underscores turned into hyphens.
pub open spec fn dashed(s: Seq<char>) -> Seq<char> {
    s.map_values(|c: char| if c == ' ' || c == '_' { '-' } else { c })
}

/// The longest name part of a service id, in bytes.
pub const SERVICE_NAME_BYTES: usize = 30;

fn dash(s: &str) -> (r: String)
    ensures
        r@ == dashed(s@),
{
    let chars = crate::text::chars_of(s);
    let mut out: Vec<char> = Vec::new();
    let mut i: usize = 0;
    while i < chars.len()
        invariant
            chars@ == s@,
            i <= chars@.len(),
            out@ == dashed(chars@.subrange(0, i as int)),
        decreases chars@.len() - i,
    {
        let c = chars[i];
        out.push(if c == ' ' || c == '_' { '-' } else { c });
        assert(dashed(chars@.subrange(0, i + 1)) =~= dashed(chars@.subrange(0, i as int)).push(
            if c == ' ' || c == '_' { '-' } else { c },
        ));
        i = i + 1;
    }
    assert(chars@.subrange(0, chars@.len() as int) == chars@);
    crate::text::string_from_chars(out.as_slice())
}

fn utf8_len_of(c: char) -> (r: usize)
    ensures
        r == utf8_len(c),
{
    let v = c as u32;
    if v < 0x80 {
        1
    } else if v < 0x800 {
        2
    } else if v < 0x10000 {
        3
    } else {
        4
    }
}

/// How many characters of `s` fit in its first `n` bytes, and whether the
/// cut there falls between two characters.
fn greedy_cut(s: &Vec<char>, n: usize) -> (r: (usize, bool))
    ensures
        r.0 == greedy_prefix(s@, n as int).0,
        r.1 == cut_on_boundary(s@, n as int),
        r.0 <= s@.len(),
{
    let mut i: usize = 0;
    let mut left: usize = n;
    assert(s@.skip(0) == s@);
    while i < s.len() && utf8_len_of(s[i]) <= left
        invariant
            i <= s@.len(),
            left <= n,
            greedy_prefix(s@, n as int) == ((i + greedy_prefix(s@.skip(i as int), left as int).0) as nat,
                greedy_prefix(s@, n as int).1),
            greedy_prefix(s@, n as int).1 == greedy_prefix(s@.skip(i as int), left as int).1,
        decreases s@.len() - i,
    {
        assert(s@.skip(i as int).drop_first() == s@.skip(i + 1));
        assert(s@.skip(i as int)[0] == s@[i as int]);
        left = left - utf8_len_of(s[i]);
        i = i + 1;
    }
    assert(s@.skip(i as int).len() == 0 || utf8_len(s@.skip(i as int)[0]) > left);
    (i, i == s.len() || left == 0)
}

/// The service id made of a name part `clean` and the UUID value `id`: the
/// first 30 bytes of `clean`, a hyphen, and the UUID's 32 digits in
/// uppercase. The 30 bytes must end between two characters.
pub fn service_id_from_clean(clean: &str, id: u128) -> (r: String)
    requires
        cut_on_boundary(clean@, SERVICE_NAME_BYTES as int),
    ensures
        r@ == byte_prefix(clean@, SERVICE_NAME_BYTES as int) + seq!['-'] + crate::ids::uuid_simple_upper(id),
{
    let chars = crate::text::chars_of(clean);
    let (k, _) = greedy_cut(&chars, SERVICE_NAME_BYTES);
    let mut out = crate::text::substring(&chars, 0, k);
    push_char(&mut out, '-');
    out.append(crate::ids::uuid_simple_upper_string(id).as_str());
    out
}

/// The name part of a service id for the host `hostname`: spaces and
/// underscores as hyphens, in uppercase.
pub open spec fn service_name_part(hostname: Seq<char>) -> Seq<char> {
    crate::text::uppercased(dashed(hostname))
}

/// The service id for the host `hostname` and the UUID value `id` (see
/// [`service_id_from_clean`]), or none when the first 30 bytes of its name
/// part would end inside a character.
pub fn service_id_for(hostname: &str, id: u128) -> (r: Option<String>)
    ensures
        match r {
            Some(s) => cut_on_boundary(service_name_part(hostname@), SERVICE_NAME_BYTES as int) && s@
                == byte_prefix(service_name_part(hostname@), SERVICE_NAME_BYTES as int) + seq!['-']
                + crate::ids::uuid_simple_upper(id),
            None => !cut_on_boundary(service_name_part(hostname@), SERVICE_NAME_BYTES as int),
        },
{
    let d = dash(hostname);
    let clean = crate::text::to_uppercase(d.as_str());
    let chars = crate::text::chars_of(clean.as_str());
    let (_, ok) = greedy_cut(&chars, SERVICE_NAME_BYTES);
    if ok {
        Some(service_id_from_clean(clean.as_str(), id))
    } else {
        None
    }
}

/// What the desktop application starts with.
#[derive(Debug)]
pub struct StartupSettings {
    pub theme: String,
    pub group_code: String,
    pub display_name: String,
    pub username: String,
    pub hostname: String,
    pub service_id: String,
    /// Whether the service id is new and is to be saved.
    pub save_service_id: bool,
}

/// `v`, or the text `d` when it is absent.
pub open spec fn text_or(v: Option<String>, d: Seq<char>) -> Seq<char> {
    match v {
        Some(s) => s@,
        None => d,
    }
}

fn string_or(v: Option<String>, d: &str) -> (r: String)
    ensures
        r@ == text_or(v, d@),
{
    match v {
        Some(s) => s,
        None => to_owned_string(d),
    }
}

/// The starting settings, from the saved ones (`stored_*`) and what the
/// machine says of its user (`realname`, `username`, `hostname`, each absent
/// when the lookup failed): the theme defaults to `system`, the group code
/// to `Warpinator`, the display name to the real name and then `Warpinator`,
/// the user and host names to `warpinator`. Without a saved service id, one
/// is made from the host name and `id` and is to be saved; none comes back
/// when that id cannot be made (see [`service_id_for`]).
pub fn startup_settings(
    stored_theme: Option<String>,
    stored_group_code: Option<String>,
    stored_display_name: Option<String>,
    stored_service_id: Option<String>,
    realname: Option<String>,
    username: Option<String>,
    hostname: Option<String>,
    id: u128,
) -> (r: Option<StartupSettings>)
    ensures
        ({
            let host = text_or(hostname, "warpinator"@);
            match r {
                Some(s) => {
                    &&& s.theme@ == text_or(stored_theme, "system"@)
                    &&& s.group_code@ == text_or(stored_group_code, "Warpinator"@)
                    &&& s.display_name@ == (match stored_display_name {
                        Some(d) => d@,
                        None => text_or(realname, "Warpinator"@),
                    })
                    &&& s.username@ == text_or(username, "warpinator"@)
                    &&& s.hostname@ == host
                    &&& s.save_service_id == stored_service_id is None
                    &&& match stored_service_id {
                        Some(v) => s.service_id@ == v@,
                        None => s.service_id@ == byte_prefix(service_name_part(host), SERVICE_NAME_BYTES as int)
                            + seq!['-'] + crate::ids::uuid_simple_upper(id),
                    }
                },
                None => stored_service_id is None && !cut_on_boundary(service_name_part(host), SERVICE_NAME_BYTES as int),
            }
        }),
{
    let theme = string_or(stored_theme, "system");
    let group_code = string_or(stored_group_code, "Warpinator");
    let display_name = match stored_display_name {
        Some(d) => d,
        None => string_or(realname, "Warpinator"),
    };
    let username = string_or(username, "warpinator");
    let hostname = string_or(hostname, "warpinator");
    let (service_id, save_service_id) = match stored_service_id {
        Some(v) => (v, false),
        None => match service_id_for(hostname.as_str(), id) {
            Some(v) => (v, true),
            None => return None,
        },
    };
    Some(StartupSettings { theme, group_code, display_name, username, hostname, service_id, save_service_id })
}

} // verus!
