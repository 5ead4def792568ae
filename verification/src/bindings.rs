//! The values that host applications exchange with the library: settings
//! with optional fields, log levels and listeners, the power manager of the
//! host, and the profile shown in a settings page.
use vstd::prelude::*;
use crate::config::protocol::{ProtocolConfigBuilder, spec_build};
use crate::config::user::{UserConfig, UserConfigBuilder, builds, ipv4_of_lookup};
use crate::net::{IpAddr, Ipv4Addr, Ipv6Addr};
use crate::duration::Duration;
use crate::server::power_manager;
use crate::types::transfer;
use crate::types::remote;
use crate::net::ip_text;
use crate::config::features::MESSAGE_SUPPORT_BIT;

verus! {

/// The user settings as a host gives them, its bind addresses already read
/// from their text; an absent one takes the machine's (for the addresses and
/// the host name) or its default.
#[derive(Debug)]
pub struct HostUserConfig {
    pub port: Option<u16>,
    pub reg_port: Option<u16>,
    pub bind_addr_v4: Option<Ipv4Addr>,
    pub bind_addr_v6: Option<Ipv6Addr>,
    pub group_code: Option<String>,
    pub hostname: Option<String>,
    pub username: Option<String>,
    pub display_name: Option<String>,
    pub picture: Option<Vec<u8>>,
}

/// The builder that the host's settings `h` stand for, with the machine's
/// addresses `v4_lookup` and `v6_lookup` and host name `hostname_lookup`
/// where `h` gives none.
pub open spec fn host_builder(
    h: HostUserConfig,
    v4_lookup: Option<IpAddr>,
    v6_lookup: Option<IpAddr>,
    hostname_lookup: Option<String>,
) -> UserConfigBuilder {
    UserConfigBuilder {
        port: h.port,
        reg_port: h.reg_port,
        bind_addr_v4: match h.bind_addr_v4 {
            Some(a) => Some(a),
            None => match v4_lookup {
                Some(ip) => Some(ipv4_of_lookup(ip)),
                None => None,
            },
        },
        bind_addr_v6: match h.bind_addr_v6 {
            Some(a) => Some(a),
            None => match v6_lookup {
                Some(IpAddr::V6(v6)) => Some(v6),
                Some(IpAddr::V4(_)) => Some(Ipv6Addr::spec_unspecified()),
                None => None,
            },
        },
        group_code: h.group_code,
        hostname: match h.hostname {
            Some(n) => Some(n),
            None => hostname_lookup,
        },
        username: h.username,
        display_name: h.display_name,
        picture: h.picture,
    }
}

impl HostUserConfig {
    /// The library's settings (see [`host_builder`] and [`builds`]).
    pub fn to_config(self, v4_lookup: Option<IpAddr>, v6_lookup: Option<IpAddr>, hostname_lookup: Option<String>) -> (r:
        UserConfig)
        ensures
            builds(host_builder(self, v4_lookup, v6_lookup, hostname_lookup), r),
    {
        let mut b = UserConfigBuilder {
            port: self.port,
            reg_port: self.reg_port,
            bind_addr_v4: self.bind_addr_v4,
            bind_addr_v6: self.bind_addr_v6,
            group_code: self.group_code,
            hostname: self.hostname,
            username: self.username,
            display_name: self.display_name,
            picture: self.picture,
        };
        if b.bind_addr_v4.is_none() {
            b = b.default_bind_addr_v4(v4_lookup);
        }
        if b.bind_addr_v6.is_none() {
            b = b.default_bind_addr_v6(v6_lookup);
        }
        if b.hostname.is_none() {
            b = b.default_hostname(hostname_lookup);
        }
        b.build()
    }
}

/// The protocol settings as a host gives them; an absent one keeps its
/// default. The features are not set here.
#[derive(Clone, Copy, Debug)]
pub struct ProtocolConfig {
    pub reconnect_interval: Option<Duration>,
    pub connect_timeout: Option<Duration>,
    pub ping_interval: Option<Duration>,
    pub ping_timeout: Option<Duration>,
}

impl ProtocolConfig {
    /// The settings that a builder given exactly the present values builds.
    pub open spec fn spec_builder_for(&self, b: ProtocolConfigBuilder) -> bool {
        &&& b.spec_features() is None
        &&& b.spec_reconnect_interval() == self.reconnect_interval
        &&& b.spec_connect_timeout() == self.connect_timeout
        &&& b.spec_ping_interval() == self.ping_interval
        &&& b.spec_ping_timeout() == self.ping_timeout
    }

    /// The library's settings: the present values, and the defaults.
    pub fn to_config(self) -> (r: crate::config::protocol::ProtocolConfig)
        ensures
            exists|b: ProtocolConfigBuilder| self.spec_builder_for(b) && r == spec_build(b),
    {
        let mut builder = crate::config::protocol::ProtocolConfig::builder();
        if let Some(d) = self.reconnect_interval {
            builder = builder.reconnect_interval(d);
        }
        if let Some(d) = self.connect_timeout {
            builder = builder.connect_timeout(d);
        }
        if let Some(d) = self.ping_interval {
            builder = builder.ping_interval(d);
        }
        if let Some(d) = self.ping_timeout {
            builder = builder.ping_timeout(d);
        }
        let ghost b = builder;
        let r = builder.build();
        assert(self.spec_builder_for(b));
        r
    }
}

/// How much a log line matters.
#[derive(Clone, Copy, Debug, PartialEq, Eq, Structural)]
pub enum LogLevel {
    Trace,
    Debug,
    Info,
    Warn,
    Error,
}

/// The names of `spans` joined by `::`.
pub open spec fn span_chain(spans: Seq<Seq<char>>) -> Seq<char>
    decreases spans.len(),
{
    if spans.len() == 0 {
        Seq::empty()
    } else if spans.len() == 1 {
        spans[0]
    } else {
        span_chain(spans.drop_last()) + "::"@ + spans.last()
    }
}

/// A log line as a host receives it: the message alone outside any span,
/// otherwise the chain of spans, outermost first, in brackets before it.
pub open spec fn spec_log_line(spans: Seq<Seq<char>>, message: Seq<char>) -> Seq<char> {
    let chain = span_chain(spans);
    if chain.len() == 0 {
        message
    } else {
        "["@ + chain + "] "@ + message
    }
}

pub fn log_line(spans: &Vec<String>, message: &str) -> (r: String)
    ensures
        r@ == spec_log_line(spans.deep_view(), message@),
{
    proof {
        reveal_strlit("::");
        reveal_strlit("[");
        reveal_strlit("] ");
    }
    let mut chain = String::new();
    let mut i: usize = 0;
    while i < spans.len()
        invariant
            i <= spans@.len(),
            chain@ == span_chain(spans.deep_view().subrange(0, i as int)),
        decreases spans@.len() - i,
    {
        let ghost before = spans.deep_view().subrange(0, i as int);
        assert(spans.deep_view().subrange(0, i + 1).drop_last() == before);
        assert(spans.deep_view().subrange(0, i + 1).last() == spans@[i as int]@);
        if i > 0 {
            chain.append("::");
        }
        chain.append(spans[i].as_str());
        i = i + 1;
    }
    assert(spans.deep_view().subrange(0, spans@.len() as int) == spans.deep_view());
    if chain.unicode_len() == 0 {
        crate::text::to_owned_string(message)
    } else {
        let mut out = crate::text::to_owned_string("[");
        out.append(chain.as_str());
        out.append("] ");
        out.append(message);
        out
    }
}

/// Where a host wants the library's log lines.
pub trait LogListener {
    fn on_log(&self, level: LogLevel, message: String);
}

/// The power manager of a host, as the library's power manager.
#[derive(Debug)]
pub struct PowerManagerWrapper<P: power_manager::PowerManager> {
    inner: P,
}

impl<P: power_manager::PowerManager> PowerManagerWrapper<P> {
    pub closed spec fn inner(&self) -> P {
        self.inner
    }

    pub fn new(inner: P) -> (r: PowerManagerWrapper<P>)
        ensures
            r.inner() == inner,
    {
        PowerManagerWrapper { inner }
    }
}

impl<P: power_manager::PowerManager> power_manager::PowerManager for PowerManagerWrapper<P> {
    fn acquire_wake_lock(&self) {
        self.inner.acquire_wake_lock();
    }

    fn release_wake_lock(&self) {
        self.inner.release_wake_lock();
    }
}

/// The colour theme of a desktop host.
#[derive(Clone, Debug)]
pub struct ThemeSettings {
    pub theme: String,
}

/// The user's profile as a settings page shows it.
#[derive(Clone, Debug)]
pub struct Configuration {
    pub group_code: String,
    pub hostname: String,
    pub username: String,
    pub display_name: String,
}

impl Configuration {
    /// The profile of the user's settings.
    pub fn of_user_config(config: &UserConfig) -> (r: Configuration)
        ensures
            r.group_code@ == config.group_code@,
            r.hostname@ == config.hostname@,
            r.username@ == config.username@,
            r.display_name@ == config.display_name@,
    {
        Configuration {
            group_code: config.group_code.clone(),
            hostname: config.hostname.clone(),
            username: config.username.clone(),
            display_name: config.display_name.clone(),
        }
    }
}

/// Why a transfer failed, without the details that hosts cannot take.
#[derive(Clone, Copy, Debug, PartialEq, Eq, Structural)]
pub enum TransferError {
    ConnectionLost,
    StorageFull,
    FailedToProcessFiles,
    FailedToStartTransfer,
    UnsafePath,
    FilesNotFound,
    PermissionDenied,
    FileTooLarge,
    InvalidFilename,
    OutOfMemory,
    IoError,
    RemoteError,
    VirtualFilesystemError,
}

/// The error of a failed transfer as hosts see it: its kind alone.
pub open spec fn spec_error_kind(e: transfer::TransferError) -> TransferError {
    match e {
        transfer::TransferError::ConnectionLost => TransferError::ConnectionLost,
        transfer::TransferError::StorageFull => TransferError::StorageFull,
        transfer::TransferError::FailedToProcessFiles => TransferError::FailedToProcessFiles,
        transfer::TransferError::FailedToStartTransfer(_) => TransferError::FailedToStartTransfer,
        transfer::TransferError::UnsafePath => TransferError::UnsafePath,
        transfer::TransferError::FilesNotFound => TransferError::FilesNotFound,
        transfer::TransferError::PermissionDenied => TransferError::PermissionDenied,
        transfer::TransferError::FileTooLarge => TransferError::FileTooLarge,
        transfer::TransferError::InvalidFilename => TransferError::InvalidFilename,
        transfer::TransferError::OutOfMemory => TransferError::OutOfMemory,
        transfer::TransferError::IoError(_) => TransferError::IoError,
        transfer::TransferError::RemoteError => TransferError::RemoteError,
        transfer::TransferError::VirtualFilesystemError(_) => TransferError::VirtualFilesystemError,
    }
}

impl TransferError {
    pub fn from_error(e: &transfer::TransferError) -> (r: TransferError)
        ensures
            r == spec_error_kind(*e),
    {
        match e {
            transfer::TransferError::ConnectionLost => TransferError::ConnectionLost,
            transfer::TransferError::StorageFull => TransferError::StorageFull,
            transfer::TransferError::FailedToProcessFiles => TransferError::FailedToProcessFiles,
            transfer::TransferError::FailedToStartTransfer(_) => TransferError::FailedToStartTransfer,
            transfer::TransferError::UnsafePath => TransferError::UnsafePath,
            transfer::TransferError::FilesNotFound => TransferError::FilesNotFound,
            transfer::TransferError::PermissionDenied => TransferError::PermissionDenied,
            transfer::TransferError::FileTooLarge => TransferError::FileTooLarge,
            transfer::TransferError::InvalidFilename => TransferError::InvalidFilename,
            transfer::TransferError::OutOfMemory => TransferError::OutOfMemory,
            transfer::TransferError::IoError(_) => TransferError::IoError,
            transfer::TransferError::RemoteError => TransferError::RemoteError,
            transfer::TransferError::VirtualFilesystemError(_) => TransferError::VirtualFilesystemError,
        }
    }
}

/// Where a transfer stands, as hosts see it.
#[derive(Clone, Copy, Debug, PartialEq, Eq, Structural)]
pub enum TransferState {
    Initializing,
    WaitingPermission,
    InProgress,
    Paused,
    Completed,
    Stopped,
    Canceled,
    Denied,
    Failed(TransferError),
}

/// The state of a transfer as hosts see it: the same, a failure with the
/// kind of its error alone.
pub open spec fn spec_state_for_host(s: transfer::TransferState) -> TransferState {
    match s {
        transfer::TransferState::Initializing => TransferState::Initializing,
        transfer::TransferState::WaitingPermission => TransferState::WaitingPermission,
        transfer::TransferState::InProgress => TransferState::InProgress,
        transfer::TransferState::Paused => TransferState::Paused,
        transfer::TransferState::Completed => TransferState::Completed,
        transfer::TransferState::Stopped => TransferState::Stopped,
        transfer::TransferState::Canceled => TransferState::Canceled,
        transfer::TransferState::Denied => TransferState::Denied,
        transfer::TransferState::Failed(e) => TransferState::Failed(spec_error_kind(e)),
    }
}

impl TransferState {
    pub fn from_state(s: &transfer::TransferState) -> (r: TransferState)
        ensures
            r == spec_state_for_host(*s),
    {
        match s {
            transfer::TransferState::Initializing => TransferState::Initializing,
            transfer::TransferState::WaitingPermission => TransferState::WaitingPermission,
            transfer::TransferState::InProgress => TransferState::InProgress,
            transfer::TransferState::Paused => TransferState::Paused,
            transfer::TransferState::Completed => TransferState::Completed,
            transfer::TransferState::Stopped => TransferState::Stopped,
            transfer::TransferState::Canceled => TransferState::Canceled,
            transfer::TransferState::Denied => TransferState::Denied,
            transfer::TransferState::Failed(e) => TransferState::Failed(TransferError::from_error(e)),
        }
    }
}

/// A transfer as hosts see it.
#[derive(Debug)]
pub struct Transfer {
    pub uuid: String,
    pub remote_uuid: String,
    pub state: TransferState,
    pub timestamp: u64,
    pub total_bytes: u64,
    pub bytes_transferred: u64,
    pub bytes_per_second: u64,
    pub file_count: u64,
    pub entry_names: Vec<String>,
    pub single_name: Option<String>,
    pub single_mime_type: Option<String>,
    pub kind: transfer::TransferKind,
}

impl Transfer {
    /// The host's copy of the transfer `t`.
    pub fn from_transfer(t: &transfer::Transfer) -> (r: Transfer)
        ensures
            r.uuid@ == t.uuid@,
            r.remote_uuid@ == t.remote_uuid@,
            r.state == spec_state_for_host(t.state),
            r.timestamp == t.timestamp,
            r.total_bytes == t.total_bytes,
            r.bytes_transferred == t.bytes_transferred,
            r.bytes_per_second == t.bytes_per_second,
            r.file_count == t.file_count,
            r.entry_names.deep_view() == t.entry_names.deep_view(),
            transfer::opt_chars(r.single_name) == transfer::opt_chars(t.single_name),
            transfer::opt_chars(r.single_mime_type) == transfer::opt_chars(t.single_mime_type),
            r.kind@ == t.kind@,
    {
        Transfer {
            uuid: t.uuid.clone(),
            remote_uuid: t.remote_uuid.clone(),
            state: TransferState::from_state(&t.state),
            timestamp: t.timestamp,
            total_bytes: t.total_bytes,
            bytes_transferred: t.bytes_transferred,
            bytes_per_second: t.bytes_per_second,
            file_count: t.file_count,
            entry_names: transfer::clone_strings(&t.entry_names),
            single_name: transfer::clone_opt_string(&t.single_name),
            single_mime_type: transfer::clone_opt_string(&t.single_mime_type),
            kind: t.kind.clone(),
        }
    }
}

/// A peer as hosts see it: its address as text, and whether it has a
/// picture rather than the picture.
#[derive(Debug)]
pub struct Remote {
    pub uuid: String,
    pub ip: String,
    pub port: u16,
    pub auth_port: u16,
    pub service_name: String,
    pub display_name: String,
    pub username: String,
    pub hostname: String,
    pub picture: bool,
    pub picture_version: u8,
    pub state: remote::RemoteState,
    pub service_static: bool,
    pub service_available: bool,
    /// Whether the peer takes text messages.
    pub message_support: bool,
}

impl Remote {
    /// The host's copy of the peer `r`.
    pub fn from_remote(r: &remote::Remote) -> (out: Remote)
        ensures
            out.uuid@ == r.uuid@,
            out.ip@ == ip_text(r.ip),
            out.port == r.port,
            out.auth_port == r.auth_port,
            out.service_name@ == r.service_name@,
            out.display_name@ == r.display_name@,
            out.username@ == r.username@,
            out.hostname@ == r.hostname@,
            out.picture == r.picture is Some,
            out.picture_version == r.picture_version,
            out.state == r.state,
            out.service_static == r.service_static,
            out.service_available == r.service_available,
            out.message_support == (r.features@ & MESSAGE_SUPPORT_BIT == MESSAGE_SUPPORT_BIT),
    {
        Remote {
            uuid: r.uuid.clone(),
            ip: r.ip.to_text(),
            port: r.port,
            auth_port: r.auth_port,
            service_name: r.service_name.clone(),
            display_name: r.display_name.clone(),
            username: r.username.clone(),
            hostname: r.hostname.clone(),
            picture: r.picture.is_some(),
            picture_version: r.picture_version,
            state: r.state,
            service_static: r.service_static,
            service_available: r.service_available,
            message_support: r.features.contains(&crate::config::features::ProtocolFeatures::message_support()),
        }
    }
}

} // verus!
