//! Timing and feature settings of the protocol.
use vstd::prelude::*;
use crate::config::features::{ProtocolFeatures, MESSAGE_SUPPORT_BIT};
use crate::duration::Duration;

verus! {

pub const RECONNECT_INTERVAL_DEFAULT_SECS: u64 = 30;
pub const CONNECT_TIMEOUT_DEFAULT_SECS: u64 = 10;
pub const PING_INTERVAL_DEFAULT_SECS: u64 = 10;
pub const PING_TIMEOUT_DEFAULT_SECS: u64 = 5;

/// Builds a [`ProtocolConfig`]; every setting left unset takes its default.
#[derive(Clone, Copy, Debug)]
pub struct ProtocolConfigBuilder {
    features: Option<ProtocolFeatures>,
    reconnect_interval: Option<Duration>,
    connect_timeout: Option<Duration>,
    ping_interval: Option<Duration>,
    ping_timeout: Option<Duration>,
}

/// The protocol settings.
#[derive(Clone, Copy, Debug)]
pub struct ProtocolConfig {
    pub features: ProtocolFeatures,
    pub reconnect_interval: Duration,
    pub connect_timeout: Duration,
    pub ping_interval: Duration,
    pub ping_timeout: Duration,
}

/// `value`, or `default` where it is unset.
pub open spec fn or_default<T>(value: Option<T>, default: T) -> T {
    match value {
        Some(v) => v,
        None => default,
    }
}

impl ProtocolConfigBuilder {
    pub closed spec fn spec_features(&self) -> Option<ProtocolFeatures> {
        self.features
    }

    pub closed spec fn spec_reconnect_interval(&self) -> Option<Duration> {
        self.reconnect_interval
    }

    pub closed spec fn spec_connect_timeout(&self) -> Option<Duration> {
        self.connect_timeout
    }

    pub closed spec fn spec_ping_interval(&self) -> Option<Duration> {
        self.ping_interval
    }

    pub closed spec fn spec_ping_timeout(&self) -> Option<Duration> {
        self.ping_timeout
    }

    /// A builder with no setting given.
    pub fn new() -> (r: ProtocolConfigBuilder)
        ensures
            r.spec_features() is None,
            r.spec_reconnect_interval() is None,
            r.spec_connect_timeout() is None,
            r.spec_ping_interval() is None,
            r.spec_ping_timeout() is None,
    {
        ProtocolConfigBuilder {
            features: None,
            reconnect_interval: None,
            connect_timeout: None,
            ping_interval: None,
            ping_timeout: None,
        }
    }

    pub fn features(self, features: ProtocolFeatures) -> (r: ProtocolConfigBuilder)
        ensures
            r.spec_features() == Some(features),
            r.spec_reconnect_interval() == self.spec_reconnect_interval(),
            r.spec_connect_timeout() == self.spec_connect_timeout(),
            r.spec_ping_interval() == self.spec_ping_interval(),
            r.spec_ping_timeout() == self.spec_ping_timeout(),
    {
        ProtocolConfigBuilder { features: Some(features), ..self }
    }

    pub fn reconnect_interval(self, interval: Duration) -> (r: ProtocolConfigBuilder)
        ensures
            r.spec_features() == self.spec_features(),
            r.spec_reconnect_interval() == Some(interval),
            r.spec_connect_timeout() == self.spec_connect_timeout(),
            r.spec_ping_interval() == self.spec_ping_interval(),
            r.spec_ping_timeout() == self.spec_ping_timeout(),
    {
        ProtocolConfigBuilder { reconnect_interval: Some(interval), ..self }
    }

    pub fn connect_timeout(self, timeout: Duration) -> (r: ProtocolConfigBuilder)
        ensures
            r.spec_features() == self.spec_features(),
            r.spec_reconnect_interval() == self.spec_reconnect_interval(),
            r.spec_connect_timeout() == Some(timeout),
            r.spec_ping_interval() == self.spec_ping_interval(),
            r.spec_ping_timeout() == self.spec_ping_timeout(),
    {
        ProtocolConfigBuilder { connect_timeout: Some(timeout), ..self }
    }

    pub fn ping_interval(self, interval: Duration) -> (r: ProtocolConfigBuilder)
        ensures
            r.spec_features() == self.spec_features(),
            r.spec_reconnect_interval() == self.spec_reconnect_interval(),
            r.spec_connect_timeout() == self.spec_connect_timeout(),
            r.spec_ping_interval() == Some(interval),
            r.spec_ping_timeout() == self.spec_ping_timeout(),
    {
        ProtocolConfigBuilder { ping_interval: Some(interval), ..self }
    }

    pub fn ping_timeout(self, timeout: Duration) -> (r: ProtocolConfigBuilder)
        ensures
            r.spec_features() == self.spec_features(),
            r.spec_reconnect_interval() == self.spec_reconnect_interval(),
            r.spec_connect_timeout() == self.spec_connect_timeout(),
            r.spec_ping_interval() == self.spec_ping_interval(),
            r.spec_ping_timeout() == Some(timeout),
    {
        ProtocolConfigBuilder { ping_timeout: Some(timeout), ..self }
    }

    /// The configuration: each setting as given, or its default.
    pub fn build(self) -> (r: ProtocolConfig)
        ensures
            r == spec_build(self),
            r.features@ == (match self.spec_features() {
                Some(f) => f@,
                None => crate::config::features::MESSAGE_SUPPORT_BIT,
            }),
            r.reconnect_interval == or_default(
                self.spec_reconnect_interval(),
                Duration::of_secs(RECONNECT_INTERVAL_DEFAULT_SECS),
            ),
            r.connect_timeout == or_default(
                self.spec_connect_timeout(),
                Duration::of_secs(CONNECT_TIMEOUT_DEFAULT_SECS),
            ),
            r.ping_interval == or_default(
                self.spec_ping_interval(),
                Duration::of_secs(PING_INTERVAL_DEFAULT_SECS),
            ),
            r.ping_timeout == or_default(
                self.spec_ping_timeout(),
                Duration::of_secs(PING_TIMEOUT_DEFAULT_SECS),
            ),
    {
        ProtocolConfig {
            features: match self.features {
                Some(f) => f,
                None => ProtocolFeatures::default(),
            },
            reconnect_interval: match self.reconnect_interval {
                Some(d) => d,
                None => Duration::from_secs(RECONNECT_INTERVAL_DEFAULT_SECS),
            },
            connect_timeout: match self.connect_timeout {
                Some(d) => d,
                None => Duration::from_secs(CONNECT_TIMEOUT_DEFAULT_SECS),
            },
            ping_interval: match self.ping_interval {
                Some(d) => d,
                None => Duration::from_secs(PING_INTERVAL_DEFAULT_SECS),
            },
            ping_timeout: match self.ping_timeout {
                Some(d) => d,
                None => Duration::from_secs(PING_TIMEOUT_DEFAULT_SECS),
            },
        }
    }
}

/// The configuration that `b` builds: each setting as given, or its
/// default.
pub open spec fn spec_build(b: ProtocolConfigBuilder) -> ProtocolConfig {
    ProtocolConfig {
        features: or_default(b.spec_features(), ProtocolFeatures::spec_from_bits(MESSAGE_SUPPORT_BIT)),
        reconnect_interval: or_default(b.spec_reconnect_interval(), Duration::of_secs(RECONNECT_INTERVAL_DEFAULT_SECS)),
        connect_timeout: or_default(b.spec_connect_timeout(), Duration::of_secs(CONNECT_TIMEOUT_DEFAULT_SECS)),
        ping_interval: or_default(b.spec_ping_interval(), Duration::of_secs(PING_INTERVAL_DEFAULT_SECS)),
        ping_timeout: or_default(b.spec_ping_timeout(), Duration::of_secs(PING_TIMEOUT_DEFAULT_SECS)),
    }
}

/// Every setting at its default.
pub open spec fn spec_default_config() -> ProtocolConfig {
    ProtocolConfig {
        features: ProtocolFeatures::spec_from_bits(MESSAGE_SUPPORT_BIT),
        reconnect_interval: Duration::of_secs(RECONNECT_INTERVAL_DEFAULT_SECS),
        connect_timeout: Duration::of_secs(CONNECT_TIMEOUT_DEFAULT_SECS),
        ping_interval: Duration::of_secs(PING_INTERVAL_DEFAULT_SECS),
        ping_timeout: Duration::of_secs(PING_TIMEOUT_DEFAULT_SECS),
    }
}

/// A builder given no setting builds the default configuration, and a
/// setting given to a builder is the one its configuration has.
pub proof fn law_builder_defaults(b: ProtocolConfigBuilder, d: Duration)
    ensures
        b.spec_features() is None && b.spec_reconnect_interval() is None && b.spec_connect_timeout() is None
            && b.spec_ping_interval() is None && b.spec_ping_timeout() is None ==> spec_build(b)
            == spec_default_config(),
        b.spec_reconnect_interval() == Some(d) ==> spec_build(b).reconnect_interval == d,
        b.spec_connect_timeout() == Some(d) ==> spec_build(b).connect_timeout == d,
        b.spec_ping_interval() == Some(d) ==> spec_build(b).ping_interval == d,
        b.spec_ping_timeout() == Some(d) ==> spec_build(b).ping_timeout == d,
{
}

impl ProtocolConfig {
    /// A builder with no setting given.
    pub fn builder() -> (r: ProtocolConfigBuilder)
        ensures
            r.spec_features() is None,
            r.spec_reconnect_interval() is None,
            r.spec_connect_timeout() is None,
            r.spec_ping_interval() is None,
            r.spec_ping_timeout() is None,
    {
        ProtocolConfigBuilder::new()
    }
}

impl Default for ProtocolConfig {
    /// Every setting at its default.
    fn default() -> (r: ProtocolConfig)
        ensures
            r == spec_default_config(),
            r.features@ == crate::config::features::MESSAGE_SUPPORT_BIT,
            r.reconnect_interval == Duration::of_secs(RECONNECT_INTERVAL_DEFAULT_SECS),
            r.connect_timeout == Duration::of_secs(CONNECT_TIMEOUT_DEFAULT_SECS),
            r.ping_interval == Duration::of_secs(PING_INTERVAL_DEFAULT_SECS),
            r.ping_timeout == Duration::of_secs(PING_TIMEOUT_DEFAULT_SECS),
    {
        ProtocolConfig {
            features: ProtocolFeatures::default(),
            reconnect_interval: Duration::from_secs(RECONNECT_INTERVAL_DEFAULT_SECS),
            connect_timeout: Duration::from_secs(CONNECT_TIMEOUT_DEFAULT_SECS),
            ping_interval: Duration::from_secs(PING_INTERVAL_DEFAULT_SECS),
            ping_timeout: Duration::from_secs(PING_TIMEOUT_DEFAULT_SECS),
        }
    }
}

} // verus!
