//! The local user's identity and network settings.
use vstd::prelude::*;
use crate::net::{IpAddr, Ipv4Addr, Ipv6Addr};
use crate::text::to_owned_string;

verus! {

pub const DEFAULT_WARP_PORT: u16 = 42000;
pub const DEFAULT_REG_PORT: u16 = 42001;

pub open spec fn default_group_code() -> Seq<char> {
    seq!['W', 'a', 'r', 'p', 'i', 'n', 'a', 't', 'o', 'r']
}

pub open spec fn default_hostname() -> Seq<char> {
    seq!['w', 'a', 'r', 'p', 'i', 'n', 'a', 't', 'o', 'r']
}

pub open spec fn default_display_name() -> Seq<char> {
    seq!['W', 'a', 'r', 'p', 'i', 'n', 'a', 't', 'o', 'r', ' ', 'R', 'S']
}

pub open spec fn default_username() -> Seq<char> {
    seq!['w', 'a', 'r', 'p', 'i', 'n', 'a', 't', 'o', 'r', '-', 'r', 's']
}

fn default_group_code_string() -> (r: String)
    ensures
        r@ == default_group_code(),
{
    let s = "Warpinator";
    proof {
        reveal_strlit("Warpinator");
    }
    to_owned_string(s)
}

fn default_hostname_string() -> (r: String)
    ensures
        r@ == default_hostname(),
{
    let s = "warpinator";
    proof {
        reveal_strlit("warpinator");
    }
    to_owned_string(s)
}

fn default_display_name_string() -> (r: String)
    ensures
        r@ == default_display_name(),
{
    let s = "Warpinator RS";
    proof {
        reveal_strlit("Warpinator RS");
    }
    to_owned_string(s)
}

fn default_username_string() -> (r: String)
    ensures
        r@ == default_username(),
{
    let s = "warpinator-rs";
    proof {
        reveal_strlit("warpinator-rs");
    }
    to_owned_string(s)
}

/// The IPv4 address a lookup of the local address stands for: the address
/// itself when it is IPv4, `0.0.0.0` when it is IPv6.
pub open spec fn ipv4_of_lookup(ip: IpAddr) -> Ipv4Addr {
    match ip {
        IpAddr::V4(v4) => v4,
        IpAddr::V6(_) => Ipv4Addr { a: 0, b: 0, c: 0, d: 0 },
    }
}

/// Builds a [`UserConfig`]; every setting left unset takes its default.
#[derive(Debug)]
pub struct UserConfigBuilder {
    pub port: Option<u16>,
    pub reg_port: Option<u16>,
    pub bind_addr_v4: Option<Ipv4Addr>,
    pub bind_addr_v6: Option<Ipv6Addr>,
    pub group_code: Option<String>,
    pub hostname: Option<String>,
    pub username: Option<String>,
    pub display_name: Option<String>,
    pub picture: Option<Vec<u8>>,
}

/// The local user's settings.
#[derive(Debug)]
pub struct UserConfig {
    pub port: u16,
    pub reg_port: u16,
    pub bind_addr_v4: Option<Ipv4Addr>,
    pub bind_addr_v6: Option<Ipv6Addr>,
    pub group_code: String,
    pub hostname: String,
    pub username: String,
    pub display_name: String,
    /// The user's picture, a PNG image, if any.
    pub picture: Option<Vec<u8>>,
}

/// The view of an optional string.
pub open spec fn opt_view(s: Option<String>) -> Option<Seq<char>> {
    match s {
        Some(v) => Some(v@),
        None => None,
    }
}

impl UserConfigBuilder {
    pub fn new() -> (r: UserConfigBuilder)
        ensures
            r.port is None,
            r.reg_port is None,
            r.bind_addr_v4 is None,
            r.bind_addr_v6 is None,
            r.group_code is None,
            r.hostname is None,
            r.username is None,
            r.display_name is None,
            r.picture is None,
    {
        UserConfigBuilder {
            port: None,
            reg_port: None,
            bind_addr_v4: None,
            bind_addr_v6: None,
            group_code: None,
            hostname: None,
            username: None,
            display_name: None,
            picture: None,
        }
    }

    pub fn port(self, port: u16) -> (r: UserConfigBuilder)
        ensures
            r == (UserConfigBuilder { port: Some(port), ..self }),
    {
        UserConfigBuilder { port: Some(port), ..self }
    }

    pub fn reg_port(self, reg_port: u16) -> (r: UserConfigBuilder)
        ensures
            r == (UserConfigBuilder { reg_port: Some(reg_port), ..self }),
    {
        UserConfigBuilder { reg_port: Some(reg_port), ..self }
    }

    pub fn bind_addr_v4(self, addr: Ipv4Addr) -> (r: UserConfigBuilder)
        ensures
            r == (UserConfigBuilder { bind_addr_v4: Some(addr), ..self }),
    {
        UserConfigBuilder { bind_addr_v4: Some(addr), ..self }
    }

    /// Binds to the local address that `lookup` found (the result of asking
    /// the machine for its IPv4 address): that address when it is IPv4,
    /// `0.0.0.0` when the lookup gave an IPv6 one, none when it failed.
    pub fn default_bind_addr_v4(self, lookup: Option<IpAddr>) -> (r: UserConfigBuilder)
        ensures
            r == (UserConfigBuilder {
                bind_addr_v4: match lookup {
                    Some(ip) => Some(ipv4_of_lookup(ip)),
                    None => None,
                },
                ..self
            }),
    {
        let v4 = match lookup {
            Some(IpAddr::V4(v4)) => Some(v4),
            Some(IpAddr::V6(_)) => Some(Ipv4Addr::unspecified()),
            None => None,
        };
        UserConfigBuilder { bind_addr_v4: v4, ..self }
    }

    pub fn bind_addr_v6(self, addr: Ipv6Addr) -> (r: UserConfigBuilder)
        ensures
            r == (UserConfigBuilder { bind_addr_v6: Some(addr), ..self }),
    {
        UserConfigBuilder { bind_addr_v6: Some(addr), ..self }
    }

    /// Binds to the local IPv6 address that `lookup` found: that address when
    /// it is IPv6, `::` when the lookup gave an IPv4 one, none when it failed.
    pub fn default_bind_addr_v6(self, lookup: Option<IpAddr>) -> (r: UserConfigBuilder)
        ensures
            r.bind_addr_v6 == (match lookup {
                Some(IpAddr::V6(v6)) => Some(v6),
                Some(IpAddr::V4(_)) => Some(Ipv6Addr::spec_unspecified()),
                None => None,
            }),
            r == (UserConfigBuilder { bind_addr_v6: r.bind_addr_v6, ..self }),
    {
        let v6 = match lookup {
            Some(IpAddr::V6(v6)) => Some(v6),
            Some(IpAddr::V4(_)) => Some(Ipv6Addr::unspecified()),
            None => None,
        };
        UserConfigBuilder { bind_addr_v6: v6, ..self }
    }

    pub fn group_code(self, group_code: &str) -> (r: UserConfigBuilder)
        ensures
            opt_view(r.group_code) == Some(group_code@),
            r == (UserConfigBuilder { group_code: r.group_code, ..self }),
    {
        UserConfigBuilder { group_code: Some(to_owned_string(group_code)), ..self }
    }

    pub fn hostname(self, hostname: &str) -> (r: UserConfigBuilder)
        ensures
            opt_view(r.hostname) == Some(hostname@),
            r == (UserConfigBuilder { hostname: r.hostname, ..self }),
    {
        UserConfigBuilder { hostname: Some(to_owned_string(hostname)), ..self }
    }

    /// Takes the host name that `lookup` found (the machine's own name), or
    /// none when it failed.
    pub fn default_hostname(self, lookup: Option<String>) -> (r: UserConfigBuilder)
        ensures
            r == (UserConfigBuilder { hostname: lookup, ..self }),
    {
        UserConfigBuilder { hostname: lookup, ..self }
    }

    pub fn username(self, username: &str) -> (r: UserConfigBuilder)
        ensures
            opt_view(r.username) == Some(username@),
            r == (UserConfigBuilder { username: r.username, ..self }),
    {
        UserConfigBuilder { username: Some(to_owned_string(username)), ..self }
    }

    pub fn display_name(self, display_name: &str) -> (r: UserConfigBuilder)
        ensures
            opt_view(r.display_name) == Some(display_name@),
            r == (UserConfigBuilder { display_name: r.display_name, ..self }),
    {
        UserConfigBuilder { display_name: Some(to_owned_string(display_name)), ..self }
    }

    pub fn picture(self, picture: &[u8]) -> (r: UserConfigBuilder)
        ensures
            r.picture is Some,
            r.picture.unwrap()@ == picture@,
            r == (UserConfigBuilder { picture: r.picture, ..self }),
    {
        UserConfigBuilder { picture: Some(vstd::slice::slice_to_vec(picture)), ..self }
    }

    /// The configuration: each setting as given, or its default. With no bind
    /// address at all, it binds to `0.0.0.0` (see [`builds`]).
    pub fn build(self) -> (r: UserConfig)
        ensures
            builds(self, r),
    {
        let bind_addr_v4 = if self.bind_addr_v4.is_none() && self.bind_addr_v6.is_none() {
            Some(Ipv4Addr::unspecified())
        } else {
            self.bind_addr_v4
        };
        UserConfig {
            port: match self.port {
                Some(p) => p,
                None => DEFAULT_WARP_PORT,
            },
            reg_port: match self.reg_port {
                Some(p) => p,
                None => DEFAULT_REG_PORT,
            },
            bind_addr_v4,
            bind_addr_v6: self.bind_addr_v6,
            group_code: match self.group_code {
                Some(s) => s,
                None => default_group_code_string(),
            },
            hostname: match self.hostname {
                Some(s) => s,
                None => default_hostname_string(),
            },
            username: match self.username {
                Some(s) => s,
                None => default_username_string(),
            },
            display_name: match self.display_name {
                Some(s) => s,
                None => default_display_name_string(),
            },
            picture: self.picture,
        }
    }
}

/// Whether `r` is the configuration that the builder `b` builds: each
/// setting as given, or its default; with no bind address at all, it binds
/// to `0.0.0.0`.
pub open spec fn builds(b: UserConfigBuilder, r: UserConfig) -> bool {
    &&& r.port == or_default_u16(b.port, DEFAULT_WARP_PORT)
    &&& r.reg_port == or_default_u16(b.reg_port, DEFAULT_REG_PORT)
    &&& r.bind_addr_v4 == (if b.bind_addr_v4 is None && b.bind_addr_v6 is None {
        Some(Ipv4Addr { a: 0, b: 0, c: 0, d: 0 })
    } else {
        b.bind_addr_v4
    })
    &&& r.bind_addr_v6 == b.bind_addr_v6
    &&& r.group_code@ == or_default_chars(opt_view(b.group_code), default_group_code())
    &&& r.hostname@ == or_default_chars(opt_view(b.hostname), default_hostname())
    &&& r.username@ == or_default_chars(opt_view(b.username), default_username())
    &&& r.display_name@ == or_default_chars(opt_view(b.display_name), default_display_name())
    &&& r.picture == b.picture
}

pub open spec fn or_default_u16(v: Option<u16>, d: u16) -> u16 {
    match v {
        Some(x) => x,
        None => d,
    }
}

pub open spec fn or_default_chars(v: Option<Seq<char>>, d: Seq<char>) -> Seq<char> {
    match v {
        Some(x) => x,
        None => d,
    }
}

impl UserConfig {
    /// A builder with no setting given.
    pub fn builder() -> (r: UserConfigBuilder)
        ensures
            r == UserConfigBuilder::spec_new(),
    {
        UserConfigBuilder::new()
    }

    pub fn set_display_name(&mut self, display_name: &str)
        ensures
            final(self).display_name@ == display_name@,
            *final(self) == (UserConfig { display_name: final(self).display_name, ..*old(self) }),
    {
        self.display_name = to_owned_string(display_name);
    }

    pub fn set_picture(&mut self, picture: Option<&[u8]>)
        ensures
            match picture {
                Some(p) => final(self).picture is Some && final(self).picture.unwrap()@ == p@,
                None => final(self).picture is None,
            },
            *final(self) == (UserConfig { picture: final(self).picture, ..*old(self) }),
    {
        self.picture = match picture {
            Some(p) => Some(vstd::slice::slice_to_vec(p)),
            None => None,
        };
    }
}

impl UserConfigBuilder {
    /// The builder with nothing set.
    pub open spec fn spec_new() -> UserConfigBuilder {
        UserConfigBuilder {
            port: None,
            reg_port: None,
            bind_addr_v4: None,
            bind_addr_v6: None,
            group_code: None,
            hostname: None,
            username: None,
            display_name: None,
            picture: None,
        }
    }
}

impl Default for UserConfig {
    /// The default settings: both unspecified bind addresses and every other
    /// setting at its default.
    fn default() -> (r: UserConfig)
        ensures
            r.port == DEFAULT_WARP_PORT,
            r.reg_port == DEFAULT_REG_PORT,
            r.bind_addr_v4 == Some(Ipv4Addr { a: 0, b: 0, c: 0, d: 0 }),
            r.bind_addr_v6 == Some(Ipv6Addr::spec_unspecified()),
            r.group_code@ == default_group_code(),
            r.hostname@ == default_hostname(),
            r.username@ == default_username(),
            r.display_name@ == default_display_name(),
            r.picture is None,
    {
        UserConfig {
            port: DEFAULT_WARP_PORT,
            reg_port: DEFAULT_REG_PORT,
            bind_addr_v4: Some(Ipv4Addr::unspecified()),
            bind_addr_v6: Some(Ipv6Addr::unspecified()),
            group_code: default_group_code_string(),
            hostname: default_hostname_string(),
            username: default_username_string(),
            display_name: default_display_name_string(),
            picture: None,
        }
    }
}

} // verus!
