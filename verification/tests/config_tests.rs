use warpinator_lib::bindings;
use warpinator_lib::config::features::ProtocolFeatures;
use warpinator_lib::config::protocol::ProtocolConfig;
use warpinator_lib::config::user::{UserConfig, UserConfigBuilder, DEFAULT_REG_PORT, DEFAULT_WARP_PORT};
use warpinator_lib::duration::Duration;
use warpinator_lib::net::{IpAddr, Ipv4Addr, Ipv6Addr};

#[test]
fn protocol_defaults() {
    let c = ProtocolConfig::builder().build();
    assert_eq!(c.reconnect_interval, Duration::from_secs(30));
    assert_eq!(c.connect_timeout, Duration::from_secs(10));
    assert_eq!(c.ping_interval, Duration::from_secs(10));
    assert_eq!(c.ping_timeout, Duration::from_secs(5));
    assert_eq!(c.features.bits(), 1);
}

#[test]
fn protocol_default_equals_empty_builder() {
    let a = ProtocolConfig::builder().build();
    let b = ProtocolConfig::default();
    assert_eq!(a.reconnect_interval, b.reconnect_interval);
    assert_eq!(a.connect_timeout, b.connect_timeout);
    assert_eq!(a.ping_interval, b.ping_interval);
    assert_eq!(a.ping_timeout, b.ping_timeout);
    assert_eq!(a.features, b.features);
}

#[test]
fn protocol_builder_settings() {
    let c = ProtocolConfig::builder()
        .features(ProtocolFeatures::empty())
        .reconnect_interval(Duration::from_millis(1500))
        .connect_timeout(Duration::from_secs(3))
        .ping_interval(Duration::new(2, 500))
        .ping_timeout(Duration::from_secs(1))
        .build();
    assert_eq!(c.features.bits(), 0);
    assert_eq!(c.reconnect_interval.as_secs(), 1);
    assert_eq!(c.reconnect_interval.subsec_nanos(), 500_000_000);
    assert_eq!(c.connect_timeout, Duration::from_secs(3));
    assert_eq!(c.ping_interval.as_secs(), 2);
    assert_eq!(c.ping_interval.subsec_nanos(), 500);
    assert_eq!(c.ping_timeout, Duration::from_secs(1));
}

#[test]
fn duration_new_carries_seconds() {
    let d = Duration::new(1, 2_500_000_000);
    assert_eq!(d.as_secs(), 3);
    assert_eq!(d.subsec_nanos(), 500_000_000);
}

#[test]
fn features_bits() {
    let all = ProtocolFeatures::from_bits_truncate(0xffff_ffff);
    assert_eq!(all.bits(), 1);
    assert!(all.contains(&ProtocolFeatures::message_support()));
    assert!(!ProtocolFeatures::empty().contains(&ProtocolFeatures::message_support()));
    assert!(ProtocolFeatures::message_support().contains(&ProtocolFeatures::empty()));
    let u = ProtocolFeatures::empty().union(&ProtocolFeatures::message_support());
    assert_eq!(u.bits(), 1);
    assert_eq!(ProtocolFeatures::default().bits(), 1);
    assert_eq!(ProtocolFeatures::from_bits_truncate(6).bits(), 0);
}

#[test]
fn user_config_defaults() {
    let c = UserConfig::builder().build();
    assert_eq!(c.port, DEFAULT_WARP_PORT);
    assert_eq!(c.reg_port, DEFAULT_REG_PORT);
    assert_eq!(c.port, 42000);
    assert_eq!(c.reg_port, 42001);
    assert_eq!(c.bind_addr_v4, Some(Ipv4Addr::new(0, 0, 0, 0)));
    assert_eq!(c.bind_addr_v6, None);
    assert_eq!(c.group_code, "Warpinator");
    assert_eq!(c.hostname, "warpinator");
    assert_eq!(c.username, "warpinator-rs");
    assert_eq!(c.display_name, "Warpinator RS");
    assert_eq!(c.picture, None);
}

#[test]
fn user_config_v6_only_keeps_v4_unset() {
    let c = UserConfig::builder().bind_addr_v6(Ipv6Addr { bits: 1 }).build();
    assert_eq!(c.bind_addr_v4, None);
    assert_eq!(c.bind_addr_v6, Some(Ipv6Addr { bits: 1 }));
}

#[test]
fn user_config_settings() {
    let c = UserConfigBuilder::new()
        .port(1)
        .reg_port(2)
        .bind_addr_v4(Ipv4Addr::new(192, 168, 1, 5))
        .group_code("Secret")
        .hostname("box")
        .username("ann")
        .display_name("Ann")
        .picture(&[1, 2, 3])
        .build();
    assert_eq!(c.port, 1);
    assert_eq!(c.reg_port, 2);
    assert_eq!(c.bind_addr_v4, Some(Ipv4Addr::new(192, 168, 1, 5)));
    assert_eq!(c.group_code, "Secret");
    assert_eq!(c.hostname, "box");
    assert_eq!(c.username, "ann");
    assert_eq!(c.display_name, "Ann");
    assert_eq!(c.picture, Some(vec![1, 2, 3]));
}

#[test]
fn user_config_lookups() {
    let b = UserConfig::builder()
        .default_bind_addr_v4(Some(IpAddr::V4(Ipv4Addr::new(10, 0, 0, 2))))
        .default_bind_addr_v6(Some(IpAddr::V4(Ipv4Addr::new(10, 0, 0, 2))))
        .default_hostname(Some("laptop".to_string()));
    assert_eq!(b.bind_addr_v4, Some(Ipv4Addr::new(10, 0, 0, 2)));
    assert_eq!(b.bind_addr_v6, Some(Ipv6Addr { bits: 0 }));
    assert_eq!(b.hostname, Some("laptop".to_string()));
    let b = UserConfig::builder()
        .default_bind_addr_v4(Some(IpAddr::V6(Ipv6Addr { bits: 7 })))
        .default_bind_addr_v6(None)
        .default_hostname(None);
    assert_eq!(b.bind_addr_v4, Some(Ipv4Addr::new(0, 0, 0, 0)));
    assert_eq!(b.bind_addr_v6, None);
    assert_eq!(b.hostname, None);
    assert_eq!(b.build().hostname, "warpinator");
}

#[test]
fn user_config_setters() {
    let mut c = UserConfig::default();
    assert_eq!(c.bind_addr_v6, Some(Ipv6Addr { bits: 0 }));
    c.set_display_name("Bob");
    assert_eq!(c.display_name, "Bob");
    c.set_picture(Some(&[9, 9]));
    assert_eq!(c.picture, Some(vec![9, 9]));
    c.set_picture(None);
    assert_eq!(c.picture, None);
}

#[test]
fn host_protocol_config_keeps_defaults() {
    let host = bindings::ProtocolConfig {
        reconnect_interval: Some(Duration::from_secs(60)),
        connect_timeout: None,
        ping_interval: None,
        ping_timeout: Some(Duration::from_secs(2)),
    };
    let c = host.to_config();
    assert_eq!(c.reconnect_interval, Duration::from_secs(60));
    assert_eq!(c.connect_timeout, Duration::from_secs(10));
    assert_eq!(c.ping_interval, Duration::from_secs(10));
    assert_eq!(c.ping_timeout, Duration::from_secs(2));
    assert_eq!(c.features.bits(), 1);
}

#[test]
fn host_configuration_of_user_config() {
    let c = UserConfig::builder().group_code("g").hostname("h").username("u").display_name("d").build();
    let p = bindings::Configuration::of_user_config(&c);
    assert_eq!(p.group_code, "g");
    assert_eq!(p.hostname, "h");
    assert_eq!(p.username, "u");
    assert_eq!(p.display_name, "d");
}

#[test]
fn host_user_config_takes_machine_defaults() {
    let host = bindings::HostUserConfig {
        port: Some(1),
        reg_port: None,
        bind_addr_v4: None,
        bind_addr_v6: Some(Ipv6Addr { bits: 1 }),
        group_code: Some("g".to_string()),
        hostname: None,
        username: None,
        display_name: None,
        picture: None,
    };
    let c = host.to_config(
        Some(IpAddr::V4(Ipv4Addr::new(10, 0, 0, 2))),
        Some(IpAddr::V6(Ipv6Addr { bits: 7 })),
        Some("box".to_string()),
    );
    assert_eq!(c.port, 1);
    assert_eq!(c.reg_port, 42001);
    assert_eq!(c.bind_addr_v4, Some(Ipv4Addr::new(10, 0, 0, 2)));
    assert_eq!(c.bind_addr_v6, Some(Ipv6Addr { bits: 1 }));
    assert_eq!(c.group_code, "g");
    assert_eq!(c.hostname, "box");
    assert_eq!(c.username, "warpinator-rs");
    let bare = bindings::HostUserConfig {
        port: None,
        reg_port: None,
        bind_addr_v4: None,
        bind_addr_v6: None,
        group_code: None,
        hostname: None,
        username: None,
        display_name: None,
        picture: None,
    };
    let c = bare.to_config(None, None, None);
    assert_eq!(c.bind_addr_v4, Some(Ipv4Addr::new(0, 0, 0, 0)));
    assert_eq!(c.bind_addr_v6, None);
    assert_eq!(c.hostname, "warpinator");
}
