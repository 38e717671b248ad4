use localsend_core::discovery::DeviceScanner;
use localsend_core::protos::{DeviceInfo, DeviceResponse};
use localsend_core::wire::encode_announcement;

fn decode(bytes: &[u8]) -> DeviceResponse {
    let v: serde_json::Value = serde_json::from_slice(bytes).expect("datagram must be JSON");
    DeviceResponse {
        device_info: DeviceInfo {
            alias: v.get("alias").unwrap().as_str().unwrap().to_string(),
            device_type: v.get("deviceType").unwrap().as_str().unwrap().to_string(),
            device_model: v.get("deviceModel").and_then(|m| m.as_str()).map(|s| s.to_string()),
            ip: String::new(),
            port: 0,
        },
        announcement: v.get("announcement").unwrap().as_bool().unwrap(),
        fingerprint: v.get("fingerprint").unwrap().as_str().unwrap().to_string(),
    }
}

fn foreign(alias: &str, fingerprint: &str, announcement: bool) -> DeviceResponse {
    DeviceResponse {
        device_info: DeviceInfo {
            alias: alias.to_string(),
            device_type: "mobile".to_string(),
            device_model: None,
            ip: String::new(),
            port: 0,
        },
        announcement,
        fingerprint: fingerprint.to_string(),
    }
}

#[test]
fn self_filter_drops_own_packets() {
    let mut s = DeviceScanner::new("rustsend".to_string(), "0.0.0.0".to_string(), 53317);
    // The scanner's own announcement loops back with some source address.
    let own = decode(&s.announcement_message());
    let reply = s.handle_datagram(own, "192.168.1.9".to_string(), 53317);
    assert!(reply.is_none());
    assert!(s.devices.is_empty());
}

#[test]
fn foreign_announcement_gets_exactly_one_reply() {
    let mut s = DeviceScanner::new("rustsend".to_string(), "0.0.0.0".to_string(), 53317);
    let reply = s
        .handle_datagram(foreign("other", "fp-1", true), "192.168.1.9".to_string(), 40000)
        .expect("an announcement must be answered");
    let v: serde_json::Value = serde_json::from_slice(&reply).unwrap();
    assert_eq!(v.get("announcement").unwrap().as_bool(), Some(false));
    assert_eq!(v.get("alias").unwrap().as_str(), Some("rustsend"));
    assert_eq!(
        v.get("fingerprint").unwrap().as_str(),
        Some(s.this_device.fingerprint.as_str())
    );
    // Transport-derived fields are never on the wire.
    assert!(v.get("ip").is_none());
    assert!(v.get("port").is_none());
}

#[test]
fn foreign_reply_gets_no_reply() {
    let mut s = DeviceScanner::new("rustsend".to_string(), "0.0.0.0".to_string(), 53317);
    let reply = s.handle_datagram(foreign("other", "fp-1", false), "192.168.1.9".to_string(), 40000);
    assert!(reply.is_none());
    // The peer is still learned.
    assert_eq!(s.devices.len(), 1);
    assert_eq!(s.devices[0].alias, "other");
    assert_eq!(s.devices[0].ip, "192.168.1.9");
    assert_eq!(s.devices[0].port, 40000);
}

#[test]
fn peer_table_is_keyed_by_source_ip() {
    let mut s = DeviceScanner::new("rustsend".to_string(), "0.0.0.0".to_string(), 53317);
    s.handle_datagram(foreign("one", "fp-1", false), "192.168.1.9".to_string(), 40000);
    // Same source, changed alias: the entry is updated, not duplicated.
    s.handle_datagram(foreign("renamed", "fp-1", false), "192.168.1.9".to_string(), 40000);
    assert_eq!(s.devices.len(), 1);
    assert_eq!(s.devices[0].alias, "renamed");
    // A second source makes a second entry.
    s.handle_datagram(foreign("two", "fp-2", false), "192.168.1.10".to_string(), 40000);
    assert_eq!(s.devices.len(), 2);
}

#[test]
fn discovery_burst_two_instances() {
    let mut a = DeviceScanner::new("alpha".to_string(), "0.0.0.0".to_string(), 53317);
    let mut b = DeviceScanner::new("beta".to_string(), "0.0.0.0".to_string(), 53317);
    assert_ne!(a.this_device.fingerprint, b.this_device.fingerprint);

    // b hears a's announcement on loopback and answers it.
    let reply_of_b = b
        .handle_datagram(decode(&a.announcement_message()), "127.0.0.1".to_string(), 53317)
        .expect("b must answer a's announcement");
    // a hears b's reply; a reply is never answered again.
    let reply_of_a = a.handle_datagram(decode(&reply_of_b), "127.0.0.1".to_string(), 53317);
    assert!(reply_of_a.is_none());

    // Each table holds exactly one entry: the other peer, never itself.
    assert_eq!(a.devices.len(), 1);
    assert_eq!(a.devices[0].alias, "beta");
    assert_eq!(b.devices.len(), 1);
    assert_eq!(b.devices[0].alias, "alpha");

    // Their own looped-back announcements change nothing.
    let own_a = decode(&a.announcement_message());
    assert!(a.handle_datagram(own_a, "127.0.0.1".to_string(), 53317).is_none());
    assert_eq!(a.devices.len(), 1);
}

#[test]
fn announcement_wire_format_is_exact() {
    let s = DeviceScanner::new("rustsend".to_string(), "0.0.0.0".to_string(), 53317);
    let expected = format!(
        "{{\"alias\":\"rustsend\",\"deviceType\":\"desktop\",\"deviceModel\":\"linux\",\"announcement\":true,\"fingerprint\":\"{}\"}}",
        s.this_device.fingerprint
    );
    assert_eq!(s.announcement_message(), expected.into_bytes());
}

#[test]
fn encoder_escapes_and_round_trips() {
    let d = DeviceResponse {
        device_info: DeviceInfo {
            alias: "we\"ird\\na\nme".to_string(),
            device_type: "desk\u{1F980}top".to_string(),
            device_model: None,
            ip: "10.0.0.1".to_string(),
            port: 1,
        },
        announcement: true,
        fingerprint: "fp".to_string(),
    };
    let bytes = encode_announcement(&d, false);
    let v: serde_json::Value = serde_json::from_slice(&bytes).expect("escaped JSON must parse");
    assert_eq!(v.get("alias").unwrap().as_str(), Some("we\"ird\\na\nme"));
    assert_eq!(v.get("deviceType").unwrap().as_str(), Some("desk\u{1F980}top"));
    assert!(v.get("deviceModel").unwrap().is_null());
    assert_eq!(v.get("announcement").unwrap().as_bool(), Some(false));
    assert!(v.get("ip").is_none());
}

#[test]
fn scanner_fingerprint_is_a_uuid() {
    let s = DeviceScanner::new("rustsend".to_string(), "0.0.0.0".to_string(), 53317);
    let parsed = uuid::Uuid::parse_str(&s.this_device.fingerprint).unwrap();
    assert_eq!(parsed.get_version_num(), 4);
    assert!(s.this_device.announcement);
    assert_eq!(s.this_device.device_info.device_type, "desktop");
    assert_eq!(s.this_device.device_info.device_model.as_deref(), Some("linux"));
}

#[test]
fn first_non_loopback_skips_loopback_addresses() {
    let addrs = vec![
        "127.0.0.1".to_string(),
        "::1".to_string(),
        "192.168.1.5".to_string(),
        "10.0.0.3".to_string(),
    ];
    assert_eq!(
        DeviceScanner::first_non_loopback(&addrs),
        Some("192.168.1.5".to_string())
    );
    let only_loop = vec!["127.0.0.1".to_string(), "::1".to_string()];
    assert_eq!(DeviceScanner::first_non_loopback(&only_loop), None);
    assert_eq!(DeviceScanner::first_non_loopback(&vec![]), None);
}
