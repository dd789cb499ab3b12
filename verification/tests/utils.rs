use rustsend::models::{Ipv4, LocalSendDevice};
use rustsend::utils::{
    collect_usable_ips, get_current_device_ips, get_device_ip_addr, last_ip_segment,
    pick_device_ip, IfaceAddr, Interface,
};
use rustsend::AppState;

fn addr(ip: &str, is_ipv4: bool, is_loopback: bool) -> IfaceAddr {
    IfaceAddr { ip: ip.to_string(), is_ipv4, is_loopback }
}

#[test]
fn last_segment_of_dotted_quad() {
    assert_eq!(last_ip_segment("192.168.1.42"), "42");
    assert_eq!(last_ip_segment("10.0.0.7"), "7");
}

#[test]
fn last_segment_without_dots_is_the_whole_text() {
    assert_eq!(last_ip_segment("localhost"), "localhost");
    assert_eq!(last_ip_segment(""), "");
}

#[test]
fn last_segment_of_trailing_dot_is_empty() {
    assert_eq!(last_ip_segment("192.168.1."), "");
}

#[test]
fn picking_skips_empty_and_loopback_first_interfaces() {
    let ifaces = vec![
        Interface { addrs: vec![] },
        Interface { addrs: vec![addr("127.0.0.1", true, true), addr("10.0.0.2", true, false)] },
        Interface { addrs: vec![addr("192.168.1.5", true, false)] },
    ];
    assert_eq!(pick_device_ip(&ifaces), Some("192.168.1.5".to_string()));
}

#[test]
fn picking_takes_the_first_usable_interface() {
    let ifaces = vec![
        Interface { addrs: vec![addr("10.0.0.2", true, false), addr("10.0.0.3", true, false)] },
        Interface { addrs: vec![addr("192.168.1.5", true, false)] },
    ];
    assert_eq!(pick_device_ip(&ifaces), Some("10.0.0.2".to_string()));
}

#[test]
fn picking_nothing_when_all_interfaces_start_with_loopback() {
    let ifaces = vec![Interface { addrs: vec![addr("127.0.0.1", true, true)] }];
    assert_eq!(pick_device_ip(&ifaces), None);
    assert_eq!(pick_device_ip(&Vec::new()), None);
}

#[test]
fn usable_ips_keep_only_ipv4_non_loopback() {
    let ifaces = vec![
        Interface {
            addrs: vec![
                addr("127.0.0.1", true, true),
                addr("10.0.0.2", true, false),
                addr("fe80::1", false, false),
            ],
        },
        Interface { addrs: vec![addr("192.168.1.5", true, false)] },
    ];
    assert_eq!(
        collect_usable_ips(&ifaces),
        vec!["10.0.0.2".to_string(), "192.168.1.5".to_string()]
    );
}

#[test]
fn machine_queries_answer_without_failing() {
    // The machine's interface list is whatever it is; the calls must simply
    // answer, and the filter must never hand back a loopback address.
    let _ = get_device_ip_addr();
    let ips = get_current_device_ips();
    for ip in ips {
        assert_ne!(ip, "127.0.0.1");
    }
}

#[test]
fn fresh_app_state_is_idle() {
    let dev = LocalSendDevice::new(
        rustsend::ALIAS.to_string(),
        Ipv4 { a: 0, b: 0, c: 0, d: 0 },
        Ipv4 { a: 224, b: 0, c: 0, d: 167 },
        rustsend::MULTICAST_PORT,
    );
    let state = AppState::new(dev);
    assert!(state.coordinator.session.is_none());
    assert_eq!(state.device.devices.len(), 0);
}

#[test]
fn protocol_constants_match_the_wire_defaults() {
    assert_eq!(rustsend::MULTICAST_PORT, 53317);
    assert_eq!(rustsend::BUFFER_SIZE, 2048);
    assert_eq!(rustsend::NUM_REPEAT, 2);
    assert_eq!(rustsend::DEVICE_TYPE, "desktop");
    assert_eq!(rustsend::DEVICE_MODEL, "linux");
    assert_eq!(rustsend::ALIAS, "rustsend");
}
