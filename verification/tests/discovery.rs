use ascom_alpaca::discovery::{
    discovery_targets, group_interfaces, peer_addr, DiscoveryAction, DiscoveryEvent, DiscoveryRun,
    DiscoveryTarget, InterfaceAddr, InterfaceEntry, Ipv4Info, PeerAddr, DEFAULT_DISCOVERY_PORT,
    DISCOVERY_ADDR_V6, LOCALHOST_V6,
};

fn v4(a: u8, b: u8, c: u8, d: u8) -> u32 {
    u32::from_be_bytes([a, b, c, d])
}

fn entry(name: &str, up: bool, loopback: bool, addr: InterfaceAddr) -> InterfaceEntry {
    InterfaceEntry { name: name.to_owned(), index: Some(7), is_oper_up: up, is_loopback: loopback, addr }
}

#[test]
fn interfaces_are_grouped_by_name_in_order() {
    let entries = vec![
        entry("eth0", true, false, InterfaceAddr::V4(Ipv4Info { addr: v4(192, 168, 1, 5), netmask: v4(255, 255, 255, 0) })),
        entry("lo", true, true, InterfaceAddr::V6(1)),
        entry("wlan0", false, false, InterfaceAddr::V6(2)),
        entry("eth0", true, false, InterfaceAddr::V6(0xfe80 << 112)),
    ];
    let groups = group_interfaces(&entries);
    assert_eq!(groups.len(), 2);
    assert_eq!(groups[0].name, "eth0");
    assert_eq!(groups[0].ipv4.len(), 1);
    assert_eq!(groups[0].ipv6, vec![0xfe80 << 112]);
    assert_eq!(groups[1].name, "lo");
    assert!(groups[1].is_loopback);
    assert_eq!(groups[1].index, 7);
}

#[test]
fn discovery_targets_cover_broadcast_and_multicast() {
    let entries = vec![
        entry("eth0", true, false, InterfaceAddr::V4(Ipv4Info { addr: v4(192, 168, 1, 5), netmask: v4(255, 255, 255, 0) })),
        entry("eth0", true, false, InterfaceAddr::V6(0xfe80 << 112)),
        entry("lo", true, true, InterfaceAddr::V6(1)),
    ];
    let targets = discovery_targets(&group_interfaces(&entries));
    let broadcast = 0xffff_0000_0000u128 + u128::from(v4(192, 168, 1, 255));
    assert_eq!(
        targets,
        vec![
            DiscoveryTarget { addr: broadcast, interface_index: 7, multicast: false },
            DiscoveryTarget { addr: DISCOVERY_ADDR_V6, interface_index: 7, multicast: true },
            DiscoveryTarget { addr: LOCALHOST_V6, interface_index: 7, multicast: false },
        ]
    );
    assert_eq!(DEFAULT_DISCOVERY_PORT, 32227);
}

#[test]
fn mapped_answers_are_reported_as_ipv4() {
    let mapped = 0xffff_0000_0000u128 + u128::from(v4(10, 0, 0, 2));
    assert_eq!(peer_addr(mapped, 11111), PeerAddr::V4(v4(10, 0, 0, 2), 11111));
    assert_eq!(peer_addr(LOCALHOST_V6, 80), PeerAddr::V6(1, 80));
}

#[test]
fn discovery_run_reports_each_server_once() {
    let a = PeerAddr::V4(v4(10, 0, 0, 2), 11111);
    let b = PeerAddr::V6(5, 80);
    let mut run = DiscoveryRun::new(2);
    assert_eq!(run.step(DiscoveryEvent::Start), DiscoveryAction::SendRequests);
    assert_eq!(run.step(DiscoveryEvent::Received(a)), DiscoveryAction::Emit(a));
    assert_eq!(run.step(DiscoveryEvent::Received(a)), DiscoveryAction::Listen);
    assert_eq!(run.step(DiscoveryEvent::ReceiveFailed), DiscoveryAction::Listen);
    assert_eq!(run.step(DiscoveryEvent::TimedOut), DiscoveryAction::SendRequests);
    assert_eq!(run.step(DiscoveryEvent::Received(b)), DiscoveryAction::Emit(b));
    assert_eq!(run.step(DiscoveryEvent::Received(a)), DiscoveryAction::Listen);
    assert_eq!(run.step(DiscoveryEvent::TimedOut), DiscoveryAction::Finish);
    assert_eq!(run.step(DiscoveryEvent::Start), DiscoveryAction::SendRequests);
    assert_eq!(run.step(DiscoveryEvent::Received(a)), DiscoveryAction::Emit(a));
}

#[test]
fn discovery_without_requests_finishes_at_once() {
    let mut run = DiscoveryRun::new(0);
    assert_eq!(run.step(DiscoveryEvent::Start), DiscoveryAction::Finish);
}
