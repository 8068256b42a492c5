use quiche_mio_runner::addr::{Addr, SendInfo};
use quiche_mio_runner::socket::{
    Offloads, SendPlan, Socket, GSO_PROBE_SEGMENT_SIZE, GSO_SUPPORT_PROBE_SEGMENT_SIZE,
};
use quiche_mio_runner::sockets::MioSockets;

const ALL: Offloads = Offloads { gro: true, pacing: true, gso: true };
const NONE: Offloads = Offloads { gro: false, pacing: false, gso: false };

fn v4(last: u32, port: u16) -> Addr {
    Addr::V4 { octets: 0x0a00_0000 + last, port }
}

fn v6(port: u16, scope_id: u32) -> Addr {
    Addr::V6 { segments: 1, port, flowinfo: 0, scope_id }
}

fn packet_from(from: Addr, at: Option<u64>) -> SendInfo {
    SendInfo { from, to: v4(200, 9000), at }
}

#[test]
fn bind_caches_the_reported_address() {
    for addr in [v4(1, 443), v4(1, 0), v6(443, 0), v6(443, 7)] {
        assert_eq!(Socket::bind(addr, false, false, false, ALL).local_addr(), addr);
        assert_eq!(Socket::bind(addr, true, true, true, NONE).local_addr(), addr);
    }
}

#[test]
fn features_are_enabled_when_wanted_and_accepted() {
    let s = Socket::bind(v4(1, 1), false, false, false, ALL);
    assert_eq!(s.offloads(), ALL);
    let s = Socket::bind(v4(1, 1), true, false, false, ALL);
    assert_eq!(s.offloads(), Offloads { gro: false, pacing: true, gso: true });
    let s = Socket::bind(v4(1, 1), false, true, false, ALL);
    assert_eq!(s.offloads(), Offloads { gro: true, pacing: false, gso: true });
    let s = Socket::bind(v4(1, 1), false, false, true, ALL);
    assert_eq!(s.offloads(), Offloads { gro: true, pacing: true, gso: false });
    let s = Socket::bind(v4(1, 1), false, false, false, Offloads { gro: false, pacing: true, gso: false });
    assert_eq!(s.offloads(), Offloads { gro: false, pacing: true, gso: false });
    let s = Socket::bind(v4(1, 1), false, false, false, NONE);
    assert_eq!(s.offloads(), NONE);
}

#[test]
fn wanted_features_are_those_not_disabled() {
    assert_eq!(Socket::wanted(false, false, false), ALL);
    assert_eq!(Socket::wanted(true, true, true), NONE);
    assert_eq!(Socket::wanted(true, false, false), Offloads { gro: false, pacing: true, gso: true });
    assert_eq!(Socket::wanted(false, false, true), Offloads { gro: true, pacing: true, gso: false });
}

#[test]
fn probe_segment_sizes() {
    assert_eq!(GSO_PROBE_SEGMENT_SIZE, 9000);
    assert_eq!(GSO_SUPPORT_PROBE_SEGMENT_SIZE, 1500);
}

#[test]
fn send_plan_follows_the_enabled_features() {
    let info = packet_from(v4(1, 1), Some(123_456_789));
    let s = Socket::bind(v4(1, 1), false, false, false, ALL);
    assert_eq!(s.send(&info, 1350), SendPlan { segment_size: Some(1350), tx_time: Some(123_456_789) });
    let s = Socket::bind(v4(1, 1), false, true, false, ALL);
    assert_eq!(s.send(&info, 1350), SendPlan { segment_size: Some(1350), tx_time: None });
    let s = Socket::bind(v4(1, 1), false, false, true, ALL);
    assert_eq!(s.send(&info, 1350), SendPlan { segment_size: None, tx_time: Some(123_456_789) });
    let s = Socket::bind(v4(1, 1), true, true, true, ALL);
    assert_eq!(s.send(&info, 1350), SendPlan { segment_size: None, tx_time: None });
}

#[test]
fn send_plan_has_no_transmit_time_when_the_packet_has_none() {
    let s = Socket::bind(v4(1, 1), false, false, false, ALL);
    let plan = s.send(&packet_from(v4(1, 1), None), 1200);
    assert_eq!(plan, SendPlan { segment_size: Some(1200), tx_time: None });
}

#[test]
fn empty_registry_finds_nothing() {
    let sockets = MioSockets::new();
    assert_eq!(sockets.get(0), None);
    assert_eq!(sockets.find(&v4(1, 1)), None);
    assert_eq!(sockets.send(&packet_from(v4(1, 1), None), 1200), None);
}

#[test]
fn default_registry_is_empty() {
    let sockets = MioSockets::default();
    assert_eq!(sockets.get(0), None);
    assert_eq!(sockets.find(&v6(1, 1)), None);
}

#[test]
fn inserted_socket_is_found_by_key_and_by_address() {
    let mut sockets = MioSockets::new();
    let a = Socket::bind(v4(1, 443), false, false, false, ALL);
    let b = Socket::bind(v6(443, 2), true, true, true, ALL);
    let ka = sockets.insert(a);
    let kb = sockets.insert(b);
    assert_ne!(ka, kb);
    assert_eq!(sockets.get(ka), Some(&a));
    assert_eq!(sockets.get(kb), Some(&b));
    assert_eq!(sockets.find(&v4(1, 443)), Some(ka));
    assert_eq!(sockets.find(&v6(443, 2)), Some(kb));
    assert_eq!(sockets.find(&v6(443, 3)), None);
    assert_eq!(sockets.find(&v4(1, 444)), None);
    assert_eq!(sockets.get(kb + 1), None);
}

#[test]
fn send_resolves_the_socket_bound_to_the_source_address() {
    let mut sockets = MioSockets::new();
    let mut keys = vec![];
    for i in 0..5u32 {
        let disable = i % 2 == 0;
        keys.push(sockets.insert(Socket::bind(v4(i, 4000), disable, disable, disable, ALL)));
    }
    for i in 0..5u32 {
        let info = packet_from(v4(i, 4000), Some(77));
        let (key, plan) = sockets.send(&info, 1000).unwrap();
        assert_eq!(key, keys[i as usize]);
        assert_eq!(sockets.get(key).unwrap().local_addr(), info.from);
        let expected = if i % 2 == 0 {
            SendPlan { segment_size: None, tx_time: None }
        } else {
            SendPlan { segment_size: Some(1000), tx_time: Some(77) }
        };
        assert_eq!(plan, expected);
    }
}

#[test]
fn send_from_an_unregistered_address_resolves_nothing() {
    let mut sockets = MioSockets::new();
    sockets.insert(Socket::bind(v4(1, 4000), false, false, false, ALL));
    assert_eq!(sockets.send(&packet_from(v4(1, 4001), None), 1000), None);
    assert_eq!(sockets.send(&packet_from(v6(4000, 0), None), 1000), None);
}

#[test]
fn later_socket_on_the_same_address_takes_over_the_address() {
    let mut sockets = MioSockets::new();
    let first = sockets.insert(Socket::bind(v4(1, 4000), true, true, true, ALL));
    let second = sockets.insert(Socket::bind(v4(1, 4000), false, false, false, ALL));
    assert_ne!(first, second);
    assert_eq!(sockets.find(&v4(1, 4000)), Some(second));
    assert!(sockets.get(first).is_some());
}
