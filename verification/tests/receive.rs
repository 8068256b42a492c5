use quiche_mio_runner::addr::Addr;
use quiche_mio_runner::failure::RecvFault;
use quiche_mio_runner::recvfrom::{
    recv_from, recv_from_gro, segment_size_of, ControlMessage, Datagram, Received,
};
use quiche_mio_runner::socket::{Offloads, Socket};

fn peer() -> Addr {
    Addr::V4 { octets: 0xc0a8_0001, port: 4433 }
}

fn datagram(bytes: usize, control: Vec<ControlMessage>) -> Datagram {
    Datagram { bytes, address: Some(peer()), control }
}

#[test]
fn plain_receive_reports_length_as_segment_size() {
    for len in [0usize, 1, 1200, 1500, 65_507, 65_535, 65_536, 70_000] {
        let got = recv_from(&datagram(len, vec![]), false);
        assert_eq!(got, Ok(Received { len, from: peer(), segment_size: len }));
    }
}

#[test]
fn plain_receive_ignores_control_messages() {
    let got = recv_from(&datagram(3000, vec![ControlMessage::UdpGroSegments(1500), ControlMessage::Other]), false);
    assert_eq!(got, Ok(Received { len: 3000, from: peer(), segment_size: 3000 }));
}

#[test]
fn coalesced_receive_reports_stated_segment_size() {
    let got = recv_from(&datagram(9000, vec![ControlMessage::UdpGroSegments(1500)]), true);
    assert_eq!(got, Ok(Received { len: 9000, from: peer(), segment_size: 1500 }));
    assert_eq!(recv_from_gro(&datagram(9000, vec![ControlMessage::UdpGroSegments(1500)])), got);
}

#[test]
fn coalesced_receive_without_control_message_reports_zero() {
    let got = recv_from(&datagram(1200, vec![]), true);
    assert_eq!(got, Ok(Received { len: 1200, from: peer(), segment_size: 0 }));
}

#[test]
fn last_segment_size_message_wins() {
    let control = vec![ControlMessage::UdpGroSegments(1200), ControlMessage::UdpGroSegments(1350)];
    assert_eq!(segment_size_of(&control), Some(1350));
    assert_eq!(segment_size_of(&vec![]), Some(0));
}

#[test]
fn segment_size_keeps_low_sixteen_bits() {
    assert_eq!(segment_size_of(&vec![ControlMessage::UdpGroSegments(65_535)]), Some(65_535));
    assert_eq!(segment_size_of(&vec![ControlMessage::UdpGroSegments(65_536)]), Some(0));
    assert_eq!(segment_size_of(&vec![ControlMessage::UdpGroSegments(65_536 + 1500)]), Some(1500));
    assert_eq!(segment_size_of(&vec![ControlMessage::UdpGroSegments(-1)]), Some(65_535));
    assert_eq!(segment_size_of(&vec![ControlMessage::UdpGroSegments(i32::MIN)]), Some(0));
    assert_eq!(segment_size_of(&vec![ControlMessage::UdpGroSegments(i32::MAX)]), Some(65_535));
    assert_eq!(segment_size_of(&vec![ControlMessage::UdpGroSegments(-65_536 + 7)]), Some(7));
}

#[test]
fn unexpected_control_message_is_a_fault() {
    let control = vec![ControlMessage::UdpGroSegments(1200), ControlMessage::Other];
    assert_eq!(segment_size_of(&control), None);
    assert_eq!(recv_from(&datagram(1200, control), true), Err(RecvFault::UnexpectedControlMessage));
    let first = vec![ControlMessage::Other, ControlMessage::UdpGroSegments(1200)];
    assert_eq!(recv_from_gro(&datagram(1200, first)), Err(RecvFault::UnexpectedControlMessage));
}

#[test]
fn missing_address_is_a_fault() {
    let nameless = Datagram { bytes: 10, address: None, control: vec![] };
    assert_eq!(recv_from(&nameless, true), Err(RecvFault::MissingAddress));
    assert_eq!(recv_from(&nameless, false), Err(RecvFault::MissingAddress));
}

#[test]
fn unexpected_control_message_is_reported_before_missing_address() {
    let both = Datagram { bytes: 10, address: None, control: vec![ControlMessage::Other] };
    assert_eq!(recv_from_gro(&both), Err(RecvFault::UnexpectedControlMessage));
}

#[test]
fn socket_receives_as_its_coalescing_says() {
    let local = Addr::V4 { octets: 0x7f00_0001, port: 443 };
    let all = Offloads { gro: true, pacing: true, gso: true };
    let with = Socket::bind(local, false, false, false, all);
    let without = Socket::bind(local, true, false, false, all);
    let d = datagram(9000, vec![ControlMessage::UdpGroSegments(1500)]);
    assert_eq!(with.recv(&d), Ok(Received { len: 9000, from: peer(), segment_size: 1500 }));
    assert_eq!(without.recv(&d), Ok(Received { len: 9000, from: peer(), segment_size: 9000 }));
}
