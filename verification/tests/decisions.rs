use std::sync::Arc;
use async_smoltcp::channel::TryRecvOutcome;
use async_smoltcp::packet::{IpAddr, Packet, TcpPacket, UdpPacket};
use async_smoltcp::smol_socket::{read_chunk, ReadChunk};
use async_smoltcp::spin::{endpoint_of, packet_from_datagram, tcp_outgoing, udp_outgoing, TcpOutgoing, UdpOutgoing};
use smoltcp::wire::{IpAddress, IpEndpoint, Ipv4Address, Ipv6Address};

fn tcp(data: &[u8]) -> Packet {
    Packet::new_tcp(TcpPacket { data: data.to_vec() })
}

fn udp(data: &[u8], ip: IpAddr, port: u16) -> Packet {
    Packet::new_udp(UdpPacket { data: data.to_vec(), from_ip: ip, from_port: port })
}

#[test]
fn tcp_outgoing_sends_tcp_bytes() {
    match tcp_outgoing(&TryRecvOutcome::Received(Arc::new(tcp(b"hello")))) {
        TcpOutgoing::Send(d) => assert_eq!(d, b"hello".to_vec()),
        _ => panic!("expected Send"),
    }
}

#[test]
fn tcp_outgoing_other_outcomes() {
    assert!(matches!(tcp_outgoing(&TryRecvOutcome::Empty), TcpOutgoing::Idle));
    assert!(matches!(tcp_outgoing(&TryRecvOutcome::Disconnected), TcpOutgoing::Close));
    let p = udp(b"x", IpAddr::V4([1, 2, 3, 4]), 7);
    assert!(matches!(tcp_outgoing(&TryRecvOutcome::Received(Arc::new(p))), TcpOutgoing::NotTcp));
}

#[test]
fn udp_outgoing_sends_to_named_peer() {
    let p = udp(b"dns", IpAddr::V4([8, 8, 8, 8]), 53);
    match udp_outgoing(&TryRecvOutcome::Received(Arc::new(p))) {
        UdpOutgoing::Send(d, e) => {
            assert_eq!(d, b"dns".to_vec());
            assert_eq!(e, IpEndpoint::new(IpAddress::v4(8, 8, 8, 8), 53));
        }
        _ => panic!("expected Send"),
    }
    assert!(matches!(udp_outgoing(&TryRecvOutcome::Empty), UdpOutgoing::Idle));
    assert!(matches!(udp_outgoing(&TryRecvOutcome::Disconnected), UdpOutgoing::Close));
    assert!(matches!(udp_outgoing(&TryRecvOutcome::Received(Arc::new(tcp(b"a")))), UdpOutgoing::NotUdp));
}

#[test]
fn endpoint_of_v4_and_v6() {
    assert_eq!(endpoint_of(IpAddr::V4([192, 168, 1, 2]), 80), IpEndpoint::new(IpAddress::v4(192, 168, 1, 2), 80));
    let o = [0x20, 0x01, 0x0d, 0xb8, 0, 0, 0, 0, 0, 0, 0, 0, 0, 0, 0, 1];
    assert_eq!(endpoint_of(IpAddr::V6(o), 443), IpEndpoint::new(IpAddress::Ipv6(Ipv6Address(o)), 443));
}

#[test]
fn datagram_packets_name_their_sender() {
    let from = IpEndpoint::new(IpAddress::Ipv4(Ipv4Address([10, 1, 2, 3])), 5000);
    let p = packet_from_datagram(vec![4, 5], from).unwrap();
    assert!(p.tcp.is_none());
    assert_eq!(p.udp, Some(UdpPacket { data: vec![4, 5], from_ip: IpAddr::V4([10, 1, 2, 3]), from_port: 5000 }));
    let o = [1u8; 16];
    let p6 = packet_from_datagram(vec![], IpEndpoint::new(IpAddress::Ipv6(Ipv6Address(o)), 1)).unwrap();
    assert_eq!(p6.udp.unwrap().from_ip, IpAddr::V6(o));
}

#[test]
fn datagram_from_unspecified_address_has_no_packet() {
    let from = IpEndpoint::new(IpAddress::Unspecified, 5000);
    assert!(packet_from_datagram(vec![1], from).is_none());
}

#[test]
fn read_chunk_whole_packet_when_it_fits() {
    match read_chunk(&tcp(b"abc"), 0, 3) {
        ReadChunk::Data(d) => assert_eq!(d, b"abc".to_vec()),
        _ => panic!(),
    }
    match read_chunk(&tcp(b""), 0, 0) {
        ReadChunk::Data(d) => assert!(d.is_empty()),
        _ => panic!(),
    }
}

#[test]
fn read_chunk_cuts_to_remaining_room() {
    match read_chunk(&tcp(b"abcdef"), 0, 4) {
        ReadChunk::Data(d) => assert_eq!(d, b"abcd".to_vec()),
        _ => panic!(),
    }
    match read_chunk(&tcp(b"abcdef"), 2, 4) {
        ReadChunk::Data(d) => assert_eq!(d, b"cdef".to_vec()),
        _ => panic!(),
    }
    match read_chunk(&tcp(b"abcdef"), 2, 3) {
        ReadChunk::Data(d) => assert_eq!(d, b"cde".to_vec()),
        _ => panic!(),
    }
}

#[test]
fn read_chunk_of_non_tcp_packet_is_invalid_access() {
    let p = udp(b"abc", IpAddr::V4([1, 1, 1, 1]), 1);
    assert!(matches!(read_chunk(&p, 0, 10), ReadChunk::InvalidAccess));
}
