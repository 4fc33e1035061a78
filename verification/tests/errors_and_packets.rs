use async_smoltcp::error::{smol_e_connection, smol_e_send, SocketConnectionError, SocketSendError};
use async_smoltcp::packet::{IpAddr, Packet, TcpPacket, UdpPacket};
use async_smoltcp::{__feed__, random_source_port, DEFAULT_MTU};

const ALL_ERRORS: [smoltcp::Error; 11] = [
    smoltcp::Error::Exhausted,
    smoltcp::Error::Illegal,
    smoltcp::Error::Unaddressable,
    smoltcp::Error::Finished,
    smoltcp::Error::Truncated,
    smoltcp::Error::Checksum,
    smoltcp::Error::Unrecognized,
    smoltcp::Error::Fragmented,
    smoltcp::Error::Malformed,
    smoltcp::Error::Dropped,
    smoltcp::Error::NotSupported,
];

#[test]
fn source_ports_stay_in_range() {
    for _ in 0..2000 {
        let p = random_source_port();
        assert!((42000..65000).contains(&p), "port {}", p);
    }
}

#[test]
fn feed_hands_argument_to_closure() {
    assert_eq!(__feed__(20, |x: i32| x + 22), 42);
    assert_eq!(__feed__("ab".to_string(), |s: String| s.len()), 2);
}

#[test]
fn default_mtu_is_1500() {
    assert_eq!(DEFAULT_MTU, 1500);
}

#[test]
fn exhausted_maps_to_exhausted_send_error() {
    assert_eq!(smol_e_send(smoltcp::Error::Exhausted), SocketSendError::Exhausted);
}

#[test]
fn other_errors_map_to_unknown_send_error_with_message() {
    for e in ALL_ERRORS.iter().skip(1) {
        assert_eq!(smol_e_send(*e), SocketSendError::Unknown(format!("{}", e)));
    }
    assert_eq!(
        smol_e_send(smoltcp::Error::Illegal),
        SocketSendError::Unknown("illegal operation".to_string())
    );
}

#[test]
fn connection_errors_map_like_send_errors() {
    assert_eq!(smol_e_connection(smoltcp::Error::Exhausted), SocketConnectionError::Exhausted);
    for e in ALL_ERRORS.iter().skip(1) {
        assert_eq!(smol_e_connection(*e), SocketConnectionError::Unknown(format!("{}", e)));
    }
    assert_eq!(
        smol_e_connection(smoltcp::Error::Unaddressable),
        SocketConnectionError::Unknown("unaddressable destination".to_string())
    );
}

#[test]
fn packet_constructors_fill_one_side() {
    let t = Packet::new_tcp(TcpPacket { data: vec![1, 2, 3] });
    assert_eq!(t.tcp, Some(TcpPacket { data: vec![1, 2, 3] }));
    assert!(t.udp.is_none());
    let u = Packet::new_udp(UdpPacket { data: vec![9], from_ip: IpAddr::V4([10, 0, 0, 1]), from_port: 53 });
    assert!(u.tcp.is_none());
    assert_eq!(u.udp.unwrap().from_port, 53);
}
