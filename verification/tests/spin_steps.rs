use std::sync::Arc;
use async_smoltcp::error::SpinError;
use async_smoltcp::packet::{IpAddr, Packet, SocketType, TcpPacket, UdpPacket};
use async_smoltcp::registry::{tcp_socket, SocketRegistry};
use async_smoltcp::spin::{is_address_conversion_error, spin_tcp, spin_udp};
use futures::lock::Mutex as FutMutex;
use smoltcp::iface::{Interface, InterfaceBuilder, SocketHandle};
use smoltcp::phy::{Loopback, Medium};
use smoltcp::socket::{TcpSocket, UdpPacketMetadata, UdpSocket, UdpSocketBuffer};
use smoltcp::time::Instant;
use smoltcp::wire::{IpAddress, IpCidr};

fn loopback() -> Interface<'static, Loopback> {
    InterfaceBuilder::new(Loopback::new(Medium::Ip), vec![])
        .ip_addrs(vec![IpCidr::new(IpAddress::v4(127, 0, 0, 1), 8)])
        .finalize()
}

fn bound_udp(port: u16) -> UdpSocket<'static> {
    let mut s = UdpSocket::new(
        UdpSocketBuffer::new(vec![UdpPacketMetadata::EMPTY; 4], vec![0u8; 1024]),
        UdpSocketBuffer::new(vec![UdpPacketMetadata::EMPTY; 4], vec![0u8; 1024]),
    );
    s.bind(port).unwrap();
    s
}

type Channel = (crossbeam_channel::Sender<Arc<Packet>>, crossbeam_channel::Receiver<Arc<Packet>>);

fn waker_slot() -> Arc<FutMutex<Option<core::task::Waker>>> {
    Arc::new(FutMutex::new(None))
}

#[test]
fn udp_datagram_travels_between_two_sockets() {
    let mut iface = loopback();
    let a = iface.add_socket(bound_udp(1000));
    let b = iface.add_socket(bound_udp(2000));
    let (to_a_tx, to_a_rx): Channel = crossbeam_channel::unbounded();
    let (from_a_tx, from_a_rx): Channel = crossbeam_channel::unbounded();
    let (to_b_tx, to_b_rx): Channel = crossbeam_channel::unbounded();
    let (_from_b_tx, from_b_rx): Channel = crossbeam_channel::unbounded();
    let w = waker_slot();
    from_a_tx
        .send(Arc::new(Packet::new_udp(UdpPacket { data: b"ping".to_vec(), from_ip: IpAddr::V4([127, 0, 0, 1]), from_port: 2000 })))
        .unwrap();
    assert_eq!(spin_udp(iface.get_socket::<UdpSocket>(a), &to_a_tx, &from_a_rx, &w), Ok(()));
    for t in 1..5 {
        let _ = iface.poll(Instant::from_millis(t * 10));
    }
    assert_eq!(spin_udp(iface.get_socket::<UdpSocket>(b), &to_b_tx, &from_b_rx, &w), Ok(()));
    let got = to_b_rx.try_recv().unwrap();
    assert_eq!(
        *got,
        Packet::new_udp(UdpPacket { data: b"ping".to_vec(), from_ip: IpAddr::V4([127, 0, 0, 1]), from_port: 1000 })
    );
    assert!(to_a_rx.try_recv().is_err());
}

#[test]
fn udp_socket_rejects_tcp_packet() {
    let mut iface = loopback();
    let a = iface.add_socket(bound_udp(1000));
    let (to_tx, _to_rx): Channel = crossbeam_channel::unbounded();
    let (from_tx, from_rx): Channel = crossbeam_channel::unbounded();
    from_tx.send(Arc::new(Packet::new_tcp(TcpPacket { data: vec![1] }))).unwrap();
    assert_eq!(
        spin_udp(iface.get_socket::<UdpSocket>(a), &to_tx, &from_rx, &waker_slot()),
        Err(SpinError::Unknown("packet of another protocol on this socket".to_string()))
    );
}

#[test]
fn udp_send_to_port_zero_fails_with_smoltcp_message() {
    let mut iface = loopback();
    let a = iface.add_socket(bound_udp(1000));
    let (to_tx, _to_rx): Channel = crossbeam_channel::unbounded();
    let (from_tx, from_rx): Channel = crossbeam_channel::unbounded();
    from_tx
        .send(Arc::new(Packet::new_udp(UdpPacket { data: vec![1], from_ip: IpAddr::V4([127, 0, 0, 1]), from_port: 0 })))
        .unwrap();
    assert_eq!(
        spin_udp(iface.get_socket::<UdpSocket>(a), &to_tx, &from_rx, &waker_slot()),
        Err(SpinError::Unknown("unaddressable destination".to_string()))
    );
}

#[test]
fn udp_socket_closes_when_writers_are_gone() {
    let mut iface = loopback();
    let a = iface.add_socket(bound_udp(1000));
    let (to_tx, _to_rx): Channel = crossbeam_channel::unbounded();
    let (from_tx, from_rx): Channel = crossbeam_channel::unbounded();
    drop(from_tx);
    assert_eq!(spin_udp(iface.get_socket::<UdpSocket>(a), &to_tx, &from_rx, &waker_slot()), Ok(()));
    assert!(!iface.get_socket::<UdpSocket>(a).is_open());
}

fn established_pair(iface: &mut Interface<'static, Loopback>) -> (SocketHandle, SocketHandle, SocketRegistry) {
    let mut reg = SocketRegistry::new();
    let server_h = iface.add_socket(tcp_socket());
    let client_h = iface.add_socket(tcp_socket());
    reg.add_tcp_socket(server_h).unwrap();
    reg.add_tcp_socket(client_h).unwrap();
    iface.get_socket::<TcpSocket>(server_h).listen(1234).unwrap();
    {
        let (sock, cx) = iface.get_socket_and_context::<TcpSocket>(client_h);
        sock.connect(cx, (IpAddress::v4(127, 0, 0, 1), 1234), 50000).unwrap();
    }
    for t in 1..20 {
        let _ = iface.poll(Instant::from_millis(t * 10));
    }
    assert!(iface.get_socket::<TcpSocket>(client_h).may_send());
    (server_h, client_h, reg)
}

#[test]
fn tcp_socket_rejects_udp_packet() {
    let mut iface = loopback();
    let (_s, c, reg) = established_pair(&mut iface);
    assert_eq!(reg.get(&c).unwrap().socket_type, SocketType::TCP);
    let (to_tx, _to_rx): Channel = crossbeam_channel::unbounded();
    let (from_tx, from_rx): Channel = crossbeam_channel::unbounded();
    from_tx
        .send(Arc::new(Packet::new_udp(UdpPacket { data: vec![1], from_ip: IpAddr::V4([1, 1, 1, 1]), from_port: 1 })))
        .unwrap();
    assert_eq!(
        spin_tcp(iface.get_socket::<TcpSocket>(c), &to_tx, &from_rx, &waker_slot()),
        Err(SpinError::Unknown("packet of another protocol on this socket".to_string()))
    );
}

#[test]
fn tcp_socket_closes_when_writers_are_gone() {
    let mut iface = loopback();
    let (_s, c, _reg) = established_pair(&mut iface);
    let (to_tx, _to_rx): Channel = crossbeam_channel::unbounded();
    let (from_tx, from_rx): Channel = crossbeam_channel::unbounded();
    drop(from_tx);
    assert_eq!(spin_tcp(iface.get_socket::<TcpSocket>(c), &to_tx, &from_rx, &waker_slot()), Ok(()));
    assert!(!iface.get_socket::<TcpSocket>(c).may_send());
}

#[test]
fn tcp_bytes_enqueued_from_channel() {
    let mut iface = loopback();
    let (s, c, _reg) = established_pair(&mut iface);
    let (to_tx, _to_rx): Channel = crossbeam_channel::unbounded();
    let (from_tx, from_rx): Channel = crossbeam_channel::unbounded();
    from_tx.send(Arc::new(Packet::new_tcp(TcpPacket { data: b"abc".to_vec() }))).unwrap();
    assert_eq!(spin_tcp(iface.get_socket::<TcpSocket>(c), &to_tx, &from_rx, &waker_slot()), Ok(()));
    assert_eq!(iface.get_socket::<TcpSocket>(c).send_queue(), 3);
    for t in 20..30 {
        let _ = iface.poll(Instant::from_millis(t * 10));
    }
    let (srv_tx, srv_rx): Channel = crossbeam_channel::unbounded();
    let (_in_tx, in_rx): Channel = crossbeam_channel::unbounded();
    assert_eq!(spin_tcp(iface.get_socket::<TcpSocket>(s), &srv_tx, &in_rx, &waker_slot()), Ok(()));
    assert_eq!(*srv_rx.try_recv().unwrap(), Packet::new_tcp(TcpPacket { data: b"abc".to_vec() }));
}

#[test]
fn taking_a_received_datagram_names_its_sender() {
    let mut iface = loopback();
    let a = iface.add_socket(bound_udp(1000));
    let b = iface.add_socket(bound_udp(2000));
    let (to_a_tx, _to_a_rx): Channel = crossbeam_channel::unbounded();
    let (from_a_tx, from_a_rx): Channel = crossbeam_channel::unbounded();
    from_a_tx
        .send(Arc::new(Packet::new_udp(UdpPacket { data: b"hi".to_vec(), from_ip: IpAddr::V4([127, 0, 0, 1]), from_port: 2000 })))
        .unwrap();
    assert_eq!(spin_udp(iface.get_socket::<UdpSocket>(a), &to_a_tx, &from_a_rx, &waker_slot()), Ok(()));
    for t in 1..5 {
        let _ = iface.poll(Instant::from_millis(t * 10));
    }
    let got = async_smoltcp::spin::take_received_udp(iface.get_socket::<UdpSocket>(b));
    assert_eq!(
        got,
        Some(Some(Packet::new_udp(UdpPacket { data: b"hi".to_vec(), from_ip: IpAddr::V4([127, 0, 0, 1]), from_port: 1000 })))
    );
    assert_eq!(async_smoltcp::spin::take_received_udp(iface.get_socket::<UdpSocket>(b)), None);
}

#[test]
fn only_the_address_conversion_error_lets_the_stack_go_on() {
    assert!(is_address_conversion_error(&SpinError::Unknown("spin address conversion error".to_string())));
    assert!(!is_address_conversion_error(&SpinError::Unknown("packet of another protocol on this socket".to_string())));
    assert!(!is_address_conversion_error(&SpinError::NoSocket));
}
