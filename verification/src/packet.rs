//! Packets exchanged between the stack and its sockets.
use vstd::prelude::*;

verus! {

/// Transport protocol of a socket.
#[derive(Debug, Clone, Copy, PartialEq, Eq)]
pub enum SocketType {
    TCP,
    UDP,
}

/// An IP address, by its octets.
#[derive(Debug, Clone, Copy, PartialEq, Eq)]
pub enum IpAddr {
    V4([u8; 4]),
    V6([u8; 16]),
}

/// Bytes of a TCP stream.
#[derive(Debug, Clone, PartialEq, Eq)]
pub struct TcpPacket {
    pub data: Vec<u8>,
}

/// A UDP datagram and the peer it came from (or goes to).
#[derive(Debug, Clone, PartialEq, Eq)]
pub struct UdpPacket {
    pub data: Vec<u8>,
    pub from_ip: IpAddr,
    pub from_port: u16,
}

/// A packet: TCP bytes, a UDP datagram, or neither.
#[derive(Debug, Clone, PartialEq, Eq)]
pub struct Packet {
    pub tcp: Option<TcpPacket>,
    pub udp: Option<UdpPacket>,
}

/// `p` carries the TCP bytes `data` and nothing else.
pub open spec fn is_tcp_packet(p: Packet, data: Seq<u8>) -> bool {
    p.tcp matches Some(t) && t.data@ == data && p.udp is None
}

impl Packet {
    /// A packet that carries TCP bytes only.
    pub fn new_tcp(tcp: TcpPacket) -> (p: Packet)
        ensures
            p.tcp == Some(tcp),
            p.udp.is_none(),
    {
        Packet { tcp: Some(tcp), udp: None }
    }

    /// A packet that carries a UDP datagram only.
    pub fn new_udp(udp: UdpPacket) -> (p: Packet)
        ensures
            p.udp == Some(udp),
            p.tcp.is_none(),
    {
        Packet { tcp: None, udp: Some(udp) }
    }
}

} // verus!
