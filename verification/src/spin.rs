//! One step of moving data between a socket of the stack and its packet channels.
use vstd::prelude::*;
use std::sync::Arc;
use crate::channel::{send_packet, try_recv_packet, wake_waiting, TryRecvOutcome};
use crate::error::{smol_e_send, smoltcp_error_text, SocketSendError, SpinError};
use crate::net::{
    endpoint_specified, tcp_can_recv, tcp_can_send, tcp_close, tcp_is_open, tcp_limits_kept,
    tcp_may_send, tcp_recv, enqueued_len, tcp_tx_room, tcp_rx_queue, tcp_send_slice, tcp_tx_capacity, tcp_tx_queue,
    udp_can_recv, udp_can_send, udp_close, udp_is_open, udp_limits_kept, udp_recv, udp_rx_queue,
    udp_send_slice, udp_tx_capacity, udp_tx_queue, udp_refusal, udp_payload_capacity,
};
use crate::packet::{is_tcp_packet, IpAddr, Packet, TcpPacket, UdpPacket};

verus! {

/// What a TCP socket does with what its channel gave.
pub enum TcpOutgoing {
    /// Enqueue these bytes on the socket.
    Send(Vec<u8>),
    /// Every writer is gone: close the socket.
    Close,
    /// Nothing to do.
    Idle,
    /// The packet carries no TCP bytes.
    NotTcp,
}

/// What a UDP socket does with what its channel gave.
pub enum UdpOutgoing {
    /// Send these bytes as one datagram to this endpoint.
    Send(Vec<u8>, smoltcp::wire::IpEndpoint),
    /// Every writer is gone: close the socket.
    Close,
    /// Nothing to do.
    Idle,
    /// The packet carries no UDP datagram.
    NotUdp,
}

/// The decision for a TCP socket that can send, given what its channel gave.
pub fn tcp_outgoing(outcome: &TryRecvOutcome) -> (r: TcpOutgoing)
    ensures
        match *outcome {
            TryRecvOutcome::Received(p) => match p.tcp {
                Some(t) => r matches TcpOutgoing::Send(d) && d@ == t.data@,
                None => r is NotTcp,
            },
            TryRecvOutcome::Empty => r is Idle,
            TryRecvOutcome::Disconnected => r is Close,
        },
{
    match outcome {
        TryRecvOutcome::Received(p) => match &p.tcp {
            Some(t) => TcpOutgoing::Send(t.data.clone()),
            None => TcpOutgoing::NotTcp,
        },
        TryRecvOutcome::Empty => TcpOutgoing::Idle,
        TryRecvOutcome::Disconnected => TcpOutgoing::Close,
    }
}

/// The `smoltcp` address of an IP address.
pub open spec fn ip_address_of(ip: IpAddr) -> smoltcp::wire::IpAddress {
    match ip {
        IpAddr::V4(o) => smoltcp::wire::IpAddress::Ipv4(smoltcp::wire::Ipv4Address(o)),
        IpAddr::V6(o) => smoltcp::wire::IpAddress::Ipv6(smoltcp::wire::Ipv6Address(o)),
    }
}

/// The endpoint of an address and a port.
pub fn endpoint_of(ip: IpAddr, port: u16) -> (e: smoltcp::wire::IpEndpoint)
    ensures
        e == (smoltcp::wire::IpEndpoint { addr: ip_address_of(ip), port }),
{
    let addr = match ip {
        IpAddr::V4(o) => smoltcp::wire::IpAddress::Ipv4(smoltcp::wire::Ipv4Address(o)),
        IpAddr::V6(o) => smoltcp::wire::IpAddress::Ipv6(smoltcp::wire::Ipv6Address(o)),
    };
    smoltcp::wire::IpEndpoint { addr, port }
}

/// The decision for a UDP socket that can send, given what its channel gave.
pub fn udp_outgoing(outcome: &TryRecvOutcome) -> (r: UdpOutgoing)
    ensures
        match *outcome {
            TryRecvOutcome::Received(p) => match p.udp {
                Some(u) => r matches UdpOutgoing::Send(d, e) && d@ == u.data@ && e == (
                smoltcp::wire::IpEndpoint { addr: ip_address_of(u.from_ip), port: u.from_port }),
                None => r is NotUdp,
            },
            TryRecvOutcome::Empty => r is Idle,
            TryRecvOutcome::Disconnected => r is Close,
        },
{
    match outcome {
        TryRecvOutcome::Received(p) => match &p.udp {
            Some(u) => UdpOutgoing::Send(u.data.clone(), endpoint_of(u.from_ip, u.from_port)),
            None => UdpOutgoing::NotUdp,
        },
        TryRecvOutcome::Empty => UdpOutgoing::Idle,
        TryRecvOutcome::Disconnected => UdpOutgoing::Close,
    }
}

/// The IP address of a `smoltcp` address, if it is one (not `Unspecified`).
pub open spec fn ip_of(addr: smoltcp::wire::IpAddress) -> Option<IpAddr> {
    match addr {
        smoltcp::wire::IpAddress::Ipv4(a) => Some(IpAddr::V4(a.0)),
        smoltcp::wire::IpAddress::Ipv6(a) => Some(IpAddr::V6(a.0)),
        _ => None,
    }
}

/// The packet for a datagram received from `from`; none when the sender's address is
/// unspecified.
pub fn packet_from_datagram(data: Vec<u8>, from: smoltcp::wire::IpEndpoint) -> (r: Option<Packet>)
    ensures
        ip_of(from.addr) is None ==> r is None,
        ip_of(from.addr) is Some ==> {
            &&& r is Some
            &&& r->Some_0.tcp is None
            &&& r->Some_0.udp is Some
            &&& r->Some_0.udp->Some_0.data@ == data@
            &&& Some(r->Some_0.udp->Some_0.from_ip) == ip_of(from.addr)
            &&& r->Some_0.udp->Some_0.from_port == from.port
        },
{
    let ip = match from.addr {
        smoltcp::wire::IpAddress::Ipv4(a) => IpAddr::V4(a.0),
        smoltcp::wire::IpAddress::Ipv6(a) => IpAddr::V6(a.0),
        _ => {
            return None;
        },
    };
    Some(Packet::new_udp(UdpPacket { data, from_ip: ip, from_port: from.port }))
}

/// `p` is the packet for a socket's reader that carries the datagram `data` received from
/// `from`.
pub open spec fn is_datagram_packet(p: Packet, data: Seq<u8>, from: smoltcp::wire::IpEndpoint) -> bool {
    &&& p.tcp is None
    &&& p.udp matches Some(u) && u.data@ == data && Some(u.from_ip) == ip_of(from.addr)
        && u.from_port == from.port
}

/// Takes the bytes at the front of a TCP socket's receive buffer (a contiguous run, at
/// least one byte when there are any) and makes them the packet for the socket's reader;
/// none when the buffer is empty. Nothing else of the socket changes.
pub fn take_received_tcp(socket: &mut smoltcp::socket::TcpSocket<'static>) -> (r: Option<Packet>)
    ensures
        r is None <==> tcp_rx_queue(*old(socket)).len() == 0,
        r is None ==> tcp_rx_queue(*final(socket)) == tcp_rx_queue(*old(socket)),
        r matches Some(p) ==> exists|k: int|
            0 < k <= tcp_rx_queue(*old(socket)).len() && #[trigger] is_tcp_packet(
                p,
                tcp_rx_queue(*old(socket)).take(k),
            ) && tcp_rx_queue(*final(socket)) == tcp_rx_queue(*old(socket)).skip(k),
        tcp_tx_queue(*final(socket)) == tcp_tx_queue(*old(socket)),
        tcp_may_send(*final(socket)) == tcp_may_send(*old(socket)),
        tcp_is_open(*final(socket)) == tcp_is_open(*old(socket)),
        tcp_limits_kept(*old(socket), *final(socket)),
{
    if tcp_can_recv(socket) {
        match tcp_recv(socket) {
            Ok(data) => {
                let ghost k = data@.len() as int;
                let p = Packet::new_tcp(TcpPacket { data });
                assert(is_tcp_packet(p, tcp_rx_queue(*old(socket)).take(k)));
                Some(p)
            },
            Err(_) => None,
        }
    } else {
        None
    }
}

/// Takes the oldest datagram waiting on a UDP socket and makes it the packet for the
/// socket's reader, naming its sender: `None` when none waits, `Some(None)` when the
/// sender's address is unspecified. Nothing else of the socket changes.
pub fn take_received_udp(socket: &mut smoltcp::socket::UdpSocket<'static>) -> (r: Option<
    Option<Packet>,
>)
    ensures
        udp_rx_queue(*old(socket)).len() == 0 ==> r is None && udp_holds(
            *final(socket),
            udp_rx_queue(*old(socket)),
            udp_tx_queue(*old(socket)),
            udp_is_open(*old(socket)),
        ),
        udp_rx_queue(*old(socket)).len() > 0 ==> {
            let d = udp_rx_queue(*old(socket))[0];
            &&& r matches Some(q) && (q is None <==> ip_of(d.1.addr) is None)
            &&& r->Some_0 matches Some(p) ==> is_datagram_packet(p, d.0, d.1)
            &&& udp_holds(
                *final(socket),
                udp_rx_queue(*old(socket)).drop_first(),
                udp_tx_queue(*old(socket)),
                udp_is_open(*old(socket)),
            )
        },
        udp_limits_kept(*old(socket), *final(socket)),
{
    if udp_can_recv(socket) {
        match udp_recv(socket) {
            Ok((data, endpoint)) => Some(packet_from_datagram(data, endpoint)),
            Err(_) => None,
        }
    } else {
        None
    }
}

/// Nothing a TCP socket's reader is handed is lost or changed on the way out of the socket:
/// when a packet carries the first `k` waiting bytes and the buffer keeps the rest (as
/// [`take_received_tcp`] ensures), the packet's bytes followed by the bytes still waiting
/// are exactly the bytes that were waiting, and the packet is not empty.
pub proof fn lemma_reader_gets_what_was_taken(before: Seq<u8>, after: Seq<u8>, p: Packet, k: int)
    requires
        0 < k <= before.len(),
        is_tcp_packet(p, before.take(k)),
        after == before.skip(k),
    ensures
        p.tcp->Some_0.data@ + after == before,
        p.tcp->Some_0.data@.len() > 0,
        p.udp is None,
{
    assert(before.take(k) + before.skip(k) =~= before);
}

/// A reply goes back where the datagram came from: a packet made from a datagram received
/// from `from` (as [`take_received_udp`] makes it) carries the datagram's bytes, and the peer
/// it names, the one a UDP socket sends to when the packet is written back, is `from`.
pub proof fn lemma_reply_goes_to_sender(p: Packet, data: Seq<u8>, from: smoltcp::wire::IpEndpoint)
    requires
        is_datagram_packet(p, data, from),
    ensures
        p.udp->Some_0.data@ == data,
        (smoltcp::wire::IpEndpoint {
            addr: ip_address_of(p.udp->Some_0.from_ip),
            port: p.udp->Some_0.from_port,
        }) == from,
{
}

/// The message of a spin that met a packet of the wrong protocol.
pub open spec fn wrong_protocol_text() -> Seq<char> {
    "packet of another protocol on this socket"@
}

/// The message of a spin that met a sender address it cannot convert.
pub open spec fn address_conversion_text() -> Seq<char> {
    "spin address conversion error"@
}

/// Whether a spin's error is the one for a datagram from an unspecified address, which the
/// stack answers by closing the socket and going on; the other spin errors (a packet of
/// another protocol, a datagram the socket refuses) stop it.
pub fn is_address_conversion_error(e: &SpinError) -> (b: bool)
    ensures
        b == (*e matches SpinError::Unknown(m) && m@ == address_conversion_text()),
{
    match e {
        SpinError::Unknown(m) => *m == "spin address conversion error".to_owned(),
        _ => false,
    }
}

/// `r` is a spin error with the message `text`.
pub open spec fn fails_with(r: Result<(), SpinError>, text: Seq<char>) -> bool {
    r matches Err(SpinError::Unknown(m)) && m@ == text
}

/// `r` is the error of a spin that met a packet of the wrong protocol.
pub open spec fn is_wrong_protocol(r: Result<(), SpinError>) -> bool {
    fails_with(r, wrong_protocol_text())
}

/// What a TCP socket that can send does with what the writer's channel gave (`o`):
/// a packet's bytes are enqueued, as many as the transmit buffer has room for (the rest is
/// dropped); a vanished writer closes the transmit half; an empty channel changes nothing;
/// a packet without TCP bytes is an error, after which the socket is closed if `closes`.
/// Received bytes are not touched.
pub open spec fn tcp_outgoing_effect(
    before: smoltcp::socket::TcpSocket<'static>,
    after: smoltcp::socket::TcpSocket<'static>,
    o: TryRecvOutcome,
    r: Result<(), SpinError>,
    closes: bool,
) -> bool {
    match o {
        TryRecvOutcome::Received(p) => match p.tcp {
            Some(t) => {
                &&& tcp_tx_queue(after) == tcp_tx_queue(before) + t.data@.take(
                    enqueued_len(t.data@.len() as int, tcp_tx_room(before)),
                )
                &&& tcp_may_send(after) == tcp_may_send(before)
                &&& tcp_is_open(after) == tcp_is_open(before)
                &&& r is Ok
            },
            None => {
                &&& tcp_tx_queue(after) == tcp_tx_queue(before)
                &&& is_wrong_protocol(r)
                &&& closes ==> !tcp_may_send(after) && tcp_is_open(after)
                &&& !closes ==> tcp_may_send(after) == tcp_may_send(before) && tcp_is_open(after)
                    == tcp_is_open(before)
            },
        },
        TryRecvOutcome::Empty => {
            &&& tcp_tx_queue(after) == tcp_tx_queue(before)
            &&& tcp_may_send(after) == tcp_may_send(before)
            &&& tcp_is_open(after) == tcp_is_open(before)
            &&& r is Ok
        },
        TryRecvOutcome::Disconnected => {
            &&& tcp_tx_queue(after) == tcp_tx_queue(before)
            &&& !tcp_may_send(after)
            &&& tcp_is_open(after)
            &&& r is Ok
        },
    }
}

/// What one spin does to a TCP socket, given that it took the first `k` received bytes
/// (all of a contiguous run at the front, at least one when there are any) and that the
/// writer's channel gave `o`: the socket sends as [`tcp_outgoing_effect`] says when its
/// transmit half is open with room in its buffer; otherwise it is left as it was, and
/// the spin succeeds.
pub open spec fn tcp_spin_effect(
    before: smoltcp::socket::TcpSocket<'static>,
    after: smoltcp::socket::TcpSocket<'static>,
    k: int,
    o: TryRecvOutcome,
    r: Result<(), SpinError>,
    closes: bool,
) -> bool {
    &&& tcp_rx_queue(before).len() == 0 ==> k == 0
    &&& tcp_rx_queue(before).len() > 0 ==> 0 < k <= tcp_rx_queue(before).len()
    &&& tcp_rx_queue(after) == tcp_rx_queue(before).skip(k)
    &&& tcp_limits_kept(before, after)
    &&& if tcp_may_send(before) && tcp_tx_queue(before).len() < tcp_tx_capacity(before) {
        tcp_outgoing_effect(before, after, o, r, closes)
    } else {
        &&& tcp_tx_queue(after) == tcp_tx_queue(before)
        &&& tcp_may_send(after) == tcp_may_send(before)
        &&& tcp_is_open(after) == tcp_is_open(before)
        &&& r is Ok
    }
}

/// Sends what the writer's channel gave (`outcome`) through a TCP socket that can send
/// (see [`tcp_outgoing_effect`]). A packet without TCP bytes is a programming error, which
/// `requires` rules out.
pub fn send_tcp_outgoing(socket: &mut smoltcp::socket::TcpSocket<'static>, outcome: TryRecvOutcome) -> (r: Result<
    (),
    SpinError,
>)
    requires
        tcp_may_send(*old(socket)),
        tcp_tx_queue(*old(socket)).len() < tcp_tx_capacity(*old(socket)),
        outcome matches TryRecvOutcome::Received(p) ==> p.tcp is Some,
    ensures
        tcp_outgoing_effect(*old(socket), *final(socket), outcome, r, false),
        tcp_rx_queue(*final(socket)) == tcp_rx_queue(*old(socket)),
        tcp_limits_kept(*old(socket), *final(socket)),
{
    let ghost o = outcome;
    match tcp_outgoing(&outcome) {
        TcpOutgoing::Send(bytes) => {
            let sent = tcp_send_slice(socket, bytes.as_slice());
            let ghost n = sent->Ok_0 as int;
            assert(tcp_tx_queue(*socket) == tcp_tx_queue(*old(socket)) + bytes@.take(n));
            Ok(())
        },
        TcpOutgoing::Close => {
            tcp_close(socket);
            Ok(())
        },
        TcpOutgoing::Idle => Ok(()),
        TcpOutgoing::NotTcp => Err(SpinError::Unknown("packet of another protocol on this socket".to_owned())),
    }
}

/// A UDP socket's buffers are empty and it is unbound.
pub open spec fn udp_closed(s: smoltcp::socket::UdpSocket<'static>) -> bool {
    udp_rx_queue(s).len() == 0 && udp_tx_queue(s).len() == 0 && !udp_is_open(s)
}

/// `after` holds `rx` and `tx` and is open as `open` says.
pub open spec fn udp_holds(
    after: smoltcp::socket::UdpSocket<'static>,
    rx: Seq<(Seq<u8>, smoltcp::wire::IpEndpoint)>,
    tx: Seq<(Seq<u8>, smoltcp::wire::IpEndpoint)>,
    open: bool,
) -> bool {
    udp_rx_queue(after) == rx && udp_tx_queue(after) == tx && udp_is_open(after) == open
}

/// `r` is a spin error with `smoltcp`'s message of some error.
pub open spec fn is_refused(r: Result<(), SpinError>) -> bool {
    r matches Err(SpinError::Unknown(m)) && exists|x: smoltcp::Error| m@ == smoltcp_error_text(x)
}

/// What a UDP socket that can send, holding `rx` and `tx` and open as `open` says, does
/// with what the writer's channel gave (`o`): a datagram is enqueued for the peer it
/// names, or, when the socket refuses it (always when the socket is unbound or the peer
/// unspecified), the spin fails with `smoltcp`'s message; a vanished writer closes the
/// socket; an empty channel changes nothing; a packet without a datagram is an error.
/// After an error the socket is closed if `closes`, else left as it was.
pub open spec fn udp_outgoing_effect(
    rx: Seq<(Seq<u8>, smoltcp::wire::IpEndpoint)>,
    tx: Seq<(Seq<u8>, smoltcp::wire::IpEndpoint)>,
    open: bool,
    after: smoltcp::socket::UdpSocket<'static>,
    o: TryRecvOutcome,
    r: Result<(), SpinError>,
    closes: bool,
) -> bool {
    let failed = if closes {
        udp_closed(after)
    } else {
        udp_holds(after, rx, tx, open)
    };
    match o {
        TryRecvOutcome::Received(p) => match p.udp {
            Some(u) => {
                let e = smoltcp::wire::IpEndpoint { addr: ip_address_of(u.from_ip), port: u.from_port };
                &&& r is Ok ==> udp_holds(after, rx, tx.push((u.data@, e)), open)
                &&& r is Err ==> is_refused(r) && failed
                &&& r is Err ==> fails_with(
                    r,
                    smoltcp_error_text(
                        udp_refusal(open, e, u.data@.len() as int, udp_payload_capacity(after) as int),
                    ),
                )
                &&& !open || !endpoint_specified(e) ==> fails_with(
                    r,
                    smoltcp_error_text(smoltcp::Error::Unaddressable),
                )
            },
            None => is_wrong_protocol(r) && failed,
        },
        TryRecvOutcome::Empty => r is Ok && udp_holds(after, rx, tx, open),
        TryRecvOutcome::Disconnected => r is Ok && udp_closed(after),
    }
}

/// A datagram for a specified peer, on a socket that is bound, that fits the socket's
/// payload buffer is refused only for want of room: it is enqueued for that peer, or the
/// spin fails with `smoltcp`'s "exhausted" message; never as unaddressable or truncated.
pub proof fn lemma_fitting_datagram_refused_only_for_room(
    rx: Seq<(Seq<u8>, smoltcp::wire::IpEndpoint)>,
    tx: Seq<(Seq<u8>, smoltcp::wire::IpEndpoint)>,
    after: smoltcp::socket::UdpSocket<'static>,
    p: Arc<Packet>,
    r: Result<(), SpinError>,
    closes: bool,
)
    requires
        udp_outgoing_effect(rx, tx, true, after, TryRecvOutcome::Received(p), r, closes),
        p.udp is Some,
        endpoint_specified(
            smoltcp::wire::IpEndpoint {
                addr: ip_address_of(p.udp->Some_0.from_ip),
                port: p.udp->Some_0.from_port,
            },
        ),
        p.udp->Some_0.data@.len() <= udp_payload_capacity(after),
    ensures
        r is Ok ==> udp_tx_queue(after) == tx.push(
            (
                p.udp->Some_0.data@,
                smoltcp::wire::IpEndpoint {
                    addr: ip_address_of(p.udp->Some_0.from_ip),
                    port: p.udp->Some_0.from_port,
                },
            ),
        ),
        r is Err ==> fails_with(r, smoltcp_error_text(smoltcp::Error::Exhausted)),
{
}

/// The send half of a UDP spin on a socket holding `rx` and `tx`, open as `open` says:
/// when the socket can send (`can_send`, which needs room for a datagram) it does what
/// [`udp_outgoing_effect`] says; otherwise it is left as it was and the spin succeeds.
pub open spec fn udp_send_phase(
    rx: Seq<(Seq<u8>, smoltcp::wire::IpEndpoint)>,
    tx: Seq<(Seq<u8>, smoltcp::wire::IpEndpoint)>,
    open: bool,
    cap: nat,
    after: smoltcp::socket::UdpSocket<'static>,
    can_send: bool,
    o: TryRecvOutcome,
    r: Result<(), SpinError>,
    closes: bool,
) -> bool {
    if can_send {
        tx.len() < cap && udp_outgoing_effect(rx, tx, open, after, o, r, closes)
    } else {
        r is Ok && udp_holds(after, rx, tx, open)
    }
}

/// What one spin does to a UDP socket, given whether the reader's channel took the
/// datagram (`delivered`), whether the socket could send (`can_send`) and what the
/// writer's channel gave (`o`). The oldest received datagram, if any, is taken: one from
/// an unspecified address ends the spin with an error (the socket closed if `closes`);
/// otherwise it goes to the reader, and when the reader is gone the socket is closed.
/// Then the send half runs (see [`udp_send_phase`]).
pub open spec fn udp_spin_effect(
    before: smoltcp::socket::UdpSocket<'static>,
    after: smoltcp::socket::UdpSocket<'static>,
    delivered: bool,
    can_send: bool,
    o: TryRecvOutcome,
    r: Result<(), SpinError>,
    closes: bool,
) -> bool {
    let rx = udp_rx_queue(before);
    let tx = udp_tx_queue(before);
    let open = udp_is_open(before);
    &&& udp_limits_kept(before, after)
    &&& if rx.len() > 0 {
        if ip_of(rx[0].1.addr) is None {
            &&& fails_with(r, address_conversion_text())
            &&& closes ==> udp_closed(after)
            &&& !closes ==> udp_holds(after, rx.drop_first(), tx, open)
        } else if delivered {
            udp_send_phase(rx.drop_first(), tx, open, udp_tx_capacity(before), after, can_send, o, r, closes)
        } else {
            udp_send_phase(
                Seq::empty(),
                Seq::empty(),
                false,
                udp_tx_capacity(before),
                after,
                can_send,
                o,
                r,
                closes,
            )
        }
    } else {
        udp_send_phase(rx, tx, open, udp_tx_capacity(before), after, can_send, o, r, closes)
    }
}

/// Sends what the writer's channel gave (`outcome`) through a UDP socket that can send
/// (see [`udp_outgoing_effect`]). A packet without a datagram is a programming error,
/// which `requires` rules out.
pub fn send_udp_outgoing(socket: &mut smoltcp::socket::UdpSocket<'static>, outcome: TryRecvOutcome) -> (r: Result<
    (),
    SpinError,
>)
    requires
        outcome matches TryRecvOutcome::Received(p) ==> p.udp is Some,
    ensures
        udp_outgoing_effect(
            udp_rx_queue(*old(socket)),
            udp_tx_queue(*old(socket)),
            udp_is_open(*old(socket)),
            *final(socket),
            outcome,
            r,
            false,
        ),
        udp_limits_kept(*old(socket), *final(socket)),
{
    match udp_outgoing(&outcome) {
        UdpOutgoing::Send(bytes, endpoint) => {
            match udp_send_slice(socket, bytes.as_slice(), endpoint) {
                Ok(()) => Ok(()),
                Err(e) => Err(SpinError::Unknown(send_failure_text(e))),
            }
        },
        UdpOutgoing::Close => {
            udp_close(socket);
            Ok(())
        },
        UdpOutgoing::Idle => Ok(()),
        UdpOutgoing::NotUdp => Err(SpinError::Unknown("packet of another protocol on this socket".to_owned())),
    }
}

/// The message of a failed send: the send error that the `smoltcp` error stands for,
/// as text, which is `smoltcp`'s message of it.
fn send_failure_text(e: smoltcp::Error) -> (s: String)
    ensures
        s@ == smoltcp_error_text(e),
{
    match smol_e_send(e) {
        SocketSendError::Exhausted => "buffer space exhausted".to_owned(),
        SocketSendError::Unknown(m) => m,
    }
}

/// Whether a packet the writer's channel gave is one a TCP socket can send: anything but
/// a packet without TCP bytes.
fn tcp_sendable(outcome: &TryRecvOutcome) -> (b: bool)
    ensures
        b <==> !(*outcome matches TryRecvOutcome::Received(p) && p.tcp is None),
{
    match outcome {
        TryRecvOutcome::Received(p) => p.tcp.is_some(),
        _ => true,
    }
}

/// Whether a packet the writer's channel gave is one a UDP socket can send: anything but
/// a packet without a datagram.
fn udp_sendable(outcome: &TryRecvOutcome) -> (b: bool)
    ensures
        b <==> !(*outcome matches TryRecvOutcome::Received(p) && p.udp is None),
{
    match outcome {
        TryRecvOutcome::Received(p) => p.udp.is_some(),
        _ => true,
    }
}

/// Moves data once each way between a TCP socket and its channels.
///
/// If the socket can receive (its receive buffer is not empty), the bytes at the front of
/// the buffer are taken and sent to the socket's reader as one TCP packet (the packet of
/// [`take_received_tcp`]), and the reader's waker is woken. If the socket can send, one packet is taken from the
/// writer's channel and sent (see [`send_tcp_outgoing`]); a packet without TCP bytes ends
/// the spin with an error instead, the socket left as it was. What the channels hold is
/// theirs: the contract speaks of the socket, for some outcome of the writer's channel
/// (see [`tcp_spin_effect`]).
pub fn spin_tcp(
    socket: &mut smoltcp::socket::TcpSocket<'static>,
    send_to_socket: &crossbeam_channel::Sender<Arc<Packet>>,
    receive_from_socket: &crossbeam_channel::Receiver<Arc<Packet>>,
    waker: &Arc<futures::lock::Mutex<Option<core::task::Waker>>>,
) -> (r: Result<(), SpinError>)
    ensures
        exists|k: int, o: TryRecvOutcome| #[trigger] tcp_spin_effect(*old(socket), *final(socket), k, o, r, false),
{
    let ghost before = *socket;
    let ghost mut k: int = 0;
    if let Some(packet) = take_received_tcp(socket) {
        proof {
            k = choose|k: int|
                0 < k <= tcp_rx_queue(before).len() && #[trigger] is_tcp_packet(packet, tcp_rx_queue(before).take(k))
                    && tcp_rx_queue(*socket) == tcp_rx_queue(before).skip(k);
        }
        let _ = send_packet(send_to_socket, Arc::new(packet));
        wake_waiting(waker);
    }
    assert(tcp_rx_queue(*socket) == tcp_rx_queue(before).skip(k)) by {
        if k == 0 {
            assert(tcp_rx_queue(before).skip(0) =~= tcp_rx_queue(before));
        }
    }
    if tcp_can_send(socket) {
        let outcome = try_recv_packet(receive_from_socket);
        let ghost o = outcome;
        if !tcp_sendable(&outcome) {
            let r = Err(SpinError::Unknown("packet of another protocol on this socket".to_owned()));
            assert(tcp_spin_effect(before, *socket, k, o, r, false));
            return r;
        }
        let r = send_tcp_outgoing(socket, outcome);
        assert(tcp_spin_effect(before, *socket, k, o, r, false));
        r
    } else {
        let r = Ok(());
        assert(tcp_spin_effect(before, *socket, k, TryRecvOutcome::Empty, r, false));
        r
    }
}

/// Moves data once each way between a UDP socket and its channels.
///
/// If a datagram waits, the oldest is taken: one from an unspecified address ends the spin
/// with an error; otherwise it is sent to the socket's reader as a UDP packet that names
/// the sender (the packet of [`take_received_udp`]), a vanished reader closes the socket,
/// and the reader's waker is woken.
/// If the socket can send, one packet is taken from the writer's channel and sent (see
/// [`send_udp_outgoing`]); a packet without a datagram ends the spin with an error
/// instead. What the channels hold is theirs: the contract speaks of the socket, for some
/// outcome of each channel (see [`udp_spin_effect`]).
pub fn spin_udp(
    socket: &mut smoltcp::socket::UdpSocket<'static>,
    send_to_socket: &crossbeam_channel::Sender<Arc<Packet>>,
    receive_from_socket: &crossbeam_channel::Receiver<Arc<Packet>>,
    waker: &Arc<futures::lock::Mutex<Option<core::task::Waker>>>,
) -> (r: Result<(), SpinError>)
    ensures
        exists|delivered: bool, can_send: bool, o: TryRecvOutcome|
            #[trigger] udp_spin_effect(*old(socket), *final(socket), delivered, can_send, o, r, false),
{
    let ghost before = *socket;
    let ghost mut delivered = true;
    match take_received_udp(socket) {
        Some(Some(packet)) => {
            match send_packet(send_to_socket, Arc::new(packet)) {
                Ok(()) => {},
                Err(_) => {
                    proof {
                        delivered = false;
                    }
                    udp_close(socket);
                },
            }
            wake_waiting(waker);
        },
        Some(None) => {
            let r = Err(SpinError::Unknown("spin address conversion error".to_owned()));
            assert(udp_spin_effect(before, *socket, true, false, TryRecvOutcome::Empty, r, false));
            return r;
        },
        None => {},
    }
    proof {
        if udp_rx_queue(before).len() > 0 && !delivered {
            assert(udp_rx_queue(*socket) =~= Seq::empty());
            assert(udp_tx_queue(*socket) =~= Seq::empty());
        }
    }
    let can_send = udp_can_send(socket);
    if can_send {
        let outcome = try_recv_packet(receive_from_socket);
        let ghost o = outcome;
        if !udp_sendable(&outcome) {
            let r = Err(SpinError::Unknown("packet of another protocol on this socket".to_owned()));
            assert(udp_spin_effect(before, *socket, delivered, true, o, r, false));
            return r;
        }
        let r = send_udp_outgoing(socket, outcome);
        assert(udp_spin_effect(before, *socket, delivered, true, o, r, false));
        r
    } else {
        let r = Ok(());
        assert(udp_spin_effect(before, *socket, delivered, false, TryRecvOutcome::Empty, r, false));
        r
    }
}

} // verus!
