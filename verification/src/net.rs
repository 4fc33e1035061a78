//! The `smoltcp` types that the stack's logic handles, and the socket calls it makes.
//!
//! Addresses and endpoints are plain structs and enums that Verus reads as they are.
//! Sockets are opaque: what the logic needs of them is named here by their queues
//! (the bytes or datagrams waiting in their receive and transmit buffers) and by the
//! capacity of a transmit buffer, and every call below says what it does to them.
use vstd::prelude::*;

verus! {

#[verifier::external_type_specification]
pub struct ExIpEndpoint(smoltcp::wire::IpEndpoint);

#[verifier::external_type_specification]
pub struct ExIpAddress(smoltcp::wire::IpAddress);

#[verifier::external_type_specification]
pub struct ExIpv4Address(smoltcp::wire::Ipv4Address);

#[verifier::external_type_specification]
pub struct ExIpv6Address(smoltcp::wire::Ipv6Address);

#[verifier::external_type_specification]
#[verifier::external_body]
pub struct ExSocketHandle(smoltcp::iface::SocketHandle);

#[verifier::external_type_specification]
#[verifier::external_body]
pub struct ExTcpSocket<'a>(smoltcp::socket::TcpSocket<'a>);

#[verifier::external_type_specification]
#[verifier::external_body]
pub struct ExUdpSocket<'a>(smoltcp::socket::UdpSocket<'a>);

#[verifier::external_type_specification]
#[verifier::external_body]
pub struct ExContext<'a>(smoltcp::iface::Context<'a>);

/// The bytes waiting in a TCP socket's receive buffer, oldest first.
pub uninterp spec fn tcp_rx_queue(s: smoltcp::socket::TcpSocket<'static>) -> Seq<u8>;

/// The bytes waiting in a TCP socket's transmit buffer, oldest first.
pub uninterp spec fn tcp_tx_queue(s: smoltcp::socket::TcpSocket<'static>) -> Seq<u8>;

/// The size of a TCP socket's transmit buffer, fixed when the socket is made.
pub uninterp spec fn tcp_tx_capacity(s: smoltcp::socket::TcpSocket<'static>) -> nat;

/// The size of a TCP socket's receive buffer, fixed when the socket is made.
pub uninterp spec fn tcp_rx_capacity(s: smoltcp::socket::TcpSocket<'static>) -> nat;

/// The socket's transmit half is open (`may_send`: the connection is established, or the
/// peer has closed only its own half).
pub uninterp spec fn tcp_may_send(s: smoltcp::socket::TcpSocket<'static>) -> bool;

/// The socket is open (`is_open`: neither closed nor in time-wait).
pub uninterp spec fn tcp_is_open(s: smoltcp::socket::TcpSocket<'static>) -> bool;

/// The remote endpoint of a TCP socket (`remote_endpoint`).
pub uninterp spec fn tcp_remote_endpoint(s: smoltcp::socket::TcpSocket<'static>) -> smoltcp::wire::IpEndpoint;

/// The local endpoint of a TCP socket (`local_endpoint`).
pub uninterp spec fn tcp_local_endpoint(s: smoltcp::socket::TcpSocket<'static>) -> smoltcp::wire::IpEndpoint;

/// The socket has sent its SYN and waits for the answer (`state() == SynSent`).
pub uninterp spec fn tcp_syn_sent(s: smoltcp::socket::TcpSocket<'static>) -> bool;

/// The unspecified address of the same family as `a` (`IpAddress::as_unspecified`).
pub open spec fn unspecified_like(a: smoltcp::wire::IpAddress) -> smoltcp::wire::IpAddress {
    match a {
        smoltcp::wire::IpAddress::Ipv4(_) => smoltcp::wire::IpAddress::Ipv4(
            smoltcp::wire::Ipv4Address([0u8, 0u8, 0u8, 0u8]),
        ),
        smoltcp::wire::IpAddress::Ipv6(_) => smoltcp::wire::IpAddress::Ipv6(
            smoltcp::wire::Ipv6Address(
                [0u8, 0u8, 0u8, 0u8, 0u8, 0u8, 0u8, 0u8, 0u8, 0u8, 0u8, 0u8, 0u8, 0u8, 0u8, 0u8],
            ),
        ),
        _ => a,
    }
}

/// How many more bytes a TCP socket's transmit buffer takes.
pub open spec fn tcp_tx_room(s: smoltcp::socket::TcpSocket<'static>) -> int {
    tcp_tx_capacity(s) - tcp_tx_queue(s).len()
}

/// How many of `len` bytes a TCP socket with `room` free bytes enqueues: all that fit.
pub open spec fn enqueued_len(len: int, room: int) -> int {
    if len <= room {
        len
    } else {
        room
    }
}

/// The datagrams waiting in a UDP socket's receive buffer, oldest first, with their senders.
pub uninterp spec fn udp_rx_queue(s: smoltcp::socket::UdpSocket<'static>) -> Seq<
    (Seq<u8>, smoltcp::wire::IpEndpoint),
>;

/// The datagrams waiting in a UDP socket's transmit buffer, oldest first, with their peers.
pub uninterp spec fn udp_tx_queue(s: smoltcp::socket::UdpSocket<'static>) -> Seq<
    (Seq<u8>, smoltcp::wire::IpEndpoint),
>;

/// How many datagrams a UDP socket's transmit buffer can hold, fixed when it is made.
pub uninterp spec fn udp_tx_capacity(s: smoltcp::socket::UdpSocket<'static>) -> nat;

/// How many datagrams a UDP socket's receive buffer can hold, fixed when it is made.
pub uninterp spec fn udp_rx_capacity(s: smoltcp::socket::UdpSocket<'static>) -> nat;

/// The size in bytes of a UDP socket's transmit payload buffer, fixed when it is made.
pub uninterp spec fn udp_payload_capacity(s: smoltcp::socket::UdpSocket<'static>) -> nat;

/// The UDP socket is bound to a local port (`is_open`).
pub uninterp spec fn udp_is_open(s: smoltcp::socket::UdpSocket<'static>) -> bool;

/// The sizes a TCP socket was made with are the same in `a` and `b`.
pub open spec fn tcp_limits_kept(
    a: smoltcp::socket::TcpSocket<'static>,
    b: smoltcp::socket::TcpSocket<'static>,
) -> bool {
    tcp_tx_capacity(b) == tcp_tx_capacity(a) && tcp_rx_capacity(b) == tcp_rx_capacity(a)
}

/// The sizes a UDP socket was made with are the same in `a` and `b`.
pub open spec fn udp_limits_kept(
    a: smoltcp::socket::UdpSocket<'static>,
    b: smoltcp::socket::UdpSocket<'static>,
) -> bool {
    &&& udp_tx_capacity(b) == udp_tx_capacity(a)
    &&& udp_rx_capacity(b) == udp_rx_capacity(a)
    &&& udp_payload_capacity(b) == udp_payload_capacity(a)
}

/// The address is unspecified as smoltcp reads it: `Unspecified`, an IPv4 address in
/// `0.0.0.0/8`, or `::`.
pub open spec fn addr_unspecified(a: smoltcp::wire::IpAddress) -> bool {
    match a {
        smoltcp::wire::IpAddress::Ipv4(x) => x.0@[0] == 0u8,
        smoltcp::wire::IpAddress::Ipv6(x) => forall|i: int| 0 <= i < 16 ==> #[trigger] x.0@[i] == 0u8,
        _ => true,
    }
}

/// The endpoint names a peer: its address is specified and its port is not zero.
pub open spec fn endpoint_specified(e: smoltcp::wire::IpEndpoint) -> bool {
    !addr_unspecified(e.addr) && e.port != 0
}

/// Compares two handles with their derived `PartialEq` (the handle's index).
#[verifier::external_body]
pub(crate) fn same_handle(
    a: &smoltcp::iface::SocketHandle,
    b: &smoltcp::iface::SocketHandle,
) -> (r: bool)
    ensures
        r == (*a == *b),
{
    *a == *b
}

/// Copies a handle (`SocketHandle` is `Copy`).
#[verifier::external_body]
pub(crate) fn copy_handle(h: &smoltcp::iface::SocketHandle) -> (r: smoltcp::iface::SocketHandle)
    ensures
        r == *h,
{
    *h
}

/// Makes a closed TCP socket (state `Closed`), `TcpSocket::new` with zeroed buffers of the
/// given sizes.
/// smoltcp panics on a receive buffer over 1 GiB, which `requires` rules out.
#[verifier::external_body]
pub(crate) fn new_tcp_socket(rx_size: usize, tx_size: usize) -> (s: smoltcp::socket::TcpSocket<
    'static,
>)
    requires
        rx_size <= 0x4000_0000,
    ensures
        tcp_rx_queue(s) == Seq::<u8>::empty(),
        tcp_tx_queue(s) == Seq::<u8>::empty(),
        tcp_tx_capacity(s) == tx_size,
        tcp_rx_capacity(s) == rx_size,
        !tcp_is_open(s),
        !tcp_may_send(s),
{
    smoltcp::socket::TcpSocket::new(
        smoltcp::socket::TcpSocketBuffer::new(vec![0u8; rx_size]),
        smoltcp::socket::TcpSocketBuffer::new(vec![0u8; tx_size]),
    )
}

/// Makes an unbound UDP socket, `UdpSocket::new` with `metadata` packet slots and
/// `payload` zeroed payload bytes per direction.
#[verifier::external_body]
pub(crate) fn new_udp_socket(metadata: usize, payload: usize) -> (s: smoltcp::socket::UdpSocket<
    'static,
>)
    ensures
        udp_rx_queue(s).len() == 0,
        udp_tx_queue(s).len() == 0,
        udp_tx_capacity(s) == metadata,
        udp_rx_capacity(s) == metadata,
        udp_payload_capacity(s) == payload,
        !udp_is_open(s),
{
    smoltcp::socket::UdpSocket::new(
        smoltcp::socket::UdpSocketBuffer::new(
            vec![smoltcp::socket::UdpPacketMetadata::EMPTY; metadata],
            vec![0u8; payload],
        ),
        smoltcp::socket::UdpSocketBuffer::new(
            vec![smoltcp::socket::UdpPacketMetadata::EMPTY; metadata],
            vec![0u8; payload],
        ),
    )
}

/// `TcpSocket::can_recv`: the receive half is open and the receive buffer is not empty.
/// A non-empty receive buffer keeps the receive half open (`may_recv`), so this holds
/// exactly when the buffer is not empty.
#[verifier::external_body]
pub(crate) fn tcp_can_recv(s: &smoltcp::socket::TcpSocket<'static>) -> (r: bool)
    ensures
        r == (tcp_rx_queue(*s).len() > 0),
{
    s.can_recv()
}

/// `TcpSocket::can_send`: the transmit half is open and the transmit buffer is not full.
#[verifier::external_body]
pub(crate) fn tcp_can_send(s: &smoltcp::socket::TcpSocket<'static>) -> (r: bool)
    ensures
        r == (tcp_may_send(*s) && tcp_tx_queue(*s).len() < tcp_tx_capacity(*s)),
{
    s.can_send()
}

/// Copies out a received slice and reports all of it consumed.
fn take_all(data: &mut [u8]) -> (r: (usize, Vec<u8>))
    ensures
        r.0 == old(data)@.len(),
        r.1@ == old(data)@,
{
    (data.len(), vstd::slice::slice_to_vec(data))
}

/// `TcpSocket::recv` with a closure that takes the whole slice it is given:
/// the largest contiguous run at the front of the receive buffer is dequeued and copied out.
/// It fails (`Illegal` or `Finished`) with the buffer untouched when the receive half is
/// closed; when the buffer is not empty (which keeps the receive half open) it succeeds
/// with at least one byte. Which prefix comes out (the run may stop where the ring buffer
/// wraps) is left open.
#[verifier::external_body]
pub(crate) fn tcp_recv(s: &mut smoltcp::socket::TcpSocket<'static>) -> (r: Result<
    Vec<u8>,
    smoltcp::Error,
>)
    ensures
        r matches Ok(v) ==> {
            &&& v@.len() <= tcp_rx_queue(*old(s)).len()
            &&& v@ == tcp_rx_queue(*old(s)).take(v@.len() as int)
            &&& tcp_rx_queue(*final(s)) == tcp_rx_queue(*old(s)).skip(v@.len() as int)
        },
        r is Err ==> tcp_rx_queue(*final(s)) == tcp_rx_queue(*old(s)),
        tcp_rx_queue(*old(s)).len() > 0 ==> (r is Ok && r->Ok_0@.len() > 0),
        tcp_tx_queue(*final(s)) == tcp_tx_queue(*old(s)),
        tcp_limits_kept(*old(s), *final(s)),
        tcp_may_send(*final(s)) == tcp_may_send(*old(s)),
        tcp_is_open(*final(s)) == tcp_is_open(*old(s)),
{
    s.recv(|data| take_all(data))
}

/// `TcpSocket::send_slice`: enqueues as much of `data` as the transmit buffer has room for
/// (the ring buffer's `enqueue_slice` fills the free space up to the end of the storage,
/// then from its start) and returns how much; fails with `Illegal`, enqueuing nothing,
/// when the transmit half is closed (its only error), and succeeds otherwise. A ring
/// buffer never holds more than its capacity.
#[verifier::external_body]
pub(crate) fn tcp_send_slice(s: &mut smoltcp::socket::TcpSocket<'static>, data: &[u8]) -> (r: Result<
    usize,
    smoltcp::Error,
>)
    ensures
        r matches Ok(n) ==> {
            &&& n <= data@.len()
            &&& tcp_tx_queue(*final(s)) == tcp_tx_queue(*old(s)) + data@.take(n as int)
        },
        r is Err <==> !tcp_may_send(*old(s)),
        r matches Err(e) ==> e == smoltcp::Error::Illegal,
        r is Err ==> tcp_tx_queue(*final(s)) == tcp_tx_queue(*old(s)),
        tcp_tx_queue(*old(s)).len() <= tcp_tx_capacity(*old(s)),
        r matches Ok(n) ==> n == enqueued_len(data@.len() as int, tcp_tx_room(*old(s))),
        tcp_rx_queue(*final(s)) == tcp_rx_queue(*old(s)),
        tcp_limits_kept(*old(s), *final(s)),
        tcp_may_send(*final(s)) == tcp_may_send(*old(s)),
        tcp_is_open(*final(s)) == tcp_is_open(*old(s)),
{
    s.send_slice(data)
}

/// `TcpSocket::close`: closes the transmit half; buffered data stays queued. A socket
/// whose transmit half was open stays open until the peer acknowledges (`FIN-WAIT-1` or
/// `LAST-ACK`); one that was not yet connected becomes closed.
#[verifier::external_body]
pub(crate) fn tcp_close(s: &mut smoltcp::socket::TcpSocket<'static>)
    ensures
        tcp_rx_queue(*final(s)) == tcp_rx_queue(*old(s)),
        tcp_tx_queue(*final(s)) == tcp_tx_queue(*old(s)),
        tcp_limits_kept(*old(s), *final(s)),
        !tcp_may_send(*final(s)),
        tcp_may_send(*old(s)) ==> tcp_is_open(*final(s)),
        tcp_is_open(*final(s)) ==> tcp_is_open(*old(s)),
{
    s.close()
}

/// `TcpSocket::connect` from local port `src_port` to `remote`: fails with `Illegal` when
/// the socket is already open, else with `Unaddressable` when the remote endpoint is not
/// specified or `src_port` is zero, leaving the socket as it was; otherwise the socket is
/// reset (its buffers emptied), takes `remote` as its remote endpoint and port `src_port`
/// of the unspecified address of `remote`'s family as its local one, and starts the
/// handshake (`SYN-SENT`: open, transmit half not yet open).
#[verifier::external_body]
pub(crate) fn tcp_connect_raw(
    s: &mut smoltcp::socket::TcpSocket<'static>,
    cx: &mut smoltcp::iface::Context<'static>,
    remote: smoltcp::wire::IpEndpoint,
    src_port: u16,
) -> (r: Result<(), smoltcp::Error>)
    ensures
        tcp_is_open(*old(s)) ==> (r is Err && r->Err_0 == smoltcp::Error::Illegal),
        !tcp_is_open(*old(s)) && (!endpoint_specified(remote) || src_port == 0) ==> (r is Err
            && r->Err_0 == smoltcp::Error::Unaddressable),
        !tcp_is_open(*old(s)) && endpoint_specified(remote) && src_port != 0 ==> r is Ok,
        r is Ok ==> {
            &&& tcp_rx_queue(*final(s)).len() == 0
            &&& tcp_tx_queue(*final(s)).len() == 0
            &&& tcp_is_open(*final(s))
            &&& !tcp_may_send(*final(s))
            &&& tcp_syn_sent(*final(s))
            &&& tcp_remote_endpoint(*final(s)) == remote
            &&& tcp_local_endpoint(*final(s)) == (smoltcp::wire::IpEndpoint {
                addr: unspecified_like(remote.addr),
                port: src_port,
            })
        },
        r is Err ==> *final(s) == *old(s),
        tcp_limits_kept(*old(s), *final(s)),
{
    s.connect(cx, remote, src_port)
}

/// Connects a TCP socket from local port `src_port` to `remote` (see [`tcp_connect_raw`]):
/// it succeeds exactly when the socket is not open, the remote endpoint is specified and
/// the port is not zero, and the socket is then in `SYN-SENT` between those endpoints; a failure is reported with `smoltcp`'s message, never as
/// `Exhausted`.
pub fn tcp_connect(
    socket: &mut smoltcp::socket::TcpSocket<'static>,
    cx: &mut smoltcp::iface::Context<'static>,
    remote: smoltcp::wire::IpEndpoint,
    src_port: u16,
) -> (r: Result<(), crate::error::SocketConnectionError>)
    ensures
        r is Ok <==> (!tcp_is_open(*old(socket)) && endpoint_specified(remote) && src_port != 0),
        tcp_is_open(*old(socket)) ==> (r matches Err(crate::error::SocketConnectionError::Unknown(m))
            && m@ == crate::error::smoltcp_error_text(smoltcp::Error::Illegal)),
        !tcp_is_open(*old(socket)) && !(endpoint_specified(remote) && src_port != 0) ==> (r matches Err(
            crate::error::SocketConnectionError::Unknown(m),
        ) && m@ == crate::error::smoltcp_error_text(smoltcp::Error::Unaddressable)),
        r is Ok ==> {
            &&& tcp_rx_queue(*final(socket)).len() == 0
            &&& tcp_tx_queue(*final(socket)).len() == 0
            &&& tcp_is_open(*final(socket))
            &&& !tcp_may_send(*final(socket))
            &&& tcp_syn_sent(*final(socket))
            &&& tcp_remote_endpoint(*final(socket)) == remote
            &&& tcp_local_endpoint(*final(socket)).port == src_port
            &&& tcp_local_endpoint(*final(socket)).addr == unspecified_like(remote.addr)
        },
        r is Err ==> *final(socket) == *old(socket),
{
    match tcp_connect_raw(socket, cx, remote, src_port) {
        Ok(()) => Ok(()),
        Err(e) => Err(crate::error::smol_e_connection(e)),
    }
}

/// `UdpSocket::can_recv`: the receive buffer holds a packet entry.
#[verifier::external_body]
pub(crate) fn udp_can_recv(s: &smoltcp::socket::UdpSocket<'static>) -> (r: bool)
    ensures
        udp_rx_queue(*s).len() > 0 ==> r,
{
    s.can_recv()
}

/// `UdpSocket::can_send`: the transmit buffer has a free packet entry.
#[verifier::external_body]
pub(crate) fn udp_can_send(s: &smoltcp::socket::UdpSocket<'static>) -> (r: bool)
    ensures
        r ==> udp_tx_queue(*s).len() < udp_tx_capacity(*s),
{
    s.can_send()
}

/// `UdpSocket::recv`: dequeues the oldest datagram, copied out, with its sender;
/// fails with `Exhausted`, dequeuing nothing, when no datagram waits.
#[verifier::external_body]
pub(crate) fn udp_recv(s: &mut smoltcp::socket::UdpSocket<'static>) -> (r: Result<
    (Vec<u8>, smoltcp::wire::IpEndpoint),
    smoltcp::Error,
>)
    ensures
        r matches Ok((d, e)) ==> {
            &&& udp_rx_queue(*old(s)).len() > 0
            &&& udp_rx_queue(*old(s))[0] == (d@, e)
            &&& udp_rx_queue(*final(s)) == udp_rx_queue(*old(s)).drop_first()
        },
        r is Err ==> {
            &&& r->Err_0 == smoltcp::Error::Exhausted
            &&& udp_rx_queue(*old(s)).len() == 0
            &&& udp_rx_queue(*final(s)) == udp_rx_queue(*old(s))
        },
        udp_tx_queue(*final(s)) == udp_tx_queue(*old(s)),
        udp_limits_kept(*old(s), *final(s)),
        udp_is_open(*final(s)) == udp_is_open(*old(s)),
{
    match s.recv() {
        Ok((data, endpoint)) => Ok((data.to_vec(), endpoint)),
        Err(e) => Err(e),
    }
}

/// The error with which `UdpSocket::send_slice` refuses `len` bytes for `endpoint` on a
/// socket that is open as `open` says and whose transmit payload buffer holds
/// `payload_capacity` bytes: `Unaddressable` for an unbound socket or an unspecified
/// endpoint, else `Truncated` for a datagram larger than the whole payload buffer, else
/// `Exhausted` (no free packet slot or not enough free payload space).
pub open spec fn udp_refusal(
    open: bool,
    endpoint: smoltcp::wire::IpEndpoint,
    len: int,
    payload_capacity: int,
) -> smoltcp::Error {
    if !open || !endpoint_specified(endpoint) {
        smoltcp::Error::Unaddressable
    } else if payload_capacity < len {
        smoltcp::Error::Truncated
    } else {
        smoltcp::Error::Exhausted
    }
}

/// `UdpSocket::send_slice`: enqueues `data` as one datagram to `endpoint`; fails
/// (`Unaddressable`, `Exhausted` or `Truncated`), enqueuing nothing, when the socket is
/// unbound, the endpoint unspecified, or the buffer lacks room.
/// The checks come in the order [`udp_refusal`] gives (`send` checks the socket's port and
/// the endpoint, then the packet buffer's `enqueue` the payload capacity, then the free
/// slots and space), so the error is the one it names.
#[verifier::external_body]
pub(crate) fn udp_send_slice(
    s: &mut smoltcp::socket::UdpSocket<'static>,
    data: &[u8],
    endpoint: smoltcp::wire::IpEndpoint,
) -> (r: Result<(), smoltcp::Error>)
    ensures
        r is Ok ==> udp_tx_queue(*final(s)) == udp_tx_queue(*old(s)).push((data@, endpoint)),
        r is Err ==> udp_tx_queue(*final(s)) == udp_tx_queue(*old(s)),
        !udp_is_open(*old(s)) || !endpoint_specified(endpoint) ==> (r is Err && r->Err_0
            == smoltcp::Error::Unaddressable),
        r matches Err(e) ==> e == smoltcp::Error::Unaddressable || e == smoltcp::Error::Exhausted
            || e == smoltcp::Error::Truncated,
        r matches Err(e) ==> e == udp_refusal(
            udp_is_open(*old(s)),
            endpoint,
            data@.len() as int,
            udp_payload_capacity(*old(s)) as int,
        ),
        udp_is_open(*old(s)) && endpoint_specified(endpoint) && udp_payload_capacity(*old(s))
            < data@.len() ==> r is Err,
        udp_rx_queue(*final(s)) == udp_rx_queue(*old(s)),
        udp_limits_kept(*old(s), *final(s)),
        udp_is_open(*final(s)) == udp_is_open(*old(s)),
{
    s.send_slice(data, endpoint)
}

/// `UdpSocket::close`: unbinds the socket and empties both buffers.
#[verifier::external_body]
pub(crate) fn udp_close(s: &mut smoltcp::socket::UdpSocket<'static>)
    ensures
        udp_rx_queue(*final(s)).len() == 0,
        udp_tx_queue(*final(s)).len() == 0,
        udp_limits_kept(*old(s), *final(s)),
        !udp_is_open(*final(s)),
{
    s.close()
}

} // verus!
