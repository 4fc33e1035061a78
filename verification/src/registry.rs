//! The stack's table of sockets: for each socket handle, its protocol, the channel ends
//! on the stack's side, and the reader's waker slot.
use vstd::prelude::*;
use std::sync::Arc;
use crate::channel::{
    bounded_packet_channel, new_waker_slot, receiver_channel, sender_bound, sender_channel,
    unbounded_packet_channel,
};
use crate::error::SpinError;
use crate::net::{
    copy_handle, new_tcp_socket, new_udp_socket, same_handle, tcp_close, tcp_is_open,
    tcp_may_send, tcp_rx_capacity, tcp_rx_queue, tcp_tx_capacity, tcp_tx_queue, udp_close,
    udp_is_open, udp_payload_capacity, udp_rx_capacity, udp_rx_queue, udp_tx_capacity,
    udp_tx_queue,
};
use crate::packet::{Packet, SocketType};
use crate::smol_socket::SmolSocket;
use crate::channel::TryRecvOutcome;
use crate::spin::{spin_tcp, spin_udp, tcp_spin_effect, udp_spin_effect};

verus! {

/// How many packets a TCP socket's channels hold before a sender waits.
pub const MAX_PACKETS_CHANNEL: usize = 10;

/// Size of each of a TCP socket's two buffers, in bytes.
pub const TCP_BUFFER_SIZE: usize = 65000;

/// Size of each of a UDP socket's two payload buffers, in bytes.
pub const UDP_PAYLOAD_BUFFER_SIZE: usize = 1024;

/// A new TCP socket for the stack: closed, with empty buffers of [`TCP_BUFFER_SIZE`] bytes.
pub fn tcp_socket() -> (s: smoltcp::socket::TcpSocket<'static>)
    ensures
        tcp_rx_queue(s).len() == 0,
        tcp_tx_queue(s).len() == 0,
        tcp_tx_capacity(s) == TCP_BUFFER_SIZE,
        tcp_rx_capacity(s) == TCP_BUFFER_SIZE,
        !tcp_is_open(s),
        !tcp_may_send(s),
{
    new_tcp_socket(TCP_BUFFER_SIZE, TCP_BUFFER_SIZE)
}

/// A new UDP socket for the stack: unbound, with payload buffers of
/// [`UDP_PAYLOAD_BUFFER_SIZE`] bytes and no packet slots (the metadata storage is empty),
/// so it can hold no datagram either way.
pub fn udp_socket() -> (s: smoltcp::socket::UdpSocket<'static>)
    ensures
        udp_rx_queue(s).len() == 0,
        udp_tx_queue(s).len() == 0,
        udp_tx_capacity(s) == 0,
        udp_rx_capacity(s) == 0,
        udp_payload_capacity(s) == UDP_PAYLOAD_BUFFER_SIZE,
        !udp_is_open(s),
{
    new_udp_socket(0, UDP_PAYLOAD_BUFFER_SIZE)
}

/// What the stack keeps of one socket.
pub struct SocketEntry {
    /// The socket's protocol.
    pub socket_type: SocketType,
    /// Packets from the stack to the socket's reader.
    pub send_to_socket: crossbeam_channel::Sender<Arc<Packet>>,
    /// Packets from the socket's writer to the stack.
    pub receive_from_socket: crossbeam_channel::Receiver<Arc<Packet>>,
    /// Where the socket's reader leaves its waker.
    pub waker: Arc<futures::lock::Mutex<Option<core::task::Waker>>>,
}

/// The sockets of a stack, in the order they were added.
pub struct SocketRegistry {
    entries: Vec<(smoltcp::iface::SocketHandle, SocketEntry)>,
}

impl SocketEntry {
    /// Spins a TCP socket once (see [`spin_tcp`]) and closes it if the spin failed; closing
    /// keeps what its buffers hold.
    pub fn spin_tcp_or_close(&self, socket: &mut smoltcp::socket::TcpSocket<'static>) -> (r: Result<
        (),
        SpinError,
    >)
        ensures
            exists|k: int, o: TryRecvOutcome|
                #[trigger] tcp_spin_effect(*old(socket), *final(socket), k, o, r, true),
    {
        let ghost before = *socket;
        let r = spin_tcp(socket, &self.send_to_socket, &self.receive_from_socket, &self.waker);
        let ghost mid = *socket;
        if r.is_err() {
            tcp_close(socket);
        }
        proof {
            let (k, o) = choose|k: int, o: TryRecvOutcome| tcp_spin_effect(before, mid, k, o, r, false);
            assert(tcp_spin_effect(before, *socket, k, o, r, true));
        }
        r
    }

    /// Spins a UDP socket once (see [`spin_udp`]) and closes it if the spin failed; closing
    /// empties its buffers.
    pub fn spin_udp_or_close(&self, socket: &mut smoltcp::socket::UdpSocket<'static>) -> (r: Result<
        (),
        SpinError,
    >)
        ensures
            exists|delivered: bool, can_send: bool, o: TryRecvOutcome|
                #[trigger] udp_spin_effect(*old(socket), *final(socket), delivered, can_send, o, r, true),
    {
        let ghost before = *socket;
        let r = spin_udp(socket, &self.send_to_socket, &self.receive_from_socket, &self.waker);
        let ghost mid = *socket;
        if r.is_err() {
            udp_close(socket);
        }
        proof {
            let (d, c, o) = choose|d: bool, c: bool, o: TryRecvOutcome|
                udp_spin_effect(before, mid, d, c, o, r, false);
            assert(udp_spin_effect(before, *socket, d, c, o, r, true));
        }
        r
    }
}

impl SocketRegistry {
    /// The registered sockets, in order: each handle with its protocol.
    pub closed spec fn view(&self) -> Seq<(smoltcp::iface::SocketHandle, SocketType)> {
        Seq::new(self.entries@.len(), |i: int| (self.entries@[i].0, self.entries@[i].1.socket_type))
    }

    /// The entry of the `i`-th registered socket.
    pub closed spec fn entry_spec(&self, i: int) -> SocketEntry {
        self.entries@[i].1
    }

    /// `h` is registered with an entry whose channels pair up with those of `s`, each
    /// holding at most `bound` packets (none: without a limit), and whose waker slot is
    /// `s`'s.
    pub open spec fn pairs_with(
        &self,
        h: smoltcp::iface::SocketHandle,
        s: SmolSocket,
        bound: Option<nat>,
    ) -> bool {
        exists|i: int|
            0 <= i < self@.len() && self@[i].0 == h && #[trigger] entry_pairs(
                self.entry_spec(i),
                s,
                bound,
            )
    }

    /// No handle is registered twice.
    pub open spec fn wf(&self) -> bool {
        forall|i: int, j: int|
            0 <= i < j < self@.len() ==> #[trigger] self@[i].0 != #[trigger] self@[j].0
    }

    /// Every table registers each handle at most once.
    #[verifier::type_invariant]
    spec fn handles_distinct(self) -> bool {
        distinct_handles(self.entries@)
    }

    proof fn lemma_wf(&self)
        requires
            distinct_handles(self.entries@),
        ensures
            self.wf(),
    {
        assert forall|i: int, j: int| 0 <= i < j < self@.len() implies #[trigger] self@[i].0
            != #[trigger] self@[j].0 by {
            assert(self.entries@[i].0 != self.entries@[j].0);
        }
    }

    /// The protocol registered for `h`, if any.
    pub open spec fn kind_of(&self, h: smoltcp::iface::SocketHandle) -> Option<SocketType> {
        view_kind(self@, h)
    }

    /// An empty table.
    pub fn new() -> (r: SocketRegistry)
        ensures
            r@ == Seq::<(smoltcp::iface::SocketHandle, SocketType)>::empty(),
            r.wf(),
    {
        let r = SocketRegistry { entries: Vec::new() };
        assert(r@ =~= Seq::<(smoltcp::iface::SocketHandle, SocketType)>::empty());
        r
    }

    /// How many sockets are registered.
    pub fn len(&self) -> (n: usize)
        ensures
            n == self@.len(),
    {
        self.entries.len()
    }

    /// The handle of the `i`-th registered socket.
    pub fn handle_at(&self, i: usize) -> (h: smoltcp::iface::SocketHandle)
        requires
            i < self@.len(),
        ensures
            h == self@[i as int].0,
    {
        copy_handle(&self.entries[i].0)
    }

    /// The entry of the `i`-th registered socket.
    pub fn entry_at(&self, i: usize) -> (e: &SocketEntry)
        requires
            i < self@.len(),
        ensures
            e.socket_type == self@[i as int].1,
            *e == self.entry_spec(i as int),
    {
        &self.entries[i].1
    }

    /// The registered handles, in order.
    pub fn handles(&self) -> (hs: Vec<smoltcp::iface::SocketHandle>)
        ensures
            hs@.len() == self@.len(),
            forall|i: int| 0 <= i < hs@.len() ==> #[trigger] hs@[i] == self@[i].0,
    {
        let mut hs: Vec<smoltcp::iface::SocketHandle> = Vec::new();
        let mut i: usize = 0;
        while i < self.entries.len()
            invariant
                i <= self.entries@.len(),
                hs@.len() == i,
                forall|k: int| 0 <= k < i ==> #[trigger] hs@[k] == self@[k].0,
            decreases self.entries@.len() - i,
        {
            hs.push(copy_handle(&self.entries[i].0));
            i = i + 1;
        }
        hs
    }

    /// Where `h` is registered, if it is.
    pub fn position(&self, h: &smoltcp::iface::SocketHandle) -> (r: Option<usize>)
        ensures
            r matches Some(i) ==> i < self@.len() && self@[i as int].0 == *h,
            r is None ==> forall|i: int| 0 <= i < self@.len() ==> #[trigger] self@[i].0 != *h,
    {
        let mut i: usize = 0;
        while i < self.entries.len()
            invariant
                i <= self.entries@.len(),
                forall|k: int| 0 <= k < i ==> #[trigger] self@[k].0 != *h,
            decreases self.entries@.len() - i,
        {
            if same_handle(&self.entries[i].0, h) {
                return Some(i);
            }
            i = i + 1;
        }
        None
    }

    /// The entry registered for `h`, if any.
    pub fn get(&self, h: &smoltcp::iface::SocketHandle) -> (r: Option<&SocketEntry>)
        ensures
            self.kind_of(*h) is None ==> r is None,
            self.kind_of(*h) matches Some(k) ==> (r matches Some(e) && e.socket_type == k),
            r matches Some(e) ==> exists|i: int|
                0 <= i < self@.len() && self@[i].0 == *h && *e == #[trigger] self.entry_spec(i),
    {
        proof {
            use_type_invariant(self);
            self.lemma_wf();
        }
        match self.position(h) {
            Some(i) => {
                proof {
                    self.lemma_kind_at(*h, i as int);
                }
                let e = &self.entries[i].1;
                assert(*e == self.entry_spec(i as int));
                Some(e)
            },
            None => None,
        }
    }

    proof fn lemma_kind_at(&self, h: smoltcp::iface::SocketHandle, i: int)
        requires
            self.wf(),
            0 <= i < self@.len(),
            self@[i].0 == h,
        ensures
            self.kind_of(h) == Some(self@[i].1),
    {
        let j = choose|j: int| 0 <= j < self@.len() && #[trigger] self@[j].0 == h;
        assert(self@[j].0 == h);
        if i < j {
            assert(self@[i].0 != self@[j].0);
        } else if j < i {
            assert(self@[j].0 != self@[i].0);
        }
    }

    /// Registers `entry` under `handle`, replacing what was registered there before, in
    /// place; a new handle goes to the end.
    pub fn insert(&mut self, handle: smoltcp::iface::SocketHandle, entry: SocketEntry)
        ensures
            final(self).wf(),
            old(self).kind_of(handle) is None ==> final(self)@ == old(self)@.push(
                (handle, entry.socket_type),
            ),
            old(self).kind_of(handle) is Some ==> exists|i: int|
                0 <= i < old(self)@.len() && old(self)@[i].0 == handle && final(self)@
                    == old(self)@.update(i, (handle, entry.socket_type)),
            final(self).kind_of(handle) == Some(entry.socket_type),
            exists|i: int|
                0 <= i < final(self)@.len() && final(self)@[i].0 == handle && #[trigger] final(self).entry_spec(i) == entry,
            forall|g: smoltcp::iface::SocketHandle|
                g != handle ==> #[trigger] final(self).kind_of(g) == old(self).kind_of(g),
    {
        proof {
            use_type_invariant(&*self);
            self.lemma_wf();
        }
        let ghost old_view = self@;
        let ghost old_entries = self.entries@;
        let ghost the_entry = entry;
        let ghost kind = entry.socket_type;
        let pos = self.position(&handle);
        let mut entries: Vec<(smoltcp::iface::SocketHandle, SocketEntry)> = Vec::new();
        std::mem::swap(&mut entries, &mut self.entries);
        assert(entries@ == old_entries);
        match pos {
            Some(i) => {
                entries.set(i, (handle, entry));
                assert(old_entries[i as int].0 == handle);
                assert(distinct_handles(entries@)) by {
                    assert forall|a: int, b: int| 0 <= a < b < entries@.len() implies #[trigger] entries@[a].0
                        != #[trigger] entries@[b].0 by {
                        assert(old_entries[a].0 != old_entries[b].0);
                    }
                }
                self.entries = entries;
                assert(self@ =~= old_view.update(i as int, (handle, kind)));
                assert(self.entry_spec(i as int) == the_entry);
                proof {
                    self.lemma_wf();
                    self.lemma_kind_at(handle, i as int);
                    assert forall|g: smoltcp::iface::SocketHandle| g != handle implies #[trigger] self.kind_of(g) == view_kind(old_view, g) by {
                        lemma_kind_same(old_view, self@, g, i as int);
                    }
                }
            },
            None => {
                let n: usize = entries.len();
                entries.push((handle, entry));
                assert(distinct_handles(entries@)) by {
                    assert forall|a: int, b: int| 0 <= a < b < entries@.len() implies #[trigger] entries@[a].0
                        != #[trigger] entries@[b].0 by {
                        if b < n {
                            assert(old_entries[a].0 != old_entries[b].0);
                        } else {
                            assert(old_view[a].0 != handle);
                        }
                    }
                }
                self.entries = entries;
                assert(self@ =~= old_view.push((handle, kind)));
                assert(self.entry_spec(n as int) == the_entry);
                proof {
                    self.lemma_wf();
                    self.lemma_kind_at(handle, n as int);
                    assert forall|g: smoltcp::iface::SocketHandle| g != handle implies #[trigger] self.kind_of(g) == view_kind(old_view, g) by {
                        lemma_kind_push(old_view, g, (handle, kind));
                    }
                }
            },
        }
    }

    /// Registers a new TCP socket under `handle`: its channels each hold at most
    /// [`MAX_PACKETS_CHANNEL`] packets. Returns the application's end of the socket.
    pub fn add_tcp_socket(&mut self, handle: smoltcp::iface::SocketHandle) -> (r: Result<
        SmolSocket,
        (),
    >)
        ensures
            final(self).wf(),
            r matches Ok(s) && s.handle_view() == handle && s.is_open()
                && s.half_delivered() is None,
            r matches Ok(s) && final(self).pairs_with(handle, s, Some(MAX_PACKETS_CHANNEL as nat)),
            final(self).kind_of(handle) == Some(SocketType::TCP),
            forall|g: smoltcp::iface::SocketHandle|
                g != handle ==> #[trigger] final(self).kind_of(g) == old(self).kind_of(g),
            old(self).kind_of(handle) is None ==> final(self)@ == old(self)@.push(
                (handle, SocketType::TCP),
            ),
    {
        let (socket_tx, stack_rx_from_socket) = bounded_packet_channel(MAX_PACKETS_CHANNEL);
        let (stack_tx_to_socket, socket_rx) = bounded_packet_channel(MAX_PACKETS_CHANNEL);
        self.register(handle, SocketType::TCP, socket_tx, stack_rx_from_socket, stack_tx_to_socket, socket_rx)
    }

    /// Registers a new UDP socket under `handle`: its channels have no limit.
    /// Returns the application's end of the socket.
    pub fn add_udp_socket(&mut self, handle: smoltcp::iface::SocketHandle) -> (r: Result<
        SmolSocket,
        (),
    >)
        ensures
            final(self).wf(),
            r matches Ok(s) && s.handle_view() == handle && s.is_open()
                && s.half_delivered() is None,
            r matches Ok(s) && final(self).pairs_with(handle, s, None),
            final(self).kind_of(handle) == Some(SocketType::UDP),
            forall|g: smoltcp::iface::SocketHandle|
                g != handle ==> #[trigger] final(self).kind_of(g) == old(self).kind_of(g),
            old(self).kind_of(handle) is None ==> final(self)@ == old(self)@.push(
                (handle, SocketType::UDP),
            ),
    {
        let (socket_tx, stack_rx_from_socket) = unbounded_packet_channel();
        let (stack_tx_to_socket, socket_rx) = unbounded_packet_channel();
        self.register(handle, SocketType::UDP, socket_tx, stack_rx_from_socket, stack_tx_to_socket, socket_rx)
    }

    fn register(
        &mut self,
        handle: smoltcp::iface::SocketHandle,
        socket_type: SocketType,
        socket_tx: crossbeam_channel::Sender<Arc<Packet>>,
        stack_rx_from_socket: crossbeam_channel::Receiver<Arc<Packet>>,
        stack_tx_to_socket: crossbeam_channel::Sender<Arc<Packet>>,
        socket_rx: crossbeam_channel::Receiver<Arc<Packet>>,
    ) -> (r: Result<SmolSocket, ()>)
        requires
            sender_channel(socket_tx) == receiver_channel(stack_rx_from_socket),
            sender_channel(stack_tx_to_socket) == receiver_channel(socket_rx),
            sender_bound(socket_tx) == sender_bound(stack_tx_to_socket),
        ensures
            final(self).wf(),
            r matches Ok(s) && s.handle_view() == handle && s.is_open()
                && s.half_delivered() is None,
            r matches Ok(s) && final(self).pairs_with(handle, s, sender_bound(socket_tx)),
            final(self).kind_of(handle) == Some(socket_type),
            forall|g: smoltcp::iface::SocketHandle|
                g != handle ==> #[trigger] final(self).kind_of(g) == old(self).kind_of(g),
            old(self).kind_of(handle) is None ==> final(self)@ == old(self)@.push(
                (handle, socket_type),
            ),
    {
        let waker = new_waker_slot();
        let entry = SocketEntry {
            socket_type,
            send_to_socket: stack_tx_to_socket,
            receive_from_socket: stack_rx_from_socket,
            waker: waker.clone(),
        };
        let ghost e = entry;
        let h = copy_handle(&handle);
        self.insert(h, entry);
        let s = SmolSocket::new(handle, socket_tx, socket_rx, waker);
        proof {
            let i = choose|i: int|
                0 <= i < self@.len() && self@[i].0 == handle && #[trigger] self.entry_spec(i) == e;
            assert(entry_pairs(self.entry_spec(i), s, sender_bound(socket_tx)));
        }
        Ok(s)
    }
}

/// The stack's entry and the application's socket are the two sides of one socket: what
/// the socket writes the entry receives, what the entry sends the socket reads, both
/// channels hold at most `bound` packets, and they share the waker slot.
pub open spec fn entry_pairs(e: SocketEntry, s: SmolSocket, bound: Option<nat>) -> bool {
    &&& s.to_stack() is Some
    &&& s.from_stack() is Some
    &&& sender_channel(s.to_stack()->Some_0) == receiver_channel(e.receive_from_socket)
    &&& receiver_channel(s.from_stack()->Some_0) == sender_channel(e.send_to_socket)
    &&& sender_bound(s.to_stack()->Some_0) == bound
    &&& sender_bound(e.send_to_socket) == bound
    &&& s.waker_slot() == e.waker
}

/// No handle occurs twice in `entries`.
spec fn distinct_handles(entries: Seq<(smoltcp::iface::SocketHandle, SocketEntry)>) -> bool {
    forall|i: int, j: int|
        0 <= i < j < entries.len() ==> #[trigger] entries[i].0 != #[trigger] entries[j].0
}

/// The protocol that a table, as a sequence of handles and protocols, registers for `h`.
pub open spec fn view_kind(
    v: Seq<(smoltcp::iface::SocketHandle, SocketType)>,
    h: smoltcp::iface::SocketHandle,
) -> Option<SocketType> {
    if exists|i: int| 0 <= i < v.len() && #[trigger] v[i].0 == h {
        Some(v[choose|i: int| 0 <= i < v.len() && #[trigger] v[i].0 == h].1)
    } else {
        None
    }
}

proof fn lemma_kind_same(
    v: Seq<(smoltcp::iface::SocketHandle, SocketType)>,
    w: Seq<(smoltcp::iface::SocketHandle, SocketType)>,
    g: smoltcp::iface::SocketHandle,
    i: int,
)
    requires
        0 <= i < v.len(),
        w.len() == v.len(),
        w[i].0 == v[i].0,
        v[i].0 != g,
        forall|k: int| 0 <= k < v.len() && k != i ==> #[trigger] w[k] == v[k],
        forall|a: int, b: int| 0 <= a < b < v.len() ==> #[trigger] v[a].0 != #[trigger] v[b].0,
        forall|a: int, b: int| 0 <= a < b < w.len() ==> #[trigger] w[a].0 != #[trigger] w[b].0,
    ensures
        view_kind(w, g) == view_kind(v, g),
{
    if exists|k: int| 0 <= k < v.len() && #[trigger] v[k].0 == g {
        let k = choose|k: int| 0 <= k < v.len() && #[trigger] v[k].0 == g;
        assert(w[k].0 == g);
        let kw = choose|k: int| 0 <= k < w.len() && #[trigger] w[k].0 == g;
        if kw != k {
            if kw < k { assert(w[kw].0 != w[k].0); } else { assert(w[k].0 != w[kw].0); }
        }
    } else {
        if exists|k: int| 0 <= k < w.len() && #[trigger] w[k].0 == g {
            let k = choose|k: int| 0 <= k < w.len() && #[trigger] w[k].0 == g;
            assert(v[k].0 == g);
        }
    }
}

proof fn lemma_kind_push(
    v: Seq<(smoltcp::iface::SocketHandle, SocketType)>,
    g: smoltcp::iface::SocketHandle,
    x: (smoltcp::iface::SocketHandle, SocketType),
)
    requires
        x.0 != g,
        forall|a: int, b: int| 0 <= a < b < v.len() ==> #[trigger] v[a].0 != #[trigger] v[b].0,
    ensures
        view_kind(v.push(x), g) == view_kind(v, g),
{
    let w = v.push(x);
    if exists|k: int| 0 <= k < v.len() && #[trigger] v[k].0 == g {
        let k = choose|k: int| 0 <= k < v.len() && #[trigger] v[k].0 == g;
        assert(w[k].0 == g);
        let kw = choose|k: int| 0 <= k < w.len() && #[trigger] w[k].0 == g;
        assert(kw < v.len());
        assert(w[kw] == v[kw]);
        if kw != k {
            if kw < k { assert(v[kw].0 != v[k].0); } else { assert(v[k].0 != v[kw].0); }
        }
    } else {
        if exists|k: int| 0 <= k < w.len() && #[trigger] w[k].0 == g {
            let k = choose|k: int| 0 <= k < w.len() && #[trigger] w[k].0 == g;
            assert(k < v.len());
            assert(v[k].0 == g);
        }
    }
}

} // verus!
