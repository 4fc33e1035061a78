//! The application's end of a socket: reads take packets from the stack, writes hand
//! packets to it.
use vstd::prelude::*;
use std::sync::Arc;
use crate::channel::{send_packet, store_waker, try_recv_packet, TryRecvOutcome};
use crate::packet::{is_tcp_packet, Packet, TcpPacket};

verus! {

/// A socket of the stack as the application sees it.
pub struct SmolSocket {
    /// The stack's handle of the socket.
    pub handle: smoltcp::iface::SocketHandle,
    /// Packets to the stack, and packets from it; `None` once shut down.
    channel: Option<
        (crossbeam_channel::Sender<Arc<Packet>>, crossbeam_channel::Receiver<Arc<Packet>>),
    >,
    /// Where a reader that found nothing leaves its waker.
    waker: Arc<futures::lock::Mutex<Option<core::task::Waker>>>,
    /// A packet only partly delivered, and how much of it was.
    current: Leftover,
}

/// A packet only partly delivered by a read, and how much of it was, if any.
struct Leftover {
    held: Option<(Arc<Packet>, usize)>,
}

impl Leftover {
    /// A packet left half delivered carries TCP bytes, not all of them delivered.
    #[verifier::type_invariant]
    spec fn partly_delivered(self) -> bool {
        self.held matches Some((p, k)) ==> (p.tcp is Some && k < p.tcp->Some_0.data@.len())
    }
}

/// What one read puts into the reader's buffer.
pub enum ReadChunk {
    /// These bytes.
    Data(Vec<u8>),
    /// Nothing: the packet carries no TCP bytes ("invalid socket access").
    InvalidAccess,
}

/// The outcome of one read.
pub enum ReadStep {
    /// Nothing to read yet; the reader's waker has been left in the socket's slot.
    Pending,
    /// The read is done.
    Ready(ReadChunk),
}

/// The outcome of one write.
#[derive(Debug, Clone, Copy, PartialEq, Eq)]
pub enum WriteStep {
    /// This many bytes were taken.
    Written(usize),
    /// The stack has dropped its end of the channel.
    Disconnected,
}

/// What a read puts into a buffer with `remaining` bytes of room, from `packet` of which
/// `consumed` bytes were delivered before: the rest of the TCP payload if it fits, else as
/// much of the rest as fits.
pub open spec fn chunk_of(packet: Packet, consumed: int, remaining: int) -> Option<Seq<u8>> {
    match packet.tcp {
        Some(t) => {
            let rest = t.data@.skip(consumed);
            if rest.len() <= remaining {
                Some(rest)
            } else {
                Some(rest.take(remaining))
            }
        },
        None => None,
    }
}

/// What is left half delivered after such a read: the packet and how much of it has now
/// been delivered, when its rest did not fit.
pub open spec fn leftover_of(packet: Packet, consumed: int, remaining: int) -> Option<
    (Packet, usize),
> {
    match packet.tcp {
        Some(t) => if t.data@.len() - consumed > remaining {
            Some((packet, (consumed + remaining) as usize))
        } else {
            None
        },
        None => None,
    }
}

/// A read either fills the reader's room or delivers all the rest of the packet, never
/// more than the room; what it does not deliver is left for the next read, and the bytes
/// of the two reads follow each other in the packet.
pub proof fn lemma_read_keeps_the_rest(packet: Packet, consumed: int, remaining: int)
    requires
        remaining >= 0,
        packet.tcp is Some,
        0 <= consumed <= packet.tcp->Some_0.data@.len() <= usize::MAX,
    ensures
        chunk_of(packet, consumed, remaining) matches Some(d) && d.len() <= remaining && (d.len()
            == remaining || d == packet.tcp->Some_0.data@.skip(consumed)),
        leftover_of(packet, consumed, remaining) matches Some((q, k)) ==> q == packet && k
            == consumed + remaining && chunk_of(packet, consumed, remaining)->Some_0
            + packet.tcp->Some_0.data@.skip(k as int) == packet.tcp->Some_0.data@.skip(consumed),
        leftover_of(packet, consumed, remaining) is None ==> chunk_of(packet, consumed, remaining)->Some_0
            == packet.tcp->Some_0.data@.skip(consumed),
{
    let data = packet.tcp->Some_0.data@;
    if data.len() - consumed > remaining {
        let k = consumed + remaining;
        assert(data.skip(consumed).take(remaining) + data.skip(k) =~= data.skip(consumed));
    }
}

/// Cuts what a read delivers out of `packet` (see [`chunk_of`]).
pub fn read_chunk(packet: &Packet, consumed: usize, remaining: usize) -> (r: ReadChunk)
    requires
        packet.tcp matches Some(t) ==> consumed <= t.data@.len(),
    ensures
        chunk_of(*packet, consumed as int, remaining as int) matches Some(d) ==> (r matches ReadChunk::Data(v) && v@ == d),
        chunk_of(*packet, consumed as int, remaining as int) is None ==> r is InvalidAccess,
{
    match &packet.tcp {
        Some(t) => {
            let end = if t.data.len() - consumed <= remaining {
                t.data.len()
            } else {
                consumed + remaining
            };
            let mut out: Vec<u8> = Vec::new();
            let mut i: usize = consumed;
            while i < end
                invariant
                    consumed <= i <= end <= t.data@.len(),
                    out@ == t.data@.subrange(consumed as int, i as int),
                decreases end - i,
            {
                out.push(t.data[i]);
                i = i + 1;
                assert(out@ == t.data@.subrange(consumed as int, i as int));
            }
            assert(t.data@.skip(consumed as int) =~= t.data@.subrange(consumed as int, t.data@.len() as int));
            if t.data.len() - consumed > remaining {
                assert(t.data@.skip(consumed as int).take(remaining as int) =~= t.data@.subrange(
                    consumed as int,
                    consumed + remaining,
                ));
            }
            ReadChunk::Data(out)
        },
        None => ReadChunk::InvalidAccess,
    }
}

/// `c` is what [`chunk_of`] cuts: those bytes, or an invalid access for a packet without
/// TCP bytes.
pub open spec fn chunk_is(packet: Packet, consumed: int, remaining: int, c: ReadChunk) -> bool {
    match chunk_of(packet, consumed, remaining) {
        Some(d) => c matches ReadChunk::Data(v) && v@ == d,
        None => c is InvalidAccess,
    }
}

/// What one read does: with a packet left half delivered, it delivers from where that
/// stopped, without taking a packet from the channel; otherwise, with a packet taken
/// (`outcome`), it delivers from its start, and with nothing taken it is pending. What is
/// not delivered is left for the next read.
pub open spec fn read_step_matches(
    half: Option<(Packet, usize)>,
    outcome: TryRecvOutcome,
    remaining: usize,
    r: ReadStep,
    half_after: Option<(Packet, usize)>,
) -> bool {
    match half {
        Some((p, k)) => r matches ReadStep::Ready(ReadChunk::Data(v)) && Some(v@) == chunk_of(
            p,
            k as int,
            remaining as int,
        ) && half_after == leftover_of(p, k as int, remaining as int),
        None => match outcome {
            TryRecvOutcome::Received(p) => r matches ReadStep::Ready(c) && chunk_is(
                *p,
                0,
                remaining as int,
                c,
            ) && half_after == leftover_of(*p, 0, remaining as int),
            _ => r is Pending && half_after is None,
        },
    }
}

/// The packet a write of `buf` hands to the stack: `buf`'s bytes as TCP bytes.
pub fn write_packet(buf: &[u8]) -> (p: Packet)
    ensures
        is_tcp_packet(p, buf@),
{
    let data = vstd::slice::slice_to_vec(buf);
    Packet::new_tcp(TcpPacket { data })
}

/// Reads hand out a packet's bytes in order, none lost or repeated: a read with nothing
/// left half delivered that takes packet `p` (as [`SmolSocket::read_step`] does) delivers
/// all of `p`'s bytes when they fit its room, else exactly the first `room` of them and
/// keeps `p`; the read after it (as [`SmolSocket::poll_read_step`] does with a packet
/// left half delivered) goes on from there, so that the two reads together deliver the
/// first `room + room2` bytes of `p`, or all of them.
pub proof fn lemma_reads_deliver_in_order(
    p: Arc<Packet>,
    room: usize,
    r: ReadStep,
    half: Option<(Packet, usize)>,
    room2: usize,
    r2: ReadStep,
    half2: Option<(Packet, usize)>,
)
    requires
        p.tcp is Some,
        read_step_matches(None, TryRecvOutcome::Received(p), room, r, half),
        half is Some ==> read_step_matches(half, TryRecvOutcome::Empty, room2, r2, half2),
    ensures
        r matches ReadStep::Ready(ReadChunk::Data(v)) && (if p.tcp->Some_0.data@.len() <= room {
            v@ == p.tcp->Some_0.data@ && half is None
        } else {
            v@ == p.tcp->Some_0.data@.take(room as int) && half == Some((*p, room))
        }),
        half is Some ==> (r matches ReadStep::Ready(ReadChunk::Data(v)) && r2 matches ReadStep::Ready(
            ReadChunk::Data(v2),
        ) && v@ + v2@ == (if p.tcp->Some_0.data@.len() <= room + room2 {
            p.tcp->Some_0.data@
        } else {
            p.tcp->Some_0.data@.take(room + room2)
        })),
{
    let data = p.tcp->Some_0.data@;
    assert(data.skip(0) =~= data);
    if data.len() > room {
        let v = data.take(room as int);
        let rest = data.skip(room as int);
        if rest.len() <= room2 {
            assert(v + rest =~= data);
        } else {
            assert(v + rest.take(room2 as int) =~= data.take(room + room2));
        }
    }
}

impl SmolSocket {
    /// A socket whose channel ends are `to_stack` and `from_stack`.
    pub(crate) fn new(
        handle: smoltcp::iface::SocketHandle,
        to_stack: crossbeam_channel::Sender<Arc<Packet>>,
        from_stack: crossbeam_channel::Receiver<Arc<Packet>>,
        waker: Arc<futures::lock::Mutex<Option<core::task::Waker>>>,
    ) -> (s: SmolSocket)
        ensures
            s.handle_view() == handle,
            s.is_open(),
            s.half_delivered() is None,
            s.to_stack() == Some(to_stack),
            s.from_stack() == Some(from_stack),
            s.waker_slot() == waker,
    {
        SmolSocket { handle, channel: Some((to_stack, from_stack)), current: Leftover { held: None }, waker }
    }

    /// The stack's handle of the socket.
    pub closed spec fn handle_view(&self) -> smoltcp::iface::SocketHandle {
        self.handle
    }

    /// The end that packets to the stack go into, while the socket is open.
    pub closed spec fn to_stack(&self) -> Option<crossbeam_channel::Sender<Arc<Packet>>> {
        match self.channel {
            Some(c) => Some(c.0),
            None => None,
        }
    }

    /// The end that packets from the stack come out of, while the socket is open.
    pub closed spec fn from_stack(&self) -> Option<crossbeam_channel::Receiver<Arc<Packet>>> {
        match self.channel {
            Some(c) => Some(c.1),
            None => None,
        }
    }

    /// The slot where a reader that found nothing leaves its waker.
    pub closed spec fn waker_slot(&self) -> Arc<futures::lock::Mutex<Option<core::task::Waker>>> {
        self.waker
    }

    /// The socket has not been shut down.
    pub closed spec fn is_open(&self) -> bool {
        self.channel is Some
    }

    /// The packet left half delivered, and how much of it was, if any.
    pub closed spec fn half_delivered(&self) -> Option<(Packet, usize)> {
        match self.current.held {
            Some((p, k)) => Some((*p, k)),
            None => None,
        }
    }

    /// Whether the socket has not been shut down.
    pub fn has_channel(&self) -> (b: bool)
        ensures
            b == self.is_open(),
    {
        self.channel.is_some()
    }

    /// What a read does with what the socket's channel gave (`outcome`) when no packet is
    /// left half delivered: see [`read_step_matches`].
    pub fn read_step(&mut self, outcome: TryRecvOutcome, remaining: usize) -> (r: ReadStep)
        requires
            old(self).half_delivered() is None,
        ensures
            read_step_matches(old(self).half_delivered(), outcome, remaining, r, final(self).half_delivered()),
            final(self).handle_view() == old(self).handle_view(),
            final(self).to_stack() == old(self).to_stack(),
            final(self).from_stack() == old(self).from_stack(),
            final(self).waker_slot() == old(self).waker_slot(),
    {
        match outcome {
            TryRecvOutcome::Received(packet) => {
                let chunk = read_chunk(&packet, 0, remaining);
                let keep = match &packet.tcp {
                    Some(t) => t.data.len() > remaining,
                    None => false,
                };
                if keep {
                    self.current = Leftover { held: Some((packet, remaining)) };
                }
                ReadStep::Ready(chunk)
            },
            TryRecvOutcome::Empty => ReadStep::Pending,
            TryRecvOutcome::Disconnected => ReadStep::Pending,
        }
    }

    /// Delivers from the packet left half delivered, from where it stopped.
    fn read_leftover(&mut self, remaining: usize) -> (r: ReadStep)
        requires
            old(self).half_delivered() is Some,
        ensures
            read_step_matches(
                old(self).half_delivered(),
                TryRecvOutcome::Empty,
                remaining,
                r,
                final(self).half_delivered(),
            ),
            final(self).handle_view() == old(self).handle_view(),
            final(self).to_stack() == old(self).to_stack(),
            final(self).from_stack() == old(self).from_stack(),
            final(self).waker_slot() == old(self).waker_slot(),
    {
        let mut taken = Leftover { held: None };
        std::mem::swap(&mut taken, &mut self.current);
        proof {
            use_type_invariant(&taken);
        }
        match taken.held {
            Some((packet, consumed)) => {
                let chunk = read_chunk(&packet, consumed, remaining);
                let keep = match &packet.tcp {
                    Some(t) => t.data.len() - consumed > remaining,
                    None => false,
                };
                if keep {
                    self.current = Leftover { held: Some((packet, consumed + remaining)) };
                }
                ReadStep::Ready(chunk)
            },
            None => ReadStep::Pending,
        }
    }

    /// One read into a buffer with `remaining` bytes of room.
    ///
    /// A packet left half delivered by an earlier read is delivered first, from where it
    /// stopped. Otherwise a packet waiting from the stack is taken and delivered from its
    /// start. Either way what does not fit is kept for the next read (see
    /// [`read_step_matches`]). With nothing left and nothing waiting, or the stack gone,
    /// `waker` is left in the socket's slot and the read is pending. A read on a shut-down
    /// socket is a programming error, which `requires` rules out.
    pub fn poll_read_step(&mut self, remaining: usize, waker: core::task::Waker) -> (r: ReadStep)
        requires
            old(self).is_open(),
        ensures
            r matches ReadStep::Ready(ReadChunk::Data(d)) ==> d@.len() <= remaining,
            old(self).half_delivered() is Some ==> read_step_matches(
                old(self).half_delivered(),
                TryRecvOutcome::Empty,
                remaining,
                r,
                final(self).half_delivered(),
            ),
            old(self).half_delivered() is None ==> exists|outcome: TryRecvOutcome|
                #[trigger] read_step_matches(
                    old(self).half_delivered(),
                    outcome,
                    remaining,
                    r,
                    final(self).half_delivered(),
                ),
            final(self).is_open(),
            final(self).handle_view() == old(self).handle_view(),
            final(self).to_stack() == old(self).to_stack(),
            final(self).from_stack() == old(self).from_stack(),
    {
        if self.current.held.is_some() {
            return self.read_leftover(remaining);
        }
        let outcome = match &self.channel {
            Some(c) => try_recv_packet(&c.1),
            None => TryRecvOutcome::Empty,
        };
        match outcome {
            TryRecvOutcome::Received(_) => {},
            _ => {
                store_waker(&self.waker, waker);
            },
        }
        let ghost taken = outcome;
        let r = self.read_step(outcome, remaining);
        assert(read_step_matches(None, taken, remaining, r, self.half_delivered()));
        r
    }

    /// One write of `buf`: a shut-down socket takes nothing; otherwise `buf` goes to the
    /// stack as one TCP packet (the packet of [`write_packet`]) and is taken whole, unless
    /// the stack has gone.
    pub fn poll_write_step(&self, buf: &[u8]) -> (r: WriteStep)
        ensures
            !self.is_open() ==> r == WriteStep::Written(0),
            self.is_open() ==> (r == WriteStep::Written(buf@.len() as usize) || r is Disconnected),
    {
        match &self.channel {
            None => WriteStep::Written(0),
            Some(channel) => {
                match send_packet(&channel.0, Arc::new(write_packet(buf))) {
                    Ok(()) => WriteStep::Written(buf.len()),
                    Err(_) => WriteStep::Disconnected,
                }
            },
        }
    }

    /// Shuts the socket down: its channel ends are dropped.
    pub fn poll_shutdown_step(&mut self)
        ensures
            !final(self).is_open(),
            final(self).handle_view() == old(self).handle_view(),
    {
        self.channel = None;
    }
}

} // verus!
