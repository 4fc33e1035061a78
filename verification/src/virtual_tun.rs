//! A TUN device whose frames come from and go to callbacks instead of the kernel.
use vstd::prelude::*;

verus! {

/// Error of the read callback.
#[derive(Debug, Clone, Copy, PartialEq, Eq)]
pub enum VirtualTunReadError {
    /// No frame is waiting (a real device would say `EWOULDBLOCK`).
    WouldBlock,
}

/// Error of the write callback.
#[derive(Debug, Clone, Copy, PartialEq, Eq)]
pub enum VirtualTunWriteError {
    NoData,
}

/// A virtual TUN device: an MTU, a callback that fills a buffer with one received frame,
/// and a callback that sends one frame.
#[derive(Clone)]
pub struct VirtualTunInterface<R, W> {
    mtu: usize,
    on_virtual_tun_read: R,
    on_virtual_tun_write: W,
}

/// A received frame, ready for the stack.
pub struct RxToken {
    buffer: Vec<u8>,
}

/// The right to send one frame through a device.
pub struct TxToken<R, W> {
    lower: VirtualTunInterface<R, W>,
}

/// `s` cut or padded with zero bytes to length `n` (what `Vec::resize(n, 0)` makes of it).
pub open spec fn resized(s: Seq<u8>, n: nat) -> Seq<u8> {
    if n <= s.len() {
        s.take(n as int)
    } else {
        s + Seq::new((n - s.len()) as nat, |i: int| 0u8)
    }
}

/// The frame that a read into `buffer` yields: none if the read found nothing, else the
/// buffer cut or zero-padded to the size the read reported.
pub open spec fn frame_of(buffer: Seq<u8>, read: Result<usize, VirtualTunReadError>) -> Option<
    Seq<u8>,
> {
    match read {
        Ok(size) => Some(resized(buffer, size as nat)),
        Err(_) => None,
    }
}

/// A frame has exactly the size the read reported: up to that size it holds the bytes
/// of the read buffer, and past the end of the buffer it holds zeros.
pub proof fn lemma_frame_contents(buffer: Seq<u8>, size: usize)
    ensures
        frame_of(buffer, Ok(size)) is Some,
        frame_of(buffer, Ok(size))->Some_0.len() == size,
        forall|i: int|
            0 <= i < size && i < buffer.len() ==> #[trigger] frame_of(buffer, Ok(size))->Some_0[i]
                == buffer[i],
        forall|i: int|
            buffer.len() <= i < size ==> #[trigger] frame_of(buffer, Ok(size))->Some_0[i] == 0u8,
{
}

/// A read that would block yields no frame, whatever the buffer holds.
pub proof fn lemma_blocked_read_has_no_frame(buffer: Seq<u8>)
    ensures
        frame_of(buffer, Err(VirtualTunReadError::WouldBlock)) is None,
{
}

/// The frame that a read into `buffer` yields (see [`frame_of`]).
pub fn received_frame(buffer: Vec<u8>, read: Result<usize, VirtualTunReadError>) -> (r: Option<
    Vec<u8>,
>)
    ensures
        r matches Some(v) ==> frame_of(buffer@, read) == Some(v@),
        r is None ==> frame_of(buffer@, read) is None,
{
    match read {
        Ok(size) => {
            let mut buffer = buffer;
            let ghost before = buffer@;
            buffer.resize(size, 0u8);
            proof {
                if size > before.len() {
                    assert forall|i: int| before.len() <= i < size implies buffer@[i] == 0u8 by {
                        assert(cloned::<u8>(0u8, buffer@[i]));
                    }
                    assert(buffer@ =~= resized(before, size as nat));
                } else {
                    assert(buffer@ =~= resized(before, size as nat));
                }
            }
            Some(buffer)
        },
        Err(VirtualTunReadError::WouldBlock) => None,
    }
}

impl<R, W> VirtualTunInterface<R, W> {
    /// A device with the given callbacks and MTU; the name is not used.
    pub fn new(_name: &str, on_virtual_tun_read: R, on_virtual_tun_write: W, mtu: usize) -> (r:
        Result<VirtualTunInterface<R, W>, smoltcp::Error>)
        ensures
            r matches Ok(d) && d.mtu_view() == mtu && d.read_callback() == on_virtual_tun_read
                && d.write_callback() == on_virtual_tun_write,
    {
        Ok(VirtualTunInterface { mtu, on_virtual_tun_read, on_virtual_tun_write })
    }

    /// The device's MTU.
    pub closed spec fn mtu_view(&self) -> usize {
        self.mtu
    }

    /// The device's MTU.
    pub fn mtu(&self) -> (m: usize)
        ensures
            m == self.mtu_view(),
    {
        self.mtu
    }

    /// The read callback.
    pub closed spec fn read_callback(&self) -> R {
        self.on_virtual_tun_read
    }

    /// The write callback.
    pub closed spec fn write_callback(&self) -> W {
        self.on_virtual_tun_write
    }

    /// The read callback.
    pub fn on_virtual_tun_read(&self) -> (r: &R)
        ensures
            *r == self.read_callback(),
    {
        &self.on_virtual_tun_read
    }

    /// The write callback.
    pub fn on_virtual_tun_write(&self) -> (w: &W)
        ensures
            *w == self.write_callback(),
    {
        &self.on_virtual_tun_write
    }
}

impl<R: Clone, W: Clone> VirtualTunInterface<R, W> {
    /// A copy of the device, with clones of its callbacks.
    fn duplicate(&self) -> (d: VirtualTunInterface<R, W>)
        ensures
            d.mtu_view() == self.mtu_view(),
            cloned(self.read_callback(), d.read_callback()),
            cloned(self.write_callback(), d.write_callback()),
    {
        VirtualTunInterface {
            mtu: self.mtu,
            on_virtual_tun_read: self.on_virtual_tun_read.clone(),
            on_virtual_tun_write: self.on_virtual_tun_write.clone(),
        }
    }

    /// Receives one frame: a zeroed buffer of MTU bytes is handed to `read` (the device's
    /// read callback); if it reports a size, the frame is the buffer cut or zero-padded to
    /// that size (see [`received_frame`]), paired with a token for sending a reply. If it
    /// would block, there is none. What the callback writes is its own affair: the
    /// contract leaves the frame's bytes to it.
    pub fn receive<F: FnOnce(&mut [u8]) -> Result<usize, VirtualTunReadError>>(
        &self,
        read: F,
    ) -> (r: Option<(RxToken, TxToken<R, W>)>)
        requires
            forall|b: &mut [u8]| #[trigger] read.requires((b,)),
        ensures
            r matches Some((rx, tx)) ==> {
                &&& tx.device().mtu_view() == self.mtu_view()
                &&& cloned(self.write_callback(), tx.device().write_callback())
                &&& cloned(self.read_callback(), tx.device().read_callback())
                &&& exists|b: &mut [u8], size: usize|
                    #[trigger] read.ensures((b,), Ok::<usize, VirtualTunReadError>(size))
                        && b@ == Seq::new(self.mtu_view() as nat, |i: int| 0u8)
                        && frame_of(final(b)@, Ok(size)) == Some(rx.frame())
            },
            (forall|b: &mut [u8], res: Result<usize, VirtualTunReadError>|
                #[trigger] read.ensures((b,), res) ==> res is Ok) ==> r is Some,
            (forall|b: &mut [u8], res: Result<usize, VirtualTunReadError>|
                #[trigger] read.ensures((b,), res) ==> res is Err) ==> r is None,
    {
        let mut buffer: Vec<u8> = vec![0u8; self.mtu];
        let result = read(buffer.as_mut_slice());
        match received_frame(buffer, result) {
            Some(frame) => {
                let rx = RxToken { buffer: frame };
                let tx = TxToken { lower: self.duplicate() };
                Some((rx, tx))
            },
            None => None,
        }
    }

    /// A token for sending one frame; there always is one.
    pub fn transmit(&self) -> (r: Option<TxToken<R, W>>)
        ensures
            r matches Some(tx) && tx.device().mtu_view() == self.mtu_view() && cloned(
                self.write_callback(),
                tx.device().write_callback(),
            ) && cloned(self.read_callback(), tx.device().read_callback()),
    {
        Some(TxToken { lower: self.duplicate() })
    }
}

impl RxToken {
    /// The frame's bytes.
    pub closed spec fn frame(&self) -> Seq<u8> {
        self.buffer@
    }

    /// Hands the frame to `f` and returns what `f` gives back.
    pub fn consume<T, F: FnOnce(&mut [u8]) -> T>(self, f: F) -> (r: T)
        requires
            forall|b: &mut [u8]| #[trigger] f.requires((b,)),
        ensures
            exists|b: &mut [u8]| #[trigger] f.ensures((b,), r) && b@ == self.frame(),
    {
        let mut buffer = self.buffer;
        f(buffer.as_mut_slice())
    }
}

impl<R, W> TxToken<R, W> {
    /// The device that the frame goes through.
    pub closed spec fn device(&self) -> VirtualTunInterface<R, W> {
        self.lower
    }

    /// The device that the frame goes through.
    pub fn lower(&self) -> (d: &VirtualTunInterface<R, W>)
        ensures
            *d == self.device(),
    {
        &self.lower
    }
}

} // verus!
