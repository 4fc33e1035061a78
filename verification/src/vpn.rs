//! What a virtual TUN device fed by a VPN client does with the client's answers.
use vstd::prelude::*;
use crate::virtual_tun::VirtualTunReadError;

verus! {

/// Error of a VPN client's receive.
#[derive(Debug, Clone, PartialEq, Eq)]
pub enum PhyReceiveError {
    /// No packet is waiting.
    NoDataAvailable,
    Unknown(String),
}

/// Error of a VPN client's send.
#[derive(Debug, Clone, PartialEq, Eq)]
pub enum PhySendError {
    Unknown(String),
}

/// Copies a packet the VPN client received to the front of the device's read buffer and
/// returns its length; the rest of the buffer is left as it was. A packet longer than the
/// buffer is a programming error, which `requires` rules out.
pub fn copy_received(buffer: &mut [u8], received: &[u8]) -> (size: usize)
    requires
        received@.len() <= old(buffer)@.len(),
    ensures
        size == received@.len(),
        final(buffer)@ == received@ + old(buffer)@.skip(size as int),
{
    let size = received.len();
    let mut i: usize = 0;
    while i < size
        invariant
            size == received@.len(),
            i <= size <= buffer@.len(),
            buffer@.len() == old(buffer)@.len(),
            buffer@ == received@.take(i as int) + old(buffer)@.skip(i as int),
        decreases size - i,
    {
        buffer[i] = received[i];
        i = i + 1;
        assert(buffer@ =~= received@.take(i as int) + old(buffer)@.skip(i as int));
    }
    assert(received@.take(size as int) =~= received@);
    size
}

/// What the device's read callback answers for what the VPN client's receive gave:
/// the client's size, or "would block" when it had nothing. An unknown error of the
/// client is fatal to the device, which `requires` leaves to the caller.
pub fn read_outcome(received: Result<usize, PhyReceiveError>) -> (r: Result<usize, VirtualTunReadError>)
    requires
        !(received matches Err(PhyReceiveError::Unknown(_))),
    ensures
        received matches Ok(s) ==> r == Ok::<usize, VirtualTunReadError>(s),
        received is Err ==> r == Err::<usize, VirtualTunReadError>(VirtualTunReadError::WouldBlock),
{
    match received {
        Ok(s) => Ok(s),
        Err(_) => Err(VirtualTunReadError::WouldBlock),
    }
}

} // verus!
