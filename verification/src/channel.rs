//! Packet channels between the stack and its sockets (`crossbeam_channel`), and the
//! slot where a reading task leaves its waker (`futures::lock::Mutex<Option<Waker>>`).
//!
//! A channel is shared by its two ends and by other threads, so what a receive gives
//! back is not a function of the value at hand: the calls below state only what holds
//! of every outcome.
use vstd::prelude::*;
use std::sync::Arc;
use crate::packet::Packet;

verus! {

#[verifier::external_type_specification]
#[verifier::external_body]
#[verifier::reject_recursive_types(T)]
pub struct ExSender<T>(crossbeam_channel::Sender<T>);

#[verifier::external_type_specification]
#[verifier::external_body]
#[verifier::reject_recursive_types(T)]
pub struct ExReceiver<T>(crossbeam_channel::Receiver<T>);

#[verifier::external_type_specification]
#[verifier::external_body]
#[verifier::reject_recursive_types(T)]
pub struct ExFutMutex<T: ?Sized>(futures::lock::Mutex<T>);

#[verifier::external_type_specification]
#[verifier::external_body]
pub struct ExWaker(core::task::Waker);

/// What a non-blocking receive found.
pub enum TryRecvOutcome {
    /// A packet was waiting and has been taken.
    Received(Arc<Packet>),
    /// Nothing was waiting.
    Empty,
    /// Nothing was waiting and every sender is gone.
    Disconnected,
}

/// The channel that a sender sends into: two ends with the same channel are the two
/// ends of one channel.
pub uninterp spec fn sender_channel(s: crossbeam_channel::Sender<Arc<Packet>>) -> int;

/// The channel that a receiver receives from.
pub uninterp spec fn receiver_channel(r: crossbeam_channel::Receiver<Arc<Packet>>) -> int;

/// How many packets the channel of a sender holds before a send waits, fixed when the
/// channel is made; none for a channel without a limit.
pub uninterp spec fn sender_bound(s: crossbeam_channel::Sender<Arc<Packet>>) -> Option<nat>;

/// `crossbeam_channel::bounded(cap)`: the two ends of one new channel that holds at most
/// `cap` packets.
#[verifier::external_body]
pub(crate) fn bounded_packet_channel(cap: usize) -> (r: (
    crossbeam_channel::Sender<Arc<Packet>>,
    crossbeam_channel::Receiver<Arc<Packet>>,
))
    ensures
        sender_channel(r.0) == receiver_channel(r.1),
        sender_bound(r.0) == Some(cap as nat),
{
    crossbeam_channel::bounded(cap)
}

/// `crossbeam_channel::unbounded()`: the two ends of one new channel without a limit.
#[verifier::external_body]
pub(crate) fn unbounded_packet_channel() -> (r: (
    crossbeam_channel::Sender<Arc<Packet>>,
    crossbeam_channel::Receiver<Arc<Packet>>,
))
    ensures
        sender_channel(r.0) == receiver_channel(r.1),
        sender_bound(r.0) is None,
{
    crossbeam_channel::unbounded()
}

/// `Sender::send`: waits for room and hands the packet over; when every receiver is gone
/// it fails and gives the packet back (`SendError(packet)`).
#[verifier::external_body]
pub(crate) fn send_packet(
    tx: &crossbeam_channel::Sender<Arc<Packet>>,
    packet: Arc<Packet>,
) -> (r: Result<(), Arc<Packet>>)
    ensures
        r matches Err(back) ==> back == packet,
{
    match tx.send(packet) {
        Ok(()) => Ok(()),
        Err(crossbeam_channel::SendError(back)) => Err(back),
    }
}

/// `Receiver::try_recv`, with its two errors told apart.
#[verifier::external_body]
pub(crate) fn try_recv_packet(rx: &crossbeam_channel::Receiver<Arc<Packet>>) -> (r: TryRecvOutcome) {
    match rx.try_recv() {
        Ok(p) => TryRecvOutcome::Received(p),
        Err(crossbeam_channel::TryRecvError::Empty) => TryRecvOutcome::Empty,
        Err(crossbeam_channel::TryRecvError::Disconnected) => TryRecvOutcome::Disconnected,
    }
}

/// A fresh, empty waker slot: `Arc::new(futures::lock::Mutex::new(None))`.
#[verifier::external_body]
pub(crate) fn new_waker_slot() -> (r: Arc<futures::lock::Mutex<Option<core::task::Waker>>>) {
    Arc::new(futures::lock::Mutex::new(None))
}

/// How many times the lock of a waker slot is tried before a wake or a store gives up.
/// The lock is only ever held for the moment it takes to wake or replace a waker.
pub const LOCK_TRIES: u32 = 1_000_000;

/// `Mutex::try_lock` on the slot; when the lock was free, wakes the waker left there, if
/// any (`Waker::wake_by_ref`). Whether the lock was free.
#[verifier::external_body]
fn try_wake(slot: &Arc<futures::lock::Mutex<Option<core::task::Waker>>>) -> (taken: bool) {
    match slot.try_lock() {
        Some(g) => {
            let _ = g.as_ref().map(|w| w.wake_by_ref());
            true
        },
        None => false,
    }
}

/// `Mutex::try_lock` on the slot; when the lock was free, leaves a clone of `waker` there,
/// replacing the one before (`Option::replace`). Whether the lock was free.
#[verifier::external_body]
fn try_store_waker(
    slot: &Arc<futures::lock::Mutex<Option<core::task::Waker>>>,
    waker: &core::task::Waker,
) -> (taken: bool) {
    match slot.try_lock() {
        Some(mut g) => {
            let _ = g.replace(waker.clone());
            true
        },
        None => false,
    }
}

/// Wakes the waker left in the slot, if any, taking the slot's lock: while another task
/// holds it the lock is tried again, up to [`LOCK_TRIES`] times, after which nothing is
/// woken. (Waiting for the lock with `futures::executor::block_on` would panic inside
/// another executor.)
pub(crate) fn wake_waiting(slot: &Arc<futures::lock::Mutex<Option<core::task::Waker>>>) {
    let mut tries: u32 = 0;
    while tries < LOCK_TRIES
        decreases LOCK_TRIES - tries,
    {
        if try_wake(slot) {
            return;
        }
        tries = tries + 1;
    }
}

/// Leaves `waker` in the slot, replacing the one before, taking the slot's lock as
/// [`wake_waiting`] does: up to [`LOCK_TRIES`] tries, after which the waker is not left.
pub(crate) fn store_waker(
    slot: &Arc<futures::lock::Mutex<Option<core::task::Waker>>>,
    waker: core::task::Waker,
) {
    let mut tries: u32 = 0;
    while tries < LOCK_TRIES
        decreases LOCK_TRIES - tries,
    {
        if try_store_waker(slot, &waker) {
            return;
        }
        tries = tries + 1;
    }
}

} // verus!
