//! A small TCP/IP stack front end: sockets of an embedded `smoltcp` interface are
//! bridged to packet channels, a virtual TUN device feeds the stack from callbacks,
//! and the decisions made on every step are stated and proved here.
use vstd::prelude::*;
use rand::Rng;

pub mod error;
pub mod packet;
pub mod net;
pub mod channel;
pub mod spin;
pub mod smol_socket;
pub mod registry;
pub mod virtual_tun;
pub mod config;
pub mod vpn;
pub mod packet_log;

verus! {

/// MTU used when none is given.
pub const DEFAULT_MTU: usize = 1500;

/// Lowest source port handed out by [`random_source_port`].
pub const SOURCE_PORT_LOW: u16 = 42000;

/// One past the highest source port handed out by [`random_source_port`].
pub const SOURCE_PORT_HIGH: u16 = 65000;

/// Calls `rand::thread_rng().gen_range(low..high)`.
/// rand documents the result as a sample from the half-open range `low..high`,
/// and panics on an empty range, which `requires` rules out.
#[verifier::external_body]
fn gen_range_u16(low: u16, high: u16) -> (r: u16)
    requires
        low < high,
    ensures
        low <= r < high,
{
    rand::thread_rng().gen_range(low..high)
}

/// A random local port for an outgoing connection, in `42000..65000`.
pub fn random_source_port() -> (port: u16)
    ensures
        SOURCE_PORT_LOW <= port < SOURCE_PORT_HIGH,
{
    gen_range_u16(SOURCE_PORT_LOW, SOURCE_PORT_HIGH)
}

/// Hands `arg` to `f` and returns what `f` gives back.
pub fn __feed__<T, R>(arg: T, f: impl FnOnce(T) -> R) -> (r: R)
    requires
        f.requires((arg,)),
    ensures
        f.ensures((arg,), r),
{
    f(arg)
}

} // verus!
