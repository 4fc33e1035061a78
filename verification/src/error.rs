//! Error types of the stack and the mapping of `smoltcp` errors onto them.
use vstd::prelude::*;

verus! {

/// `smoltcp::Error` is a plain enum of unit variants; Verus reads its variants.
#[verifier::external_type_specification]
pub struct ExSmoltcpError(smoltcp::Error);

/// Error of a poll-wait callback.
#[derive(Debug, Clone, Copy, PartialEq, Eq)]
pub enum PollWaitError {
    NoPollWait,
}

/// Error of one spin of a socket.
#[derive(Debug, Clone, PartialEq, Eq)]
pub enum SpinError {
    NoCallback,
    NoSocket,
    ClosedSocket,
    Unknown(String),
}

/// Error of handing data to a socket.
#[derive(Debug, Clone, PartialEq, Eq)]
pub enum SocketSendError {
    Exhausted,
    Unknown(String),
}

/// Error of connecting a socket.
#[derive(Debug, Clone, PartialEq, Eq)]
pub enum SocketConnectionError {
    Exhausted,
    Unknown(String),
}

/// The text that `smoltcp` prints for each of its errors (its `Display` impl).
pub open spec fn smoltcp_error_text(e: smoltcp::Error) -> Seq<char> {
    match e {
        smoltcp::Error::Exhausted => "buffer space exhausted"@,
        smoltcp::Error::Illegal => "illegal operation"@,
        smoltcp::Error::Unaddressable => "unaddressable destination"@,
        smoltcp::Error::Finished => "operation finished"@,
        smoltcp::Error::Truncated => "truncated packet"@,
        smoltcp::Error::Checksum => "checksum error"@,
        smoltcp::Error::Unrecognized => "unrecognized packet"@,
        smoltcp::Error::Fragmented => "fragmented packet"@,
        smoltcp::Error::Malformed => "malformed packet"@,
        smoltcp::Error::Dropped => "dropped by socket"@,
        smoltcp::Error::NotSupported => "not supported by smoltcp"@,
        _ => Seq::empty(),
    }
}

/// Formats a `smoltcp::Error` with its `Display` impl (`format!("{}", e)`).
/// smoltcp 0.8.2 writes one fixed message per variant, which `smoltcp_error_text` lists.
#[verifier::external_body]
pub(crate) fn smoltcp_error_message(e: smoltcp::Error) -> (text: String)
    ensures
        text@ == smoltcp_error_text(e),
{
    format!("{}", e)
}

/// Maps a `smoltcp` error to a send error: `Exhausted` stays `Exhausted`,
/// every other error becomes `Unknown` with the error's message.
pub fn smol_e_send(e: smoltcp::Error) -> (r: SocketSendError)
    ensures
        e == smoltcp::Error::Exhausted ==> r == SocketSendError::Exhausted,
        e != smoltcp::Error::Exhausted ==> (r matches SocketSendError::Unknown(m) && m@
            == smoltcp_error_text(e)),
{
    match e {
        smoltcp::Error::Exhausted => SocketSendError::Exhausted,
        _ => SocketSendError::Unknown(smoltcp_error_message(e)),
    }
}

/// Maps a `smoltcp` error to a connection error: `Exhausted` stays `Exhausted`,
/// every other error becomes `Unknown` with the error's message.
pub fn smol_e_connection(e: smoltcp::Error) -> (r: SocketConnectionError)
    ensures
        e == smoltcp::Error::Exhausted ==> r == SocketConnectionError::Exhausted,
        e != smoltcp::Error::Exhausted ==> (r matches SocketConnectionError::Unknown(m) && m@
            == smoltcp_error_text(e)),
{
    match e {
        smoltcp::Error::Exhausted => SocketConnectionError::Exhausted,
        _ => SocketConnectionError::Unknown(smoltcp_error_message(e)),
    }
}

} // verus!
