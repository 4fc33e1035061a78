//! What is logged about an IP packet that passes the device: its addresses, ports,
//! TCP flags and payload, from the headers that `etherparse` reads.
use vstd::prelude::*;
use etherparse::{IpHeader, TransportHeader};

verus! {

/// The addresses of an IP header.
#[derive(Debug, Clone, Copy, PartialEq, Eq)]
pub enum IpSummary {
    /// IPv4 source and destination.
    V4([u8; 4], [u8; 4]),
    /// IPv6 source and destination.
    V6([u8; 16], [u8; 16]),
}

/// The ports (and, for TCP, the SYN and ACK flags) of a transport header.
#[derive(Debug, Clone, Copy, PartialEq, Eq)]
pub enum TransportSummary {
    /// Source port, destination port, SYN, ACK.
    Tcp(u16, u16, bool, bool),
    /// Source port, destination port.
    Udp(u16, u16),
}

/// The headers read from an IP packet, and what follows them.
#[derive(Debug, Clone, PartialEq, Eq)]
pub struct Headers {
    pub ip: Option<IpSummary>,
    pub transport: Option<TransportSummary>,
    pub payload: Vec<u8>,
}

impl Headers {
    /// The headers as plain values.
    pub open spec fn view(&self) -> (Option<IpSummary>, Option<TransportSummary>, Seq<u8>) {
        (self.ip, self.transport, self.payload@)
    }
}

/// What `etherparse` reads from an IP packet: its IP header, its transport header and
/// the rest, or the text of its error.
pub uninterp spec fn ip_packet_headers(packet: Seq<u8>) -> Result<
    (Option<IpSummary>, Option<TransportSummary>, Seq<u8>),
    Seq<char>,
>;

/// `etherparse::PacketHeaders::from_ip_slice`, its headers copied field by field and its
/// error written with `{:?}`.
#[verifier::external_body]
fn parse_ip_packet(packet: &[u8]) -> (r: Result<Headers, String>)
    ensures
        r matches Ok(h) ==> ip_packet_headers(packet@) is Ok && ip_packet_headers(packet@)->Ok_0
            == h.view(),
        r matches Err(e) ==> ip_packet_headers(packet@) is Err && ip_packet_headers(packet@)->Err_0
            == e@,
{
    match etherparse::PacketHeaders::from_ip_slice(packet) {
        Err(e) => Err(format!("{:?}", e)),
        Ok(v) => Ok(Headers {
            ip: match v.ip {
                Some(IpHeader::Version4(h)) => Some(IpSummary::V4(h.source, h.destination)),
                Some(IpHeader::Version6(h)) => Some(IpSummary::V6(h.source, h.destination)),
                None => None,
            },
            transport: v.transport.map(|t| match t {
                TransportHeader::Tcp(t) => TransportSummary::Tcp(t.source_port, t.destination_port, t.syn, t.ack),
                TransportHeader::Udp(u) => TransportSummary::Udp(u.source_port, u.destination_port),
            }),
            payload: v.payload.to_vec(),
        }),
    }
}

/// What is logged about one packet, after the line that gives its direction.
#[derive(Debug, Clone, PartialEq, Eq)]
pub enum PacketLog {
    /// The packet could not be read; the text of the error.
    ParseError(String),
    /// A TCP segment: addresses, ports, SYN and ACK when it carries no payload, and the
    /// payload when it carries one.
    Tcp {
        ip: IpSummary,
        source_port: u16,
        destination_port: u16,
        flags: Option<(bool, bool)>,
        payload: Option<Vec<u8>>,
    },
    /// A UDP datagram: addresses, ports, and the payload when it carries one.
    Udp {
        ip: IpSummary,
        source_port: u16,
        destination_port: u16,
        payload: Option<Vec<u8>>,
    },
}

/// What is logged about a packet going one way (`read`: from the device to the stack).
#[derive(Debug, Clone, PartialEq, Eq)]
pub struct LogRecord {
    pub read: bool,
    pub body: PacketLog,
}

/// A payload as logged: only when there is one.
pub open spec fn payload_shown(payload: Seq<u8>, shown: Option<Vec<u8>>) -> bool {
    if payload.len() == 0 {
        shown is None
    } else {
        shown matches Some(p) && p@ == payload
    }
}

/// The record of a packet whose headers read as `ip`, `transport` and `payload`.
pub open spec fn record_matches(
    ip: IpSummary,
    transport: TransportSummary,
    payload: Seq<u8>,
    body: PacketLog,
) -> bool {
    match transport {
        TransportSummary::Tcp(sp, dp, syn, ack) => body matches PacketLog::Tcp {
            ip: i,
            source_port: s,
            destination_port: d,
            flags: f,
            payload: p,
        } && i == ip && s == sp && d == dp && f == (if payload.len() == 0 {
            Some((syn, ack))
        } else {
            None
        }) && payload_shown(payload, p),
        TransportSummary::Udp(sp, dp) => body matches PacketLog::Udp {
            ip: i,
            source_port: s,
            destination_port: d,
            payload: p,
        } && i == ip && s == sp && d == dp && payload_shown(payload, p),
    }
}

/// A packet read as `parsed` can be logged: it could not be read (the error is logged),
/// or both an IP and a transport header were read.
pub open spec fn loggable(
    parsed: Result<(Option<IpSummary>, Option<TransportSummary>, Seq<u8>), Seq<char>>,
) -> bool {
    match parsed {
        Ok((i, t, _)) => i is Some && t is Some,
        Err(_) => true,
    }
}

/// `rec` is the record logged for a packet read as `parsed`, going the way `read` says:
/// the error, or the headers.
pub open spec fn logged(
    parsed: Result<(Option<IpSummary>, Option<TransportSummary>, Seq<u8>), Seq<char>>,
    read: bool,
    rec: LogRecord,
) -> bool {
    &&& rec.read == read
    &&& match parsed {
        Err(e) => rec.body matches PacketLog::ParseError(m) && m@ == e,
        Ok((Some(i), Some(t), payload)) => record_matches(i, t, payload, rec.body),
        Ok(_) => false,
    }
}

fn payload_if_any(payload: &Vec<u8>) -> (r: Option<Vec<u8>>)
    ensures
        payload_shown(payload@, r),
{
    if payload.len() == 0 {
        None
    } else {
        Some(payload.clone())
    }
}

/// The record for a packet whose headers were read as `headers` (or could not be).
/// A packet read without an IP or a transport header cannot be logged, which `requires`
/// rules out.
pub fn log_record(headers: Result<Headers, String>, read: bool) -> (r: LogRecord)
    requires
        headers matches Ok(h) ==> h.ip is Some && h.transport is Some,
    ensures
        r.read == read,
        headers matches Err(e) ==> (r.body matches PacketLog::ParseError(m) && m@ == e@),
        headers matches Ok(h) ==> record_matches(
            h.ip->Some_0,
            h.transport->Some_0,
            h.payload@,
            r.body,
        ),
{
    match headers {
        Err(e) => LogRecord { read, body: PacketLog::ParseError(e) },
        Ok(h) => {
            let ip = match h.ip {
                Some(ip) => ip,
                None => IpSummary::V4([0u8, 0u8, 0u8, 0u8], [0u8, 0u8, 0u8, 0u8]),
            };
            let payload = payload_if_any(&h.payload);
            let body = match h.transport {
                Some(TransportSummary::Tcp(sp, dp, syn, ack)) => PacketLog::Tcp {
                    ip,
                    source_port: sp,
                    destination_port: dp,
                    flags: if h.payload.len() == 0 {
                        Some((syn, ack))
                    } else {
                        None
                    },
                    payload,
                },
                Some(TransportSummary::Udp(sp, dp)) => PacketLog::Udp {
                    ip,
                    source_port: sp,
                    destination_port: dp,
                    payload,
                },
                None => PacketLog::ParseError(String::new()),
            };
            LogRecord { read, body }
        },
    }
}

/// The record to log for `packet` going one way (`read`: from the device to the stack).
/// A packet that reads without an IP or a transport header (an ICMP packet, say) has no
/// record, and logging it is a programming error, which `requires` rules out; see
/// [`log_checked`].
pub fn log(packet: &[u8], read: bool) -> (r: LogRecord)
    requires
        loggable(ip_packet_headers(packet@)),
    ensures
        logged(ip_packet_headers(packet@), read, r),
{
    log_record(parse_ip_packet(packet), read)
}

/// The record to log for `packet` going one way, or, for a packet that reads without a
/// transport header, what was read of its IP header (none when there is none either).
pub fn log_checked(packet: &[u8], read: bool) -> (r: Result<LogRecord, Option<IpSummary>>)
    ensures
        loggable(ip_packet_headers(packet@)) ==> (r matches Ok(rec) && logged(
            ip_packet_headers(packet@),
            read,
            rec,
        )),
        !loggable(ip_packet_headers(packet@)) ==> r == Err::<LogRecord, Option<IpSummary>>(
            ip_packet_headers(packet@)->Ok_0.0,
        ),
{
    match parse_ip_packet(packet) {
        Ok(h) => {
            if h.ip.is_none() || h.transport.is_none() {
                return Err(h.ip);
            }
        },
        Err(_) => {},
    }
    Ok(log(packet, read))
}

} // verus!
