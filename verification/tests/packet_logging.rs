use async_smoltcp::packet_log::{log, log_checked, log_record, Headers, IpSummary, PacketLog, TransportSummary};
use etherparse::PacketBuilder;

fn tcp_packet(payload: &[u8], syn: bool) -> Vec<u8> {
    let b = PacketBuilder::ipv4([192, 168, 1, 1], [192, 168, 1, 2], 20).tcp(21, 1234, 1, 4000);
    let b = if syn { b.syn() } else { b.ack(7) };
    let mut out = Vec::with_capacity(b.size(payload.len()));
    b.write(&mut out, payload).unwrap();
    out
}

#[test]
fn tcp_without_payload_logs_flags() {
    let rec = log(&tcp_packet(&[], true), true);
    assert!(rec.read);
    assert_eq!(
        rec.body,
        PacketLog::Tcp {
            ip: IpSummary::V4([192, 168, 1, 1], [192, 168, 1, 2]),
            source_port: 21,
            destination_port: 1234,
            flags: Some((true, false)),
            payload: None,
        }
    );
}

#[test]
fn tcp_with_payload_logs_payload_not_flags() {
    let rec = log(&tcp_packet(b"GET /", false), false);
    assert!(!rec.read);
    assert_eq!(
        rec.body,
        PacketLog::Tcp {
            ip: IpSummary::V4([192, 168, 1, 1], [192, 168, 1, 2]),
            source_port: 21,
            destination_port: 1234,
            flags: None,
            payload: Some(b"GET /".to_vec()),
        }
    );
}

#[test]
fn udp_over_ipv6_logs_ports_and_payload() {
    let src = [1u8; 16];
    let dst = [2u8; 16];
    let b = PacketBuilder::ipv6(src, dst, 5).udp(53, 5353);
    let mut out = Vec::new();
    b.write(&mut out, b"q").unwrap();
    let rec = log(&out, true);
    assert_eq!(
        rec.body,
        PacketLog::Udp { ip: IpSummary::V6(src, dst), source_port: 53, destination_port: 5353, payload: Some(b"q".to_vec()) }
    );
}

#[test]
fn unreadable_packet_logs_parse_error() {
    let rec = log(&[], true);
    match rec.body {
        PacketLog::ParseError(m) => assert!(!m.is_empty()),
        _ => panic!("expected a parse error"),
    }
}

#[test]
fn packet_without_transport_header_has_no_record() {
    let mut p = vec![0x45, 0, 0, 28, 0, 0, 0, 0, 64, 1, 0, 0, 10, 0, 0, 1, 10, 0, 0, 2];
    p.extend_from_slice(&[8, 0, 0, 0, 0, 0, 0, 0]);
    assert_eq!(log_checked(&p, true), Err(Some(IpSummary::V4([10, 0, 0, 1], [10, 0, 0, 2]))));
}

#[test]
fn checked_log_of_a_readable_packet_is_its_record() {
    let p = tcp_packet(&[], true);
    assert_eq!(log_checked(&p, false), Ok(log(&p, false)));
    assert!(log_checked(&[], true).is_ok());
}

#[test]
fn log_record_from_headers() {
    let h = Headers {
        ip: Some(IpSummary::V4([1, 2, 3, 4], [5, 6, 7, 8])),
        transport: Some(TransportSummary::Udp(1, 2)),
        payload: vec![],
    };
    let rec = log_record(Ok(h), false);
    assert_eq!(rec.body, PacketLog::Udp { ip: IpSummary::V4([1, 2, 3, 4], [5, 6, 7, 8]), source_port: 1, destination_port: 2, payload: None });
    let e = log_record(Err("bad".to_string()), true);
    assert!(e.read);
    assert_eq!(e.body, PacketLog::ParseError("bad".to_string()));
}
