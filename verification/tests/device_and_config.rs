use async_smoltcp::config::{tap_config, tun_config, vpn_config, Cidr, Medium};
use async_smoltcp::virtual_tun::{received_frame, VirtualTunInterface, VirtualTunReadError, VirtualTunWriteError};
use async_smoltcp::vpn::{copy_received, read_outcome, PhyReceiveError};
use smoltcp::wire::{IpAddress, IpCidr, Ipv4Address, Ipv6Address};

#[test]
fn virtual_tun_keeps_its_mtu() {
    let dev = VirtualTunInterface::new("tun0", 1u8, 2u8, 1500).unwrap();
    assert_eq!(dev.mtu(), 1500);
    assert_eq!(*dev.on_virtual_tun_read(), 1u8);
    assert_eq!(*dev.on_virtual_tun_write(), 2u8);
    let tx = dev.transmit().unwrap();
    assert_eq!(tx.lower().mtu(), 1500);
}

#[test]
fn receive_cuts_frame_to_reported_size() {
    let dev = VirtualTunInterface::new("tun0", (), (), 8).unwrap();
    let (rx, tx) = dev
        .receive(|b: &mut [u8]| {
            assert_eq!(b.len(), 8);
            b[0] = 7;
            b[1] = 8;
            b[2] = 9;
            Ok(2)
        })
        .unwrap();
    assert_eq!(rx.consume(|b: &mut [u8]| b.to_vec()), vec![7, 8]);
    assert_eq!(tx.lower().mtu(), 8);
}

#[test]
fn receive_pads_frame_beyond_mtu_with_zeros() {
    let dev = VirtualTunInterface::new("tun0", (), (), 4).unwrap();
    let (rx, _tx) = dev
        .receive(|b: &mut [u8]| {
            for x in b.iter_mut() {
                *x = 1;
            }
            Ok(6)
        })
        .unwrap();
    assert_eq!(rx.consume(|b: &mut [u8]| b.to_vec()), vec![1, 1, 1, 1, 0, 0]);
}

#[test]
fn receive_that_would_block_gives_nothing() {
    let dev = VirtualTunInterface::new("tun0", (), (), 4).unwrap();
    assert!(dev.receive(|_b: &mut [u8]| Err(VirtualTunReadError::WouldBlock)).is_none());
}

#[test]
fn received_frame_is_resized_buffer() {
    assert_eq!(received_frame(vec![1, 2, 3], Ok(1)), Some(vec![1]));
    assert_eq!(received_frame(vec![1, 2, 3], Ok(3)), Some(vec![1, 2, 3]));
    assert_eq!(received_frame(vec![1, 2, 3], Ok(5)), Some(vec![1, 2, 3, 0, 0]));
    assert_eq!(received_frame(vec![1, 2, 3], Err(VirtualTunReadError::WouldBlock)), None);
    assert_eq!(VirtualTunWriteError::NoData, VirtualTunWriteError::NoData);
}

fn default_route(routes: &mut smoltcp::iface::Routes<'static>, cidr: IpCidr) -> Option<IpAddress> {
    let mut found = None;
    routes.update(|m| {
        found = m.get(&cidr).map(|r| r.via_router);
    });
    found
}

fn v4_default() -> IpCidr {
    IpCidr::new(IpAddress::v4(0, 0, 0, 0), 0)
}

fn v6_default() -> IpCidr {
    IpCidr::new(IpAddress::v6(0, 0, 0, 0, 0, 0, 0, 0), 0)
}

#[test]
fn tun_config_fills_in_defaults() {
    let c = tun_config(None, None, None);
    assert_eq!(c.medium, Medium::Ip);
    assert_eq!(c.mtu, None);
    assert_eq!(c.ip_addrs, vec![Cidr { address: IpAddress::v4(192, 168, 69, 2), prefix_len: 24 }]);
    assert_eq!(c.default_v4_gateway, Ipv4Address::new(192, 168, 69, 100));
    assert_eq!(c.default_v6_gateway, None);
    let mut routes = c.routes();
    assert_eq!(default_route(&mut routes, v4_default()), Some(IpAddress::v4(192, 168, 69, 100)));
    assert_eq!(default_route(&mut routes, v6_default()), None);
}

#[test]
fn tun_config_keeps_what_is_given() {
    let addrs = vec![
        Cidr { address: IpAddress::v4(192, 168, 1, 2), prefix_len: 0 },
        Cidr { address: IpAddress::v6(1, 1, 1, 1, 1, 1, 1, 1), prefix_len: 0 },
    ];
    let v6 = Ipv6Address::new(0xfe80, 0, 0, 0, 0, 0, 0, 1);
    let c = tun_config(Some(Ipv4Address::new(10, 0, 0, 1)), Some(v6), Some(addrs.clone()));
    assert_eq!(c.ip_addrs, addrs);
    assert_eq!(c.default_v4_gateway, Ipv4Address::new(10, 0, 0, 1));
    assert_eq!(c.default_v6_gateway, Some(v6));
    let mut routes = c.routes();
    assert_eq!(default_route(&mut routes, v4_default()), Some(IpAddress::v4(10, 0, 0, 1)));
    assert_eq!(default_route(&mut routes, v6_default()), Some(IpAddress::Ipv6(v6)));
}

#[test]
fn tap_config_uses_ethernet() {
    let c = tap_config(None, None, None);
    assert_eq!(c.medium, Medium::Ethernet);
    assert_eq!(c.mtu, None);
    assert_eq!(c.default_v4_gateway, Ipv4Address::new(192, 168, 69, 100));
}

#[test]
fn vpn_config_defaults_mtu_to_1500() {
    assert_eq!(vpn_config(None, None, None, None).mtu, Some(1500));
    assert_eq!(vpn_config(None, None, Some(1400), None).mtu, Some(1400));
    assert_eq!(vpn_config(None, None, None, None).medium, Medium::Ip);
}

#[test]
fn copy_received_fills_front_of_buffer() {
    let mut buf = [9u8; 6];
    assert_eq!(copy_received(&mut buf, &[1, 2, 3]), 3);
    assert_eq!(buf, [1, 2, 3, 9, 9, 9]);
    assert_eq!(copy_received(&mut buf, &[]), 0);
    assert_eq!(buf, [1, 2, 3, 9, 9, 9]);
}

#[test]
fn read_outcome_maps_client_answers() {
    assert_eq!(read_outcome(Ok(42)), Ok(42));
    assert_eq!(read_outcome(Err(PhyReceiveError::NoDataAvailable)), Err(VirtualTunReadError::WouldBlock));
}
