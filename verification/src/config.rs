//! What a new stack is made with: its medium, MTU, addresses and default routes, with
//! the defaults filled in.
use vstd::prelude::*;
use crate::DEFAULT_MTU;

verus! {

#[verifier::external_type_specification]
#[verifier::external_body]
pub struct ExRoutes<'a>(smoltcp::iface::Routes<'a>);

/// The routes of a table: each destination block, by address and prefix length, with the
/// router it goes through.
pub uninterp spec fn route_table(r: smoltcp::iface::Routes<'static>) -> Map<
    (smoltcp::wire::IpAddress, u8),
    smoltcp::wire::IpAddress,
>;

/// A table without routes.
pub open spec fn no_routes() -> Map<(smoltcp::wire::IpAddress, u8), smoltcp::wire::IpAddress> {
    Map::empty()
}

/// The table is kept in a growable map (not in a fixed slice), so an insertion cannot fail.
pub uninterp spec fn routes_unbounded(r: smoltcp::iface::Routes<'static>) -> bool;

/// `Routes::new(BTreeMap::new())`: an empty table kept in a `BTreeMap`.
#[verifier::external_body]
fn empty_routes() -> (r: smoltcp::iface::Routes<'static>)
    ensures
        route_table(r) == no_routes(),
        routes_unbounded(r),
{
    smoltcp::iface::Routes::new(std::collections::BTreeMap::new())
}

/// `Routes::add_default_ipv4_route`: routes `0.0.0.0/0` through `gateway`, replacing the
/// route there before; it fails only when the table's fixed storage is full.
#[verifier::external_body]
fn add_default_ipv4_route(
    r: &mut smoltcp::iface::Routes<'static>,
    gateway: smoltcp::wire::Ipv4Address,
) -> (res: Result<(), smoltcp::Error>)
    ensures
        routes_unbounded(*old(r)) ==> res is Ok,
        routes_unbounded(*final(r)) == routes_unbounded(*old(r)),
        res is Ok ==> route_table(*final(r)) == route_table(*old(r)).insert(
            (smoltcp::wire::IpAddress::Ipv4(smoltcp::wire::Ipv4Address([0u8, 0u8, 0u8, 0u8])), 0u8),
            smoltcp::wire::IpAddress::Ipv4(gateway),
        ),
        res is Err ==> route_table(*final(r)) == route_table(*old(r)),
{
    match r.add_default_ipv4_route(gateway) {
        Ok(_) => Ok(()),
        Err(e) => Err(e),
    }
}

/// `Routes::add_default_ipv6_route`: routes `::/0` through `gateway`, replacing the route
/// there before; it fails only when the table's fixed storage is full.
#[verifier::external_body]
fn add_default_ipv6_route(
    r: &mut smoltcp::iface::Routes<'static>,
    gateway: smoltcp::wire::Ipv6Address,
) -> (res: Result<(), smoltcp::Error>)
    ensures
        routes_unbounded(*old(r)) ==> res is Ok,
        routes_unbounded(*final(r)) == routes_unbounded(*old(r)),
        res is Ok ==> route_table(*final(r)) == route_table(*old(r)).insert(
            (smoltcp::wire::IpAddress::Ipv6(smoltcp::wire::Ipv6Address([0u8, 0u8, 0u8, 0u8, 0u8, 0u8, 0u8, 0u8, 0u8, 0u8, 0u8, 0u8, 0u8, 0u8, 0u8, 0u8])), 0u8),
            smoltcp::wire::IpAddress::Ipv6(gateway),
        ),
        res is Err ==> route_table(*final(r)) == route_table(*old(r)),
{
    match r.add_default_ipv6_route(gateway) {
        Ok(_) => Ok(()),
        Err(e) => Err(e),
    }
}

/// The link layer of a device.
#[derive(Debug, Clone, Copy, PartialEq, Eq)]
pub enum Medium {
    /// IP packets (TUN).
    Ip,
    /// Ethernet frames (TAP).
    Ethernet,
}

/// An address block: an address and the length of its network prefix.
#[derive(Debug, Clone, Copy, PartialEq, Eq)]
pub struct Cidr {
    pub address: smoltcp::wire::IpAddress,
    pub prefix_len: u8,
}

/// What a stack is made with.
#[derive(Debug, PartialEq, Eq)]
pub struct StackConfig {
    /// The device's link layer.
    pub medium: Medium,
    /// The device's MTU, where the stack sets it (a virtual device); else the device's own.
    pub mtu: Option<usize>,
    /// The interface's addresses.
    pub ip_addrs: Vec<Cidr>,
    /// The IPv4 default router.
    pub default_v4_gateway: smoltcp::wire::Ipv4Address,
    /// The IPv6 default router, if there is one.
    pub default_v6_gateway: Option<smoltcp::wire::Ipv6Address>,
}

/// The address an interface gets when none is given: `192.168.69.2/24`.
pub open spec fn default_cidr() -> Cidr {
    Cidr {
        address: smoltcp::wire::IpAddress::Ipv4(smoltcp::wire::Ipv4Address([192u8, 168u8, 69u8, 2u8])),
        prefix_len: 24,
    }
}

/// The IPv4 default router when none is given: `192.168.69.100`.
pub open spec fn default_v4_router() -> smoltcp::wire::Ipv4Address {
    smoltcp::wire::Ipv4Address([192u8, 168u8, 69u8, 100u8])
}

/// The addresses of an interface: the given ones, else the default one.
pub open spec fn ip_addrs_or_default(ip_addrs: Option<Seq<Cidr>>) -> Seq<Cidr> {
    match ip_addrs {
        Some(a) => a,
        None => seq![default_cidr()],
    }
}

/// The configuration of a stack over a device with the given medium and MTU.
pub open spec fn config_spec(
    medium: Medium,
    mtu: Option<usize>,
    default_v4_gateway: Option<smoltcp::wire::Ipv4Address>,
    default_v6_gateway: Option<smoltcp::wire::Ipv6Address>,
    ip_addrs: Option<Seq<Cidr>>,
) -> (Medium, Option<usize>, Seq<Cidr>, smoltcp::wire::Ipv4Address, Option<smoltcp::wire::Ipv6Address>) {
    (
        medium,
        mtu,
        ip_addrs_or_default(ip_addrs),
        match default_v4_gateway {
            Some(g) => g,
            None => default_v4_router(),
        },
        default_v6_gateway,
    )
}

impl StackConfig {
    /// The configuration as plain values.
    pub open spec fn spec(&self) -> (Medium, Option<usize>, Seq<Cidr>, smoltcp::wire::Ipv4Address, Option<smoltcp::wire::Ipv6Address>) {
        (self.medium, self.mtu, self.ip_addrs@, self.default_v4_gateway, self.default_v6_gateway)
    }

    /// The routing table of the stack: the IPv4 default route, and the IPv6 one if there
    /// is an IPv6 router.
    pub open spec fn route_spec(&self) -> Map<(smoltcp::wire::IpAddress, u8), smoltcp::wire::IpAddress> {
        let v4 = no_routes().insert(
            (smoltcp::wire::IpAddress::Ipv4(smoltcp::wire::Ipv4Address([0u8, 0u8, 0u8, 0u8])), 0u8),
            smoltcp::wire::IpAddress::Ipv4(self.default_v4_gateway),
        );
        match self.default_v6_gateway {
            Some(g) => v4.insert(
                (smoltcp::wire::IpAddress::Ipv6(smoltcp::wire::Ipv6Address([0u8, 0u8, 0u8, 0u8, 0u8, 0u8, 0u8, 0u8, 0u8, 0u8, 0u8, 0u8, 0u8, 0u8, 0u8, 0u8])), 0u8),
                smoltcp::wire::IpAddress::Ipv6(g),
            ),
            None => v4,
        }
    }

    /// The routing table of the stack (see [`StackConfig::route_spec`]).
    pub fn routes(&self) -> (r: smoltcp::iface::Routes<'static>)
        ensures
            route_table(r) == self.route_spec(),
    {
        let mut routes = empty_routes();
        let added = add_default_ipv4_route(&mut routes, self.default_v4_gateway);
        assert(added is Ok);
        match self.default_v6_gateway {
            Some(g) => {
                let added = add_default_ipv6_route(&mut routes, g);
                assert(added is Ok);
            },
            None => {},
        }
        routes
    }
}

fn default_ip_addrs() -> (v: Vec<Cidr>)
    ensures
        v@ == seq![default_cidr()],
{
    let c = Cidr {
        address: smoltcp::wire::IpAddress::Ipv4(smoltcp::wire::Ipv4Address([192u8, 168u8, 69u8, 2u8])),
        prefix_len: 24,
    };
    let mut v: Vec<Cidr> = Vec::new();
    v.push(c);
    v
}

fn build(
    medium: Medium,
    mtu: Option<usize>,
    default_v4_gateway: Option<smoltcp::wire::Ipv4Address>,
    default_v6_gateway: Option<smoltcp::wire::Ipv6Address>,
    ip_addrs: Option<Vec<Cidr>>,
) -> (c: StackConfig)
    ensures
        c.spec() == config_spec(
            medium,
            mtu,
            default_v4_gateway,
            default_v6_gateway,
            match ip_addrs {
                Some(v) => Some(v@),
                None => None,
            },
        ),
{
    let ip_addrs = match ip_addrs {
        Some(v) => v,
        None => default_ip_addrs(),
    };
    let default_v4_gateway = match default_v4_gateway {
        Some(g) => g,
        None => smoltcp::wire::Ipv4Address([192u8, 168u8, 69u8, 100u8]),
    };
    StackConfig { medium, mtu, ip_addrs, default_v4_gateway, default_v6_gateway }
}

/// The configuration of a stack over a TUN device: IP medium, the device's own MTU,
/// the given addresses or `192.168.69.2/24`, the given IPv4 router or `192.168.69.100`,
/// and the IPv6 router only if one is given.
pub fn tun_config(
    default_v4_gateway: Option<smoltcp::wire::Ipv4Address>,
    default_v6_gateway: Option<smoltcp::wire::Ipv6Address>,
    ip_addrs: Option<Vec<Cidr>>,
) -> (c: StackConfig)
    ensures
        c.spec() == config_spec(
            Medium::Ip,
            None,
            default_v4_gateway,
            default_v6_gateway,
            match ip_addrs {
                Some(v) => Some(v@),
                None => None,
            },
        ),
{
    build(Medium::Ip, None, default_v4_gateway, default_v6_gateway, ip_addrs)
}

/// The configuration of a stack over a TAP device: as for TUN, with Ethernet medium.
pub fn tap_config(
    ip_addrs: Option<Vec<Cidr>>,
    default_v4_gateway: Option<smoltcp::wire::Ipv4Address>,
    default_v6_gateway: Option<smoltcp::wire::Ipv6Address>,
) -> (c: StackConfig)
    ensures
        c.spec() == config_spec(
            Medium::Ethernet,
            None,
            default_v4_gateway,
            default_v6_gateway,
            match ip_addrs {
                Some(v) => Some(v@),
                None => None,
            },
        ),
{
    build(Medium::Ethernet, None, default_v4_gateway, default_v6_gateway, ip_addrs)
}

/// The configuration of a stack over a virtual TUN device fed by a VPN client: as for
/// TUN, with the given MTU or [`DEFAULT_MTU`].
pub fn vpn_config(
    default_v4_gateway: Option<smoltcp::wire::Ipv4Address>,
    default_v6_gateway: Option<smoltcp::wire::Ipv6Address>,
    mtu: Option<usize>,
    ip_addrs: Option<Vec<Cidr>>,
) -> (c: StackConfig)
    ensures
        c.spec() == config_spec(
            Medium::Ip,
            Some(
                match mtu {
                    Some(m) => m,
                    None => DEFAULT_MTU,
                },
            ),
            default_v4_gateway,
            default_v6_gateway,
            match ip_addrs {
                Some(v) => Some(v@),
                None => None,
            },
        ),
{
    let mtu = match mtu {
        Some(m) => m,
        None => DEFAULT_MTU,
    };
    build(Medium::Ip, Some(mtu), default_v4_gateway, default_v6_gateway, ip_addrs)
}

} // verus!
