//! smoltcp's interface, set up to accept packets for every address.
use crate::addr::IpAddr;
use crate::error::NetError;
use crate::filter::is_single_host;
use smoltcp::iface::{Interface, RouteTableFull};
use smoltcp::wire::{IpAddress, IpCidr, Ipv4Address, Ipv6Address};
use vstd::prelude::*;

verus! {

#[verifier::external_type_specification]
#[verifier::external_body]
pub struct ExInterface(Interface);

#[verifier::external_type_specification]
#[verifier::external_body]
pub struct ExRouteTableFull(RouteTableFull);

/// The address of the interface, and the gateway of every IPv4 packet.
pub const V4_HOST: [u8; 4] = [0, 0, 0, 1];

/// The address of the interface, and the gateway of every IPv6 packet.
pub const V6_HOST: [u8; 16] = [0, 0, 0, 0, 0, 0, 0, 0, 0, 0, 0, 0, 0, 0, 0, 1];

/// How many addresses an interface has room for.
pub const MAX_ADDRESSES: usize = 2;

/// How many routes an interface has room for.
pub const MAX_ROUTES: usize = 2;

/// A network: an address, and how many of its leading bits count.
pub struct Network {
    pub addr: IpAddr,
    pub prefix_len: u8,
}

/// A route to a network.
pub struct RouteView {
    pub dst: Network,
    pub via: IpAddr,
    /// Whether the route never expires.
    pub permanent: bool,
}

/// What the stack sets up in an interface.
#[verifier::ext_equal]
pub struct InterfaceView {
    pub addrs: Seq<Network>,
    pub routes: Seq<RouteView>,
    /// Whether packets for other addresses than its own are accepted.
    pub any_ip: bool,
}

/// The view of an interface.
pub uninterp spec fn iface_view(iface: Interface) -> InterfaceView;

/// The network of all addresses of the version of `gateway`.
pub open spec fn everywhere(gateway: IpAddr) -> Network {
    match gateway {
        IpAddr::V4(_) => Network { addr: IpAddr::V4([0, 0, 0, 0]), prefix_len: 0 },
        IpAddr::V6(_) => Network {
            addr: IpAddr::V6([0, 0, 0, 0, 0, 0, 0, 0, 0, 0, 0, 0, 0, 0, 0, 0]),
            prefix_len: 0,
        },
    }
}

/// The permanent route of all packets of a version.
pub open spec fn default_route(gateway: IpAddr) -> RouteView {
    RouteView { dst: everywhere(gateway), via: gateway, permanent: true }
}

/// The routes without the first one to a network.
pub open spec fn without_first(routes: Seq<RouteView>, dst: Network) -> Seq<RouteView>
    decreases routes.len(),
{
    if routes.len() == 0 {
        routes
    } else if routes[0].dst == dst {
        routes.skip(1)
    } else {
        seq![routes[0]] + without_first(routes.skip(1), dst)
    }
}

/// An interface after its permanent route for all packets of a version was set, and
/// whether that was possible: the first such route that was there gives way, and
/// the new one comes last where there is room.
pub open spec fn routed(before: InterfaceView, gateway: IpAddr) -> (InterfaceView, bool) {
    let rest = without_first(before.routes, everywhere(gateway));
    if rest.len() < MAX_ROUTES {
        (InterfaceView { routes: rest.push(default_route(gateway)), ..before }, true)
    } else {
        (InterfaceView { routes: rest, ..before }, false)
    }
}

/// An interface after it was set up, and whether that was possible: it has an
/// address of each version, is its own gateway for all packets, and accepts packets
/// for every address. It stops where there is no room for a route.
pub open spec fn set_up(before: InterfaceView) -> (InterfaceView, bool) {
    let addressed = InterfaceView {
        addrs: before.addrs.push(Network { addr: IpAddr::V4(V4_HOST), prefix_len: 0 }).push(
            Network { addr: IpAddr::V6(V6_HOST), prefix_len: 0 },
        ),
        ..before
    };
    let (v4_routed, v4_room) = routed(addressed, IpAddr::V4(V4_HOST));
    if v4_room {
        let (v6_routed, v6_room) = routed(v4_routed, IpAddr::V6(V6_HOST));
        if v6_room {
            (InterfaceView { any_ip: true, ..v6_routed }, true)
        } else {
            (v6_routed, false)
        }
    } else {
        (v4_routed, false)
    }
}

/// `Interface::ip_addrs`: how many addresses the interface has.
#[verifier::external_body]
fn address_count(iface: &Interface) -> (n: usize)
    ensures
        n == iface_view(*iface).addrs.len(),
{
    iface.ip_addrs().len()
}

/// `Interface::update_ip_addrs` with a push to the list of addresses, which in
/// smoltcp's default configuration has room for two. Panics where there is no room,
/// where the address does not stand for a single host, or where the prefix is longer
/// than an address.
#[verifier::external_body]
fn push_address(iface: &mut Interface, addr: IpAddr, prefix_len: u8)
    requires
        iface_view(*old(iface)).addrs.len() < MAX_ADDRESSES,
        is_single_host(addr),
        prefix_len <= 32,
    ensures
        iface_view(*final(iface)) == (InterfaceView {
            addrs: iface_view(*old(iface)).addrs.push(Network { addr, prefix_len }),
            ..iface_view(*old(iface))
        }),
{
    let ip = match addr {
        IpAddr::V4(octets) => IpAddress::Ipv4(Ipv4Address::from(octets)),
        IpAddr::V6(octets) => IpAddress::Ipv6(Ipv6Address::from(octets)),
    };
    let cidr = IpCidr::new(ip, prefix_len);
    iface.update_ip_addrs(|addrs| addrs.push(cidr).expect("no room for an address"))
}

/// `Routes::add_default_ipv4_route`: takes out the first route for all IPv4 packets,
/// if there is one, and puts the new one at the end. There it fails exactly where
/// the table is full, which in smoltcp's default configuration has room for two.
#[verifier::external_body]
fn add_default_ipv4_route(iface: &mut Interface, gateway: [u8; 4]) -> (res: Result<
    (),
    RouteTableFull,
>)
    ensures
        (iface_view(*final(iface)), res is Ok) == routed(
            iface_view(*old(iface)),
            IpAddr::V4(gateway),
        ),
{
    match iface.routes_mut().add_default_ipv4_route(Ipv4Address::from(gateway)) {
        Ok(_) => Ok(()),
        Err(error) => Err(error),
    }
}

/// `Routes::add_default_ipv6_route`: takes out the first route for all IPv6 packets,
/// if there is one, and puts the new one at the end. There it fails exactly where
/// the table is full, which in smoltcp's default configuration has room for two.
#[verifier::external_body]
fn add_default_ipv6_route(iface: &mut Interface, gateway: [u8; 16]) -> (res: Result<
    (),
    RouteTableFull,
>)
    ensures
        (iface_view(*final(iface)), res is Ok) == routed(
            iface_view(*old(iface)),
            IpAddr::V6(gateway),
        ),
{
    match iface.routes_mut().add_default_ipv6_route(Ipv6Address::from(gateway)) {
        Ok(_) => Ok(()),
        Err(error) => Err(error),
    }
}

/// `Interface::set_any_ip`.
#[verifier::external_body]
fn set_any_ip(iface: &mut Interface, any_ip: bool)
    ensures
        iface_view(*final(iface)) == (InterfaceView { any_ip, ..iface_view(*old(iface)) }),
{
    iface.set_any_ip(any_ip)
}

/// Sets up an interface without addresses.
pub fn configure_interface(iface: &mut Interface) -> (res: Result<(), NetError>)
    requires
        iface_view(*old(iface)).addrs.len() == 0,
    ensures
        (iface_view(*final(iface)), res is Ok) == set_up(iface_view(*old(iface))),
        res matches Err(error) ==> error == NetError::RouteTableFull,
{
    proof {
        assert(V4_HOST@[3] == 1 && V4_HOST@[0] == 0);
        assert(V6_HOST@[15] == 1 && V6_HOST@[0] == 0);
    }
    push_address(iface, IpAddr::V4(V4_HOST), 0);
    push_address(iface, IpAddr::V6(V6_HOST), 0);
    match add_default_ipv4_route(iface, V4_HOST) {
        Ok(()) => {},
        Err(_) => return Err(NetError::RouteTableFull),
    }
    match add_default_ipv6_route(iface, V6_HOST) {
        Ok(()) => {},
        Err(_) => return Err(NetError::RouteTableFull),
    }
    set_any_ip(iface, true);
    Ok(())
}

/// Sets up an interface, where it has no addresses yet. Otherwise it is left as it
/// is, and there is no answer.
pub fn configure_fresh_interface(iface: &mut Interface) -> (res: Option<Result<(), NetError>>)
    ensures
        res is Some <==> iface_view(*old(iface)).addrs.len() == 0,
        res is None ==> iface_view(*final(iface)) == iface_view(*old(iface)),
        res matches Some(done) ==> (iface_view(*final(iface)), done is Ok) == set_up(
            iface_view(*old(iface)),
        ),
        res matches Some(Err(error)) ==> error == NetError::RouteTableFull,
{
    if address_count(iface) == 0 {
        Some(configure_interface(iface))
    } else {
        None
    }
}

/// Setting up an interface that has no addresses and no routes succeeds. It then
/// accepts packets for every address: each version has a route for all packets, and
/// its gateway is an address of the interface.
pub proof fn law_fresh_interface_accepts_every_address(before: InterfaceView)
    requires
        before.addrs.len() == 0,
        before.routes.len() == 0,
    ensures
        set_up(before).1,
        set_up(before).0.any_ip,
        set_up(before).0.routes == seq![
            default_route(IpAddr::V4(V4_HOST)),
            default_route(IpAddr::V6(V6_HOST)),
        ],
        forall|i: int|
            0 <= i < 2 ==> (#[trigger] set_up(before).0.routes[i]).via
                == set_up(before).0.addrs[i].addr,
{
    let v4 = default_route(IpAddr::V4(V4_HOST));
    assert(without_first(before.routes, everywhere(IpAddr::V4(V4_HOST))).push(v4) =~= seq![v4]);
    reveal_with_fuel(without_first, 2);
    assert(seq![v4] + seq![v4].skip(1) =~= seq![v4]);
}

} // verus!
