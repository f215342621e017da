//! Laws on the interface and the device under it.
use crate::addr::IpAddr;
use crate::device::{capabilities, Capabilities, ChecksumUse, DeviceMedium};
use crate::error::NetError;
use crate::iface::{
    configure_fresh_interface, configure_interface, default_route, everywhere, iface_view,
    law_fresh_interface_accepts_every_address, set_up, without_first, InterfaceView, Network,
    RouteView, V4_HOST, V6_HOST,
};
use smoltcp::iface::Interface;
use vstd::prelude::*;

verus! {

/// Whether octets are those of the number one.
pub open spec fn is_one(octets: Seq<u8>) -> bool {
    &&& octets.len() > 0
    &&& octets.last() == 1
    &&& forall|i: int| 0 <= i < octets.len() - 1 ==> #[trigger] octets[i] == 0
}

/// Whether a network is that of all addresses of the version of another address.
pub open spec fn is_everything(network: Network, addr: IpAddr) -> bool {
    &&& network.prefix_len == 0
    &&& match (network.addr, addr) {
        (IpAddr::V4(o), IpAddr::V4(_)) => forall|i: int| 0 <= i < 4 ==> #[trigger] o@[i] == 0,
        (IpAddr::V6(o), IpAddr::V6(_)) => forall|i: int| 0 <= i < 16 ==> #[trigger] o@[i] == 0,
        _ => false,
    }
}

/// Whether an interface accepts packets for every address: it has the first address
/// of each version, sends every packet of a version to that address for ever, and
/// accepts packets for other addresses than its own.
pub open spec fn accepts_everything(view: InterfaceView) -> bool {
    &&& view.any_ip
    &&& view.addrs.len() == 2
    &&& view.addrs[0].prefix_len == 0
    &&& view.addrs[1].prefix_len == 0
    &&& view.addrs[0].addr matches IpAddr::V4(o)
    &&& is_one(o@)
    &&& view.addrs[1].addr matches IpAddr::V6(p)
    &&& is_one(p@)
    &&& view.routes.len() == 2
    &&& view.routes[0].permanent
    &&& view.routes[1].permanent
    &&& view.routes[0].via == view.addrs[0].addr
    &&& view.routes[1].via == view.addrs[1].addr
    &&& is_everything(view.routes[0].dst, view.addrs[0].addr)
    &&& is_everything(view.routes[1].dst, view.addrs[1].addr)
}

/// What setting up an interface without addresses and routes leads to.
proof fn lemma_set_up_fresh(before: InterfaceView)
    requires
        before.addrs.len() == 0,
        before.routes.len() == 0,
    ensures
        set_up(before).1,
        accepts_everything(set_up(before).0),
{
    law_fresh_interface_accepts_every_address(before);
    let view = set_up(before).0;
    assert(view.routes[0] == default_route(IpAddr::V4(V4_HOST)));
    assert(view.routes[1] == default_route(IpAddr::V6(V6_HOST)));
}

/// An interface without addresses and routes is set up, and then accepts packets for
/// every address.
pub proof fn law_fresh_interface_is_set_up(iface: &mut Interface, res: Result<(), NetError>)
    requires
        call_ensures(configure_interface, (iface,), res),
        iface_view(*old(iface)).addrs.len() == 0,
        iface_view(*old(iface)).routes.len() == 0,
    ensures
        res is Ok,
        accepts_everything(iface_view(*final(iface))),
{
    lemma_set_up_fresh(iface_view(*old(iface)));
}

/// Setting up an interface fails for want of room for a route only, which is told,
/// and then packets for other addresses are not accepted unless they were. It
/// succeeds for every interface with no routes, and for none with two that are not
/// for all packets.
pub proof fn law_set_up_needs_room(iface: &mut Interface, res: Result<(), NetError>)
    requires
        call_ensures(configure_interface, (iface,), res),
        iface_view(*old(iface)).addrs.len() == 0,
    ensures
        ({
            let before = iface_view(*old(iface));
            let after = iface_view(*final(iface));
            &&& res matches Err(error) ==> error == NetError::RouteTableFull
            &&& res is Ok ==> after.any_ip
            &&& res is Err ==> after.any_ip == before.any_ip
            &&& after.addrs.len() == 2
            &&& before.routes.len() == 0 ==> res is Ok
            &&& before.routes.len() == 2 && (forall|i: int|
                0 <= i < 2 ==> (#[trigger] before.routes[i]).dst.prefix_len > 0) ==> res is Err
                && after.routes == before.routes
        }),
{
    let before = iface_view(*old(iface));
    if before.routes.len() == 0 {
        lemma_set_up_fresh(before);
    }
    if before.routes.len() == 2 && (forall|i: int|
        0 <= i < 2 ==> (#[trigger] before.routes[i]).dst.prefix_len > 0) {
        lemma_nothing_gives_way(before.routes, everywhere(IpAddr::V4(V4_HOST)));
    }
}

/// Where no route is for a network, none gives way.
proof fn lemma_nothing_gives_way(routes: Seq<RouteView>, dst: Network)
    requires
        forall|i: int| 0 <= i < routes.len() ==> (#[trigger] routes[i]).dst != dst,
    ensures
        without_first(routes, dst) == routes,
    decreases routes.len(),
{
    if routes.len() > 0 {
        assert(routes[0].dst != dst);
        let rest = routes.skip(1);
        assert forall|i: int| 0 <= i < rest.len() implies (#[trigger] rest[i]).dst != dst by {
            assert(rest[i] == routes[i + 1]);
        }
        lemma_nothing_gives_way(rest, dst);
        assert(seq![routes[0]] + rest =~= routes);
    }
}

/// An interface is set up exactly where it has no addresses, and otherwise left as
/// it is.
pub proof fn law_interface_is_set_up_once(
    iface: &mut Interface,
    res: Option<Result<(), NetError>>,
)
    requires
        call_ensures(configure_fresh_interface, (iface,), res),
    ensures
        res is None <==> iface_view(*old(iface)).addrs.len() > 0,
        res is None ==> iface_view(*final(iface)) == iface_view(*old(iface)),
        iface_view(*old(iface)).addrs.len() == 0 && iface_view(*old(iface)).routes.len() == 0 ==> (
        res matches Some(done) && done is Ok) && accepts_everything(iface_view(*final(iface))),
{
    let before = iface_view(*old(iface));
    if before.addrs.len() == 0 && before.routes.len() == 0 {
        lemma_set_up_fresh(before);
    }
}

/// The device carries IP packets of up to 1504 octets and leaves the checksums of
/// incoming packets alone.
pub proof fn law_device_carries_ip(caps: Capabilities)
    requires
        call_ensures(capabilities, (), caps),
    ensures
        caps.medium == DeviceMedium::Ip,
        caps.max_transmission_unit == 1504,
        caps.ipv4 == ChecksumUse::Outgoing,
        caps.udp == ChecksumUse::Outgoing,
        caps.tcp == ChecksumUse::Outgoing,
        caps.icmpv4 == ChecksumUse::Outgoing,
        caps.icmpv6 == ChecksumUse::Outgoing,
{
}

} // verus!
