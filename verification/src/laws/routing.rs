//! Laws on taking frames into the stack and passing them on.
use crate::addr::{lemma_address, IpAddr};
use crate::error::{ErrorKind, NetError};
use crate::filter::{rules_may_answer, IpFilter, IpFilters};
use crate::laws::filtering::{lemma_rules_decide, surely_allows, surely_refuses};
use crate::laws::octets::{comes_from, goes_to, is_ipv4, is_ipv6, lemma_ends, protocol_octet};
use crate::packet::{ip_parts, AnyIpPktFrame, IpProtocol};
use crate::stack::{
    on_flushed, on_sent, queue_of, Channel, ChannelPlan, Delivery, Queue, Reservation, SendStep,
    Stack, StackBuilder, StackConfig, StackView,
};
use vstd::prelude::*;

verus! {

/// Whether two states of a stack differ in the frame that waits at most.
pub open spec fn same_but_pending<F>(a: StackView<F>, b: StackView<F>) -> bool {
    &&& a.rules == b.rules
    &&& a.udp == b.udp
    &&& a.tcp == b.tcp
    &&& a.icmp == b.icmp
}

/// Two addresses that a packet comes from are one, and so are two that it goes to.
proof fn lemma_ends_are_unique(frame: Seq<u8>, a: IpAddr, b: IpAddr)
    requires
        comes_from(frame, a) && comes_from(frame, b) || goes_to(frame, a) && goes_to(frame, b),
    ensures
        a == b,
{
    match (a, b) {
        (IpAddr::V4(x), IpAddr::V4(y)) => {
            assert(forall|i: int| 0 <= i < 4 ==> #[trigger] x@[i] == y@[i]);
            assert(x@ =~= y@);
            lemma_address(a);
            lemma_address(b);
        },
        (IpAddr::V6(x), IpAddr::V6(y)) => {
            assert(forall|i: int| 0 <= i < 16 ==> #[trigger] x@[i] == y@[i]);
            assert(x@ =~= y@);
            lemma_address(a);
            lemma_address(b);
        },
        _ => {},
    }
}

/// A frame is refused exactly where it is not empty and no packet of either version.
/// Whatever comes of it, the rules and the channels stay, and so does what waited,
/// unless the frame takes its place.
pub proof fn law_only_packets_are_taken<F: Fn(&IpAddr, &IpAddr) -> bool>(
    stack: &mut Stack<F>,
    frame: AnyIpPktFrame,
    res: Result<(), NetError>,
)
    requires
        call_ensures(Stack::<F>::start_send, (stack, frame), res),
    ensures
        res is Err <==> frame@.len() > 0 && !is_ipv4(frame@) && !is_ipv6(frame@),
        res matches Err(error) ==> error == NetError::InvalidPacket,
        same_but_pending(old(stack)@, final(stack)@),
        res is Err || frame@.len() == 0 ==> final(stack)@.pending == old(stack)@.pending,
        final(stack)@.pending != old(stack)@.pending ==> (final(stack)@.pending matches Some(
            (held, _),
        ) && held == frame@),
{
    if is_ipv4(frame@) || is_ipv6(frame@) {
        lemma_ends(frame@);
    }
}

/// A packet that every rule is sure to allow waits for its channel, under the
/// protocol that its number names: TCP, UDP or ICMP of either version. A packet of
/// any other protocol is passed over.
pub proof fn law_allowed_packet_waits<F: Fn(&IpAddr, &IpAddr) -> bool>(
    stack: &mut Stack<F>,
    frame: AnyIpPktFrame,
    src: IpAddr,
    dst: IpAddr,
    res: Result<(), NetError>,
)
    requires
        call_ensures(Stack::<F>::start_send, (stack, frame), res),
        is_ipv4(frame@) || is_ipv6(frame@),
        comes_from(frame@, src),
        goes_to(frame@, dst),
        forall|i: int|
            0 <= i < old(stack)@.rules.len() ==> surely_allows(
                #[trigger] old(stack)@.rules[i],
                src,
                dst,
            ),
    ensures
        res is Ok,
        protocol_octet(frame@) == 6 ==> final(stack)@.pending == Some((frame@, IpProtocol::Tcp)),
        protocol_octet(frame@) == 17 ==> final(stack)@.pending == Some((frame@, IpProtocol::Udp)),
        protocol_octet(frame@) == 1 ==> final(stack)@.pending == Some((frame@, IpProtocol::Icmp)),
        protocol_octet(frame@) == 58 ==> final(stack)@.pending == Some(
            (frame@, IpProtocol::Icmpv6),
        ),
        !(protocol_octet(frame@) == 6 || protocol_octet(frame@) == 17 || protocol_octet(frame@) == 1
            || protocol_octet(frame@) == 58) ==> final(stack)@.pending == old(stack)@.pending,
{
    let f = frame@;
    lemma_ends(f);
    let parts = ip_parts(f)->0;
    lemma_ends_are_unique(f, src, parts.src_addr());
    lemma_ends_are_unique(f, dst, parts.dst_addr());
    let rules = old(stack)@.rules;
    if rules_may_answer(rules, src, dst, false) {
        lemma_rules_decide(rules, src, dst, false);
    }
}

/// A packet that some rule is sure to refuse is passed over.
pub proof fn law_refused_packet_is_passed_over<F: Fn(&IpAddr, &IpAddr) -> bool>(
    stack: &mut Stack<F>,
    frame: AnyIpPktFrame,
    src: IpAddr,
    dst: IpAddr,
    k: int,
    res: Result<(), NetError>,
)
    requires
        call_ensures(Stack::<F>::start_send, (stack, frame), res),
        is_ipv4(frame@) || is_ipv6(frame@),
        comes_from(frame@, src),
        goes_to(frame@, dst),
        0 <= k < old(stack)@.rules.len(),
        surely_refuses(old(stack)@.rules[k], src, dst),
    ensures
        res is Ok,
        final(stack)@.pending == old(stack)@.pending,
{
    let f = frame@;
    lemma_ends(f);
    let parts = ip_parts(f)->0;
    lemma_ends_are_unique(f, src, parts.src_addr());
    lemma_ends_are_unique(f, dst, parts.dst_addr());
    let rules = old(stack)@.rules;
    if rules_may_answer(rules, src, dst, true) {
        lemma_rules_decide(rules, src, dst, true);
        assert(!surely_refuses(rules[k], src, dst));
    }
}

/// The frame that waits is passed on exactly where the channel of its protocol is
/// there, each by itself: TCP where the stack has TCP, UDP where it has UDP, ICMP of
/// either version where it has ICMP. It is passed on as it is, and waits no longer.
pub proof fn law_waiting_frame_goes_to_its_channel<F: Fn(&IpAddr, &IpAddr) -> bool>(
    stack: &mut Stack<F>,
    res: Option<Delivery>,
    frame: Seq<u8>,
    protocol: IpProtocol,
)
    requires
        call_ensures(Stack::<F>::begin_send, (stack,), res),
        old(stack)@.pending == Some((frame, protocol)),
    ensures
        protocol is Tcp ==> (res is Some <==> old(stack)@.tcp),
        protocol is Udp ==> (res is Some <==> old(stack)@.udp),
        protocol is Icmp || protocol is Icmpv6 ==> (res is Some <==> old(stack)@.icmp),
        protocol is Other ==> res is None,
        res matches Some(delivery) ==> {
            &&& delivery.frame@ == frame
            &&& delivery.protocol == protocol
            &&& delivery.channel is Tcp <==> protocol is Tcp
            &&& delivery.channel is Udp <==> protocol is Udp
            &&& delivery.channel is Icmp <==> protocol is Icmp || protocol is Icmpv6
        },
        final(stack)@.pending is None,
        same_but_pending(old(stack)@, final(stack)@),
{
}

/// Where no frame waits, none is passed on, and the stack says so.
pub proof fn law_nothing_waits<F: Fn(&IpAddr, &IpAddr) -> bool>(
    stack: &mut Stack<F>,
    res: Option<Delivery>,
    other: Stack<F>,
    pending: bool,
)
    requires
        call_ensures(Stack::<F>::begin_send, (stack,), res),
        old(stack)@.pending is None,
        call_ensures(Stack::<F>::has_pending, (&other,), pending),
    ensures
        res is None,
        final(stack)@ == old(stack)@,
        pending <==> other@.pending is Some,
{
}

/// The answer of the channel decides about a frame on its way: it goes where there
/// is a place, waits again where there is none yet, and fails where nobody receives.
pub proof fn law_channel_decides<F: Fn(&IpAddr, &IpAddr) -> bool>(
    stack: &mut Stack<F>,
    delivery: Delivery,
    reservation: Reservation,
    step: SendStep,
)
    requires
        call_ensures(Stack::<F>::on_reservation, (stack, delivery, reservation), step),
    ensures
        step is Send <==> reservation is Granted,
        step is Pending <==> reservation is Pending,
        step is Failed <==> reservation is Closed,
        step matches SendStep::Send(frame) ==> frame@ == delivery.frame@,
        step matches SendStep::Failed(error) ==> error == NetError::ChannelClosed,
        reservation is Pending ==> final(stack)@.pending == Some(
            (delivery.frame@, delivery.protocol),
        ),
        !(reservation is Pending) ==> final(stack)@.pending == old(stack)@.pending,
        same_but_pending(old(stack)@, final(stack)@),
{
}

/// A packet that the filter allowed waits, where its protocol is one of the four;
/// any other packet is passed over.
pub proof fn law_filter_decides<F: Fn(&IpAddr, &IpAddr) -> bool>(
    stack: &mut Stack<F>,
    frame: AnyIpPktFrame,
    protocol: IpProtocol,
    allowed: bool,
)
    requires
        call_ensures(Stack::<F>::give, (stack, frame, protocol, allowed), ()),
    ensures
        allowed && !(protocol is Other) ==> final(stack)@.pending == Some((frame@, protocol)),
        !allowed || protocol is Other ==> final(stack)@.pending == old(stack)@.pending,
        same_but_pending(old(stack)@, final(stack)@),
{
}

/// A frame that its channel does not take fails; the carrier is closed once
/// everything was passed on; UDP has a queue of its own and everything else goes to
/// that of TCP.
pub proof fn law_what_follows_sending(
    accepted: bool,
    sent: Result<(), NetError>,
    flushed: Result<(), NetError>,
    close: bool,
    channel: Channel,
    queue: Queue,
)
    requires
        call_ensures(on_sent, (accepted,), sent),
        call_ensures(on_flushed, (flushed,), close),
        call_ensures(queue_of, (channel,), queue),
    ensures
        accepted <==> sent is Ok,
        sent matches Err(error) ==> error == NetError::ChannelClosed,
        close <==> flushed is Ok,
        queue is Udp <==> channel is Udp,
{
}

/// Whether two configurations have the same channels of the same sizes.
pub open spec fn same_sizes<F>(a: StackConfig<F>, b: StackConfig<F>) -> bool {
    &&& a.stack_buffer_size == b.stack_buffer_size
    &&& a.udp_buffer_size == b.udp_buffer_size
    &&& a.tcp_buffer_size == b.tcp_buffer_size
}

/// Whether two configurations have the same protocols on.
pub open spec fn same_switches<F>(a: StackConfig<F>, b: StackConfig<F>) -> bool {
    &&& a.udp == b.udp
    &&& a.tcp == b.tcp
    &&& a.icmp == b.icmp
}

/// Each protocol is switched by itself, and nothing else is touched by that.
pub proof fn law_protocols_are_switched<F: Fn(&IpAddr, &IpAddr) -> bool>(
    builder: StackBuilder<F>,
    on: bool,
    with_udp: StackBuilder<F>,
    with_tcp: StackBuilder<F>,
    with_icmp: StackBuilder<F>,
)
    requires
        call_ensures(StackBuilder::<F>::enable_udp, (builder, on), with_udp),
        call_ensures(StackBuilder::<F>::enable_tcp, (builder, on), with_tcp),
        call_ensures(StackBuilder::<F>::enable_icmp, (builder, on), with_icmp),
    ensures
        with_udp@.udp == on && with_udp@.tcp == builder@.tcp && with_udp@.icmp == builder@.icmp,
        with_tcp@.tcp == on && with_tcp@.udp == builder@.udp && with_tcp@.icmp == builder@.icmp,
        with_icmp@.icmp == on && with_icmp@.udp == builder@.udp && with_icmp@.tcp == builder@.tcp,
        same_sizes(with_udp@, builder@) && with_udp@.rules == builder@.rules,
        same_sizes(with_tcp@, builder@) && with_tcp@.rules == builder@.rules,
        same_sizes(with_icmp@, builder@) && with_icmp@.rules == builder@.rules,
{
}

/// Each size is set by itself, and nothing else is touched by that.
pub proof fn law_sizes_are_set<F: Fn(&IpAddr, &IpAddr) -> bool>(
    builder: StackBuilder<F>,
    size: usize,
    with_stack: StackBuilder<F>,
    with_udp: StackBuilder<F>,
    with_tcp: StackBuilder<F>,
)
    requires
        call_ensures(StackBuilder::<F>::stack_buffer_size, (builder, size), with_stack),
        call_ensures(StackBuilder::<F>::udp_buffer_size, (builder, size), with_udp),
        call_ensures(StackBuilder::<F>::tcp_buffer_size, (builder, size), with_tcp),
    ensures
        with_stack@.stack_buffer_size == size,
        with_stack@.udp_buffer_size == builder@.udp_buffer_size,
        with_stack@.tcp_buffer_size == builder@.tcp_buffer_size,
        with_udp@.udp_buffer_size == size,
        with_udp@.stack_buffer_size == builder@.stack_buffer_size,
        with_udp@.tcp_buffer_size == builder@.tcp_buffer_size,
        with_tcp@.tcp_buffer_size == size,
        with_tcp@.stack_buffer_size == builder@.stack_buffer_size,
        with_tcp@.udp_buffer_size == builder@.udp_buffer_size,
        same_switches(with_stack@, builder@) && with_stack@.rules == builder@.rules,
        same_switches(with_udp@, builder@) && with_udp@.rules == builder@.rules,
        same_switches(with_tcp@, builder@) && with_tcp@.rules == builder@.rules,
{
}

/// Rules are replaced as a whole or added one by one, behind those that are there,
/// and nothing else is touched by that.
pub proof fn law_rules_are_set<F: Fn(&IpAddr, &IpAddr) -> bool>(
    builder: StackBuilder<F>,
    filters: IpFilters<F>,
    rule: IpFilter<F>,
    function: F,
    replaced: StackBuilder<F>,
    with_rule: StackBuilder<F>,
    with_function: StackBuilder<F>,
)
    requires
        call_ensures(StackBuilder::<F>::set_ip_filters, (builder, filters), replaced),
        call_ensures(StackBuilder::<F>::add_ip_filter, (builder, rule), with_rule),
        call_ensures(StackBuilder::<F>::add_ip_filter_fn, (builder, function), with_function),
    ensures
        replaced@.rules == filters.rules(),
        with_rule@.rules.drop_last() == builder@.rules,
        with_rule@.rules.last() == rule,
        with_function@.rules.drop_last() == builder@.rules,
        with_function@.rules.last() == IpFilter::Custom(function),
        same_switches(replaced@, builder@) && same_sizes(replaced@, builder@),
        same_switches(with_rule@, builder@) && same_sizes(with_rule@, builder@),
        same_switches(with_function@, builder@) && same_sizes(with_function@, builder@),
{
    assert(with_rule@.rules.drop_last() =~= builder@.rules);
    assert(with_function@.rules.drop_last() =~= builder@.rules);
}

/// A builder starts with every protocol off, the usual sizes, and the rule that lets
/// packets between single hosts pass.
pub proof fn law_builder_starts_empty<F: Fn(&IpAddr, &IpAddr) -> bool>(builder: StackBuilder<F>)
    requires
        call_ensures(StackBuilder::<F>::default, (), builder),
    ensures
        !builder@.udp && !builder@.tcp && !builder@.icmp,
        builder@.stack_buffer_size == 1024,
        builder@.udp_buffer_size == 512,
        builder@.tcp_buffer_size == 512,
        builder@.rules.len() == 1,
        builder@.rules[0] is NonBroadcast,
{
}

/// A channel is planned for each protocol that is on, of the size that was set for
/// it, and always one for the frames that leave.
pub proof fn law_channels_follow_the_settings<F: Fn(&IpAddr, &IpAddr) -> bool>(
    builder: StackBuilder<F>,
    plan: ChannelPlan,
)
    requires
        call_ensures(StackBuilder::<F>::channels, (&builder,), plan),
    ensures
        plan.stack == builder@.stack_buffer_size,
        plan.udp is Some <==> builder@.udp,
        plan.udp matches Some(size) ==> size == builder@.udp_buffer_size,
        plan.tcp is Some <==> builder@.tcp,
        plan.tcp matches Some(size) ==> size == builder@.tcp_buffer_size,
        plan.icmp == builder@.icmp,
{
}

/// A stack is built unless ICMP is on without TCP. It has the rules and the protocols
/// that were set, and no frame waits in it.
pub proof fn law_stack_is_as_it_was_set<F: Fn(&IpAddr, &IpAddr) -> bool>(
    builder: StackBuilder<F>,
    res: Result<Stack<F>, NetError>,
)
    requires
        call_ensures(StackBuilder::<F>::build, (builder,), res),
        builder@.plan().feasible(),
    ensures
        res is Err <==> builder@.icmp && !builder@.tcp,
        res matches Err(error) ==> error == NetError::IcmpRequiresTcp,
        res matches Ok(stack) ==> {
            &&& stack@.pending is None
            &&& stack@.rules == builder@.rules
            &&& stack@.udp == builder@.udp
            &&& stack@.tcp == builder@.tcp
            &&& stack@.icmp == builder@.icmp
        },
{
}

/// A UDP packet that the rules are sure to allow is delivered by every stack that was
/// built with UDP on, whatever else is on, and by no other; and so for TCP and ICMP.
pub proof fn law_packet_is_delivered<F: Fn(&IpAddr, &IpAddr) -> bool>(
    builder: StackBuilder<F>,
    built: Result<Stack<F>, NetError>,
    stack: &mut Stack<F>,
    frame: AnyIpPktFrame,
    src: IpAddr,
    dst: IpAddr,
    taken: Result<(), NetError>,
    later: &mut Stack<F>,
    delivery: Option<Delivery>,
)
    requires
        call_ensures(StackBuilder::<F>::build, (builder,), built),
        builder@.plan().feasible(),
        built == Ok::<Stack<F>, NetError>(*old(stack)),
        call_ensures(Stack::<F>::start_send, (stack, frame), taken),
        is_ipv4(frame@) || is_ipv6(frame@),
        comes_from(frame@, src),
        goes_to(frame@, dst),
        forall|i: int|
            0 <= i < builder@.rules.len() ==> surely_allows(
                #[trigger] builder@.rules[i],
                src,
                dst,
            ),
        *old(later) == *final(stack),
        call_ensures(Stack::<F>::begin_send, (later,), delivery),
    ensures
        protocol_octet(frame@) == 6 ==> (delivery is Some <==> builder@.tcp),
        protocol_octet(frame@) == 17 ==> (delivery is Some <==> builder@.udp),
        protocol_octet(frame@) == 1 || protocol_octet(frame@) == 58 ==> (delivery is Some
            <==> builder@.icmp),
        delivery matches Some(sent) ==> {
            &&& sent.frame@ == frame@
            &&& sent.channel is Tcp <==> protocol_octet(frame@) == 6
            &&& sent.channel is Udp <==> protocol_octet(frame@) == 17
        },
{
    law_stack_is_as_it_was_set(builder, built);
    assert(forall|i: int|
        0 <= i < old(stack)@.rules.len() ==> surely_allows(
            #[trigger] old(stack)@.rules[i],
            src,
            dst,
        )) by {
        assert(old(stack)@.rules == builder@.rules);
    }
    law_allowed_packet_waits(stack, frame, src, dst, taken);
}

/// Every error has its kind.
pub proof fn law_errors_have_their_kinds(error: NetError, kind: ErrorKind)
    requires
        call_ensures(NetError::kind, (&error,), kind),
    ensures
        kind is InvalidInput <==> error is IcmpRequiresTcp || error is InvalidPacket,
        kind is BrokenPipe <==> error is ChannelClosed,
        kind is ConnectionRefused <==> error is ListenFailed,
        kind is AddrNotAvailable <==> error is RouteTableFull,
{
}

/// Every error that says more than its kind says it in its own words.
pub proof fn law_errors_have_their_words(error: NetError, message: Option<&'static str>)
    requires
        call_ensures(NetError::message, (&error,), message),
    ensures
        message is None <==> error is ListenFailed,
        error is IcmpRequiresTcp ==> message->0@ == "ICMP requires TCP"@,
        error is InvalidPacket ==> message->0@ == "invalid IP packet: wire::Error"@,
        error is ChannelClosed ==> message->0@ == "channel is closed"@,
        error is RouteTableFull ==> message->0@ == "Route table full"@,
{
}

} // verus!
