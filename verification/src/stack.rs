//! The front of the stack: it takes raw IP frames, filters them, and passes each
//! to the part that handles its protocol.
use crate::addr::IpAddr;
use crate::error::NetError;
use crate::filter::{rules_may_answer, IpFilter, IpFilters};
use crate::packet::{ip_parts, AnyIpPktFrame, IpPacket, IpParts, IpProtocol};
use vstd::prelude::*;

verus! {

/// Assembles a `Stack`.
pub struct StackBuilder<F: Fn(&IpAddr, &IpAddr) -> bool> {
    enable_udp: bool,
    enable_tcp: bool,
    enable_icmp: bool,
    stack_buffer_size: usize,
    udp_buffer_size: usize,
    tcp_buffer_size: usize,
    ip_filters: IpFilters<F>,
}

/// What was asked of a `StackBuilder`.
pub struct StackConfig<F> {
    pub udp: bool,
    pub tcp: bool,
    pub icmp: bool,
    pub stack_buffer_size: usize,
    pub udp_buffer_size: usize,
    pub tcp_buffer_size: usize,
    pub rules: Seq<IpFilter<F>>,
}

/// The channels that a stack needs, by the number of frames that each holds.
#[derive(Debug, Clone, Copy, PartialEq, Eq)]
pub struct ChannelPlan {
    /// Frames that leave the stack.
    pub stack: usize,
    /// Frames that carry UDP, where that is enabled.
    pub udp: Option<usize>,
    /// Frames that carry TCP, where that is enabled.
    pub tcp: Option<usize>,
    /// Whether ICMP goes the way of TCP.
    pub icmp: bool,
}

/// Whether a channel for `size` frames can be made: there is no empty channel, and
/// none for more than an eighth of what a `usize` counts.
pub open spec fn channel_size(size: usize) -> bool {
    1 <= size <= usize::MAX / 8
}

impl ChannelPlan {
    /// Whether every channel of the plan can be made.
    pub open spec fn feasible(self) -> bool {
        &&& channel_size(self.stack)
        &&& self.udp matches Some(size) ==> channel_size(size)
        &&& self.tcp matches Some(size) ==> channel_size(size)
    }
}

impl<F> StackConfig<F> {
    /// The channels that the stack needs.
    pub open spec fn plan(self) -> ChannelPlan {
        ChannelPlan {
            stack: self.stack_buffer_size,
            udp: if self.udp {
                Some(self.udp_buffer_size)
            } else {
                None
            },
            tcp: if self.tcp {
                Some(self.tcp_buffer_size)
            } else {
                None
            },
            icmp: self.icmp,
        }
    }
}

impl<F: Fn(&IpAddr, &IpAddr) -> bool> View for StackBuilder<F> {
    type V = StackConfig<F>;

    closed spec fn view(&self) -> StackConfig<F> {
        StackConfig {
            udp: self.enable_udp,
            tcp: self.enable_tcp,
            icmp: self.enable_icmp,
            stack_buffer_size: self.stack_buffer_size,
            udp_buffer_size: self.udp_buffer_size,
            tcp_buffer_size: self.tcp_buffer_size,
            rules: self.ip_filters.rules(),
        }
    }
}

impl<F: Fn(&IpAddr, &IpAddr) -> bool> Default for StackBuilder<F> {
    /// A builder with every protocol off, that lets packets between single hosts
    /// pass.
    fn default() -> (builder: Self)
        ensures
            builder@ == (StackConfig {
                udp: false,
                tcp: false,
                icmp: false,
                stack_buffer_size: 1024,
                udp_buffer_size: 512,
                tcp_buffer_size: 512,
                rules: seq![IpFilter::<F>::NonBroadcast],
            }),
    {
        StackBuilder {
            enable_udp: false,
            enable_tcp: false,
            enable_icmp: false,
            stack_buffer_size: 1024,
            udp_buffer_size: 512,
            tcp_buffer_size: 512,
            ip_filters: IpFilters::with_non_broadcast(),
        }
    }
}

impl<F: Fn(&IpAddr, &IpAddr) -> bool> StackBuilder<F> {
    /// Switches UDP on or off.
    pub fn enable_udp(self, enable: bool) -> (builder: Self)
        ensures
            builder@ == (StackConfig { udp: enable, ..self@ }),
    {
        StackBuilder { enable_udp: enable, ..self }
    }

    /// Switches TCP on or off.
    pub fn enable_tcp(self, enable: bool) -> (builder: Self)
        ensures
            builder@ == (StackConfig { tcp: enable, ..self@ }),
    {
        StackBuilder { enable_tcp: enable, ..self }
    }

    /// Switches ICMP on or off.
    pub fn enable_icmp(self, enable: bool) -> (builder: Self)
        ensures
            builder@ == (StackConfig { icmp: enable, ..self@ }),
    {
        StackBuilder { enable_icmp: enable, ..self }
    }

    /// Sets how many frames may wait to leave the stack.
    pub fn stack_buffer_size(self, size: usize) -> (builder: Self)
        ensures
            builder@ == (StackConfig { stack_buffer_size: size, ..self@ }),
    {
        StackBuilder { stack_buffer_size: size, ..self }
    }

    /// Sets how many UDP frames may wait.
    pub fn udp_buffer_size(self, size: usize) -> (builder: Self)
        ensures
            builder@ == (StackConfig { udp_buffer_size: size, ..self@ }),
    {
        StackBuilder { udp_buffer_size: size, ..self }
    }

    /// Sets how many TCP frames may wait.
    pub fn tcp_buffer_size(self, size: usize) -> (builder: Self)
        ensures
            builder@ == (StackConfig { tcp_buffer_size: size, ..self@ }),
    {
        StackBuilder { tcp_buffer_size: size, ..self }
    }

    /// Replaces the rules on addresses.
    pub fn set_ip_filters(self, filters: IpFilters<F>) -> (builder: Self)
        ensures
            builder@ == (StackConfig { rules: filters.rules(), ..self@ }),
    {
        StackBuilder { ip_filters: filters, ..self }
    }

    /// Adds a rule on addresses.
    pub fn add_ip_filter(self, filter: IpFilter<F>) -> (builder: Self)
        requires
            filter.total(),
        ensures
            builder@ == (StackConfig { rules: self@.rules.push(filter), ..self@ }),
    {
        let mut ip_filters = self.ip_filters;
        ip_filters.add(filter);
        StackBuilder { ip_filters, ..self }
    }

    /// Adds a function as a rule on addresses.
    pub fn add_ip_filter_fn(self, filter: F) -> (builder: Self)
        requires
            forall|src: &IpAddr, dst: &IpAddr| call_requires(filter, (src, dst)),
        ensures
            builder@ == (StackConfig {
                rules: self@.rules.push(IpFilter::Custom(filter)),
                ..self@
            }),
    {
        let mut ip_filters = self.ip_filters;
        ip_filters.add_fn(filter);
        StackBuilder { ip_filters, ..self }
    }

    /// The channels that the stack needs.
    pub fn channels(&self) -> (plan: ChannelPlan)
        ensures
            plan == self@.plan(),
    {
        ChannelPlan {
            stack: self.stack_buffer_size,
            udp: if self.enable_udp {
                Some(self.udp_buffer_size)
            } else {
                None
            },
            tcp: if self.enable_tcp {
                Some(self.tcp_buffer_size)
            } else {
                None
            },
            icmp: self.enable_icmp,
        }
    }

    /// Builds the stack, to which the planned channels belong. The sizes of channels
    /// that are not planned do not matter. ICMP is answered by the interface that TCP
    /// uses, and cannot be had without it.
    pub fn build(self) -> (res: Result<Stack<F>, NetError>)
        requires
            self@.plan().feasible(),
        ensures
            self@.icmp && !self@.tcp ==> res == Err::<Stack<F>, NetError>(
                NetError::IcmpRequiresTcp,
            ),
            !(self@.icmp && !self@.tcp) ==> res is Ok,
            res matches Ok(stack) ==> stack@ == (StackView {
                rules: self@.rules,
                pending: None,
                udp: self@.udp,
                tcp: self@.tcp,
                icmp: self@.icmp,
            }),
    {
        if self.enable_icmp && !self.enable_tcp {
            return Err(NetError::IcmpRequiresTcp);
        }
        Ok(
            Stack {
                ip_filters: self.ip_filters,
                sink_buf: None,
                udp: self.enable_udp,
                tcp: self.enable_tcp,
                icmp: self.enable_icmp,
            },
        )
    }
}

/// The parts of the stack that frames are passed to.
#[derive(Debug, Clone, Copy, PartialEq, Eq, Structural)]
pub enum Channel {
    Tcp,
    Udp,
    Icmp,
}

/// The queues that frames wait in.
#[derive(Debug, Clone, Copy, PartialEq, Eq, Structural)]
pub enum Queue {
    Tcp,
    Udp,
}

/// The queue behind a channel. ICMP is answered by the interface that TCP uses, and
/// shares its queue.
pub fn queue_of(channel: Channel) -> (queue: Queue)
    ensures
        queue == (if channel == Channel::Udp {
            Queue::Udp
        } else {
            Queue::Tcp
        }),
{
    match channel {
        Channel::Udp => Queue::Udp,
        Channel::Tcp | Channel::Icmp => Queue::Tcp,
    }
}

/// The front of the stack. It holds one frame at most, until the part that handles
/// it has room.
pub struct Stack<F: Fn(&IpAddr, &IpAddr) -> bool> {
    ip_filters: IpFilters<F>,
    sink_buf: Option<(AnyIpPktFrame, IpProtocol)>,
    udp: bool,
    tcp: bool,
    icmp: bool,
}

/// What a `Stack` holds.
#[verifier::ext_equal]
pub struct StackView<F> {
    pub rules: Seq<IpFilter<F>>,
    /// The frame that waits, with its protocol.
    pub pending: Option<(Seq<u8>, IpProtocol)>,
    pub udp: bool,
    pub tcp: bool,
    pub icmp: bool,
}

/// The channel that a protocol goes through, where the stack handles it.
pub open spec fn channel_of(protocol: IpProtocol) -> Option<Channel> {
    match protocol {
        IpProtocol::Tcp => Some(Channel::Tcp),
        IpProtocol::Udp => Some(Channel::Udp),
        IpProtocol::Icmp | IpProtocol::Icmpv6 => Some(Channel::Icmp),
        IpProtocol::Other(_) => None,
    }
}

impl<F: Fn(&IpAddr, &IpAddr) -> bool> StackView<F> {
    /// Whether a channel is there.
    pub open spec fn enabled(self, channel: Channel) -> bool {
        match channel {
            Channel::Tcp => self.tcp,
            Channel::Udp => self.udp,
            Channel::Icmp => self.icmp,
        }
    }

    /// Where the frame that waits is to go, if it is to go anywhere.
    pub open spec fn route(self) -> Option<Channel> {
        match self.pending {
            Some((_, protocol)) => match channel_of(protocol) {
                Some(channel) if self.enabled(channel) => Some(channel),
                _ => None,
            },
            None => None,
        }
    }

    /// The stack after it was given a packet on which the filter answered
    /// `allowed`: it holds the packet where that was allowed and the stack handles
    /// its protocol, and ignores it otherwise.
    pub open spec fn given(self, frame: Seq<u8>, protocol: IpProtocol, allowed: bool) -> Self {
        if allowed && channel_of(protocol) is Some {
            StackView { pending: Some((frame, protocol)), ..self }
        } else {
            self
        }
    }

    /// What can come of handing a frame to the stack: it takes no notice of an
    /// empty one, refuses what is no IP packet, and otherwise asks the filter.
    pub open spec fn sending(self, frame: Seq<u8>, after: Self, res: Result<(), NetError>) -> bool {
        if frame.len() == 0 {
            after == self && res is Ok
        } else {
            match ip_parts(frame) {
                None => after == self && res == Err::<(), NetError>(NetError::InvalidPacket),
                Some(parts) => {
                    &&& res is Ok
                    &&& exists|allowed: bool|
                        {
                            &&& #[trigger] rules_may_answer(
                                self.rules,
                                parts.src_addr(),
                                parts.dst_addr(),
                                allowed,
                            )
                            &&& after == self.given(
                                frame,
                                IpProtocol::numbered(parts.protocol),
                                allowed,
                            )
                        }
                },
            }
        }
    }

    /// Whether the stack holds nothing but a packet of a protocol that it handles.
    pub open spec fn sound(self) -> bool {
        self.pending matches Some((frame, protocol)) ==> {
            &&& ip_parts(frame) matches Some(parts)
            &&& protocol == IpProtocol::numbered(parts.protocol)
            &&& channel_of(protocol) is Some
        }
    }
}

impl<F: Fn(&IpAddr, &IpAddr) -> bool> View for Stack<F> {
    type V = StackView<F>;

    closed spec fn view(&self) -> StackView<F> {
        StackView {
            rules: self.ip_filters.rules(),
            pending: match self.sink_buf {
                Some((frame, protocol)) => Some((frame@, protocol)),
                None => None,
            },
            udp: self.udp,
            tcp: self.tcp,
            icmp: self.icmp,
        }
    }
}

/// A frame on its way to a channel.
pub struct Delivery {
    pub frame: AnyIpPktFrame,
    pub protocol: IpProtocol,
    pub channel: Channel,
}

/// What a channel answered to the request for a place.
#[derive(Debug, Clone, Copy, PartialEq, Eq, Structural)]
pub enum Reservation {
    /// There is a place.
    Granted,
    /// There is none yet.
    Pending,
    /// There is nobody to receive.
    Closed,
}

/// What to do about a frame on its way.
pub enum SendStep {
    /// Put it into the channel.
    Send(AnyIpPktFrame),
    /// Try again later.
    Pending,
    /// Give up.
    Failed(NetError),
}

impl<F: Fn(&IpAddr, &IpAddr) -> bool> Stack<F> {
    /// Takes a packet on which the filter answered `allowed`.
    pub fn give(&mut self, item: AnyIpPktFrame, protocol: IpProtocol, allowed: bool)
        ensures
            final(self)@ == old(self)@.given(item@, protocol, allowed),
    {
        if !allowed {
            return;
        }
        if matches!(
            protocol,
            IpProtocol::Tcp | IpProtocol::Udp | IpProtocol::Icmp | IpProtocol::Icmpv6
        ) {
            self.sink_buf = Some((item, protocol));
        }
    }

    /// Takes a frame that enters the stack. The frame that waited before, if any,
    /// is replaced by one that is taken.
    pub fn start_send(&mut self, item: AnyIpPktFrame) -> (res: Result<(), NetError>)
        ensures
            old(self)@.sending(item@, final(self)@, res),
    {
        if item.is_empty() {
            return Ok(());
        }
        let (src_ip, dst_ip, protocol) = match IpPacket::new_checked(item.as_slice()) {
            Ok(packet) => (packet.src_addr(), packet.dst_addr(), packet.protocol()),
            Err(_) => return Err(NetError::InvalidPacket),
        };
        let allowed = self.ip_filters.is_allowed(&src_ip, &dst_ip);
        self.give(item, protocol, allowed);
        Ok(())
    }

    /// Whether a frame waits.
    pub fn has_pending(&self) -> (pending: bool)
        ensures
            pending == (self@.pending is Some),
    {
        self.sink_buf.is_some()
    }

    /// Takes out the frame that waits, to pass it on. A frame whose channel is not
    /// there is dropped.
    pub fn begin_send(&mut self) -> (res: Option<Delivery>)
        ensures
            final(self)@ == (StackView { pending: None, ..old(self)@ }),
            res is Some <==> old(self)@.route() is Some,
            res matches Some(delivery) ==> {
                &&& old(self)@.pending == Some((delivery.frame@, delivery.protocol))
                &&& old(self)@.route() == Some(delivery.channel)
            },
    {
        let (frame, protocol) = match self.sink_buf.take() {
            Some(pending) => pending,
            None => return None,
        };
        let (channel, enabled) = match protocol {
            IpProtocol::Tcp => (Channel::Tcp, self.tcp),
            IpProtocol::Udp => (Channel::Udp, self.udp),
            IpProtocol::Icmp | IpProtocol::Icmpv6 => (Channel::Icmp, self.icmp),
            IpProtocol::Other(_) => return None,
        };
        if enabled {
            Some(Delivery { frame, protocol, channel })
        } else {
            None
        }
    }

    /// Goes on with a frame once its channel has answered. Where there is no place
    /// yet, the frame waits again.
    pub fn on_reservation(&mut self, delivery: Delivery, reservation: Reservation) -> (step:
        SendStep)
        ensures
            match reservation {
                Reservation::Granted => {
                    &&& step matches SendStep::Send(frame) && frame@ == delivery.frame@
                    &&& final(self)@ == old(self)@
                },
                Reservation::Closed => {
                    &&& step matches SendStep::Failed(error) && error == NetError::ChannelClosed
                    &&& final(self)@ == old(self)@
                },
                Reservation::Pending => {
                    &&& step is Pending
                    &&& final(self)@ == (StackView {
                        pending: Some((delivery.frame@, delivery.protocol)),
                        ..old(self)@
                    })
                },
            },
    {
        match reservation {
            Reservation::Granted => SendStep::Send(delivery.frame),
            Reservation::Closed => SendStep::Failed(NetError::ChannelClosed),
            Reservation::Pending => {
                self.sink_buf = Some((delivery.frame, delivery.protocol));
                SendStep::Pending
            },
        }
    }
}

/// What comes of a frame that was put into its channel, or not.
pub fn on_sent(accepted: bool) -> (res: Result<(), NetError>)
    ensures
        res == (if accepted {
            Ok::<(), NetError>(())
        } else {
            Err::<(), NetError>(NetError::ChannelClosed)
        }),
{
    if accepted {
        Ok(())
    } else {
        Err(NetError::ChannelClosed)
    }
}

/// Whether the stack is to take no more frames for the carrier, now that what waited
/// was passed on, or not.
pub fn on_flushed(flushed: Result<(), NetError>) -> (close: bool)
    ensures
        close == (flushed is Ok),
{
    flushed.is_ok()
}

/// A stack that was just built is sound, and has ICMP only with TCP.
pub proof fn law_built_stack_is_sound<F: Fn(&IpAddr, &IpAddr) -> bool>(
    config: StackConfig<F>,
    stack: StackView<F>,
)
    requires
        !(config.icmp && !config.tcp),
        stack == (StackView {
            rules: config.rules,
            pending: None,
            udp: config.udp,
            tcp: config.tcp,
            icmp: config.icmp,
        }),
    ensures
        stack.sound(),
        stack.icmp ==> stack.tcp,
{
}

/// Handing a frame to the stack keeps it sound, and changes neither its rules nor
/// its channels.
pub proof fn law_sending_keeps_the_stack_sound<F: Fn(&IpAddr, &IpAddr) -> bool>(
    before: StackView<F>,
    frame: Seq<u8>,
    after: StackView<F>,
    res: Result<(), NetError>,
)
    requires
        before.sound(),
        before.sending(frame, after, res),
    ensures
        after.sound(),
        after.rules == before.rules,
        after.udp == before.udp && after.tcp == before.tcp && after.icmp == before.icmp,
        after.pending != before.pending ==> (after.pending matches Some((held, _)) && held
            == frame),
{
}

/// A frame is refused exactly where it is not empty and no packet. It leaves no
/// trace: the stack is as it was.
pub proof fn law_refused_frame_leaves_no_trace<F: Fn(&IpAddr, &IpAddr) -> bool>(
    before: StackView<F>,
    frame: Seq<u8>,
    after: StackView<F>,
    res: Result<(), NetError>,
)
    requires
        before.sending(frame, after, res),
    ensures
        res is Err <==> frame.len() > 0 && ip_parts(frame) is None,
        res is Err ==> after == before,
{
}

/// A packet that no answer of the filter can allow never waits in the stack.
pub proof fn law_filtered_packet_is_dropped<F: Fn(&IpAddr, &IpAddr) -> bool>(
    before: StackView<F>,
    frame: Seq<u8>,
    parts: IpParts,
    after: StackView<F>,
    res: Result<(), NetError>,
)
    requires
        before.sending(frame, after, res),
        ip_parts(frame) == Some(parts),
        !rules_may_answer(before.rules, parts.src_addr(), parts.dst_addr(), true),
    ensures
        after == before,
        res is Ok,
{
}

/// A packet that every answer of the filter allows, of a protocol that the stack
/// handles, is held as it was given, and is to go to the channel of its protocol
/// where that is there.
pub proof fn law_allowed_packet_is_held<F: Fn(&IpAddr, &IpAddr) -> bool>(
    before: StackView<F>,
    frame: Seq<u8>,
    parts: IpParts,
    after: StackView<F>,
    res: Result<(), NetError>,
)
    requires
        before.sending(frame, after, res),
        ip_parts(frame) == Some(parts),
        !rules_may_answer(before.rules, parts.src_addr(), parts.dst_addr(), false),
        channel_of(IpProtocol::numbered(parts.protocol)) is Some,
    ensures
        after.pending == Some((frame, IpProtocol::numbered(parts.protocol))),
        res is Ok,
        channel_of(IpProtocol::numbered(parts.protocol)) matches Some(channel) ==> after.route()
            == (if before.enabled(channel) {
            Some(channel)
        } else {
            None
        }),
{
}

/// A frame for which there is no place yet is not lost: taking it out and learning
/// that leaves the stack as it was.
pub proof fn law_pending_frame_is_kept<F: Fn(&IpAddr, &IpAddr) -> bool>(
    before: StackView<F>,
    taken: StackView<F>,
    frame: Seq<u8>,
    protocol: IpProtocol,
    after: StackView<F>,
)
    requires
        before.pending == Some((frame, protocol)),
        taken == (StackView { pending: None, ..before }),
        after == (StackView { pending: Some((frame, protocol)), ..taken }),
    ensures
        after == before,
{
}

} // verus!
