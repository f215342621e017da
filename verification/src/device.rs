//! What the virtual device between the interface and the stack can do.
use vstd::prelude::*;

verus! {

/// For which packets the interface handles a checksum.
#[derive(Debug, Clone, Copy, PartialEq, Eq, Structural)]
pub enum ChecksumUse {
    /// It checks those of incoming packets and computes those of outgoing packets.
    Both,
    /// It only computes those of outgoing packets.
    Outgoing,
}

/// What a device carries.
#[derive(Debug, Clone, Copy, PartialEq, Eq, Structural)]
pub enum DeviceMedium {
    /// IP packets without a link header.
    Ip,
    /// Ethernet frames.
    Ethernet,
}

/// What a device can do.
#[derive(Debug, Clone, Copy, PartialEq, Eq, Structural)]
pub struct Capabilities {
    pub medium: DeviceMedium,
    /// The longest frame, in octets.
    pub max_transmission_unit: usize,
    pub ipv4: ChecksumUse,
    pub udp: ChecksumUse,
    pub tcp: ChecksumUse,
    pub icmpv4: ChecksumUse,
    pub icmpv6: ChecksumUse,
}

/// What the virtual device can do: it carries IP packets of up to 1504 octets, whose
/// checksums are not checked when they come in.
pub fn capabilities() -> (caps: Capabilities)
    ensures
        caps == (Capabilities {
            medium: DeviceMedium::Ip,
            max_transmission_unit: 1504,
            ipv4: ChecksumUse::Outgoing,
            udp: ChecksumUse::Outgoing,
            tcp: ChecksumUse::Outgoing,
            icmpv4: ChecksumUse::Outgoing,
            icmpv6: ChecksumUse::Outgoing,
        }),
{
    Capabilities {
        medium: DeviceMedium::Ip,
        max_transmission_unit: 1504,
        ipv4: ChecksumUse::Outgoing,
        udp: ChecksumUse::Outgoing,
        tcp: ChecksumUse::Outgoing,
        icmpv4: ChecksumUse::Outgoing,
        icmpv6: ChecksumUse::Outgoing,
    }
}

} // verus!
