//! The errors that the stack reports.
use vstd::prelude::*;

verus! {

/// The kinds of errors.
#[derive(Debug, Clone, Copy, PartialEq, Eq, Structural)]
pub enum ErrorKind {
    InvalidInput,
    BrokenPipe,
    ConnectionRefused,
    AddrNotAvailable,
}

/// An error of the stack.
#[derive(Debug, Clone, Copy, PartialEq, Eq, Structural)]
pub enum NetError {
    /// ICMP was enabled without TCP, whose interface answers it.
    IcmpRequiresTcp,
    /// A frame is no IP packet.
    InvalidPacket,
    /// The receiving end of a channel is gone.
    ChannelClosed,
    /// A socket could not listen.
    ListenFailed,
    /// The interface has no room for another route.
    RouteTableFull,
}

impl NetError {
    /// The kind of the error.
    pub open spec fn kind_of(self) -> ErrorKind {
        match self {
            NetError::IcmpRequiresTcp => ErrorKind::InvalidInput,
            NetError::InvalidPacket => ErrorKind::InvalidInput,
            NetError::ChannelClosed => ErrorKind::BrokenPipe,
            NetError::ListenFailed => ErrorKind::ConnectionRefused,
            NetError::RouteTableFull => ErrorKind::AddrNotAvailable,
        }
    }

    /// What is said of the error, where its kind does not say it all.
    pub open spec fn text(self) -> Option<Seq<char>> {
        match self {
            NetError::IcmpRequiresTcp => Some("ICMP requires TCP"@),
            NetError::InvalidPacket => Some("invalid IP packet: wire::Error"@),
            NetError::ChannelClosed => Some("channel is closed"@),
            NetError::ListenFailed => None,
            NetError::RouteTableFull => Some("Route table full"@),
        }
    }

    /// The kind of the error.
    pub fn kind(&self) -> (kind: ErrorKind)
        ensures
            kind == self.kind_of(),
    {
        match self {
            NetError::IcmpRequiresTcp => ErrorKind::InvalidInput,
            NetError::InvalidPacket => ErrorKind::InvalidInput,
            NetError::ChannelClosed => ErrorKind::BrokenPipe,
            NetError::ListenFailed => ErrorKind::ConnectionRefused,
            NetError::RouteTableFull => ErrorKind::AddrNotAvailable,
        }
    }

    /// What is said of the error, where its kind does not say it all.
    pub fn message(&self) -> (message: Option<&'static str>)
        ensures
            message is Some <==> self.text() is Some,
            message matches Some(text) ==> self.text() == Some(text@),
    {
        match self {
            NetError::IcmpRequiresTcp => Some("ICMP requires TCP"),
            NetError::InvalidPacket => Some("invalid IP packet: wire::Error"),
            NetError::ChannelClosed => Some("channel is closed"),
            NetError::ListenFailed => None,
            NetError::RouteTableFull => Some("Route table full"),
        }
    }
}

} // verus!
