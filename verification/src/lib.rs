//! A user-space network stack: the decisions of a stack that turns raw IP
//! frames into TCP streams and UDP messages, separated from the tasks and
//! channels that carry the frames.
pub mod addr;
pub mod control;
pub mod device;
pub mod error;
pub mod filter;
pub mod history;
pub mod iface;
pub mod laws;
pub mod listener;
pub mod packet;
pub mod relay;
pub mod ring;
pub mod shared;
pub mod socket;
pub mod stack;
pub mod stream;
pub mod stream_laws;
pub mod table;
pub mod table_laws;
pub mod udp;
pub mod waker;
