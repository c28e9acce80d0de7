//! Byte-exact encoders for an ICMP echo request carried in an IPv4 packet
//! inside an Ethernet frame, together with the Internet checksum they rely on.
//!
//! Every encoder is a pure function from a small record of fields to the
//! bytes that go on the wire, and each states those bytes exactly:
//!
//! - [`checksum`] sums any byte sequence;
//! - [`icmp`], [`ipv4`] and [`ethernet`] each wrap a payload in one header;
//! - [`frame`] nests the three;
//! - [`link`] describes where a link-layer socket is to send the result.
//!
//! Nothing here touches a socket: the bytes and the destination are handed
//! to whoever owns one.

pub mod checksum;
pub mod error;
pub mod ethernet;
pub mod frame;
pub mod icmp;
pub mod ipv4;
pub mod link;
pub mod wire;
