//! The three layers put together: an echo request in an IPv4 packet in an
//! Ethernet frame, ready to be handed to a link-layer socket.

use crate::error::EncodeError;
use crate::ethernet::{ethernet_frame, Ethernet};
use crate::icmp::{echo_request, Icmp};
use crate::ipv4::{ipv4_packet, Ipv4};
use vstd::prelude::*;

verus! {

/// The longest echo payload that still fits an IPv4 packet: the IPv4 payload
/// limit less the 8-byte ICMP header.
pub const MAX_ECHO_PAYLOAD_LEN: usize = 65507;

/// All that one echo request on the wire is made of.
#[derive(Debug)]
pub struct EchoFrame {
    pub dest_mac: [u8; 6],
    pub source_mac: [u8; 6],
    pub source_ip: [u8; 4],
    pub dest_ip: [u8; 4],
    pub identifier: u16,
    pub sequence: u16,
    pub payload: Vec<u8>,
}

impl EchoFrame {
    /// The innermost layer: the echo request.
    pub open spec fn message(&self) -> Seq<u8> {
        echo_request(self.identifier, self.sequence, self.payload@)
    }

    /// The middle layer: the IPv4 packet around the echo request.
    pub open spec fn packet(&self) -> Seq<u8> {
        ipv4_packet(self.source_ip@, self.dest_ip@, self.message())
    }

    /// The bytes of the frame: each layer is the payload of the next.
    pub open spec fn wire(&self) -> Seq<u8> {
        ethernet_frame(self.dest_mac@, self.source_mac@, self.packet())
    }

    /// Serialises the frame, innermost layer first. It is refused exactly
    /// when the ICMP message is too long for an IPv4 packet, and the error
    /// then carries the length of that message.
    pub fn as_bytes(&self) -> (result: Result<Vec<u8>, EncodeError>)
        ensures
            result is Ok <==> self.payload@.len() <= MAX_ECHO_PAYLOAD_LEN,
            result matches Err(EncodeError::PayloadTooLarge { len }) ==> len == self.payload@.len()
                + 8,
            result matches Ok(bytes) ==> {
                &&& bytes@ == self.wire()
                &&& bytes@.len() == self.payload@.len() + 42
                &&& bytes@.skip(14) == self.packet()
                &&& bytes@.skip(34) == self.message()
            },
    {
        let message = Icmp {
            identifier: self.identifier,
            sequence: self.sequence,
            payload: self.payload.clone(),
        };
        let ip = Ipv4 { source_ip: self.source_ip, dest_ip: self.dest_ip, payload: message.as_bytes() };
        match ip.as_bytes() {
            Ok(packet) => {
                let ethernet = Ethernet {
                    dest_mac: self.dest_mac,
                    source_mac: self.source_mac,
                    payload: packet,
                };
                Ok(ethernet.as_bytes())
            },
            Err(e) => Err(e),
        }
    }
}

} // verus!
