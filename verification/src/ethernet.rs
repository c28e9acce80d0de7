//! The Ethernet frame: a 14-byte header without a VLAN tag, followed by the
//! payload. The frame check sequence is left to the link.

use crate::wire::{append, be16, to_be_bytes};
use vstd::prelude::*;

verus! {

/// The EtherType of IPv4, the only payload this encoder announces.
pub const ETHERTYPE_IPV4: u16 = 0x0800;

/// Length of the header.
pub const ETHERNET_HEADER_LEN: usize = 14;

/// An Ethernet frame that carries an IPv4 packet.
#[derive(Debug)]
pub struct Ethernet {
    pub dest_mac: [u8; 6],
    pub source_mac: [u8; 6],
    pub payload: Vec<u8>,
}

/// The bytes of a frame: destination address, source address, the IPv4
/// EtherType in network byte order, then the payload unchanged.
pub open spec fn ethernet_frame(dest: Seq<u8>, source: Seq<u8>, payload: Seq<u8>) -> Seq<u8> {
    dest + source + be16(ETHERTYPE_IPV4 as nat) + payload
}

impl Ethernet {
    /// Serialises the frame. The payload length is not held against any
    /// link's limit.
    pub fn as_bytes(&self) -> (bytes: Vec<u8>)
        ensures
            bytes@ == ethernet_frame(self.dest_mac@, self.source_mac@, self.payload@),
            bytes@.len() == self.payload@.len() + 14,
            bytes@.subrange(0, 6) == self.dest_mac@,
            bytes@.subrange(6, 12) == self.source_mac@,
            bytes@.subrange(12, 14) == seq![0x08u8, 0x00u8],
            bytes@.subrange(14, bytes@.len() as int) == self.payload@,
    {
        let ethertype: [u8; 2] = to_be_bytes(ETHERTYPE_IPV4);
        let mut bytes: Vec<u8> = Vec::new();
        append(&mut bytes, self.dest_mac.as_slice());
        append(&mut bytes, self.source_mac.as_slice());
        bytes.push(ethertype[0]);
        bytes.push(ethertype[1]);
        append(&mut bytes, self.payload.as_slice());
        bytes
    }
}

} // verus!
