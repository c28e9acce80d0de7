//! The IPv4 packet: a fixed 20-byte header without options, followed by the
//! payload.

use crate::checksum::{checksum, internet_checksum, lemma_checksum_verifies, with_checksum};
use crate::error::EncodeError;
use crate::wire::{append, be16, be16_value, to_be_bytes};
use vstd::prelude::*;

verus! {

/// Version 4 with a header of five 32-bit words.
pub const VERSION_IHL: u8 = 0x45;

/// Hop limit written into every header.
pub const TTL: u8 = 64;

/// Protocol number of ICMP.
pub const PROTOCOL_ICMP: u8 = 1;

/// Length of the header.
pub const IPV4_HEADER_LEN: usize = 20;

/// Offset of the header checksum field.
pub const IPV4_CHECKSUM_OFFSET: usize = 10;

/// The longest payload whose total length still fits in 16 bits.
pub const MAX_PAYLOAD_LEN: usize = 65515;

/// An IPv4 packet that carries ICMP. The addresses are copied into the header
/// as they are.
#[derive(Debug)]
pub struct Ipv4 {
    pub source_ip: [u8; 4],
    pub dest_ip: [u8; 4],
    pub payload: Vec<u8>,
}

/// The header with a blank checksum field: version and header length, DSCP
/// and ECN zero, the total length, identification, flags and fragment offset
/// zero, the hop limit, the protocol, two zero bytes, then both addresses.
pub open spec fn blank_header(source: Seq<u8>, dest: Seq<u8>, total_len: nat) -> Seq<u8> {
    seq![VERSION_IHL, 0u8] + be16(total_len) + seq![0u8, 0u8, 0u8, 0u8, TTL, PROTOCOL_ICMP, 0u8, 0u8]
        + source + dest
}

/// The header of a packet with `payload_len` bytes of payload. Its checksum
/// covers the header alone.
pub open spec fn ipv4_header(source: Seq<u8>, dest: Seq<u8>, payload_len: nat) -> Seq<u8> {
    with_checksum(
        blank_header(source, dest, IPV4_HEADER_LEN as nat + payload_len),
        IPV4_CHECKSUM_OFFSET as int,
    )
}

/// The bytes of a packet: the header, then the payload unchanged.
pub open spec fn ipv4_packet(source: Seq<u8>, dest: Seq<u8>, payload: Seq<u8>) -> Seq<u8> {
    ipv4_header(source, dest, payload.len()) + payload
}

/// A header carries its own checksum: summed as a whole, checksum field
/// included, every header gives `0x0000`, whatever the payload is.
pub proof fn lemma_ipv4_header_verifies(source: Seq<u8>, dest: Seq<u8>, payload: Seq<u8>)
    requires
        source.len() == 4,
        dest.len() == 4,
    ensures
        ipv4_header(source, dest, payload.len()).len() == 20,
        ipv4_packet(source, dest, payload).subrange(0, 20) == ipv4_header(
            source,
            dest,
            payload.len(),
        ),
        internet_checksum(ipv4_header(source, dest, payload.len())) == seq![0u8, 0u8],
{
    lemma_checksum_verifies(
        blank_header(source, dest, 20 + payload.len()),
        IPV4_CHECKSUM_OFFSET as int,
    );
}

impl Ipv4 {
    /// Serialises the packet. A payload of more than 65515 bytes has no total
    /// length that fits in 16 bits and is refused; every other packet is
    /// encoded.
    pub fn as_bytes(&self) -> (result: Result<Vec<u8>, EncodeError>)
        ensures
            result is Ok <==> self.payload@.len() <= MAX_PAYLOAD_LEN,
            result matches Err(e) ==> e == (EncodeError::PayloadTooLarge {
                len: self.payload.len(),
            }),
            result matches Ok(bytes) ==> {
                &&& bytes@ == ipv4_packet(self.source_ip@, self.dest_ip@, self.payload@)
                &&& bytes@.len() == self.payload@.len() + 20
                &&& be16_value(bytes@.subrange(2, 4)) == self.payload@.len() + 20
                &&& bytes@.subrange(12, 16) == self.source_ip@
                &&& bytes@.subrange(16, 20) == self.dest_ip@
                &&& bytes@.subrange(20, bytes@.len() as int) == self.payload@
                &&& internet_checksum(bytes@.subrange(0, 20)) == seq![0u8, 0u8]
            },
    {
        let payload_len: usize = self.payload.len();
        if payload_len > MAX_PAYLOAD_LEN {
            return Err(EncodeError::PayloadTooLarge { len: payload_len });
        }
        let total_len: [u8; 2] = to_be_bytes((IPV4_HEADER_LEN + payload_len) as u16);
        let mut bytes: Vec<u8> = Vec::new();
        bytes.push(VERSION_IHL);
        bytes.push(0);
        bytes.push(total_len[0]);
        bytes.push(total_len[1]);
        bytes.push(0);
        bytes.push(0);
        bytes.push(0);
        bytes.push(0);
        bytes.push(TTL);
        bytes.push(PROTOCOL_ICMP);
        bytes.push(0);
        bytes.push(0);
        append(&mut bytes, self.source_ip.as_slice());
        append(&mut bytes, self.dest_ip.as_slice());
        let ghost blank = bytes@;
        assert(blank =~= blank_header(
            self.source_ip@,
            self.dest_ip@,
            (20 + self.payload@.len()) as nat,
        ));
        let sum: [u8; 2] = checksum(bytes.as_slice());
        bytes[IPV4_CHECKSUM_OFFSET] = sum[0];
        bytes[IPV4_CHECKSUM_OFFSET + 1] = sum[1];
        let ghost header = bytes@;
        append(&mut bytes, self.payload.as_slice());
        proof {
            lemma_checksum_verifies(blank, IPV4_CHECKSUM_OFFSET as int);
            assert(bytes@.subrange(0, 20) =~= header);
        }
        Ok(bytes)
    }
}

} // verus!
