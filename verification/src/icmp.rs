//! The ICMP echo request: an 8-byte header followed by the payload.

use crate::checksum::{checksum, internet_checksum, lemma_checksum_verifies, with_checksum};
use crate::wire::{append, be16, to_be_bytes};
use vstd::prelude::*;

verus! {

/// The ICMP type of an echo request.
pub const ECHO_REQUEST: u8 = 8;

/// The ICMP code of an echo request.
pub const ECHO_CODE: u8 = 0;

/// Length of the ICMP echo header.
pub const ICMP_HEADER_LEN: usize = 8;

/// Offset of the checksum field in an ICMP message.
pub const ICMP_CHECKSUM_OFFSET: usize = 2;

/// An echo request. `identifier` and `sequence` are correlation tags that the
/// encoder passes through untouched; the payload may be of any length.
#[derive(Debug)]
pub struct Icmp {
    pub identifier: u16,
    pub sequence: u16,
    pub payload: Vec<u8>,
}

/// The echo header with a blank checksum field: type, code, two zero bytes,
/// then identifier and sequence number in network byte order.
pub open spec fn echo_header(identifier: u16, sequence: u16) -> Seq<u8> {
    seq![ECHO_REQUEST, ECHO_CODE, 0u8, 0u8] + be16(identifier as nat) + be16(sequence as nat)
}

/// The bytes of an echo request: header and payload, with the checksum of the
/// whole message, taken while its checksum field is blank, in bytes 2 and 3.
pub open spec fn echo_request(identifier: u16, sequence: u16, payload: Seq<u8>) -> Seq<u8> {
    with_checksum(echo_header(identifier, sequence) + payload, ICMP_CHECKSUM_OFFSET as int)
}

/// An echo request carries its own checksum: summed as a whole, checksum
/// field included, every echo request gives `0x0000`.
pub proof fn lemma_echo_request_verifies(identifier: u16, sequence: u16, payload: Seq<u8>)
    ensures
        internet_checksum(echo_request(identifier, sequence, payload)) == seq![0u8, 0u8],
{
    lemma_checksum_verifies(
        echo_header(identifier, sequence) + payload,
        ICMP_CHECKSUM_OFFSET as int,
    );
}

impl Icmp {
    /// Serialises the message. Any identifier, sequence number and payload is
    /// accepted.
    pub fn as_bytes(&self) -> (bytes: Vec<u8>)
        ensures
            bytes@ == echo_request(self.identifier, self.sequence, self.payload@),
            bytes@.len() == self.payload@.len() + 8,
            bytes@[0] == ECHO_REQUEST,
            bytes@[1] == ECHO_CODE,
            bytes@.subrange(4, 6) == be16(self.identifier as nat),
            bytes@.subrange(6, 8) == be16(self.sequence as nat),
            bytes@.subrange(8, bytes@.len() as int) == self.payload@,
            internet_checksum(bytes@) == seq![0u8, 0u8],
    {
        let identifier: [u8; 2] = to_be_bytes(self.identifier);
        let sequence: [u8; 2] = to_be_bytes(self.sequence);
        let mut bytes: Vec<u8> = Vec::new();
        bytes.push(ECHO_REQUEST);
        bytes.push(ECHO_CODE);
        bytes.push(0);
        bytes.push(0);
        bytes.push(identifier[0]);
        bytes.push(identifier[1]);
        bytes.push(sequence[0]);
        bytes.push(sequence[1]);
        append(&mut bytes, self.payload.as_slice());
        let ghost blank = bytes@;
        assert(blank =~= echo_header(self.identifier, self.sequence) + self.payload@);
        let sum: [u8; 2] = checksum(bytes.as_slice());
        bytes[ICMP_CHECKSUM_OFFSET] = sum[0];
        bytes[ICMP_CHECKSUM_OFFSET + 1] = sum[1];
        proof {
            lemma_checksum_verifies(blank, ICMP_CHECKSUM_OFFSET as int);
        }
        bytes
    }
}

} // verus!
