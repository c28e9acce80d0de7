//! What the encoders share: network byte order for 16-bit fields, and
//! appending bytes to a buffer.

use vstd::prelude::*;

verus! {

/// The two bytes of a 16-bit number, most significant first.
pub open spec fn be16(value: nat) -> Seq<u8> {
    seq![(value / 256) as u8, (value % 256) as u8]
}

/// The number that two bytes in network byte order stand for.
pub open spec fn be16_value(bytes: Seq<u8>) -> nat {
    bytes[0] as nat * 256 + bytes[1] as nat
}

/// Reading back the bytes of a 16-bit number gives that number.
pub proof fn lemma_be16_round_trip(value: nat)
    requires
        value <= 0xFFFF,
    ensures
        be16(value).len() == 2,
        be16_value(be16(value)) == value,
{
}

/// Splits `value` into its two bytes, most significant first.
pub fn to_be_bytes(value: u16) -> (bytes: [u8; 2])
    ensures
        bytes@ == be16(value as nat),
{
    let bytes: [u8; 2] = [(value / 256) as u8, (value % 256) as u8];
    bytes
}

/// Appends `tail` to `out`, leaving what `out` already holds in place.
pub(crate) fn append(out: &mut Vec<u8>, tail: &[u8])
    ensures
        final(out)@ == old(out)@ + tail@,
{
    out.extend_from_slice(tail);
}

} // verus!
