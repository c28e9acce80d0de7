//! Why a packet could not be encoded.

use vstd::prelude::*;

verus! {

/// An input that has no encoding.
#[derive(Debug, Clone, Copy, PartialEq, Eq)]
pub enum EncodeError {
    /// The IPv4 payload of `len` bytes, together with the 20-byte header,
    /// does not fit the 16-bit total-length field.
    PayloadTooLarge { len: usize },
}

} // verus!
