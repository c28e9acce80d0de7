//! Where a link-layer socket is told to send a frame: the interface to send
//! on, the hardware address of the next hop, and the protocol of the frame.

use crate::wire::{be16, to_be_bytes};
use vstd::prelude::*;

verus! {

/// Length of an Ethernet hardware address.
pub const HW_ADDR_LEN: u8 = 6;

/// The largest interface index that a socket address can carry.
pub const MAX_IF_INDEX: u32 = 0x7FFF_FFFF;

/// An interface index that names no interface a frame could leave on.
#[derive(Debug, Clone, Copy, PartialEq, Eq)]
pub enum LinkError {
    /// Index zero stands for "no interface".
    NoInterface,
    /// The index does not fit the signed 32-bit field of a socket address.
    IndexOutOfRange { index: u32 },
}

/// What a [`LinkDestination`] holds, as plain values.
pub struct Destination {
    pub if_index: int,
    pub hw_addr: Seq<u8>,
    pub protocol: u16,
}

/// A checked destination for one frame. It can only be made by
/// [`LinkDestination::new`], so its interface index is always usable.
#[derive(Debug, Clone, Copy, PartialEq, Eq)]
pub struct LinkDestination {
    if_index: i32,
    hw_addr: [u8; 6],
    protocol: u16,
}

impl View for LinkDestination {
    type V = Destination;

    closed spec fn view(&self) -> Destination {
        Destination {
            if_index: self.if_index as int,
            hw_addr: self.hw_addr@,
            protocol: self.protocol,
        }
    }
}

impl LinkDestination {
    #[verifier::type_invariant]
    spec fn has_interface(self) -> bool {
        0 < self.if_index
    }

    /// Checks the interface index and records the destination. The index is
    /// refused when it is zero or beyond `MAX_IF_INDEX`; any hardware address
    /// and any protocol number is taken as it is.
    pub fn new(if_index: u32, hw_addr: [u8; 6], protocol: u16) -> (result: Result<
        LinkDestination,
        LinkError,
    >)
        ensures
            result is Ok <==> 0 < if_index <= MAX_IF_INDEX,
            result matches Ok(destination) ==> destination@ == (Destination {
                if_index: if_index as int,
                hw_addr: hw_addr@,
                protocol,
            }),
            result matches Err(e) ==> e == if if_index == 0 {
                LinkError::NoInterface
            } else {
                LinkError::IndexOutOfRange { index: if_index }
            },
    {
        if if_index == 0 {
            Err(LinkError::NoInterface)
        } else if if_index > MAX_IF_INDEX {
            Err(LinkError::IndexOutOfRange { index: if_index })
        } else {
            Ok(LinkDestination { if_index: if_index as i32, hw_addr, protocol })
        }
    }

    /// The interface index, in the signed form that a socket address holds.
    pub fn if_index(&self) -> (index: i32)
        ensures
            index == self@.if_index,
            0 < index,
    {
        proof {
            use_type_invariant(self);
        }
        self.if_index
    }

    /// The hardware address of the next hop.
    pub fn hw_addr(&self) -> (address: [u8; 6])
        ensures
            address@ == self@.hw_addr,
    {
        self.hw_addr
    }

    /// The protocol number of the frame.
    pub fn protocol(&self) -> (protocol: u16)
        ensures
            protocol == self@.protocol,
    {
        self.protocol
    }

    /// The hardware address in the eight-byte field of a socket address:
    /// its six bytes, then two zero bytes.
    pub fn padded_hw_addr(&self) -> (field: [u8; 8])
        ensures
            field@ == self@.hw_addr + seq![0u8, 0u8],
    {
        let a: [u8; 6] = self.hw_addr;
        let field: [u8; 8] = [a[0], a[1], a[2], a[3], a[4], a[5], 0, 0];
        field
    }

    /// The protocol number in network byte order, as a socket address
    /// stores it.
    pub fn protocol_bytes(&self) -> (bytes: [u8; 2])
        ensures
            bytes@ == be16(self@.protocol as nat),
    {
        to_be_bytes(self.protocol)
    }
}

} // verus!
