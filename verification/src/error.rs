//! The errors of decoding and routing.

use vstd::prelude::*;

use crate::packets::GatewayId;

verus! {

/// What can go wrong while a frame is decoded or routed.
#[derive(Clone, Copy, Debug, PartialEq, Eq)]
pub enum Error {
    /// The frame holds fewer bytes than the field that was asked for needs.
    TooShort { expected: usize },
    /// The packet-type byte holds none of the six known values.
    UnknownType { value: u8 },
    /// The version byte is neither 1 nor 2.
    UnknownVersion,
    /// No return address is known for the gateway.
    UnknownGateway { gateway_id: GatewayId },
    /// The registry holds no server of this index.
    UnknownServer { server: usize },
    /// A prefix is not written as sixteen hexadecimal digits, a slash and a
    /// decimal number.
    PrefixFormat,
    /// A prefix fixes more than 64 bits.
    PrefixSize,
}

} // verus!
