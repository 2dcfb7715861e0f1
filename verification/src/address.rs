//! Network addresses of devices, as plain numbers.

use vstd::prelude::*;

verus! {

/// The TCP port on which a device answers the control protocol.
pub const CONTROL_PORT: u16 = 62078;

/// The network address of a device.
#[derive(Clone, Copy, Debug, PartialEq, Eq, Structural)]
pub enum Address {
    /// An IPv4 address: its four octets, the first in the highest byte.
    V4(u32),
    /// An IPv6 address: its sixteen octets, the first in the highest byte.
    V6(u128),
}

/// Where to dial a device: its address and a TCP port.
#[derive(Clone, Copy, Debug, PartialEq, Eq, Structural)]
pub struct Endpoint {
    pub address: Address,
    pub port: u16,
}

impl Address {
    /// The endpoint of the control protocol at this address.
    pub fn control_endpoint(self) -> (out: Endpoint)
        ensures
            out == (Endpoint { address: self, port: CONTROL_PORT }),
    {
        Endpoint { address: self, port: CONTROL_PORT }
    }
}

} // verus!
