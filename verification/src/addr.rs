//! Network addresses a server can be bound to, held as plain integers.

use vstd::prelude::*;

verus! {

/// The port a fresh configuration listens on.
pub const DEFAULT_PORT: u16 = 8080;

/// An IP address, by its octets (version 4) or its 16-bit segments (version 6).
#[derive(Debug, Clone, Copy, PartialEq, Eq, Structural)]
pub enum IpAddress {
    V4(u8, u8, u8, u8),
    V6(u16, u16, u16, u16, u16, u16, u16, u16),
}

/// An address and port to listen on.
#[derive(Debug, Clone, Copy, PartialEq, Eq, Structural)]
pub struct BindAddr {
    pub ip: IpAddress,
    pub port: u16,
}

impl IpAddress {
    /// The version 6 address that stands for every interface (`::`).
    pub open spec fn spec_unspecified() -> IpAddress {
        IpAddress::V6(0, 0, 0, 0, 0, 0, 0, 0)
    }

    #[verifier::when_used_as_spec(spec_unspecified)]
    pub fn unspecified() -> (r: IpAddress)
        ensures
            r == IpAddress::spec_unspecified(),
    {
        IpAddress::V6(0, 0, 0, 0, 0, 0, 0, 0)
    }
}

impl BindAddr {
    pub fn new(ip: IpAddress, port: u16) -> (r: BindAddr)
        ensures
            r == (BindAddr { ip, port }),
    {
        BindAddr { ip, port }
    }
}

} // verus!
