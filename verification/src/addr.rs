use vstd::prelude::*;

verus! {

/// An IP address: IPv4 as its 32-bit big-endian value, IPv6 as its 128-bit
/// big-endian value.
#[derive(Clone, Copy, Debug, PartialEq, Eq, Structural)]
pub enum IpAddress {
    V4(u32),
    V6(u128),
}

/// An IP address with a port.
#[derive(Clone, Copy, Debug, PartialEq, Eq, Structural)]
pub struct SocketAddress {
    pub ip: IpAddress,
    pub port: u16,
}

/// The outgoing interface a connection is bound to.
#[derive(Debug, PartialEq, Eq)]
pub enum Interface {
    /// Bind to a local address.
    IpAddr(IpAddress),
    /// Bind to an interface by its name.
    Name(String),
}

impl Clone for Interface {
    fn clone(&self) -> (r: Self)
        ensures
            r == *self,
    {
        match self {
            Interface::IpAddr(ip) => Interface::IpAddr(*ip),
            Interface::Name(n) => Interface::Name(n.clone()),
        }
    }
}

/// A copy of an optional interface, equal to the original.
pub fn duplicate_iface(iface: &Option<Interface>) -> (r: Option<Interface>)
    ensures
        r == *iface,
{
    match iface {
        Some(i) => Some(i.clone()),
        None => None,
    }
}

/// The local address a connection binds to for a given interface: the
/// interface's own address with port 0 when it names an address, none
/// otherwise.
pub open spec fn bind_address(iface: Option<Interface>) -> Option<SocketAddress> {
    match iface {
        Some(Interface::IpAddr(ip)) => Some(SocketAddress { ip, port: 0 }),
        _ => None,
    }
}

/// Computes [`bind_address`].
pub fn bind_address_of(iface: &Option<Interface>) -> (r: Option<SocketAddress>)
    ensures
        r == bind_address(*iface),
{
    match iface {
        Some(Interface::IpAddr(ip)) => Some(SocketAddress { ip: *ip, port: 0 }),
        _ => None,
    }
}

} // verus!
