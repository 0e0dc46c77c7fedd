//! Socket-address and endpoint representations, and the conversions the
//! transport adapter performs between them.
//!
//! The protocol client speaks a generic (family, octets, port) socket
//! address; the network transport speaks its own endpoint form, which only
//! carries IPv4. Conversion is total from endpoint to socket address; in
//! the other direction an address of any family other than IPv4 is
//! rejected as unsupported.

use vstd::prelude::*;

use crate::error::SntpcError;

verus! {

/// The UDP port of the network time service.
pub const NTP_PORT: u16 = 123;

/// An IPv4 address as its four octets.
#[derive(Clone, Copy, Debug, PartialEq, Eq, Structural)]
pub struct Ipv4Address {
    pub o0: u8,
    pub o1: u8,
    pub o2: u8,
    pub o3: u8,
}

/// An IPv6 address as its eight 16-bit segments. The transport in scope
/// cannot carry it; it exists so that the generic socket-address form can
/// state the unsupported family explicitly.
#[derive(Clone, Copy, Debug, PartialEq, Eq, Structural)]
pub struct Ipv6Address {
    pub s0: u16,
    pub s1: u16,
    pub s2: u16,
    pub s3: u16,
    pub s4: u16,
    pub s5: u16,
    pub s6: u16,
    pub s7: u16,
}

/// The generic socket-address form used by the protocol client: an address
/// family with its address, and a port.
#[derive(Clone, Copy, Debug, PartialEq, Eq, Structural)]
#[allow(inconsistent_fields)]
pub enum SockAddr {
    V4 { ip: Ipv4Address, port: u16 },
    V6 { ip: Ipv6Address, port: u16 },
}

/// The network transport's native endpoint form, IPv4 only.
#[derive(Clone, Copy, Debug, PartialEq, Eq, Structural)]
pub struct IpEndpoint {
    pub addr: Ipv4Address,
    pub port: u16,
}

/// The generic socket address that denotes the same destination as the
/// endpoint `e`.
pub open spec fn sock_addr_of_endpoint(e: IpEndpoint) -> SockAddr {
    SockAddr::V4 { ip: e.addr, port: e.port }
}

/// The transport endpoint denoting the same destination as the socket
/// address `s`, or `None` when `s` belongs to a family the transport
/// cannot carry.
pub open spec fn endpoint_of_sock_addr(s: SockAddr) -> Option<IpEndpoint> {
    match s {
        SockAddr::V4 { ip, port } => Some(IpEndpoint { addr: ip, port }),
        SockAddr::V6 { .. } => None,
    }
}

/// Converts an inbound datagram's source endpoint into the generic socket
/// address handed back to the protocol client. Total: the transport only
/// produces IPv4 endpoints.
pub fn endpoint_to_sock_addr(e: &IpEndpoint) -> (s: SockAddr)
    ensures
        s == sock_addr_of_endpoint(*e),
{
    SockAddr::V4 { ip: e.addr, port: e.port }
}

/// Converts a generic socket address into the transport's endpoint form.
/// Any family other than IPv4 is rejected as unsupported rather than
/// treated as unreachable, so a future transport could surface it.
pub fn sock_addr_to_endpoint(s: &SockAddr) -> (r: Result<IpEndpoint, SntpcError>)
    ensures
        match endpoint_of_sock_addr(*s) {
            Some(e) => r == Ok::<IpEndpoint, SntpcError>(e),
            None => r == Err::<IpEndpoint, SntpcError>(SntpcError::UnsupportedAddressFamily),
        },
{
    match s {
        SockAddr::V4 { ip, port } => Ok(IpEndpoint { addr: *ip, port: *port }),
        SockAddr::V6 { .. } => Err(SntpcError::UnsupportedAddressFamily),
    }
}

/// Picks the destination endpoint for one send: the first address of the
/// resolved list, converted to the transport's form. An empty list means
/// there is nothing to send to; a non-IPv4 first address is unsupported.
pub fn send_target(addrs: &Vec<SockAddr>) -> (r: Result<IpEndpoint, SntpcError>)
    ensures
        addrs@.len() == 0 ==> r == Err::<IpEndpoint, SntpcError>(SntpcError::NoAddr),
        addrs@.len() > 0 ==> match endpoint_of_sock_addr(addrs@[0]) {
            Some(e) => r == Ok::<IpEndpoint, SntpcError>(e),
            None => r == Err::<IpEndpoint, SntpcError>(SntpcError::UnsupportedAddressFamily),
        },
{
    if addrs.len() == 0 {
        Err(SntpcError::NoAddr)
    } else {
        sock_addr_to_endpoint(&addrs[0])
    }
}

/// Address round-trip, endpoint first: converting a transport endpoint to
/// the generic socket-address form and back yields the endpoint unchanged.
pub proof fn lemma_endpoint_round_trip(e: IpEndpoint)
    ensures
        endpoint_of_sock_addr(sock_addr_of_endpoint(e)) == Some(e),
{
}

/// Address round-trip, socket address first: for every IPv4 octet
/// quadruple and port, converting the socket address to the transport's
/// endpoint form and back yields the original (address, port) unchanged.
pub proof fn lemma_sock_addr_round_trip(ip: Ipv4Address, port: u16)
    ensures
        (endpoint_of_sock_addr(SockAddr::V4 { ip, port }) == Some(IpEndpoint { addr: ip, port })),
        (sock_addr_of_endpoint(IpEndpoint { addr: ip, port }) == SockAddr::V4 { ip, port }),
{
}

} // verus!
