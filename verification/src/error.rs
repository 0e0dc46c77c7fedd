//! Error taxonomy for one synchronization attempt.
//!
//! Every failure of an attempt is one of these values; the scheduler treats
//! them all the same (the attempt failed, retry soon) and none of them is
//! fatal. Readers of the clock never see an error: `now` always answers with
//! the best currently known estimate.

use vstd::prelude::*;

verus! {

/// What went wrong during a synchronization attempt.
#[derive(Clone, Copy, Debug, PartialEq, Eq, Structural)]
pub enum SntpcError {
    /// The generic address list for the destination could not be produced.
    ToSocketAddrs,
    /// The address list for the destination was empty.
    NoAddr,
    /// Sending the request datagram failed in the transport.
    UdpSend,
    /// Receiving the reply datagram failed in the transport.
    UdpRecv,
    /// The hostname lookup itself reported an error.
    DnsQuery,
    /// The hostname lookup succeeded but returned no address.
    DnsEmptyResponse,
    /// The protocol exchange reported an error (malformed or mismatched
    /// reply, or a transport error surfaced by the protocol client).
    Sntc,
    /// The server-reported seconds value is outside the representable
    /// wall-clock range.
    BadNtpResponse,
    /// The destination address belongs to a family other than IPv4, which
    /// the transport in scope cannot carry.
    UnsupportedAddressFamily,
}

} // verus!
