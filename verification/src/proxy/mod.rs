//! The proxy's request handling: where a request goes, the answers of its own, and where it
//! listens.
pub mod handler;
pub mod socket_fd_layer;

use vstd::prelude::*;
use vstd::string::*;
use crate::text::{dec, decimal_string};

verus! {

/// The addresses the proxy listens on for port `port`: the IPv4 and the IPv6 loopback
/// address, never any other (the proxy accepts no remote connections).
pub open spec fn listen_addresses_spec(port: u16) -> (Seq<char>, Seq<char>) {
    ("127.0.0.1:"@ + dec(port as nat), "[::1]:"@ + dec(port as nat))
}

/// The addresses the proxy listens on: `127.0.0.1:PORT` and `[::1]:PORT`.
pub fn listen_addresses(port: u16) -> (r: (String, String))
    ensures
        (r.0@, r.1@) == listen_addresses_spec(port),
{
    let p = decimal_string(port as u64);
    let mut v4 = String::from_str("127.0.0.1:");
    v4.append(p.as_str());
    let mut v6 = String::from_str("[::1]:");
    v6.append(p.as_str());
    (v4, v6)
}

/// The address the metrics endpoint listens on: always `127.0.0.1:PORT`.
pub fn metrics_address(port: u16) -> (r: String)
    ensures
        r@ == "127.0.0.1:"@ + dec(port as nat),
{
    let p = decimal_string(port as u64);
    let mut a = String::from_str("127.0.0.1:");
    a.append(p.as_str());
    a
}

} // verus!
