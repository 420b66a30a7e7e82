//! Addresses at which the server can be reached.

use crate::text::{decimal_of, to_decimal};
use vstd::prelude::*;
use vstd::string::StringExecFns;

verus! {

/// An IPv4 address, by its four bytes.
#[derive(Clone, Copy, Debug, PartialEq, Eq, Structural)]
pub struct Ipv4(pub u8, pub u8, pub u8, pub u8);

impl Ipv4 {
    /// The address of the machine itself, `127.0.0.1`.
    pub open spec fn loopback() -> Ipv4 {
        Ipv4(127, 0, 0, 1)
    }

    /// The address of the machine itself.
    pub fn localhost() -> (ip: Ipv4)
        ensures
            ip == Ipv4::loopback(),
    {
        Ipv4(127, 0, 0, 1)
    }
}

/// An address and a port.
#[derive(Clone, Copy, Debug, PartialEq, Eq, Structural)]
pub struct Endpoint {
    pub ip: Ipv4,
    pub port: u16,
}

/// The dotted form of `ip`.
pub open spec fn dotted_of(ip: Ipv4) -> Seq<char> {
    decimal_of(ip.0 as nat) + seq!['.'] + decimal_of(ip.1 as nat) + seq!['.'] + decimal_of(
        ip.2 as nat,
    ) + seq!['.'] + decimal_of(ip.3 as nat)
}

/// The address under which a browser finds `endpoint`.
pub open spec fn url_of(endpoint: Endpoint) -> Seq<char> {
    "http://"@ + dotted_of(endpoint.ip) + seq![':'] + decimal_of(endpoint.port as nat)
}

impl Endpoint {
    /// The address to hand to whoever is to download: `http://`, the dotted
    /// address, a colon and the port.
    pub fn url(&self) -> (url: String)
        ensures
            url@ == url_of(*self),
    {
        let mut url = "http://".to_owned();
        url.append(to_decimal(self.ip.0 as u64).as_str());
        url.push('.');
        url.append(to_decimal(self.ip.1 as u64).as_str());
        url.push('.');
        url.append(to_decimal(self.ip.2 as u64).as_str());
        url.push('.');
        url.append(to_decimal(self.ip.3 as u64).as_str());
        url.push(':');
        url.append(to_decimal(self.port as u64).as_str());
        url
    }
}

} // verus!
