//! Plain models of an IPv4 address and an IPv4 socket address, together
//! with their dotted-quad decimal rendering and parsing. The engine works
//! on these values; the code that owns the sockets converts between them
//! and its own address types at the boundary.

use vstd::prelude::*;

use crate::text::{
    chars_of, digit_run_end, lemma_digit_end_bounds, run_value, spec_dec, spec_digit_end,
    spec_digits_to_nat, u32_to_dec,
};

verus! {

/// An IPv4 address, as its four octets.
#[derive(Debug, Clone, Copy, PartialEq, Eq, Hash, Structural)]
pub struct Ipv4Addr {
    /// The first (most significant) octet.
    pub o0: u8,
    /// The second octet.
    pub o1: u8,
    /// The third octet.
    pub o2: u8,
    /// The fourth octet.
    pub o3: u8,
}

impl Ipv4Addr {
    /// Build an address from its four octets, most significant first.
    pub fn new(o0: u8, o1: u8, o2: u8, o3: u8) -> (r: Ipv4Addr)
        ensures
            r == (Ipv4Addr { o0, o1, o2, o3 }),
    {
        Ipv4Addr { o0, o1, o2, o3 }
    }

    /// The dotted-quad decimal rendering of the address.
    pub open spec fn spec_str(self) -> Seq<char> {
        spec_dec(self.o0 as nat) + "."@ + spec_dec(self.o1 as nat) + "."@ + spec_dec(
            self.o2 as nat,
        ) + "."@ + spec_dec(self.o3 as nat)
    }

    /// Render the address as a dotted quad.
    pub fn to_dotted(&self) -> (r: String)
        ensures
            r@ == self.spec_str(),
    {
        let mut s = u32_to_dec(self.o0 as u32);
        s.append(".");
        s.append(u32_to_dec(self.o1 as u32).as_str());
        s.append(".");
        s.append(u32_to_dec(self.o2 as u32).as_str());
        s.append(".");
        s.append(u32_to_dec(self.o3 as u32).as_str());
        s
    }
}

/// An IPv4 socket address: an address and a port.
#[derive(Debug, Clone, Copy, PartialEq, Eq, Hash, Structural)]
pub struct SocketAddrV4 {
    /// The IPv4 address.
    pub ip: Ipv4Addr,
    /// The port.
    pub port: u16,
}

impl SocketAddrV4 {
    /// Build a socket address from an address and a port.
    pub fn new(ip: Ipv4Addr, port: u16) -> (r: SocketAddrV4)
        ensures
            r == (SocketAddrV4 { ip, port }),
    {
        SocketAddrV4 { ip, port }
    }

    /// The IPv4 address.
    pub fn ip(&self) -> (r: Ipv4Addr)
        ensures
            r == self.ip,
    {
        self.ip
    }

    /// The port.
    pub fn port(&self) -> (r: u16)
        ensures
            r == self.port,
    {
        self.port
    }

    /// The `address:port` rendering of the socket address.
    pub open spec fn spec_str(self) -> Seq<char> {
        self.ip.spec_str() + ":"@ + spec_dec(self.port as nat)
    }

    /// Render the socket address as `address:port`.
    pub fn to_text(&self) -> (r: String)
        ensures
            r@ == self.spec_str(),
    {
        let mut s = self.ip.to_dotted();
        s.append(":");
        s.append(u32_to_dec(self.port as u32).as_str());
        s
    }
}

/// The address denoted by `s`, if `s` is exactly four runs of decimal
/// digits separated by dots, each with a value of at most 255.
pub open spec fn spec_parse_ipv4(s: Seq<char>) -> Option<Ipv4Addr> {
    let a1 = spec_digit_end(s, 0);
    let b0 = a1 + 1;
    let b1 = spec_digit_end(s, b0);
    let c0 = b1 + 1;
    let c1 = spec_digit_end(s, c0);
    let d0 = c1 + 1;
    let d1 = spec_digit_end(s, d0);
    if a1 == 0 || a1 >= s.len() || s[a1] != '.' {
        None
    } else if b1 == b0 || b1 >= s.len() || s[b1] != '.' {
        None
    } else if c1 == c0 || c1 >= s.len() || s[c1] != '.' {
        None
    } else if d1 == d0 || d1 != s.len() {
        None
    } else {
        let va = spec_digits_to_nat(s.subrange(0, a1));
        let vb = spec_digits_to_nat(s.subrange(b0, b1));
        let vc = spec_digits_to_nat(s.subrange(c0, c1));
        let vd = spec_digits_to_nat(s.subrange(d0, d1));
        if va > 255 || vb > 255 || vc > 255 || vd > 255 {
            None
        } else {
            Some(Ipv4Addr { o0: va as u8, o1: vb as u8, o2: vc as u8, o3: vd as u8 })
        }
    }
}

/// Parse a dotted-quad IPv4 address. Accepts exactly the strings of four
/// dot-separated decimal digit runs whose values are at most 255.
pub fn parse_ipv4(s: &str) -> (r: Option<Ipv4Addr>)
    ensures
        r == spec_parse_ipv4(s@),
{
    let v = chars_of(s);
    proof {
        lemma_digit_end_bounds(v@, 0);
    }
    let a1 = digit_run_end(&v, 0);
    if a1 == 0 || a1 >= v.len() || v[a1] != '.' {
        return None;
    }
    let b0 = a1 + 1;
    proof {
        lemma_digit_end_bounds(v@, b0 as int);
    }
    let b1 = digit_run_end(&v, b0);
    if b1 == b0 || b1 >= v.len() || v[b1] != '.' {
        return None;
    }
    let c0 = b1 + 1;
    proof {
        lemma_digit_end_bounds(v@, c0 as int);
    }
    let c1 = digit_run_end(&v, c0);
    if c1 == c0 || c1 >= v.len() || v[c1] != '.' {
        return None;
    }
    let d0 = c1 + 1;
    proof {
        lemma_digit_end_bounds(v@, d0 as int);
    }
    let d1 = digit_run_end(&v, d0);
    if d1 == d0 || d1 != v.len() {
        return None;
    }
    let va = run_value(&v, 0, a1);
    let vb = run_value(&v, b0, b1);
    let vc = run_value(&v, c0, c1);
    let vd = run_value(&v, d0, d1);
    if va > 255 || vb > 255 || vc > 255 || vd > 255 {
        return None;
    }
    Some(Ipv4Addr { o0: va as u8, o1: vb as u8, o2: vc as u8, o3: vd as u8 })
}

} // verus!
