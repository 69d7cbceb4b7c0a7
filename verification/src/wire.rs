//! Wire layout of socket addresses.
//!
//! The host expects addresses in network-neutral per-octet form and ports in
//! big-endian byte order on the wire, while the typed surface carries ports
//! in host order. A decoded address block starts with a two-byte
//! little-endian family tag (IPv4 = 1, IPv6 = 2, as in the API-level address
//! family enumeration), followed by the address octets and the two
//! big-endian port bytes.

use vstd::prelude::*;

use crate::host::SocketError;
use crate::socket_wamr::{
    WasiAddr, WasiAddrIp4, WasiAddrIp4Port, WasiAddrIp6, WasiAddrIp6Port,
};

verus! {

/// Family tag of an IPv4 address block.
pub const FAMILY_INET4: u8 = 1;

/// Family tag of an IPv6 address block.
pub const FAMILY_INET6: u8 = 2;

/// Big-endian bytes of a 16-bit value in host order.
pub open spec fn spec_be_bytes(v: u16) -> Seq<u8> {
    seq![(v / 256) as u8, (v % 256) as u8]
}

/// Host-order value of two big-endian bytes.
pub open spec fn spec_of_be(hi: u8, lo: u8) -> u16 {
    (hi * 256 + lo) as u16
}

/// Encoding a 16-bit value big-endian and reading it back is the identity,
/// and reading two bytes and re-encoding them gives the same bytes: the two
/// byte-order conversions are inverse to each other.
pub proof fn lemma_be_roundtrip(v: u16, hi: u8, lo: u8)
    ensures
        spec_of_be(spec_be_bytes(v)[0], spec_be_bytes(v)[1]) == v,
        spec_be_bytes(spec_of_be(hi, lo)) == seq![hi, lo],
{
    assert(spec_of_be(spec_be_bytes(v)[0], spec_be_bytes(v)[1]) == v) by {
        assert((v / 256) * 256 + v % 256 == v) by (nonlinear_arith);
    };
    assert(spec_be_bytes(spec_of_be(hi, lo)) =~= seq![hi, lo]) by {
        assert((hi * 256 + lo) / 256 == hi as int && (hi * 256 + lo) % 256 == lo as int)
            by (nonlinear_arith)
            requires hi < 256 && lo < 256,
        ;
    };
}

/// Big-endian bytes of a port value, as they appear on the wire.
pub fn port_to_be(port: u16) -> (b: (u8, u8))
    ensures
        seq![b.0, b.1] == spec_be_bytes(port),
{
    (((port / 256) as u8), ((port % 256) as u8))
}

/// Host-order port value of its two on-wire big-endian bytes.
pub fn port_from_be(hi: u8, lo: u8) -> (port: u16)
    ensures
        port == spec_of_be(hi, lo),
{
    hi as u16 * 256 + lo as u16
}

/// Per-octet form of an IPv4 address: the four octets in network order.
pub open spec fn spec_ip4_octets(a: WasiAddrIp4) -> Seq<u8> {
    seq![a.n0, a.n1, a.n2, a.n3]
}

/// Per-octet form of an IPv6 address: each 16-bit segment big-endian,
/// segments in network order.
pub open spec fn spec_ip6_octets(a: WasiAddrIp6) -> Seq<u8> {
    spec_be_bytes(a.n0) + spec_be_bytes(a.n1) + spec_be_bytes(a.n2) + spec_be_bytes(a.n3)
        + spec_be_bytes(a.h0) + spec_be_bytes(a.h1) + spec_be_bytes(a.h2) + spec_be_bytes(a.h3)
}

/// Bare octets of a tagged address: four for IPv4, sixteen for IPv6.
pub open spec fn spec_addr_octets(a: WasiAddr) -> Seq<u8> {
    match a {
        WasiAddr::Ip4(p) => spec_ip4_octets(p.addr),
        WasiAddr::Ip6(p) => spec_ip6_octets(p.addr),
    }
}

/// Encode the bare octets of a tagged address, without tag or port.
pub fn encode_octets(a: &WasiAddr) -> (v: Vec<u8>)
    ensures
        v@ == spec_addr_octets(*a),
{
    let mut v: Vec<u8> = Vec::new();
    match a {
        WasiAddr::Ip4(p) => {
            v.push(p.addr.n0);
            v.push(p.addr.n1);
            v.push(p.addr.n2);
            v.push(p.addr.n3);
            assert(v@ =~= spec_addr_octets(*a));
        },
        WasiAddr::Ip6(p) => {
            push_be(&mut v, p.addr.n0);
            push_be(&mut v, p.addr.n1);
            push_be(&mut v, p.addr.n2);
            push_be(&mut v, p.addr.n3);
            push_be(&mut v, p.addr.h0);
            push_be(&mut v, p.addr.h1);
            push_be(&mut v, p.addr.h2);
            push_be(&mut v, p.addr.h3);
            assert(v@ =~= spec_addr_octets(*a));
        },
    }
    v
}

/// Wire layout of a tagged address: two-byte little-endian family tag, the
/// address octets, then the port big-endian.
pub open spec fn spec_addr_wire(a: WasiAddr) -> Seq<u8> {
    match a {
        WasiAddr::Ip4(p) => seq![FAMILY_INET4, 0u8] + spec_ip4_octets(p.addr) + spec_be_bytes(
            p.port,
        ),
        WasiAddr::Ip6(p) => seq![FAMILY_INET6, 0u8] + spec_ip6_octets(p.addr) + spec_be_bytes(
            p.port,
        ),
    }
}

/// Address decoded from a wire block, or `None` where the block is not a
/// well-formed encoding of a supported family.
pub open spec fn spec_addr_of_wire(b: Seq<u8>) -> Option<WasiAddr> {
    if b.len() == 8 && b[0] == FAMILY_INET4 && b[1] == 0 {
        Some(
            WasiAddr::Ip4(
                WasiAddrIp4Port {
                    addr: WasiAddrIp4 { n0: b[2], n1: b[3], n2: b[4], n3: b[5] },
                    port: spec_of_be(b[6], b[7]),
                },
            ),
        )
    } else if b.len() == 20 && b[0] == FAMILY_INET6 && b[1] == 0 {
        Some(
            WasiAddr::Ip6(
                WasiAddrIp6Port {
                    addr: WasiAddrIp6 {
                        n0: spec_of_be(b[2], b[3]),
                        n1: spec_of_be(b[4], b[5]),
                        n2: spec_of_be(b[6], b[7]),
                        n3: spec_of_be(b[8], b[9]),
                        h0: spec_of_be(b[10], b[11]),
                        h1: spec_of_be(b[12], b[13]),
                        h2: spec_of_be(b[14], b[15]),
                        h3: spec_of_be(b[16], b[17]),
                    },
                    port: spec_of_be(b[18], b[19]),
                },
            ),
        )
    } else {
        None
    }
}

/// Decoding the wire form of any tagged address yields the address back:
/// encoding loses nothing, for all octets and all ports.
pub proof fn lemma_addr_roundtrip(a: WasiAddr)
    ensures
        spec_addr_of_wire(spec_addr_wire(a)) == Some(a),
{
    match a {
        WasiAddr::Ip4(p) => {
            lemma_be_roundtrip(p.port, 0, 0);
        },
        WasiAddr::Ip6(p) => {
            lemma_be_roundtrip(p.port, 0, 0);
            lemma_be_roundtrip(p.addr.n0, 0, 0);
            lemma_be_roundtrip(p.addr.n1, 0, 0);
            lemma_be_roundtrip(p.addr.n2, 0, 0);
            lemma_be_roundtrip(p.addr.n3, 0, 0);
            lemma_be_roundtrip(p.addr.h0, 0, 0);
            lemma_be_roundtrip(p.addr.h1, 0, 0);
            lemma_be_roundtrip(p.addr.h2, 0, 0);
            lemma_be_roundtrip(p.addr.h3, 0, 0);
        },
    }
}

/// Encode a tagged address into its wire block.
pub fn encode_addr(a: &WasiAddr) -> (b: Vec<u8>)
    ensures
        b@ == spec_addr_wire(*a),
{
    let mut b: Vec<u8> = Vec::new();
    match a {
        WasiAddr::Ip4(p) => {
            b.push(FAMILY_INET4);
            b.push(0);
            b.push(p.addr.n0);
            b.push(p.addr.n1);
            b.push(p.addr.n2);
            b.push(p.addr.n3);
            let (hi, lo) = port_to_be(p.port);
            b.push(hi);
            b.push(lo);
            assert(b@ =~= spec_addr_wire(*a));
        },
        WasiAddr::Ip6(p) => {
            b.push(FAMILY_INET6);
            b.push(0);
            push_be(&mut b, p.addr.n0);
            push_be(&mut b, p.addr.n1);
            push_be(&mut b, p.addr.n2);
            push_be(&mut b, p.addr.n3);
            push_be(&mut b, p.addr.h0);
            push_be(&mut b, p.addr.h1);
            push_be(&mut b, p.addr.h2);
            push_be(&mut b, p.addr.h3);
            let (hi, lo) = port_to_be(p.port);
            b.push(hi);
            b.push(lo);
            assert(b@ =~= spec_addr_wire(*a));
        },
    }
    b
}

/// Append the two big-endian bytes of a 16-bit value.
fn push_be(b: &mut Vec<u8>, v: u16)
    ensures
        final(b)@ == old(b)@ + spec_be_bytes(v),
{
    let (hi, lo) = port_to_be(v);
    b.push(hi);
    b.push(lo);
    assert(b@ =~= old(b)@ + spec_be_bytes(v));
}

/// Decode a wire block back into a tagged address. A block whose family tag
/// is neither the IPv4 nor the IPv6 tag, or whose length does not fit its
/// tag, is reported as unsupported rather than read blindly.
pub fn decode_addr(b: &[u8]) -> (r: Result<WasiAddr, SocketError>)
    ensures
        match spec_addr_of_wire(b@) {
            Some(a) => r == Ok::<WasiAddr, SocketError>(a),
            None => r == Err::<WasiAddr, SocketError>(SocketError::Unsupported),
        },
{
    if b.len() == 8 && b[0] == FAMILY_INET4 && b[1] == 0 {
        Ok(
            WasiAddr::Ip4(
                WasiAddrIp4Port {
                    addr: WasiAddrIp4 { n0: b[2], n1: b[3], n2: b[4], n3: b[5] },
                    port: port_from_be(b[6], b[7]),
                },
            ),
        )
    } else if b.len() == 20 && b[0] == FAMILY_INET6 && b[1] == 0 {
        Ok(
            WasiAddr::Ip6(
                WasiAddrIp6Port {
                    addr: WasiAddrIp6 {
                        n0: port_from_be(b[2], b[3]),
                        n1: port_from_be(b[4], b[5]),
                        n2: port_from_be(b[6], b[7]),
                        n3: port_from_be(b[8], b[9]),
                        h0: port_from_be(b[10], b[11]),
                        h1: port_from_be(b[12], b[13]),
                        h2: port_from_be(b[14], b[15]),
                        h3: port_from_be(b[16], b[17]),
                    },
                    port: port_from_be(b[18], b[19]),
                },
            ),
        )
    } else {
        Err(SocketError::Unsupported)
    }
}

} // verus!
