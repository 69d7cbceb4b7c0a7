use wamr_socket::host::SocketError;
use wamr_socket::socket_wamr::{
    WasiAddr, WasiAddrIp4, WasiAddrIp4Port, WasiAddrIp6, WasiAddrIp6Port,
};
use wamr_socket::wire;

fn v4(a: u8, b: u8, c: u8, d: u8, port: u16) -> WasiAddr {
    WasiAddr::Ip4(WasiAddrIp4Port {
        addr: WasiAddrIp4 {
            n0: a,
            n1: b,
            n2: c,
            n3: d,
        },
        port,
    })
}

fn v6(segs: [u16; 8], port: u16) -> WasiAddr {
    WasiAddr::Ip6(WasiAddrIp6Port {
        addr: WasiAddrIp6 {
            n0: segs[0],
            n1: segs[1],
            n2: segs[2],
            n3: segs[3],
            h0: segs[4],
            h1: segs[5],
            h2: segs[6],
            h3: segs[7],
        },
        port,
    })
}

#[test]
fn port_big_endian_encoding() {
    // 5674 = 22 * 256 + 42: the on-wire bytes are the big-endian pair.
    let (hi, lo) = wire::port_to_be(5674);
    assert_eq!((hi, lo), (22, 42));
    assert_eq!(wire::port_from_be(22, 42), 5674);
    // Both directions on the edges of the port range.
    assert_eq!(wire::port_to_be(0), (0, 0));
    assert_eq!(wire::port_to_be(65535), (255, 255));
    assert_eq!(wire::port_from_be(0, 0), 0);
    assert_eq!(wire::port_from_be(255, 255), 65535);
    assert_eq!(wire::port_from_be(1, 0), 256);
}

#[test]
fn v4_wire_layout() {
    let a = v4(127, 0, 0, 1, 5674);
    let b = wire::encode_addr(&a);
    assert_eq!(b, vec![1, 0, 127, 0, 0, 1, 22, 42]);
}

#[test]
fn v6_wire_layout() {
    let a = v6([0x2001, 0x0db8, 0, 0, 0, 0, 0, 0x0001], 443);
    let b = wire::encode_addr(&a);
    assert_eq!(
        b,
        vec![
            2, 0, 0x20, 0x01, 0x0d, 0xb8, 0, 0, 0, 0, 0, 0, 0, 0, 0, 0, 0x00, 0x01, 0x01, 0xbb
        ]
    );
}

#[test]
fn v4_roundtrip() {
    for a in [
        v4(127, 0, 0, 1, 5674),
        v4(0, 0, 0, 0, 0),
        v4(255, 255, 255, 255, 65535),
        v4(10, 1, 2, 3, 256),
    ] {
        let b = wire::encode_addr(&a);
        assert_eq!(wire::decode_addr(&b), Ok(a));
    }
}

#[test]
fn v6_roundtrip() {
    for a in [
        v6([0, 0, 0, 0, 0, 0, 0, 1], 80),
        v6([0xffff; 8], 65535),
        v6([0x2001, 0x0db8, 1, 2, 3, 4, 5, 6], 0),
    ] {
        let b = wire::encode_addr(&a);
        assert_eq!(wire::decode_addr(&b), Ok(a));
    }
}

#[test]
fn decode_rejects_unknown_family() {
    // Family tag 7 belongs to no supported family.
    let b = vec![7, 0, 127, 0, 0, 1, 0, 80];
    assert_eq!(wire::decode_addr(&b), Err(SocketError::Unsupported));
}

#[test]
fn decode_rejects_short_block() {
    assert_eq!(wire::decode_addr(&[1, 0, 127]), Err(SocketError::Unsupported));
    assert_eq!(wire::decode_addr(&[]), Err(SocketError::Unsupported));
    // An IPv6 tag on an IPv4-sized block does not fit its tag.
    assert_eq!(
        wire::decode_addr(&[2, 0, 1, 2, 3, 4, 0, 80]),
        Err(SocketError::Unsupported)
    );
}

#[test]
fn encode_octets_bare() {
    assert_eq!(wire::encode_octets(&v4(10, 0, 0, 7, 9000)), vec![10, 0, 0, 7]);
    assert_eq!(
        wire::encode_octets(&v6([0x00ff, 0, 0, 0, 0, 0, 0, 2], 1)),
        vec![0, 0xff, 0, 0, 0, 0, 0, 0, 0, 0, 0, 0, 0, 0, 0, 2]
    );
}
