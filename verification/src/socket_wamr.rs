//! Data model of the runtime-specific socket extension surface: address
//! structs with fixed field widths, the enumerations the host encodes as
//! numeric codes, and the typed socket-option values.

use vstd::prelude::*;

verus! {

/// Numeric socket handle as the host passes it.
pub type WasiFd = u32;

/// Numeric error code returned by every host call; `0` means success.
pub type WasiErrno = u16;

/// Size/count field width used by the host.
pub type WasiSize = u32;

/// Port in host byte order, as it appears in the typed surface.
pub type WasiIpPort = u16;

/// Socket type as the host encodes it: any = -1, datagram = 0, stream = 1.
#[derive(Clone, Copy, Debug, PartialEq, Eq, Structural)]
pub enum WasiSockType {
    SocketAny,
    SocketDgram,
    SocketStream,
}

impl WasiSockType {
    /// Numeric code of this socket type on the host surface.
    pub open spec fn spec_code(self) -> i32 {
        match self {
            WasiSockType::SocketAny => -1i32,
            WasiSockType::SocketDgram => 0,
            WasiSockType::SocketStream => 1,
        }
    }

    pub fn code(&self) -> (c: i32)
        ensures
            c == self.spec_code(),
    {
        match self {
            WasiSockType::SocketAny => -1,
            WasiSockType::SocketDgram => 0,
            WasiSockType::SocketStream => 1,
        }
    }
}

/// Which variant of an address value is meaningful: IPv4 = 0, IPv6 = 1.
#[derive(Clone, Copy, Debug, PartialEq, Eq, Structural)]
pub enum WasiAddrType {
    IPv4,
    IPv6,
}

impl WasiAddrType {
    /// Numeric code of this address kind on the host surface.
    pub open spec fn spec_code(self) -> u32 {
        match self {
            WasiAddrType::IPv4 => 0,
            WasiAddrType::IPv6 => 1,
        }
    }

    pub fn code(&self) -> (c: u32)
        ensures
            c == self.spec_code(),
    {
        match self {
            WasiAddrType::IPv4 => 0,
            WasiAddrType::IPv6 => 1,
        }
    }
}

/// Address family as the host encodes it: IPv4 = 0, IPv6 = 1, unspecified = 2.
#[derive(Clone, Copy, Debug, PartialEq, Eq, Structural)]
pub enum WasiAddressFamily {
    Inet4,
    Inet6,
    InetUnspec,
}

impl WasiAddressFamily {
    /// Numeric code of this address family on the host surface.
    pub open spec fn spec_code(self) -> i32 {
        match self {
            WasiAddressFamily::Inet4 => 0,
            WasiAddressFamily::Inet6 => 1,
            WasiAddressFamily::InetUnspec => 2,
        }
    }

    pub fn code(&self) -> (c: i32)
        ensures
            c == self.spec_code(),
    {
        match self {
            WasiAddressFamily::Inet4 => 0,
            WasiAddressFamily::Inet6 => 1,
            WasiAddressFamily::InetUnspec => 2,
        }
    }
}

/// IPv4 address as four octets, in network order (`n0` first on the wire).
#[derive(Clone, Copy, Debug, PartialEq, Eq, Structural)]
pub struct WasiAddrIp4 {
    pub n0: u8,
    pub n1: u8,
    pub n2: u8,
    pub n3: u8,
}

/// IPv4 address plus port; the port is in host byte order.
#[derive(Clone, Copy, Debug, PartialEq, Eq, Structural)]
pub struct WasiAddrIp4Port {
    pub addr: WasiAddrIp4,
    pub port: WasiIpPort,
}

/// IPv6 address as eight 16-bit segments, in network order (`n0` first).
#[derive(Clone, Copy, Debug, PartialEq, Eq, Structural)]
pub struct WasiAddrIp6 {
    pub n0: u16,
    pub n1: u16,
    pub n2: u16,
    pub n3: u16,
    pub h0: u16,
    pub h1: u16,
    pub h2: u16,
    pub h3: u16,
}

/// IPv6 address plus port; the port is in host byte order.
#[derive(Clone, Copy, Debug, PartialEq, Eq, Structural)]
pub struct WasiAddrIp6Port {
    pub addr: WasiAddrIp6,
    pub port: WasiIpPort,
}

/// Bare IP address, tagged by kind so that only the meaningful variant is
/// ever accessible.
#[derive(Clone, Copy, Debug, PartialEq, Eq, Structural)]
pub enum WasiAddrIp {
    Ip4(WasiAddrIp4),
    Ip6(WasiAddrIp6),
}

impl WasiAddrIp {
    pub open spec fn spec_kind(self) -> WasiAddrType {
        match self {
            WasiAddrIp::Ip4(_) => WasiAddrType::IPv4,
            WasiAddrIp::Ip6(_) => WasiAddrType::IPv6,
        }
    }

    pub fn kind(&self) -> (k: WasiAddrType)
        ensures
            k == self.spec_kind(),
    {
        match self {
            WasiAddrIp::Ip4(_) => WasiAddrType::IPv4,
            WasiAddrIp::Ip6(_) => WasiAddrType::IPv6,
        }
    }
}

/// IP address plus port, tagged by kind. The payload for the wrong kind is
/// unrepresentable by construction.
#[derive(Clone, Copy, Debug, PartialEq, Eq, Structural)]
pub enum WasiAddr {
    Ip4(WasiAddrIp4Port),
    Ip6(WasiAddrIp6Port),
}

impl WasiAddr {
    pub open spec fn spec_kind(self) -> WasiAddrType {
        match self {
            WasiAddr::Ip4(_) => WasiAddrType::IPv4,
            WasiAddr::Ip6(_) => WasiAddrType::IPv6,
        }
    }

    pub fn kind(&self) -> (k: WasiAddrType)
        ensures
            k == self.spec_kind(),
    {
        match self {
            WasiAddr::Ip4(_) => WasiAddrType::IPv4,
            WasiAddr::Ip6(_) => WasiAddrType::IPv6,
        }
    }

    /// Port of either variant, in host byte order.
    pub open spec fn spec_port(self) -> WasiIpPort {
        match self {
            WasiAddr::Ip4(p) => p.port,
            WasiAddr::Ip6(p) => p.port,
        }
    }

    pub fn port(&self) -> (p: WasiIpPort)
        ensures
            p == self.spec_port(),
    {
        match self {
            WasiAddr::Ip4(p) => p.port,
            WasiAddr::Ip6(p) => p.port,
        }
    }

    /// The all-zero IPv4 address with port 0.
    pub fn default() -> (a: WasiAddr)
        ensures
            a == WasiAddr::Ip4(
                WasiAddrIp4Port { addr: WasiAddrIp4 { n0: 0, n1: 0, n2: 0, n3: 0 }, port: 0 },
            ),
    {
        WasiAddr::Ip4(WasiAddrIp4Port { addr: WasiAddrIp4 { n0: 0, n1: 0, n2: 0, n3: 0 }, port: 0 })
    }
}

/// One address-resolution result: an address and the socket type it serves.
#[derive(Clone, Copy, Debug, PartialEq, Eq, Structural)]
pub struct WasiAddrInfo {
    pub addr: WasiAddr,
    pub type_: WasiSockType,
}

impl WasiAddrInfo {
    /// The neutral entry the result array is filled with before the host
    /// writes into it.
    pub fn default() -> (r: WasiAddrInfo)
        ensures
            r.addr == WasiAddr::Ip4(
                WasiAddrIp4Port { addr: WasiAddrIp4 { n0: 0, n1: 0, n2: 0, n3: 0 }, port: 0 },
            ),
            r.type_ == WasiSockType::SocketAny,
    {
        WasiAddrInfo { addr: WasiAddr::default(), type_: WasiSockType::SocketAny }
    }
}

/// Hints handed to address resolution.
#[derive(Clone, Copy, Debug, PartialEq, Eq, Structural)]
pub struct WasiAddrInfoHints {
    pub type_: WasiSockType,
    pub family: WasiAddressFamily,
    pub hints_enabled: u8,
}

/// Typed socket option. Each variant is routed to its own host entry point;
/// boolean payloads travel as 0/1 in a 32-bit field, sizes as a 32-bit count,
/// timeouts as a microsecond count in a 64-bit field.
#[derive(Clone, Copy, Debug, PartialEq, Eq, Structural)]
pub enum SocketOptName {
    SoReuseaddr(bool),
    SoReuseport(bool),
    SoBroadcast(bool),
    SoSndbuf(WasiSize),
    SoRcvbuf(WasiSize),
    SoKeepalive(bool),
    SoRcvtimeo(u64),
    SoSndtimeo(u64),
}

// Socket-level option codes of the host surface.
pub const SO_REUSEADDR: u8 = 2;
pub const SO_BROADCAST: u8 = 6;
pub const SO_SNDBUF: u8 = 7;
pub const SO_RCVBUF: u8 = 8;
pub const SO_KEEPALIVE: u8 = 9;
pub const SO_LINGER: u8 = 13;
pub const SO_REUSEPORT: u8 = 15;
pub const SO_RCVTIMEO: u8 = 20;
pub const SO_SNDTIMEO: u8 = 21;

// TCP option codes of the host surface.
pub const TCP_NODELAY: u8 = 1;
pub const TCP_KEEPIDLE: u8 = 4;
pub const TCP_KEEPINTVL: u8 = 5;
pub const TCP_QUICKACK: u8 = 12;
pub const TCP_FASTOPEN_CONNECT: u8 = 30;

// IP option codes of the host surface.
pub const IP_TTL: u8 = 2;
pub const IP_MULTICAST_TTL: u8 = 33;
pub const IP_MULTICAST_LOOP: u8 = 34;
pub const IP_ADD_MEMBERSHIP: u8 = 35;
pub const IP_DROP_MEMBERSHIP: u8 = 36;

// IPv6 option codes of the host surface.
pub const IPV6_MULTICAST_LOOP: u8 = 19;
pub const IPV6_JOIN_GROUP: u8 = 20;
pub const IPV6_LEAVE_GROUP: u8 = 21;
pub const IPV6_V6ONLY: u8 = 26;

} // verus!
