//! API-level socket surface: the address-family and socket-type
//! enumerations, the marshalling structs, the socket-option code set, and
//! the owning socket handle whose methods each build one host call and
//! translate one host reply.

use vstd::prelude::*;

use crate::host::{HostCall, SocketError};
use crate::socket_wamr::{
    SocketOptName as WamrSocketOptName, WasiAddr, WasiAddrInfo, WasiAddrInfoHints,
    WasiAddrIp4, WasiAddrIp4Port, WasiAddrIp6, WasiAddrIp6Port, WasiAddressFamily, WasiErrno,
    WasiFd, WasiSockType,
};
use crate::wire;

verus! {

/// Address family of the API surface: unspecified = 0, IPv4 = 1, IPv6 = 2.
#[derive(Clone, Copy, Debug, PartialEq, Eq, Structural)]
pub enum AddressFamily {
    Unspec,
    Inet4,
    Inet6,
}

impl AddressFamily {
    /// Numeric code of this family, as it appears in decoded address blocks.
    pub open spec fn spec_code(self) -> u8 {
        match self {
            AddressFamily::Unspec => 0,
            AddressFamily::Inet4 => 1,
            AddressFamily::Inet6 => 2,
        }
    }

    pub fn code(&self) -> (c: u8)
        ensures
            c == self.spec_code(),
    {
        match self {
            AddressFamily::Unspec => 0,
            AddressFamily::Inet4 => 1,
            AddressFamily::Inet6 => 2,
        }
    }

    /// Family of a tagged address value.
    pub fn from(addr: &WasiAddr) -> (f: AddressFamily)
        ensures
            addr is Ip4 ==> f == AddressFamily::Inet4,
            addr is Ip6 ==> f == AddressFamily::Inet6,
    {
        match addr {
            WasiAddr::Ip4(_) => AddressFamily::Inet4,
            WasiAddr::Ip6(_) => AddressFamily::Inet6,
        }
    }

    pub fn is_unspec(&self) -> (b: bool)
        ensures
            b == (self is Unspec),
    {
        matches!(*self, AddressFamily::Unspec)
    }

    pub fn is_v4(&self) -> (b: bool)
        ensures
            b == (self is Inet4),
    {
        matches!(*self, AddressFamily::Inet4)
    }

    pub fn is_v6(&self) -> (b: bool)
        ensures
            b == (self is Inet6),
    {
        matches!(*self, AddressFamily::Inet6)
    }

    /// The same family as the extension surface encodes it.
    pub open spec fn spec_to_wamr(self) -> WasiAddressFamily {
        match self {
            AddressFamily::Inet4 => WasiAddressFamily::Inet4,
            AddressFamily::Inet6 => WasiAddressFamily::Inet6,
            AddressFamily::Unspec => WasiAddressFamily::InetUnspec,
        }
    }

    pub fn to_wamr(&self) -> (f: WasiAddressFamily)
        ensures
            f == self.spec_to_wamr(),
    {
        match self {
            AddressFamily::Inet4 => WasiAddressFamily::Inet4,
            AddressFamily::Inet6 => WasiAddressFamily::Inet6,
            AddressFamily::Unspec => WasiAddressFamily::InetUnspec,
        }
    }
}

/// Socket kind of the API surface.
#[derive(Clone, Copy, Debug, PartialEq, Eq, Structural)]
pub enum SocketType {
    Any,
    Datagram,
    Stream,
}

impl SocketType {
    /// The same kind as the extension surface encodes it.
    pub open spec fn spec_to_wamr(self) -> WasiSockType {
        match self {
            SocketType::Any => WasiSockType::SocketAny,
            SocketType::Datagram => WasiSockType::SocketDgram,
            SocketType::Stream => WasiSockType::SocketStream,
        }
    }

    pub fn to_wamr(&self) -> (t: WasiSockType)
        ensures
            t == self.spec_to_wamr(),
    {
        match self {
            SocketType::Any => WasiSockType::SocketAny,
            SocketType::Datagram => WasiSockType::SocketDgram,
            SocketType::Stream => WasiSockType::SocketStream,
        }
    }
}

/// Flags of an address-resolution hint.
#[derive(Clone, Copy, Debug, PartialEq, Eq, Structural)]
pub enum AiFlags {
    AiPassive,
    AiCanonname,
    AiNumericHost,
    AiNumericServ,
    AiV4Mapped,
    AiAll,
    AiAddrConfig,
}

/// Protocol of an address-resolution hint.
#[derive(Clone, Copy, Debug, PartialEq, Eq, Structural)]
pub enum AiProtocol {
    IPProtoIP,
    IPProtoTCP,
    IPProtoUDP,
}

/// Address block handed to the host by reference: the octet buffer and the
/// count of meaningful leading bytes.
#[derive(Clone, Debug, PartialEq)]
pub struct WasiAddress {
    pub buf: Vec<u8>,
    pub size: usize,
}

/// Socket address in the layout address resolution describes: a family tag
/// and an opaque data block.
#[derive(Clone, Debug, PartialEq)]
pub struct WasiSockaddr {
    pub family: AddressFamily,
    pub sa_data_len: u32,
    pub sa_data: Vec<u8>,
}

impl WasiSockaddr {
    pub fn new(family: AddressFamily, sa_data: Vec<u8>) -> (r: WasiSockaddr)
        ensures
            r.family == family,
            r.sa_data_len == 14,
            r.sa_data == sa_data,
    {
        WasiSockaddr { family, sa_data_len: 14, sa_data }
    }

    pub fn default() -> (r: WasiSockaddr)
        ensures
            r.family == AddressFamily::Inet4,
            r.sa_data_len == 14,
            r.sa_data@ == Seq::<u8>::empty(),
    {
        WasiSockaddr { family: AddressFamily::Inet4, sa_data_len: 14, sa_data: Vec::new() }
    }
}

/// Address-resolution hints, after the fields of the classic `addrinfo`
/// record; results come back as a flat array rather than a linked chain.
#[derive(Clone, Debug, PartialEq)]
pub struct WasiAddrinfo {
    pub ai_flags: AiFlags,
    pub ai_family: AddressFamily,
    pub ai_socktype: SocketType,
    pub ai_protocol: AiProtocol,
    pub ai_addrlen: u32,
    pub ai_addr: Option<WasiSockaddr>,
    pub ai_canonname: Option<Vec<u8>>,
    pub ai_canonnamelen: u32,
}

/// The byte string with exactly one terminating null appended where the
/// input does not already end in one.
pub open spec fn spec_nul_terminated(s: Seq<u8>) -> Seq<u8> {
    if s.len() > 0 && s[s.len() - 1] == 0 {
        s
    } else {
        s.push(0)
    }
}

impl WasiAddrinfo {
    pub fn default() -> (r: WasiAddrinfo)
        ensures
            r.ai_flags == AiFlags::AiPassive,
            r.ai_family == AddressFamily::Inet4,
            r.ai_socktype == SocketType::Stream,
            r.ai_protocol == AiProtocol::IPProtoTCP,
            r.ai_addrlen == 0,
            r.ai_addr is None,
            r.ai_canonname is None,
            r.ai_canonnamelen == 0,
    {
        WasiAddrinfo {
            ai_flags: AiFlags::AiPassive,
            ai_family: AddressFamily::Inet4,
            ai_socktype: SocketType::Stream,
            ai_protocol: AiProtocol::IPProtoTCP,
            ai_addrlen: 0,
            ai_addr: None,
            ai_canonname: None,
            ai_canonnamelen: 0,
        }
    }

    /// Build the single host call for address resolution: both strings are
    /// normalized to end in exactly one null terminator, the hints are
    /// reduced to the kind/family pair the host reads, and the caller's
    /// maximum result count bounds the reply.
    pub fn get_addrinfo_call(
        node: &[u8],
        service: &[u8],
        hints: &WasiAddrinfo,
        max_reslen: u32,
    ) -> (c: HostCall)
        ensures
            c matches HostCall::AddrResolve { host, service: srv, hints: h, max_results }
                && host@ == spec_nul_terminated(node@)
                && srv@ == spec_nul_terminated(service@)
                && h == (WasiAddrInfoHints {
                    type_: hints.ai_socktype.spec_to_wamr(),
                    family: hints.ai_family.spec_to_wamr(),
                    hints_enabled: 0,
                })
                && max_results == max_reslen,
    {
        let host = nul_terminate(node);
        let srv = nul_terminate(service);
        let wamr_hints = WasiAddrInfoHints {
            type_: hints.ai_socktype.to_wamr(),
            family: hints.ai_family.to_wamr(),
            hints_enabled: 0,
        };
        HostCall::AddrResolve { host, service: srv, hints: wamr_hints, max_results: max_reslen }
    }

    /// Interpret the address-resolution reply. A nonzero code is the host's
    /// error, unchanged. On success the result is the filled prefix of the
    /// host's array: when the host reports more matches than the caller gave
    /// room for, exactly the caller's maximum is returned, and that is
    /// success, not an error.
    pub fn get_addrinfo(
        results: Vec<WasiAddrInfo>,
        actual_count: u32,
        max_reslen: u32,
        errno: WasiErrno,
    ) -> (r: Result<Vec<WasiAddrInfo>, SocketError>)
        requires
            results@.len() == max_reslen,
        ensures
            errno != 0 ==> r == Err::<Vec<WasiAddrInfo>, SocketError>(SocketError::Host(errno)),
            errno == 0 ==> (r matches Ok(v) && v@ == results@.subrange(
                0,
                if actual_count < max_reslen {
                    actual_count as int
                } else {
                    max_reslen as int
                },
            )),
    {
        if errno != 0 {
            return Err(SocketError::Host(errno));
        }
        let keep: u32 = if actual_count < max_reslen {
            actual_count
        } else {
            max_reslen
        };
        let mut out = results;
        out.truncate(keep as usize);
        Ok(out)
    }
}

/// Normalized copy of a byte string: ends in exactly one appended null where
/// the input does not already end in one.
fn nul_terminate(s: &[u8]) -> (r: Vec<u8>)
    ensures
        r@ == spec_nul_terminated(s@),
{
    let mut r = vstd::slice::slice_to_vec(s);
    if s.len() == 0 || s[s.len() - 1] != 0 {
        r.push(0);
    }
    r
}

/// Capacity of one receive segment; the embedding code owns the memory the
/// host fills.
#[derive(Clone, Copy, Debug, PartialEq, Eq, Structural)]
pub struct IovecRead {
    pub size: usize,
}

/// One send segment, carried by value in place of the boundary's
/// pointer-length pair.
#[derive(Clone, Debug, PartialEq)]
pub struct IovecWrite {
    pub buf: Vec<u8>,
}

/// Option level of the classic get/set surface.
#[derive(Clone, Copy, Debug, PartialEq, Eq, Structural)]
pub enum SocketOptLevel {
    SolSocket,
}

impl SocketOptLevel {
    /// Numeric code of this level.
    pub open spec fn spec_code(self) -> i32 {
        match self {
            SocketOptLevel::SolSocket => 0,
        }
    }

    pub fn code(&self) -> (c: i32)
        ensures
            c == self.spec_code(),
    {
        match self {
            SocketOptLevel::SolSocket => 0,
        }
    }

    /// Level of a numeric code; any code but 0 is outside the valid set.
    pub fn try_from(value: i32) -> (r: Result<SocketOptLevel, SocketError>)
        ensures
            value == 0 ==> r == Ok::<SocketOptLevel, SocketError>(SocketOptLevel::SolSocket),
            value != 0 ==> r == Err::<SocketOptLevel, SocketError>(SocketError::Invalid),
    {
        match value {
            0 => Ok(SocketOptLevel::SolSocket),
            _ => Err(SocketError::Invalid),
        }
    }
}

/// Option name of the classic get/set surface, with the numeric codes
/// 0 through 14 in declaration order.
#[derive(Clone, Copy, Debug, PartialEq, Eq, Structural)]
pub enum SocketOptName {
    SoReuseaddr,
    SoType,
    SoError,
    SoDontroute,
    SoBroadcast,
    SoSndbuf,
    SoRcvbuf,
    SoKeepalive,
    SoOobinline,
    SoLinger,
    SoRcvlowat,
    SoRcvtimeo,
    SoSndtimeo,
    SoAcceptconn,
    SoBindToDevice,
}

impl SocketOptName {
    /// Numeric code of this option name.
    pub open spec fn spec_code(self) -> i32 {
        match self {
            SocketOptName::SoReuseaddr => 0,
            SocketOptName::SoType => 1,
            SocketOptName::SoError => 2,
            SocketOptName::SoDontroute => 3,
            SocketOptName::SoBroadcast => 4,
            SocketOptName::SoSndbuf => 5,
            SocketOptName::SoRcvbuf => 6,
            SocketOptName::SoKeepalive => 7,
            SocketOptName::SoOobinline => 8,
            SocketOptName::SoLinger => 9,
            SocketOptName::SoRcvlowat => 10,
            SocketOptName::SoRcvtimeo => 11,
            SocketOptName::SoSndtimeo => 12,
            SocketOptName::SoAcceptconn => 13,
            SocketOptName::SoBindToDevice => 14,
        }
    }

    pub fn code(&self) -> (c: i32)
        ensures
            c == self.spec_code(),
    {
        match self {
            SocketOptName::SoReuseaddr => 0,
            SocketOptName::SoType => 1,
            SocketOptName::SoError => 2,
            SocketOptName::SoDontroute => 3,
            SocketOptName::SoBroadcast => 4,
            SocketOptName::SoSndbuf => 5,
            SocketOptName::SoRcvbuf => 6,
            SocketOptName::SoKeepalive => 7,
            SocketOptName::SoOobinline => 8,
            SocketOptName::SoLinger => 9,
            SocketOptName::SoRcvlowat => 10,
            SocketOptName::SoRcvtimeo => 11,
            SocketOptName::SoSndtimeo => 12,
            SocketOptName::SoAcceptconn => 13,
            SocketOptName::SoBindToDevice => 14,
        }
    }

    /// Name of a numeric code; a code outside 0 through 14 is outside the
    /// valid set.
    pub fn try_from(value: i32) -> (r: Result<SocketOptName, SocketError>)
        ensures
            0 <= value <= 14 ==> (r matches Ok(n) && n.spec_code() == value),
            !(0 <= value <= 14) ==> r == Err::<SocketOptName, SocketError>(SocketError::Invalid),
    {
        match value {
            0 => Ok(SocketOptName::SoReuseaddr),
            1 => Ok(SocketOptName::SoType),
            2 => Ok(SocketOptName::SoError),
            3 => Ok(SocketOptName::SoDontroute),
            4 => Ok(SocketOptName::SoBroadcast),
            5 => Ok(SocketOptName::SoSndbuf),
            6 => Ok(SocketOptName::SoRcvbuf),
            7 => Ok(SocketOptName::SoKeepalive),
            8 => Ok(SocketOptName::SoOobinline),
            9 => Ok(SocketOptName::SoLinger),
            10 => Ok(SocketOptName::SoRcvlowat),
            11 => Ok(SocketOptName::SoRcvtimeo),
            12 => Ok(SocketOptName::SoSndtimeo),
            13 => Ok(SocketOptName::SoAcceptconn),
            14 => Ok(SocketOptName::SoBindToDevice),
            _ => Err(SocketError::Invalid),
        }
    }
}

/// Receive flag: peek at the data without consuming it.
pub const MSG_PEEK: u16 = 1;

/// Receive flag: wait until the full amount is available.
pub const MSG_WAITALL: u16 = 2;

/// Receive side-output flag: the message was truncated.
pub const MSG_TRUNC: u16 = 1;

/// Shutdown direction of a socket.
#[derive(Clone, Copy, Debug, PartialEq, Eq, Structural)]
pub enum Shutdown {
    Read,
    Write,
    Both,
}

impl Shutdown {
    /// Flag value of this direction on the host surface.
    pub open spec fn spec_flags(self) -> u8 {
        match self {
            Shutdown::Read => 1,
            Shutdown::Write => 2,
            Shutdown::Both => 3,
        }
    }

    pub fn flags(&self) -> (f: u8)
        ensures
            f == self.spec_flags(),
    {
        match self {
            Shutdown::Read => 1,
            Shutdown::Write => 2,
            Shutdown::Both => 3,
        }
    }
}

/// Timeout read back from the host as a second/microsecond pair: the all-zero
/// pair means no timeout; any other pair is the pair itself, with the
/// microseconds scaled to nanoseconds.
pub fn from_timeval(tv_sec: i64, tv_usec: i64) -> (r: Option<(u64, u32)>)
    requires
        0 <= tv_sec,
        0 <= tv_usec < 1000000,
    ensures
        tv_sec == 0 && tv_usec == 0 ==> r is None,
        !(tv_sec == 0 && tv_usec == 0) ==> r == Some::<(u64, u32)>(
            (tv_sec as u64, (tv_usec * 1000) as u32),
        ),
{
    if tv_sec == 0 && tv_usec == 0 {
        None
    } else {
        let sec = tv_sec as u64;
        let nsec = (tv_usec as u32) * 1000;
        Some((sec, nsec))
    }
}

/// Whether a descriptor flag set has the nonblocking flag.
pub fn nonblocking(file_status_flags: i32, nonblock_flag: i32) -> (b: bool)
    ensures
        b == ((file_status_flags & nonblock_flag) != 0),
{
    (file_status_flags & nonblock_flag) != 0
}

/// Descriptor flag set with the nonblocking flag added or removed, or
/// `None` where the set already is as requested and no update call is
/// needed.
pub fn set_nonblocking(previous: i32, nonblock_flag: i32, nonblocking: bool) -> (r: Option<i32>)
    ensures
        nonblocking ==> (previous | nonblock_flag == previous ==> r is None) && (previous
            | nonblock_flag != previous ==> r == Some::<i32>(previous | nonblock_flag)),
        !nonblocking ==> (previous & !nonblock_flag == previous ==> r is None) && (previous
            & !nonblock_flag != previous ==> r == Some::<i32>(previous & !nonblock_flag)),
{
    if nonblocking {
        fcntl_add(previous, nonblock_flag)
    } else {
        fcntl_remove(previous, nonblock_flag)
    }
}

/// Descriptor flag set with one flag added, or `None` where the flag is
/// already present and no update call is needed.
pub fn fcntl_add(previous: i32, flag: i32) -> (r: Option<i32>)
    ensures
        previous | flag == previous ==> r is None,
        previous | flag != previous ==> r == Some::<i32>(previous | flag),
{
    let new = previous | flag;
    if new != previous {
        Some(new)
    } else {
        None
    }
}

/// Descriptor flag set with one flag removed, or `None` where the flag is
/// already absent and no update call is needed.
pub fn fcntl_remove(previous: i32, flag: i32) -> (r: Option<i32>)
    ensures
        previous & !flag == previous ==> r is None,
        previous & !flag != previous ==> r == Some::<i32>(previous & !flag),
{
    let new = previous & !flag;
    if new != previous {
        Some(new)
    } else {
        None
    }
}

/// 0/1 encoding of a boolean option value in a 32-bit field.
pub open spec fn spec_bool01(b: bool) -> i32 {
    if b {
        1
    } else {
        0
    }
}

/// The host entry point a typed socket option is routed to, with the value
/// encoded at the width that entry point expects.
pub open spec fn spec_route_option(fd: WasiFd, name: WamrSocketOptName) -> HostCall {
    match name {
        WamrSocketOptName::SoReuseaddr(v) => HostCall::SetReuseAddr { fd, reuse: spec_bool01(v) },
        WamrSocketOptName::SoReuseport(v) => HostCall::SetReusePort { fd, reuse: spec_bool01(v) },
        WamrSocketOptName::SoBroadcast(v) => HostCall::SetBroadcast { fd, option: spec_bool01(v) },
        WamrSocketOptName::SoKeepalive(v) => HostCall::SetKeepAlive { fd, option: spec_bool01(v) },
        WamrSocketOptName::SoSndbuf(v) => HostCall::SetSendBufSize { fd, buf_len: v as i32 },
        WamrSocketOptName::SoRcvbuf(v) => HostCall::SetRecvBufSize { fd, size: v as i32 },
        WamrSocketOptName::SoRcvtimeo(v) => HostCall::SetRecvTimeout { fd, timeout_us: v as i64 },
        WamrSocketOptName::SoSndtimeo(v) => HostCall::SetSendTimeout { fd, timeout_us: v as i64 },
    }
}

/// Buffer layout `sock_bind` receives: a sixteen-byte block holding the
/// IPv4 octets followed by twelve zero bytes, or the sixteen IPv6 octets.
pub open spec fn spec_bind_buf(a: WasiAddr) -> Seq<u8> {
    match a {
        WasiAddr::Ip4(p) => wire::spec_ip4_octets(p.addr) + Seq::new(12, |i: int| 0u8),
        WasiAddr::Ip6(p) => wire::spec_ip6_octets(p.addr),
    }
}

/// Peer address as `sock_recv_from` reports it: a block whose first byte is
/// the address-family code, octets from the third byte on, and the port
/// delivered separately in a 32-bit field. An unrecognized family code is
/// reported as unsupported rather than read blindly.
pub open spec fn spec_decode_peer(b: Seq<u8>, port: u32) -> Result<WasiAddr, SocketError> {
    if b[0] == AddressFamily::Inet4.spec_code() {
        Ok(
            WasiAddr::Ip4(
                WasiAddrIp4Port {
                    addr: WasiAddrIp4 { n0: b[2], n1: b[3], n2: b[4], n3: b[5] },
                    port: port as u16,
                },
            ),
        )
    } else if b[0] == AddressFamily::Inet6.spec_code() {
        Ok(
            WasiAddr::Ip6(
                WasiAddrIp6Port {
                    addr: WasiAddrIp6 {
                        n0: wire::spec_of_be(b[2], b[3]),
                        n1: wire::spec_of_be(b[4], b[5]),
                        n2: wire::spec_of_be(b[6], b[7]),
                        n3: wire::spec_of_be(b[8], b[9]),
                        h0: wire::spec_of_be(b[10], b[11]),
                        h1: wire::spec_of_be(b[12], b[13]),
                        h2: wire::spec_of_be(b[14], b[15]),
                        h3: wire::spec_of_be(b[16], b[17]),
                    },
                    port: port as u16,
                },
            ),
        )
    } else {
        Err(SocketError::Unsupported)
    }
}

/// Decode the peer-address block of a receive-from reply.
pub fn decode_peer(addr_buf: &[u8], port: u32) -> (r: Result<WasiAddr, SocketError>)
    requires
        addr_buf@.len() >= 18,
    ensures
        r == spec_decode_peer(addr_buf@, port),
{
    let fam: u8 = addr_buf[0];
    if fam == 1 {
        Ok(
            WasiAddr::Ip4(
                WasiAddrIp4Port {
                    addr: WasiAddrIp4 {
                        n0: addr_buf[2],
                        n1: addr_buf[3],
                        n2: addr_buf[4],
                        n3: addr_buf[5],
                    },
                    port: #[verifier::truncate] (port as u16),
                },
            ),
        )
    } else if fam == 2 {
        Ok(
            WasiAddr::Ip6(
                WasiAddrIp6Port {
                    addr: WasiAddrIp6 {
                        n0: wire::port_from_be(addr_buf[2], addr_buf[3]),
                        n1: wire::port_from_be(addr_buf[4], addr_buf[5]),
                        n2: wire::port_from_be(addr_buf[6], addr_buf[7]),
                        n3: wire::port_from_be(addr_buf[8], addr_buf[9]),
                        h0: wire::port_from_be(addr_buf[10], addr_buf[11]),
                        h1: wire::port_from_be(addr_buf[12], addr_buf[13]),
                        h2: wire::port_from_be(addr_buf[14], addr_buf[15]),
                        h3: wire::port_from_be(addr_buf[16], addr_buf[17]),
                    },
                    port: #[verifier::truncate] (port as u16),
                },
            ),
        )
    } else {
        Err(SocketError::Unsupported)
    }
}

/// Owning handle over a host-side socket resource.
///
/// A handle is created by a successful open or accept reply, is used through
/// the call builders and reply interpreters below, and is consumed exactly
/// once by [`Socket::release`] (or given up raw by [`Socket::into_raw_fd`]).
/// The type is move-only, so no operation is callable on a released handle.
#[derive(Debug)]
pub struct Socket {
    fd: WasiFd,
}

impl Socket {
    /// The descriptor this handle owns.
    pub closed spec fn spec_fd(self) -> WasiFd {
        self.fd
    }

    /// Build the open call for a family/kind pair. The pool descriptor is
    /// the all-bits-set sentinel, written as -1 at the boundary's width.
    pub fn open_call(addr_family: AddressFamily, sock_kind: SocketType) -> (c: HostCall)
        ensures
            c == (HostCall::Open {
                pool_fd: -1i32,
                af: addr_family.spec_to_wamr().spec_code(),
                socktype: sock_kind.spec_to_wamr().spec_code(),
            }),
    {
        HostCall::Open {
            pool_fd: -1i32,
            af: addr_family.to_wamr().code(),
            socktype: sock_kind.to_wamr().code(),
        }
    }

    /// Complete the open: a zero code yields the handle over the descriptor
    /// the host wrote; any other code is the host's error, unchanged.
    pub fn new(errno: WasiErrno, socket_fd: WasiFd) -> (r: Result<Socket, SocketError>)
        ensures
            errno == 0 ==> (r matches Ok(s) && s.spec_fd() == socket_fd),
            errno != 0 ==> r == Err::<Socket, SocketError>(SocketError::Host(errno)),
    {
        if errno == 0 {
            Ok(Socket { fd: socket_fd })
        } else {
            Err(SocketError::Host(errno))
        }
    }

    pub fn as_raw_fd(&self) -> (fd: WasiFd)
        ensures
            fd == self.spec_fd(),
    {
        self.fd
    }

    /// Give up ownership of the raw descriptor without releasing it.
    pub fn into_raw_fd(self) -> (fd: WasiFd)
        ensures
            fd == self.spec_fd(),
    {
        self.fd
    }

    /// Adopt a raw descriptor. The caller asserts that it owns the
    /// descriptor and that nothing else will release it.
    pub fn from_fd(fd: WasiFd) -> (s: Socket)
        ensures
            s.spec_fd() == fd,
    {
        Socket { fd }
    }

    /// Build the bind call: the address octets in the sixteen-byte block the
    /// host reads, the count of meaningful bytes, and the host-order port
    /// widened to 32 bits.
    pub fn bind_call(&self, addrs: &WasiAddr) -> (c: HostCall)
        ensures
            c matches HostCall::Bind { fd, addr, port } && fd == self.spec_fd() && addr.buf@
                == spec_bind_buf(*addrs) && addr.size == wire::spec_addr_octets(*addrs).len()
                && port == addrs.spec_port() as u32,
    {
        let mut buf: Vec<u8> = Vec::new();
        let size: usize;
        match addrs {
            WasiAddr::Ip4(p) => {
                buf.push(p.addr.n0);
                buf.push(p.addr.n1);
                buf.push(p.addr.n2);
                buf.push(p.addr.n3);
                let mut i: usize = 0;
                while i < 12
                    invariant
                        buf@.len() == 4 + i,
                        i <= 12,
                        buf@.subrange(0, 4) =~= wire::spec_ip4_octets(p.addr),
                        forall|j: int| 4 <= j < buf@.len() ==> buf@[j] == 0u8,
                    decreases 12 - i,
                {
                    buf.push(0);
                    i = i + 1;
                }
                size = 4;
                assert(buf@ =~= spec_bind_buf(*addrs));
            },
            WasiAddr::Ip6(_) => {
                buf = wire::encode_octets(addrs);
                size = 16;
            },
        }
        let port = addrs.port();
        HostCall::Bind { fd: self.fd, addr: WasiAddress { buf, size }, port: port as u32 }
    }

    /// Build the listen call; the backlog travels at the host's unsigned
    /// width.
    pub fn listen_call(&self, backlog: i32) -> (c: HostCall)
        ensures
            c == (HostCall::Listen { fd: self.spec_fd(), backlog: backlog as u32 }),
    {
        HostCall::Listen { fd: self.fd, backlog: #[verifier::truncate] (backlog as u32) }
    }

    /// Build the accept call; the new descriptor comes back in the reply.
    pub fn accept_call(&self) -> (c: HostCall)
        ensures
            c == (HostCall::Accept { fd: self.spec_fd() }),
    {
        HostCall::Accept { fd: self.fd }
    }

    /// Complete an accept: a zero code yields a handle over the descriptor
    /// the host wrote; any other code is the host's error, unchanged.
    pub fn accept_result(errno: WasiErrno, new_fd: WasiFd) -> (r: Result<Socket, SocketError>)
        ensures
            errno == 0 ==> (r matches Ok(s) && s.spec_fd() == new_fd),
            errno != 0 ==> r == Err::<Socket, SocketError>(SocketError::Host(errno)),
    {
        if errno == 0 {
            Ok(Socket { fd: new_fd })
        } else {
            Err(SocketError::Host(errno))
        }
    }

    /// Build the connect call, or refuse locally. Only the IPv4 path is
    /// supported by this surface: an IPv6 address is reported as unsupported
    /// without any host call being built.
    pub fn connect_call(&self, addrs: &WasiAddr) -> (r: Result<HostCall, SocketError>)
        ensures
            addrs is Ip4 ==> r == Ok::<HostCall, SocketError>(
                HostCall::Connect { fd: self.spec_fd(), addr: *addrs },
            ),
            addrs !is Ip4 ==> r == Err::<HostCall, SocketError>(SocketError::Unsupported),
    {
        match addrs {
            WasiAddr::Ip4(_) => Ok(HostCall::Connect { fd: self.fd, addr: *addrs }),
            WasiAddr::Ip6(_) => Err(SocketError::Unsupported),
        }
    }

    /// Build a one-segment send call with no flags.
    pub fn send_call(&self, buf: &[u8]) -> (c: HostCall)
        ensures
            c matches HostCall::Send { fd, bufs, flags } && fd == self.spec_fd() && bufs@.len() == 1
                && bufs@[0].buf@ == buf@ && flags == 0,
    {
        let mut bufs: Vec<IovecWrite> = Vec::new();
        bufs.push(IovecWrite { buf: vstd::slice::slice_to_vec(buf) });
        HostCall::Send { fd: self.fd, bufs, flags: 0 }
    }

    /// Build a vectored send call; the segments travel exactly as given.
    pub fn send_vectored_call(&self, bufs: Vec<IovecWrite>, flags: u16) -> (c: HostCall)
        ensures
            c == (HostCall::Send { fd: self.spec_fd(), bufs, flags }),
    {
        HostCall::Send { fd: self.fd, bufs, flags }
    }

    /// Build a one-segment send-to call with no flags: the destination
    /// travels as its bare octets plus the host-order port widened to 32
    /// bits.
    pub fn send_to_call(&self, buf: &[u8], addr: &WasiAddr) -> (c: HostCall)
        ensures
            c matches HostCall::SendTo { fd, bufs, addr: wa, port, flags } && fd == self.spec_fd()
                && bufs@.len() == 1 && bufs@[0].buf@ == buf@ && wa.buf@ == wire::spec_addr_octets(
                *addr,
            ) && wa.size == wire::spec_addr_octets(*addr).len() && port == addr.spec_port() as u32
                && flags == 0,
    {
        let vaddr = wire::encode_octets(addr);
        let size = vaddr.len();
        let mut bufs: Vec<IovecWrite> = Vec::new();
        bufs.push(IovecWrite { buf: vstd::slice::slice_to_vec(buf) });
        let port = addr.port();
        HostCall::SendTo {
            fd: self.fd,
            bufs,
            addr: WasiAddress { buf: vaddr, size },
            port: port as u32,
            flags: 0,
        }
    }

    /// Build a vectored send-to call.
    pub fn send_to_vectored_call(&self, bufs: Vec<IovecWrite>, addr: &WasiAddr, flags: u16) -> (c:
        HostCall)
        ensures
            c matches HostCall::SendTo { fd, bufs: b, addr: wa, port, flags: f } && fd
                == self.spec_fd() && b == bufs && wa.buf@ == wire::spec_addr_octets(*addr)
                && wa.size == wire::spec_addr_octets(*addr).len() && port == addr.spec_port() as u32
                && f == flags,
    {
        let vaddr = wire::encode_octets(addr);
        let size = vaddr.len();
        let port = addr.port();
        HostCall::SendTo {
            fd: self.fd,
            bufs,
            addr: WasiAddress { buf: vaddr, size },
            port: port as u32,
            flags,
        }
    }

    /// Complete any send: a zero code yields the count of bytes the host
    /// accepted, which may be zero or a partial count, surfaced as-is; any
    /// other code is the host's error, unchanged.
    pub fn send(errno: WasiErrno, send_len: u32) -> (r: Result<usize, SocketError>)
        ensures
            errno == 0 ==> r == Ok::<usize, SocketError>(send_len as usize),
            errno != 0 ==> r == Err::<usize, SocketError>(SocketError::Host(errno)),
    {
        if errno == 0 {
            Ok(send_len as usize)
        } else {
            Err(SocketError::Host(errno))
        }
    }

    /// Build a one-segment receive call with no flags.
    pub fn recv_call(&self, buf_len: usize) -> (c: HostCall)
        ensures
            c matches HostCall::Recv { fd, bufs, flags } && fd == self.spec_fd() && bufs@.len() == 1
                && bufs@[0].size == buf_len && flags == 0,
    {
        let mut bufs: Vec<IovecRead> = Vec::new();
        bufs.push(IovecRead { size: buf_len });
        HostCall::Recv { fd: self.fd, bufs, flags: 0 }
    }

    /// Build a one-segment receive call with explicit flags.
    pub fn recv_with_flags_call(&self, buf_len: usize, flags: u16) -> (c: HostCall)
        ensures
            c matches HostCall::Recv { fd, bufs, flags: f } && fd == self.spec_fd() && bufs@.len()
                == 1 && bufs@[0].size == buf_len && f == flags,
    {
        let mut bufs: Vec<IovecRead> = Vec::new();
        bufs.push(IovecRead { size: buf_len });
        HostCall::Recv { fd: self.fd, bufs, flags }
    }

    /// Build a vectored receive call.
    pub fn recv_vectored_call(&self, bufs: &[IovecRead], flags: u16) -> (c: HostCall)
        ensures
            c matches HostCall::Recv { fd, bufs: b, flags: f } && fd == self.spec_fd() && b@
                == bufs@ && f == flags,
    {
        HostCall::Recv { fd: self.fd, bufs: vstd::slice::slice_to_vec(bufs), flags }
    }

    /// Complete a plain receive: a zero code yields the byte count read.
    pub fn recv(errno: WasiErrno, recv_len: usize) -> (r: Result<usize, SocketError>)
        ensures
            errno == 0 ==> r == Ok::<usize, SocketError>(recv_len),
            errno != 0 ==> r == Err::<usize, SocketError>(SocketError::Host(errno)),
    {
        if errno == 0 {
            Ok(recv_len)
        } else {
            Err(SocketError::Host(errno))
        }
    }

    /// Complete a receive that also reports side-output flags, such as the
    /// truncation flag.
    pub fn recv_with_flags(errno: WasiErrno, recv_len: usize, oflags: usize) -> (r: Result<
        (usize, usize),
        SocketError,
    >)
        ensures
            errno == 0 ==> r == Ok::<(usize, usize), SocketError>((recv_len, oflags)),
            errno != 0 ==> r == Err::<(usize, usize), SocketError>(SocketError::Host(errno)),
    {
        if errno == 0 {
            Ok((recv_len, oflags))
        } else {
            Err(SocketError::Host(errno))
        }
    }

    /// Build a one-segment receive-from call with no flags; the peer
    /// address comes back in the reply.
    pub fn recv_from_call(&self, buf_len: usize) -> (c: HostCall)
        ensures
            c matches HostCall::RecvFrom { fd, bufs, flags } && fd == self.spec_fd() && bufs@.len()
                == 1 && bufs@[0].size == buf_len && flags == 0,
    {
        let mut bufs: Vec<IovecRead> = Vec::new();
        bufs.push(IovecRead { size: buf_len });
        HostCall::RecvFrom { fd: self.fd, bufs, flags: 0 }
    }

    /// Build a one-segment receive-from call with explicit flags.
    pub fn recv_from_with_flags_call(&self, buf_len: usize, flags: u16) -> (c: HostCall)
        ensures
            c matches HostCall::RecvFrom { fd, bufs, flags: f } && fd == self.spec_fd()
                && bufs@.len() == 1 && bufs@[0].size == buf_len && f == flags,
    {
        let mut bufs: Vec<IovecRead> = Vec::new();
        bufs.push(IovecRead { size: buf_len });
        HostCall::RecvFrom { fd: self.fd, bufs, flags }
    }

    /// Build a vectored receive-from call.
    pub fn recv_from_vectored_call(&self, bufs: &[IovecRead], flags: u16) -> (c: HostCall)
        ensures
            c matches HostCall::RecvFrom { fd, bufs: b, flags: f } && fd == self.spec_fd() && b@
                == bufs@ && f == flags,
    {
        HostCall::RecvFrom { fd: self.fd, bufs: vstd::slice::slice_to_vec(bufs), flags }
    }

    /// Complete a receive-from: a zero code yields the byte count and the
    /// decoded peer address; an unrecognized family in the address block is
    /// unsupported, and any nonzero code is the host's error, unchanged.
    pub fn recv_from(errno: WasiErrno, recv_len: usize, addr_buf: &[u8], port: u32) -> (r: Result<
        (usize, WasiAddr),
        SocketError,
    >)
        requires
            addr_buf@.len() >= 18,
        ensures
            errno != 0 ==> r == Err::<(usize, WasiAddr), SocketError>(SocketError::Host(errno)),
            errno == 0 ==> r == (match spec_decode_peer(addr_buf@, port) {
                Ok(a) => Ok::<(usize, WasiAddr), SocketError>((recv_len, a)),
                Err(e) => Err::<(usize, WasiAddr), SocketError>(e),
            }),
    {
        if errno != 0 {
            return Err(SocketError::Host(errno));
        }
        match decode_peer(addr_buf, port) {
            Ok(a) => Ok((recv_len, a)),
            Err(e) => Err(e),
        }
    }

    /// Complete a receive-from that also reports side-output flags.
    pub fn recv_from_with_flags(
        errno: WasiErrno,
        recv_len: usize,
        addr_buf: &[u8],
        port: u32,
        oflags: usize,
    ) -> (r: Result<(usize, WasiAddr, usize), SocketError>)
        requires
            addr_buf@.len() >= 18,
        ensures
            errno != 0 ==> r == Err::<(usize, WasiAddr, usize), SocketError>(
                SocketError::Host(errno),
            ),
            errno == 0 ==> r == (match spec_decode_peer(addr_buf@, port) {
                Ok(a) => Ok::<(usize, WasiAddr, usize), SocketError>((recv_len, a, oflags)),
                Err(e) => Err::<(usize, WasiAddr, usize), SocketError>(e),
            }),
    {
        if errno != 0 {
            return Err(SocketError::Host(errno));
        }
        match decode_peer(addr_buf, port) {
            Ok(a) => Ok((recv_len, a, oflags)),
            Err(e) => Err(e),
        }
    }

    /// Build the local-address query; the address comes back in the reply.
    pub fn get_local_call(&self) -> (c: HostCall)
        ensures
            c == (HostCall::AddrLocal { fd: self.spec_fd() }),
    {
        HostCall::AddrLocal { fd: self.fd }
    }

    /// Build the peer-address query; the address comes back in the reply.
    pub fn get_peer_call(&self) -> (c: HostCall)
        ensures
            c == (HostCall::AddrRemote { fd: self.spec_fd() }),
    {
        HostCall::AddrRemote { fd: self.fd }
    }

    /// Complete an address query: a zero code yields the address decoded
    /// from its wire block; a block of an unrecognized family is
    /// unsupported, and any nonzero code is the host's error, unchanged.
    pub fn addr_result(errno: WasiErrno, addr_block: &[u8]) -> (r: Result<WasiAddr, SocketError>)
        ensures
            errno != 0 ==> r == Err::<WasiAddr, SocketError>(SocketError::Host(errno)),
            errno == 0 ==> r == (match wire::spec_addr_of_wire(addr_block@) {
                Some(a) => Ok::<WasiAddr, SocketError>(a),
                None => Err::<WasiAddr, SocketError>(SocketError::Unsupported),
            }),
    {
        if errno != 0 {
            return Err(SocketError::Host(errno));
        }
        wire::decode_addr(addr_block)
    }

    /// The error-query slot of the classic surface; this surface keeps no
    /// pending error, so the query always succeeds with nothing to report.
    pub fn take_error(&self) -> (r: Result<(), SocketError>)
        ensures
            r == Ok::<(), SocketError>(()),
    {
        Ok(())
    }

    /// Build the listening-state query: one 32-bit read of the
    /// accept-connections option.
    pub fn is_listener_call(&self) -> (c: HostCall)
        ensures
            c == (HostCall::GetSockopt {
                fd: self.spec_fd(),
                level: SocketOptLevel::SolSocket.spec_code(),
                name: SocketOptName::SoAcceptconn.spec_code(),
                flag_size: 4,
            }),
    {
        HostCall::GetSockopt {
            fd: self.fd,
            level: SocketOptLevel::SolSocket.code(),
            name: SocketOptName::SoAcceptconn.code(),
            flag_size: 4,
        }
    }

    /// Build the socket-kind query: one 32-bit read of the type option.
    pub fn sock_type_call(&self) -> (c: HostCall)
        ensures
            c == (HostCall::GetSockopt {
                fd: self.spec_fd(),
                level: SocketOptLevel::SolSocket.spec_code(),
                name: SocketOptName::SoType.spec_code(),
                flag_size: 4,
            }),
    {
        HostCall::GetSockopt {
            fd: self.fd,
            level: SocketOptLevel::SolSocket.code(),
            name: SocketOptName::SoType.code(),
            flag_size: 4,
        }
    }

    /// Build the broadcast query: one 32-bit read of the broadcast option.
    pub fn broadcast_call(&self) -> (c: HostCall)
        ensures
            c == (HostCall::GetSockopt {
                fd: self.spec_fd(),
                level: SocketOptLevel::SolSocket.spec_code(),
                name: SocketOptName::SoBroadcast.spec_code(),
                flag_size: 4,
            }),
    {
        HostCall::GetSockopt {
            fd: self.fd,
            level: SocketOptLevel::SolSocket.code(),
            name: SocketOptName::SoBroadcast.code(),
            flag_size: 4,
        }
    }

    /// Build the keepalive query: one 32-bit read of the keepalive option.
    pub fn keepalive_call(&self) -> (c: HostCall)
        ensures
            c == (HostCall::GetSockopt {
                fd: self.spec_fd(),
                level: SocketOptLevel::SolSocket.spec_code(),
                name: SocketOptName::SoKeepalive.spec_code(),
                flag_size: 4,
            }),
    {
        HostCall::GetSockopt {
            fd: self.fd,
            level: SocketOptLevel::SolSocket.code(),
            name: SocketOptName::SoKeepalive.code(),
            flag_size: 4,
        }
    }

    /// Build the receive-buffer-size query: one 32-bit read.
    pub fn recv_buffer_size_call(&self) -> (c: HostCall)
        ensures
            c == (HostCall::GetSockopt {
                fd: self.spec_fd(),
                level: SocketOptLevel::SolSocket.spec_code(),
                name: SocketOptName::SoRcvbuf.spec_code(),
                flag_size: 4,
            }),
    {
        HostCall::GetSockopt {
            fd: self.fd,
            level: SocketOptLevel::SolSocket.code(),
            name: SocketOptName::SoRcvbuf.code(),
            flag_size: 4,
        }
    }

    /// Build the send-buffer-size query: one 32-bit read.
    pub fn send_buffer_size_call(&self) -> (c: HostCall)
        ensures
            c == (HostCall::GetSockopt {
                fd: self.spec_fd(),
                level: SocketOptLevel::SolSocket.spec_code(),
                name: SocketOptName::SoSndbuf.spec_code(),
                flag_size: 4,
            }),
    {
        HostCall::GetSockopt {
            fd: self.fd,
            level: SocketOptLevel::SolSocket.code(),
            name: SocketOptName::SoSndbuf.code(),
            flag_size: 4,
        }
    }

    /// Build the reuse-address query: one 32-bit read.
    pub fn reuse_address_call(&self) -> (c: HostCall)
        ensures
            c == (HostCall::GetSockopt {
                fd: self.spec_fd(),
                level: SocketOptLevel::SolSocket.spec_code(),
                name: SocketOptName::SoReuseaddr.spec_code(),
                flag_size: 4,
            }),
    {
        HostCall::GetSockopt {
            fd: self.fd,
            level: SocketOptLevel::SolSocket.code(),
            name: SocketOptName::SoReuseaddr.code(),
            flag_size: 4,
        }
    }

    /// Complete a boolean option query: a zero code yields whether the
    /// 32-bit value the host wrote is nonzero.
    pub fn bool_result(errno: WasiErrno, val: i32) -> (r: Result<bool, SocketError>)
        ensures
            errno == 0 ==> r == Ok::<bool, SocketError>(val != 0),
            errno != 0 ==> r == Err::<bool, SocketError>(SocketError::Host(errno)),
    {
        if errno == 0 {
            Ok(val != 0)
        } else {
            Err(SocketError::Host(errno))
        }
    }

    /// Complete a size option query: a zero code yields the 32-bit value
    /// the host wrote, reinterpreted at pointer width.
    pub fn size_result(errno: WasiErrno, val: i32) -> (r: Result<usize, SocketError>)
        ensures
            errno == 0 ==> r == Ok::<usize, SocketError>(val as usize),
            errno != 0 ==> r == Err::<usize, SocketError>(SocketError::Host(errno)),
    {
        if errno == 0 {
            Ok(#[verifier::truncate] (val as usize))
        } else {
            Err(SocketError::Host(errno))
        }
    }

    /// Complete the socket-kind query: the host reports 1 for datagram and
    /// 2 for stream; any other value is outside the valid set.
    pub fn type_result(errno: WasiErrno, val: i32) -> (r: Result<SocketType, SocketError>)
        ensures
            errno != 0 ==> r == Err::<SocketType, SocketError>(SocketError::Host(errno)),
            errno == 0 && val == 1 ==> r == Ok::<SocketType, SocketError>(SocketType::Datagram),
            errno == 0 && val == 2 ==> r == Ok::<SocketType, SocketError>(SocketType::Stream),
            errno == 0 && val != 1 && val != 2 ==> r == Err::<SocketType, SocketError>(
                SocketError::Invalid,
            ),
    {
        if errno != 0 {
            return Err(SocketError::Host(errno));
        }
        match val {
            1 => Ok(SocketType::Datagram),
            2 => Ok(SocketType::Stream),
            _ => Err(SocketError::Invalid),
        }
    }

    /// Build the bound-device query: a sixteen-byte read of the
    /// bind-to-device option.
    pub fn device_call(&self) -> (c: HostCall)
        ensures
            c == (HostCall::GetSockopt {
                fd: self.spec_fd(),
                level: SocketOptLevel::SolSocket.spec_code(),
                name: SocketOptName::SoBindToDevice.spec_code(),
                flag_size: 16,
            }),
    {
        HostCall::GetSockopt {
            fd: self.fd,
            level: SocketOptLevel::SolSocket.code(),
            name: SocketOptName::SoBindToDevice.code(),
            flag_size: 16,
        }
    }

    /// Complete the bound-device query: a zero written length means no
    /// device; otherwise the host wrote a terminated name, returned without
    /// its terminator.
    pub fn device(errno: WasiErrno, buf: &[u8], len: u32) -> (r: Result<
        Option<Vec<u8>>,
        SocketError,
    >)
        requires
            len <= buf@.len(),
        ensures
            errno != 0 ==> r == Err::<Option<Vec<u8>>, SocketError>(SocketError::Host(errno)),
            errno == 0 && len == 0 ==> r == Ok::<Option<Vec<u8>>, SocketError>(None),
            errno == 0 && len > 0 ==> (r matches Ok(Some(v)) && v@ == buf@.subrange(
                0,
                len - 1,
            )),
    {
        if errno != 0 {
            return Err(SocketError::Host(errno));
        }
        if len == 0 {
            Ok(None)
        } else {
            let name = vstd::slice::slice_subrange(buf, 0, (len - 1) as usize);
            Ok(Some(vstd::slice::slice_to_vec(name)))
        }
    }

    /// Build the bind-to-device write: the interface name travels as raw
    /// payload bytes, or as an empty payload to clear the binding.
    pub fn bind_device_call(&self, interface: Option<&[u8]>) -> (c: HostCall)
        ensures
            c matches HostCall::SetSockopt { fd, level, name, flag } && fd == self.spec_fd()
                && level == SocketOptLevel::SolSocket.spec_code() && name
                == SocketOptName::SoBindToDevice.spec_code() && flag@ == (match interface {
                Some(i) => i@,
                None => Seq::<u8>::empty(),
            }),
    {
        let flag: Vec<u8> = match interface {
            Some(i) => vstd::slice::slice_to_vec(i),
            None => Vec::new(),
        };
        HostCall::SetSockopt {
            fd: self.fd,
            level: SocketOptLevel::SolSocket.code(),
            name: SocketOptName::SoBindToDevice.code(),
            flag,
        }
    }

    /// Build a raw option write: the payload bytes travel unchanged.
    pub fn setsockopt_call(
        &self,
        level: SocketOptLevel,
        name: SocketOptName,
        payload: &[u8],
    ) -> (c: HostCall)
        ensures
            c matches HostCall::SetSockopt { fd, level: l, name: n, flag } && fd == self.spec_fd()
                && l == level.spec_code() && n == name.spec_code() && flag@ == payload@,
    {
        HostCall::SetSockopt {
            fd: self.fd,
            level: level.code(),
            name: name.code(),
            flag: vstd::slice::slice_to_vec(payload),
        }
    }

    /// Route a typed option write to its own host entry point, with the
    /// value encoded at the exact width that entry point expects: booleans
    /// as 0/1 in a 32-bit field, sizes as a 32-bit count, timeouts as a
    /// microsecond count in a 64-bit field.
    pub fn setsockopt_socket_call(&self, name: WamrSocketOptName) -> (c: HostCall)
        ensures
            c == spec_route_option(self.spec_fd(), name),
    {
        match name {
            WamrSocketOptName::SoReuseaddr(v) => HostCall::SetReuseAddr {
                fd: self.fd,
                reuse: if v {
                    1
                } else {
                    0
                },
            },
            WamrSocketOptName::SoReuseport(v) => HostCall::SetReusePort {
                fd: self.fd,
                reuse: if v {
                    1
                } else {
                    0
                },
            },
            WamrSocketOptName::SoBroadcast(v) => HostCall::SetBroadcast {
                fd: self.fd,
                option: if v {
                    1
                } else {
                    0
                },
            },
            WamrSocketOptName::SoKeepalive(v) => HostCall::SetKeepAlive {
                fd: self.fd,
                option: if v {
                    1
                } else {
                    0
                },
            },
            WamrSocketOptName::SoSndbuf(v) => HostCall::SetSendBufSize {
                fd: self.fd,
                buf_len: #[verifier::truncate] (v as i32),
            },
            WamrSocketOptName::SoRcvbuf(v) => HostCall::SetRecvBufSize {
                fd: self.fd,
                size: #[verifier::truncate] (v as i32),
            },
            WamrSocketOptName::SoRcvtimeo(v) => HostCall::SetRecvTimeout {
                fd: self.fd,
                timeout_us: #[verifier::truncate] (v as i64),
            },
            WamrSocketOptName::SoSndtimeo(v) => HostCall::SetSendTimeout {
                fd: self.fd,
                timeout_us: #[verifier::truncate] (v as i64),
            },
        }
    }

    /// The get-direction twin of the typed option surface routes to the
    /// same entry points as the set direction: this surface exposes no
    /// getter entry points for the typed set, an asymmetry preserved here.
    pub fn getsockopt_socket_call(&self, name: WamrSocketOptName) -> (c: HostCall)
        ensures
            c == spec_route_option(self.spec_fd(), name),
    {
        self.setsockopt_socket_call(name)
    }

    /// Build the send-timeout write: the duration travels as a microsecond
    /// count, with no duration written as zero.
    pub fn set_send_timeout_call(&self, duration_micros: Option<u64>) -> (c: HostCall)
        ensures
            c == spec_route_option(
                self.spec_fd(),
                WamrSocketOptName::SoSndtimeo(
                    match duration_micros {
                        Some(d) => d,
                        None => 0,
                    },
                ),
            ),
    {
        let micros: u64 = match duration_micros {
            Some(d) => d,
            None => 0,
        };
        self.setsockopt_socket_call(WamrSocketOptName::SoSndtimeo(micros))
    }

    /// Build the receive-timeout write: the duration travels as a
    /// microsecond count, with no duration written as zero.
    pub fn set_recv_timeout_call(&self, duration_micros: Option<u64>) -> (c: HostCall)
        ensures
            c == spec_route_option(
                self.spec_fd(),
                WamrSocketOptName::SoRcvtimeo(
                    match duration_micros {
                        Some(d) => d,
                        None => 0,
                    },
                ),
            ),
    {
        let micros: u64 = match duration_micros {
            Some(d) => d,
            None => 0,
        };
        self.setsockopt_socket_call(WamrSocketOptName::SoRcvtimeo(micros))
    }

    /// Build the send-timeout query: one read at the width of a
    /// second/microsecond pair.
    pub fn get_send_timeout_call(&self) -> (c: HostCall)
        ensures
            c == (HostCall::GetSockopt {
                fd: self.spec_fd(),
                level: SocketOptLevel::SolSocket.spec_code(),
                name: SocketOptName::SoSndtimeo.spec_code(),
                flag_size: 16,
            }),
    {
        HostCall::GetSockopt {
            fd: self.fd,
            level: SocketOptLevel::SolSocket.code(),
            name: SocketOptName::SoSndtimeo.code(),
            flag_size: 16,
        }
    }

    /// Build the receive-timeout query: one read at the width of a
    /// second/microsecond pair.
    pub fn get_recv_timeout_call(&self) -> (c: HostCall)
        ensures
            c == (HostCall::GetSockopt {
                fd: self.spec_fd(),
                level: SocketOptLevel::SolSocket.spec_code(),
                name: SocketOptName::SoRcvtimeo.spec_code(),
                flag_size: 16,
            }),
    {
        HostCall::GetSockopt {
            fd: self.fd,
            level: SocketOptLevel::SolSocket.code(),
            name: SocketOptName::SoRcvtimeo.code(),
            flag_size: 16,
        }
    }

    /// Complete a timeout query: a zero code yields the decoded pair, with
    /// the all-zero pair meaning no timeout.
    pub fn timeout_result(errno: WasiErrno, tv_sec: i64, tv_usec: i64) -> (r: Result<
        Option<(u64, u32)>,
        SocketError,
    >)
        requires
            0 <= tv_sec,
            0 <= tv_usec < 1000000,
        ensures
            errno != 0 ==> r == Err::<Option<(u64, u32)>, SocketError>(SocketError::Host(errno)),
            errno == 0 && tv_sec == 0 && tv_usec == 0 ==> r == Ok::<
                Option<(u64, u32)>,
                SocketError,
            >(None),
            errno == 0 && !(tv_sec == 0 && tv_usec == 0) ==> r == Ok::<
                Option<(u64, u32)>,
                SocketError,
            >(Some((tv_sec as u64, (tv_usec * 1000) as u32))),
    {
        if errno != 0 {
            return Err(SocketError::Host(errno));
        }
        Ok(from_timeval(tv_sec, tv_usec))
    }

    /// Build the shutdown call for one direction.
    pub fn shutdown_call(&self, how: Shutdown) -> (c: HostCall)
        ensures
            c == (HostCall::Shutdown { fd: self.spec_fd(), flags: how.spec_flags() }),
    {
        HostCall::Shutdown { fd: self.fd, flags: how.flags() }
    }

    /// Consume the handle and name its release sequence: an orderly
    /// shutdown of both directions, whose result the releaser ignores, then
    /// the close that frees the descriptor. The handle is gone afterwards,
    /// so no further operation is callable on it.
    pub fn release(self) -> (calls: (HostCall, HostCall))
        ensures
            calls.0 == (HostCall::Shutdown { fd: self.spec_fd(), flags: 3 }),
            calls.1 == (HostCall::Close { fd: self.spec_fd() }),
    {
        (HostCall::Shutdown { fd: self.fd, flags: 3 }, HostCall::Close { fd: self.fd })
    }
}

} // verus!
