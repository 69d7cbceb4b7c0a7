//! Model of the host import surface.
//!
//! A [`HostCall`] value describes one call into the host: which entry point,
//! and the exact scalar widths and buffer contents the host receives. The
//! library never performs the call itself; it builds the value, and the
//! embedding code dispatches it and feeds the host's numeric reply back into
//! the interpreters here and on [`crate::socket::Socket`].

use vstd::prelude::*;

use crate::socket::{IovecRead, IovecWrite, WasiAddress};
use crate::socket_wamr::{WasiAddr, WasiAddrInfoHints, WasiErrno};

verus! {

/// How an operation failed.
///
/// A host-rejected operation carries the host's code verbatim; an operation
/// the surface does not support, or an unrecognized code in a reply, is
/// classified locally without any host call.
#[derive(Clone, Copy, Debug, PartialEq, Eq, Structural)]
pub enum SocketError {
    /// The host returned this nonzero code; it is passed through unchanged.
    Host(WasiErrno),
    /// The operation or address family is not supported by this surface.
    Unsupported,
    /// A caller-supplied or host-supplied value is outside the valid set.
    Invalid,
}

/// One call into the host import surface, with the arguments laid out as the
/// entry point receives them: file descriptors and flags at their declared
/// widths, boolean options as 0/1 in a 32-bit field, timeouts as microsecond
/// counts in a 64-bit field, and buffers carried by value in place of the
/// pointer-length pairs of the boundary.
#[derive(Clone, Debug, PartialEq)]
pub enum HostCall {
    /// `sock_open(pool_fd, af, socktype)` of the extension surface.
    Open { pool_fd: i32, af: i32, socktype: i32 },
    /// `sock_bind(fd, addr, port)`: octet buffer plus host-order port.
    Bind { fd: u32, addr: WasiAddress, port: u32 },
    /// `sock_listen(fd, backlog)`.
    Listen { fd: u32, backlog: u32 },
    /// `sock_accept(fd)`; the new descriptor comes back in the reply.
    Accept { fd: u32 },
    /// `sock_connect(fd, addr)` of the extension surface.
    Connect { fd: u32, addr: WasiAddr },
    /// `sock_send(fd, bufs, flags)`; the accepted byte count comes back.
    Send { fd: u32, bufs: Vec<IovecWrite>, flags: u16 },
    /// `sock_send_to(fd, bufs, addr, port, flags)`.
    SendTo { fd: u32, bufs: Vec<IovecWrite>, addr: WasiAddress, port: u32, flags: u16 },
    /// `sock_recv(fd, bufs, flags)`; each entry names one segment capacity.
    Recv { fd: u32, bufs: Vec<IovecRead>, flags: u16 },
    /// `sock_recv_from(fd, bufs, flags)`; the peer address comes back.
    RecvFrom { fd: u32, bufs: Vec<IovecRead>, flags: u16 },
    /// `sock_shutdown(fd, flags)`: read = 1, write = 2, both = 3.
    Shutdown { fd: u32, flags: u8 },
    /// `sock_close(fd)` of the extension surface.
    Close { fd: u32 },
    /// `sock_getsockopt(fd, level, name, flag_size)`: a fixed-width read.
    GetSockopt { fd: u32, level: i32, name: i32, flag_size: u32 },
    /// `sock_setsockopt(fd, level, name, flag)`: raw payload bytes.
    SetSockopt { fd: u32, level: i32, name: i32, flag: Vec<u8> },
    /// `sock_addr_local(fd)`; the bound address comes back in the reply.
    AddrLocal { fd: u32 },
    /// `sock_addr_remote(fd)`; the peer address comes back in the reply.
    AddrRemote { fd: u32 },
    /// `sock_addr_resolve(host, service, hints, max_results)`: both strings
    /// are null-terminated byte strings.
    AddrResolve { host: Vec<u8>, service: Vec<u8>, hints: WasiAddrInfoHints, max_results: u32 },
    /// `sock_set_reuse_addr(fd, reuse)`.
    SetReuseAddr { fd: u32, reuse: i32 },
    /// `sock_set_reuse_port(fd, reuse)`.
    SetReusePort { fd: u32, reuse: i32 },
    /// `sock_set_broadcast(fd, option)`.
    SetBroadcast { fd: u32, option: i32 },
    /// `sock_set_keep_alive(fd, option)`.
    SetKeepAlive { fd: u32, option: i32 },
    /// `sock_set_send_buf_size(fd, buf_len)`.
    SetSendBufSize { fd: u32, buf_len: i32 },
    /// `sock_set_recv_buf_size(fd, size)`.
    SetRecvBufSize { fd: u32, size: i32 },
    /// `sock_set_send_timeout(fd, timeout_us)`.
    SetSendTimeout { fd: u32, timeout_us: i64 },
    /// `sock_set_recv_timeout(fd, timeout_us)`.
    SetRecvTimeout { fd: u32, timeout_us: i64 },
}

/// Result translation shared by every operation that returns nothing on
/// success: code 0 is success, any other code is the host's error, passed
/// through unchanged.
pub fn errno_result(errno: WasiErrno) -> (r: Result<(), SocketError>)
    ensures
        errno == 0 ==> r == Ok::<(), SocketError>(()),
        errno != 0 ==> r == Err::<(), SocketError>(SocketError::Host(errno)),
{
    if errno == 0 {
        Ok(())
    } else {
        Err(SocketError::Host(errno))
    }
}

} // verus!
