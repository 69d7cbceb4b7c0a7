use wamr_socket::host::{errno_result, HostCall, SocketError};
use wamr_socket::socket::{
    fcntl_add, fcntl_remove, nonblocking, set_nonblocking, AddressFamily, IovecRead, IovecWrite,
    Shutdown, Socket, SocketOptLevel, SocketOptName, SocketType, WasiAddrinfo, WasiSockaddr,
};
use wamr_socket::socket_wamr::SocketOptName as WamrSocketOptName;
use wamr_socket::socket_wamr::{
    WasiAddr, WasiAddrInfo, WasiAddrIp4, WasiAddrIp4Port, WasiAddrIp6, WasiAddrIp6Port,
    WasiAddressFamily, WasiSockType,
};

fn v4(a: u8, b: u8, c: u8, d: u8, port: u16) -> WasiAddr {
    WasiAddr::Ip4(WasiAddrIp4Port {
        addr: WasiAddrIp4 {
            n0: a,
            n1: b,
            n2: c,
            n3: d,
        },
        port,
    })
}

fn v6_one(port: u16) -> WasiAddr {
    WasiAddr::Ip6(WasiAddrIp6Port {
        addr: WasiAddrIp6 {
            n0: 0,
            n1: 0,
            n2: 0,
            n3: 0,
            h0: 0,
            h1: 0,
            h2: 0,
            h3: 1,
        },
        port,
    })
}

#[test]
fn family_predicates() {
    assert!(AddressFamily::Unspec.is_unspec());
    assert!(AddressFamily::Inet4.is_v4());
    assert!(AddressFamily::Inet6.is_v6());
    assert!(!AddressFamily::Inet4.is_v6());
    assert_eq!(AddressFamily::from(&v4(1, 2, 3, 4, 5)), AddressFamily::Inet4);
    assert_eq!(AddressFamily::from(&v6_one(5)), AddressFamily::Inet6);
}

#[test]
fn open_call_codes() {
    let c = Socket::open_call(AddressFamily::Inet4, SocketType::Datagram);
    assert_eq!(
        c,
        HostCall::Open {
            pool_fd: -1,
            af: 0,
            socktype: 0,
        }
    );
    let c = Socket::open_call(AddressFamily::Inet6, SocketType::Stream);
    assert_eq!(
        c,
        HostCall::Open {
            pool_fd: -1,
            af: 1,
            socktype: 1,
        }
    );
    let c = Socket::open_call(AddressFamily::Unspec, SocketType::Any);
    assert_eq!(
        c,
        HostCall::Open {
            pool_fd: -1,
            af: 2,
            socktype: -1,
        }
    );
}

#[test]
fn open_and_bind_scenario() {
    // Open an IPv4 datagram socket; the host accepts and hands descriptor 3.
    let _open = Socket::open_call(AddressFamily::Inet4, SocketType::Datagram);
    let sock = Socket::new(0, 3).expect("open reported success");
    assert_eq!(sock.as_raw_fd(), 3);

    // Bind it to 127.0.0.1:5674; the built call carries the exact layout.
    let addr = v4(127, 0, 0, 1, 5674);
    match sock.bind_call(&addr) {
        HostCall::Bind { fd, addr, port } => {
            assert_eq!(fd, 3);
            assert_eq!(addr.buf, vec![127, 0, 0, 1, 0, 0, 0, 0, 0, 0, 0, 0, 0, 0, 0, 0]);
            assert_eq!(addr.size, 4);
            assert_eq!(port, 5674);
        }
        other => panic!("unexpected call: {:?}", other),
    }
    // The host reports success; so does the translation.
    assert_eq!(errno_result(0), Ok(()));

    // A second handle binds to the same address; the host's address-in-use
    // code comes through unchanged.
    let sock2 = Socket::new(0, 4).expect("open reported success");
    let _call2 = sock2.bind_call(&addr);
    assert_eq!(errno_result(48), Err(SocketError::Host(48)));

    // Both handles are released exactly once: shutdown both, then close.
    let (first, second) = sock.release();
    assert_eq!(first, HostCall::Shutdown { fd: 3, flags: 3 });
    assert_eq!(second, HostCall::Close { fd: 3 });
    let (first, second) = sock2.release();
    assert_eq!(first, HostCall::Shutdown { fd: 4, flags: 3 });
    assert_eq!(second, HostCall::Close { fd: 4 });
    // After release the handles are moved away: no further operation is
    // callable on them, which the compiler enforces.
}

#[test]
fn bind_v6_layout() {
    let sock = Socket::from_fd(5);
    match sock.bind_call(&v6_one(8080)) {
        HostCall::Bind { fd, addr, port } => {
            assert_eq!(fd, 5);
            assert_eq!(addr.buf, vec![0, 0, 0, 0, 0, 0, 0, 0, 0, 0, 0, 0, 0, 0, 0, 1]);
            assert_eq!(addr.size, 16);
            assert_eq!(port, 8080);
        }
        other => panic!("unexpected call: {:?}", other),
    }
}

#[test]
fn connect_v6_unsupported_without_host_call() {
    let sock = Socket::from_fd(7);
    // The IPv6 path is refused locally: no host call value exists at all.
    assert_eq!(sock.connect_call(&v6_one(443)), Err(SocketError::Unsupported));
}

#[test]
fn connect_v4_builds_call() {
    let sock = Socket::from_fd(7);
    let addr = v4(192, 168, 1, 10, 443);
    assert_eq!(
        sock.connect_call(&addr),
        Ok(HostCall::Connect { fd: 7, addr })
    );
}

#[test]
fn option_routing() {
    let sock = Socket::from_fd(9);
    // Each typed variant goes to its own entry point, booleans as 0/1 in a
    // 32-bit field, sizes as 32-bit counts, timeouts as 64-bit microseconds.
    assert_eq!(
        sock.setsockopt_socket_call(WamrSocketOptName::SoReuseaddr(true)),
        HostCall::SetReuseAddr { fd: 9, reuse: 1 }
    );
    assert_eq!(
        sock.setsockopt_socket_call(WamrSocketOptName::SoReuseport(false)),
        HostCall::SetReusePort { fd: 9, reuse: 0 }
    );
    assert_eq!(
        sock.setsockopt_socket_call(WamrSocketOptName::SoBroadcast(true)),
        HostCall::SetBroadcast { fd: 9, option: 1 }
    );
    assert_eq!(
        sock.setsockopt_socket_call(WamrSocketOptName::SoKeepalive(false)),
        HostCall::SetKeepAlive { fd: 9, option: 0 }
    );
    assert_eq!(
        sock.setsockopt_socket_call(WamrSocketOptName::SoSndbuf(8192)),
        HostCall::SetSendBufSize { fd: 9, buf_len: 8192 }
    );
    assert_eq!(
        sock.setsockopt_socket_call(WamrSocketOptName::SoRcvbuf(4096)),
        HostCall::SetRecvBufSize { fd: 9, size: 4096 }
    );
    assert_eq!(
        sock.setsockopt_socket_call(WamrSocketOptName::SoRcvtimeo(1_500_000)),
        HostCall::SetRecvTimeout {
            fd: 9,
            timeout_us: 1_500_000,
        }
    );
    assert_eq!(
        sock.setsockopt_socket_call(WamrSocketOptName::SoSndtimeo(250_000)),
        HostCall::SetSendTimeout {
            fd: 9,
            timeout_us: 250_000,
        }
    );
}

#[test]
fn get_option_routing_mirrors_set() {
    // The surface exposes no getter entry points for the typed set; the
    // get direction routes to the same setter entry points.
    let sock = Socket::from_fd(2);
    assert_eq!(
        sock.getsockopt_socket_call(WamrSocketOptName::SoBroadcast(true)),
        sock.setsockopt_socket_call(WamrSocketOptName::SoBroadcast(true))
    );
}

#[test]
fn timeout_set_calls() {
    let sock = Socket::from_fd(3);
    assert_eq!(
        sock.set_send_timeout_call(Some(2_000_000)),
        HostCall::SetSendTimeout {
            fd: 3,
            timeout_us: 2_000_000,
        }
    );
    // No duration is written as zero microseconds.
    assert_eq!(
        sock.set_recv_timeout_call(None),
        HostCall::SetRecvTimeout { fd: 3, timeout_us: 0 }
    );
}

#[test]
fn timeout_get_and_decode() {
    let sock = Socket::from_fd(3);
    assert_eq!(
        sock.get_send_timeout_call(),
        HostCall::GetSockopt {
            fd: 3,
            level: 0,
            name: 12,
            flag_size: 16,
        }
    );
    assert_eq!(
        sock.get_recv_timeout_call(),
        HostCall::GetSockopt {
            fd: 3,
            level: 0,
            name: 11,
            flag_size: 16,
        }
    );
    // The all-zero pair means no timeout; others decode to the pair with
    // microseconds scaled to nanoseconds.
    assert_eq!(Socket::timeout_result(0, 0, 0), Ok(None));
    assert_eq!(Socket::timeout_result(0, 3, 500), Ok(Some((3, 500_000))));
    assert_eq!(
        Socket::timeout_result(6, 3, 500),
        Err(SocketError::Host(6))
    );
}

#[test]
fn send_calls_and_results() {
    let sock = Socket::from_fd(11);
    match sock.send_call(b"hello") {
        HostCall::Send { fd, bufs, flags } => {
            assert_eq!(fd, 11);
            assert_eq!(bufs.len(), 1);
            assert_eq!(bufs[0].buf, b"hello".to_vec());
            assert_eq!(flags, 0);
        }
        other => panic!("unexpected call: {:?}", other),
    }
    let segs = vec![
        IovecWrite { buf: vec![1, 2] },
        IovecWrite { buf: vec![3] },
    ];
    assert_eq!(
        sock.send_vectored_call(segs.clone(), 2),
        HostCall::Send {
            fd: 11,
            bufs: segs,
            flags: 2,
        }
    );
    // Partial and zero-length sends are surfaced as-is.
    assert_eq!(Socket::send(0, 3), Ok(3));
    assert_eq!(Socket::send(0, 0), Ok(0));
    assert_eq!(Socket::send(32, 0), Err(SocketError::Host(32)));
}

#[test]
fn send_to_call_layout() {
    let sock = Socket::from_fd(11);
    match sock.send_to_call(b"ping", &v4(10, 0, 0, 1, 9999)) {
        HostCall::SendTo {
            fd,
            bufs,
            addr,
            port,
            flags,
        } => {
            assert_eq!(fd, 11);
            assert_eq!(bufs.len(), 1);
            assert_eq!(bufs[0].buf, b"ping".to_vec());
            assert_eq!(addr.buf, vec![10, 0, 0, 1]);
            assert_eq!(addr.size, 4);
            assert_eq!(port, 9999);
            assert_eq!(flags, 0);
        }
        other => panic!("unexpected call: {:?}", other),
    }
    let segs = vec![IovecWrite { buf: vec![9] }];
    match sock.send_to_vectored_call(segs, &v6_one(53), 1) {
        HostCall::SendTo {
            fd, addr, port, flags, ..
        } => {
            assert_eq!(fd, 11);
            assert_eq!(addr.size, 16);
            assert_eq!(addr.buf.len(), 16);
            assert_eq!(port, 53);
            assert_eq!(flags, 1);
        }
        other => panic!("unexpected call: {:?}", other),
    }
}

#[test]
fn recv_calls_and_results() {
    let sock = Socket::from_fd(13);
    match sock.recv_call(512) {
        HostCall::Recv { fd, bufs, flags } => {
            assert_eq!(fd, 13);
            assert_eq!(bufs, vec![IovecRead { size: 512 }]);
            assert_eq!(flags, 0);
        }
        other => panic!("unexpected call: {:?}", other),
    }
    match sock.recv_with_flags_call(64, 1) {
        HostCall::Recv { bufs, flags, .. } => {
            assert_eq!(bufs, vec![IovecRead { size: 64 }]);
            assert_eq!(flags, 1);
        }
        other => panic!("unexpected call: {:?}", other),
    }
    let segs = [IovecRead { size: 8 }, IovecRead { size: 16 }];
    match sock.recv_vectored_call(&segs, 2) {
        HostCall::Recv { bufs, flags, .. } => {
            assert_eq!(bufs, segs.to_vec());
            assert_eq!(flags, 2);
        }
        other => panic!("unexpected call: {:?}", other),
    }
    assert_eq!(Socket::recv(0, 17), Ok(17));
    assert_eq!(Socket::recv(1, 17), Err(SocketError::Host(1)));
    assert_eq!(Socket::recv_with_flags(0, 17, 1), Ok((17, 1)));
    assert_eq!(Socket::recv_with_flags(9, 0, 0), Err(SocketError::Host(9)));
}

#[test]
fn recv_from_decodes_peer() {
    let sock = Socket::from_fd(13);
    match sock.recv_from_call(256) {
        HostCall::RecvFrom { fd, bufs, flags } => {
            assert_eq!(fd, 13);
            assert_eq!(bufs, vec![IovecRead { size: 256 }]);
            assert_eq!(flags, 0);
        }
        other => panic!("unexpected call: {:?}", other),
    }
    // The peer block starts with the family code; octets follow from the
    // third byte; the port arrives separately.
    let mut block = [0u8; 128];
    block[0] = 1;
    block[2] = 192;
    block[3] = 168;
    block[4] = 0;
    block[5] = 42;
    assert_eq!(
        Socket::recv_from(0, 20, &block, 5674),
        Ok((20, v4(192, 168, 0, 42, 5674)))
    );
    let mut block6 = [0u8; 128];
    block6[0] = 2;
    block6[17] = 1;
    assert_eq!(
        Socket::recv_from_with_flags(0, 4, &block6, 53, 1),
        Ok((4, v6_one(53), 1))
    );
    // An unrecognized family is an explicit error, not an abort.
    let unknown = [9u8; 128];
    assert_eq!(
        Socket::recv_from(0, 1, &unknown, 1),
        Err(SocketError::Unsupported)
    );
    assert_eq!(
        Socket::recv_from(77, 0, &block, 0),
        Err(SocketError::Host(77))
    );
}

#[test]
fn address_queries() {
    let sock = Socket::from_fd(21);
    assert_eq!(sock.get_local_call(), HostCall::AddrLocal { fd: 21 });
    assert_eq!(sock.get_peer_call(), HostCall::AddrRemote { fd: 21 });
    let block = wamr_socket::wire::encode_addr(&v4(127, 0, 0, 1, 80));
    assert_eq!(Socket::addr_result(0, &block), Ok(v4(127, 0, 0, 1, 80)));
    assert_eq!(
        Socket::addr_result(0, &[9, 9, 9]),
        Err(SocketError::Unsupported)
    );
    assert_eq!(Socket::addr_result(5, &block), Err(SocketError::Host(5)));
}

#[test]
fn boolean_and_size_queries() {
    let sock = Socket::from_fd(4);
    assert_eq!(
        sock.is_listener_call(),
        HostCall::GetSockopt {
            fd: 4,
            level: 0,
            name: 13,
            flag_size: 4,
        }
    );
    assert_eq!(
        sock.broadcast_call(),
        HostCall::GetSockopt {
            fd: 4,
            level: 0,
            name: 4,
            flag_size: 4,
        }
    );
    assert_eq!(
        sock.keepalive_call(),
        HostCall::GetSockopt {
            fd: 4,
            level: 0,
            name: 7,
            flag_size: 4,
        }
    );
    assert_eq!(
        sock.reuse_address_call(),
        HostCall::GetSockopt {
            fd: 4,
            level: 0,
            name: 0,
            flag_size: 4,
        }
    );
    assert_eq!(
        sock.recv_buffer_size_call(),
        HostCall::GetSockopt {
            fd: 4,
            level: 0,
            name: 6,
            flag_size: 4,
        }
    );
    assert_eq!(
        sock.send_buffer_size_call(),
        HostCall::GetSockopt {
            fd: 4,
            level: 0,
            name: 5,
            flag_size: 4,
        }
    );
    assert_eq!(Socket::bool_result(0, 1), Ok(true));
    assert_eq!(Socket::bool_result(0, 0), Ok(false));
    assert_eq!(Socket::bool_result(3, 1), Err(SocketError::Host(3)));
    assert_eq!(Socket::size_result(0, 65536), Ok(65536));
    assert_eq!(Socket::size_result(12, 0), Err(SocketError::Host(12)));
}

#[test]
fn socket_kind_query() {
    let sock = Socket::from_fd(4);
    assert_eq!(
        sock.sock_type_call(),
        HostCall::GetSockopt {
            fd: 4,
            level: 0,
            name: 1,
            flag_size: 4,
        }
    );
    assert_eq!(Socket::type_result(0, 1), Ok(SocketType::Datagram));
    assert_eq!(Socket::type_result(0, 2), Ok(SocketType::Stream));
    assert_eq!(Socket::type_result(0, 3), Err(SocketError::Invalid));
    assert_eq!(Socket::type_result(8, 1), Err(SocketError::Host(8)));
}

#[test]
fn device_query_and_bind() {
    let sock = Socket::from_fd(6);
    assert_eq!(
        sock.device_call(),
        HostCall::GetSockopt {
            fd: 6,
            level: 0,
            name: 14,
            flag_size: 16,
        }
    );
    // A zero written length means no bound device; a written name comes
    // back without its terminator.
    assert_eq!(Socket::device(0, &[0u8; 16], 0), Ok(None));
    let buf = *b"eth0\0\0\0\0\0\0\0\0\0\0\0\0";
    assert_eq!(Socket::device(0, &buf, 5), Ok(Some(b"eth0".to_vec())));
    assert_eq!(Socket::device(19, &buf, 5), Err(SocketError::Host(19)));

    match sock.bind_device_call(Some(b"eth0")) {
        HostCall::SetSockopt {
            fd,
            level,
            name,
            flag,
        } => {
            assert_eq!((fd, level, name), (6, 0, 14));
            assert_eq!(flag, b"eth0".to_vec());
        }
        other => panic!("unexpected call: {:?}", other),
    }
    match sock.bind_device_call(None) {
        HostCall::SetSockopt { flag, .. } => assert!(flag.is_empty()),
        other => panic!("unexpected call: {:?}", other),
    }
}

#[test]
fn raw_setsockopt_payload_unchanged() {
    let sock = Socket::from_fd(6);
    match sock.setsockopt_call(SocketOptLevel::SolSocket, SocketOptName::SoReuseaddr, &[1, 0, 0, 0])
    {
        HostCall::SetSockopt {
            fd,
            level,
            name,
            flag,
        } => {
            assert_eq!((fd, level, name), (6, 0, 0));
            assert_eq!(flag, vec![1, 0, 0, 0]);
        }
        other => panic!("unexpected call: {:?}", other),
    }
}

#[test]
fn opt_code_translation() {
    assert!(matches!(SocketOptLevel::try_from(0), Ok(SocketOptLevel::SolSocket)));
    assert_eq!(SocketOptLevel::try_from(1), Err(SocketError::Invalid));
    assert!(matches!(SocketOptName::try_from(0), Ok(SocketOptName::SoReuseaddr)));
    assert!(matches!(SocketOptName::try_from(14), Ok(SocketOptName::SoBindToDevice)));
    assert_eq!(SocketOptName::try_from(15), Err(SocketError::Invalid));
    assert_eq!(SocketOptName::try_from(-1), Err(SocketError::Invalid));
    assert_eq!(SocketOptName::SoAcceptconn.code(), 13);
    assert_eq!(SocketOptLevel::SolSocket.code(), 0);
}

#[test]
fn listen_accept_shutdown() {
    let sock = Socket::from_fd(30);
    assert_eq!(
        sock.listen_call(128),
        HostCall::Listen {
            fd: 30,
            backlog: 128,
        }
    );
    assert_eq!(sock.accept_call(), HostCall::Accept { fd: 30 });
    let peer = Socket::accept_result(0, 31).expect("accept reported success");
    assert_eq!(peer.as_raw_fd(), 31);
    assert!(matches!(
        Socket::accept_result(53, 0),
        Err(SocketError::Host(53))
    ));
    assert_eq!(
        sock.shutdown_call(Shutdown::Read),
        HostCall::Shutdown { fd: 30, flags: 1 }
    );
    assert_eq!(
        sock.shutdown_call(Shutdown::Write),
        HostCall::Shutdown { fd: 30, flags: 2 }
    );
    assert_eq!(
        sock.shutdown_call(Shutdown::Both),
        HostCall::Shutdown { fd: 30, flags: 3 }
    );
    assert_eq!(sock.take_error(), Ok(()));
    assert_eq!(peer.into_raw_fd(), 31);
}

#[test]
fn nonblocking_flag_logic() {
    let o_nonblock = 0o4000;
    assert!(!nonblocking(0, o_nonblock));
    assert!(nonblocking(o_nonblock | 2, o_nonblock));
    // Adding the flag updates only when it is absent.
    assert_eq!(fcntl_add(0, o_nonblock), Some(o_nonblock));
    assert_eq!(fcntl_add(o_nonblock, o_nonblock), None);
    // Removing it updates only when it is present.
    assert_eq!(fcntl_remove(o_nonblock | 2, o_nonblock), Some(2));
    assert_eq!(fcntl_remove(2, o_nonblock), None);
    assert_eq!(set_nonblocking(2, o_nonblock, true), Some(2 | o_nonblock));
    assert_eq!(set_nonblocking(2 | o_nonblock, o_nonblock, false), Some(2));
    assert_eq!(set_nonblocking(2, o_nonblock, false), None);
}

#[test]
fn resolve_call_normalizes_and_converts() {
    let hints = WasiAddrinfo::default();
    match WasiAddrinfo::get_addrinfo_call(b"localhost", b"http\0", &hints, 4) {
        HostCall::AddrResolve {
            host,
            service,
            hints: h,
            max_results,
        } => {
            // A missing terminator is appended; an existing one is kept.
            assert_eq!(host, b"localhost\0".to_vec());
            assert_eq!(service, b"http\0".to_vec());
            assert_eq!(h.type_, WasiSockType::SocketStream);
            assert_eq!(h.family, WasiAddressFamily::Inet4);
            assert_eq!(h.hints_enabled, 0);
            assert_eq!(max_results, 4);
        }
        other => panic!("unexpected call: {:?}", other),
    }
    let mut hints6 = WasiAddrinfo::default();
    hints6.ai_family = AddressFamily::Unspec;
    hints6.ai_socktype = SocketType::Any;
    match WasiAddrinfo::get_addrinfo_call(b"", b"", &hints6, 1) {
        HostCall::AddrResolve { host, service, hints: h, .. } => {
            assert_eq!(host, vec![0]);
            assert_eq!(service, vec![0]);
            assert_eq!(h.type_, WasiSockType::SocketAny);
            assert_eq!(h.family, WasiAddressFamily::InetUnspec);
        }
        other => panic!("unexpected call: {:?}", other),
    }
}

#[test]
fn resolve_truncation_is_success() {
    // The host had five matches but the caller gave room for two: exactly
    // two results and a success, never an error.
    let room = vec![WasiAddrInfo::default(), WasiAddrInfo::default()];
    let out = WasiAddrinfo::get_addrinfo(room, 5, 2, 0).expect("truncation is success");
    assert_eq!(out.len(), 2);

    // Fewer matches than room: only the filled prefix comes back.
    let room = vec![
        WasiAddrInfo::default(),
        WasiAddrInfo::default(),
        WasiAddrInfo::default(),
    ];
    let out = WasiAddrinfo::get_addrinfo(room, 1, 3, 0).expect("success");
    assert_eq!(out.len(), 1);

    // A host error passes through unchanged.
    let room = vec![WasiAddrInfo::default()];
    assert_eq!(
        WasiAddrinfo::get_addrinfo(room, 0, 1, 11),
        Err(SocketError::Host(11))
    );
}

#[test]
fn addrinfo_defaults() {
    let hints = WasiAddrinfo::default();
    assert_eq!(hints.ai_family, AddressFamily::Inet4);
    assert_eq!(hints.ai_socktype, SocketType::Stream);
    assert!(hints.ai_addr.is_none());
    let entry = WasiAddrInfo::default();
    assert_eq!(entry.type_, WasiSockType::SocketAny);
    assert_eq!(entry.addr, WasiAddr::default());
}

#[test]
fn sockaddr_construction() {
    let sa = WasiSockaddr::new(AddressFamily::Inet6, vec![1, 2, 3]);
    assert_eq!(sa.family, AddressFamily::Inet6);
    assert_eq!(sa.sa_data_len, 14);
    assert_eq!(sa.sa_data, vec![1, 2, 3]);
    let d = WasiSockaddr::default();
    assert_eq!(d.family, AddressFamily::Inet4);
    assert_eq!(d.sa_data_len, 14);
    assert!(d.sa_data.is_empty());
}

#[test]
fn open_failure_passes_code_through() {
    assert!(matches!(Socket::new(76, 0), Err(SocketError::Host(76))));
}
