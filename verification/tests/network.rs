use zephyr::error::Error;
use zephyr::net::ipaddr::{
    port_from_c, port_to_c, try_sockaddr_from_c, try_sockaddr_to_c, Ipv4Addr, Ipv6Addr, Sockaddr,
    SocketAddr, SocketAddrV4, SocketAddrV6,
};
use zephyr::net::socket::{Domain, Protocol, SockType, Socket};
use zephyr::net::{Failed, Open, TcpListener, TcpStream, UdpSocket};
use zephyr::raw::Call;

fn v4() -> SocketAddr {
    SocketAddr::V4(SocketAddrV4 { ip: Ipv4Addr { octets: [192, 0, 2, 1] }, port: 0x1234 })
}

fn v6(flowinfo: u32, scope_id: u32) -> SocketAddr {
    let mut octets = [0u8; 16];
    for i in 0..16 {
        octets[i] = 0x20 + i as u8;
    }
    SocketAddr::V6(SocketAddrV6 { ip: Ipv6Addr { octets }, port: 443, flowinfo, scope_id })
}

#[test]
fn ports_are_in_network_order() {
    assert_eq!(port_to_c(0x1234), [0x12, 0x34]);
    assert_eq!(port_from_c([0x12, 0x34]), 0x1234);
    for port in [0u16, 1, 255, 256, 443, u16::MAX] {
        assert_eq!(port_from_c(port_to_c(port)), port);
        assert_eq!(port_to_c(port), port.to_be_bytes());
    }
}

#[test]
fn v4_form() {
    let (c, len) = try_sockaddr_to_c(&v4()).unwrap();
    assert_eq!(c.sa_family, 1);
    assert_eq!(c.data[..6], [0x12, 0x34, 192, 0, 2, 1]);
    assert_eq!(c.data[6..], [0u8; 16]);
    assert_eq!(len, 8);
    assert_eq!(try_sockaddr_from_c(&c, len), Ok(v4()));
    assert_eq!(try_sockaddr_from_c(&c, 24), Err(Error(22)));
}

#[test]
fn v6_form() {
    let (c, len) = try_sockaddr_to_c(&v6(0, 200)).unwrap();
    assert_eq!(c.sa_family, 2);
    assert_eq!(c.data[..3], [1, 187, 0x20]);
    assert_eq!(c.data[17..], [0x2f, 200, 0, 0, 0]);
    assert_eq!(len, 24);
    assert_eq!(try_sockaddr_from_c(&c, len), Ok(v6(0, 200)));
    assert_eq!(try_sockaddr_from_c(&c, 8), Err(Error(22)));
}

#[test]
fn v6_limits() {
    assert_eq!(try_sockaddr_to_c(&v6(1, 0)), Err(Error(22)));
    assert_eq!(try_sockaddr_to_c(&v6(0, 256)), Err(Error(22)));
    assert!(try_sockaddr_to_c(&v6(0, 255)).is_ok());
}

#[test]
fn unknown_family() {
    let c = Sockaddr { sa_family: 3, data: [0; 22] };
    assert_eq!(try_sockaddr_from_c(&c, 8), Err(Error(22)));
    assert_eq!(try_sockaddr_from_c(&c, 24), Err(Error(22)));
}

#[test]
fn different_addresses_have_different_forms() {
    let all = [v4(), v6(0, 0), v6(0, 1)];
    for i in 0..all.len() {
        for j in 0..i {
            assert_ne!(try_sockaddr_to_c(&all[i]), try_sockaddr_to_c(&all[j]));
        }
    }
}

fn udp() -> UdpSocket {
    match UdpSocket::bind_created(&v4(), 5, 0) {
        Open::Next(sock, call) => {
            let (addr, addrlen) = try_sockaddr_to_c(&v4()).unwrap();
            assert_eq!(call, Call::SockBind { fd: 5, addr, addrlen });
            UdpSocket::bind_done(sock, 0, 0).ok().unwrap()
        }
        _ => panic!("no socket"),
    }
}

#[test]
fn udp_traffic() {
    assert_eq!(
        UdpSocket::bind(&v4()),
        Call::SockSocket {
            domain: Domain::AfInet,
            sock_type: SockType::Dgram,
            protocol: Protocol::IpProtoUdp,
        }
    );
    let udp = udp();
    let (addr, addrlen) = try_sockaddr_to_c(&v6(0, 1)).unwrap();
    assert_eq!(
        udp.send_to(vec![1, 2], &v6(0, 1)),
        Ok(Call::SockSendTo { fd: 5, bytes: vec![1, 2], addr, addrlen })
    );
    assert_eq!(udp.send_to(vec![1], &v6(1, 1)), Err(Error(22)));
    assert_eq!(UdpSocket::send_to_done(2, 0), Ok(2));
    assert_eq!(UdpSocket::send_to_done(-1, 113), Err(Error(113)));
    assert_eq!(udp.recv_from(64), Call::SockRecvFrom { fd: 5, size: 64, addrlen: 24 });
    let (from, _) = try_sockaddr_to_c(&v4()).unwrap();
    assert_eq!(UdpSocket::recv_from_done(7, 0, &from, 8), Ok((7, v4())));
    assert_eq!(UdpSocket::recv_from_done(-1, 11, &from, 8), Err(Error(11)));
    assert_eq!(UdpSocket::recv_from_done(7, 0, &from, 9), Err(Error(22)));
}

#[test]
fn failed_bind_closes_the_socket() {
    assert!(matches!(UdpSocket::bind_created(&v4(), -1, 23), Open::NoSocket(Error(23))));
    match UdpSocket::bind_created(&v6(0, 256), 6, 0) {
        Open::Refused(Failed { close, error }) => {
            assert_eq!(close, Call::SockClose { fd: 6 });
            assert_eq!(error, Error(22));
        }
        _ => panic!("the address fits"),
    }
    match UdpSocket::bind_done(Socket { fd: 6 }, -1, 98) {
        Err(Failed { close, error }) => {
            assert_eq!(close, Call::SockClose { fd: 6 });
            assert_eq!(error, Error(98));
        }
        Ok(_) => panic!("bound"),
    }
}

#[test]
fn tcp_listener() {
    assert_eq!(
        TcpListener::bind(&v6(0, 0)),
        Call::SockSocket {
            domain: Domain::AfInet6,
            sock_type: SockType::Stream,
            protocol: Protocol::IpProtoTcp,
        }
    );
    let sock = match TcpListener::bind_created(&v6(0, 0), 7, 0) {
        Open::Next(sock, Call::SockBind { fd: 7, .. }) => sock,
        _ => panic!("no socket"),
    };
    let (sock, listen) = TcpListener::bind_bound(sock, 0, 0, 5).ok().unwrap();
    assert_eq!(listen, Call::SockListen { fd: 7, backlog: 5 });
    let mut listener = TcpListener::bind_done(sock, 0, 0).ok().unwrap();
    assert!(TcpListener::bind_bound(sock, -1, 98, 5).is_err());
    assert!(TcpListener::bind_done(sock, -1, 98).is_err());
    assert_eq!(listener.accept(), Call::SockAccept { fd: 7, addrlen: 24 });
    let (peer, len) = try_sockaddr_to_c(&v6(0, 0)).unwrap();
    let (stream, from) = TcpListener::accept_done(9, 0, &peer, len).unwrap();
    assert_eq!(stream, TcpStream { sock: Socket { fd: 9 } });
    assert_eq!(from, v6(0, 0));
    assert_eq!(TcpListener::accept_done(-1, 11, &peer, len), Err((None, Error(11))));
    assert_eq!(
        TcpListener::accept_done(9, 0, &peer, 8),
        Err((Some(Call::SockClose { fd: 9 }), Error(22)))
    );
}

#[test]
fn tcp_stream() {
    assert_eq!(
        TcpStream::connect(&v4()),
        Call::SockSocket {
            domain: Domain::AfInet,
            sock_type: SockType::Stream,
            protocol: Protocol::IpProtoTcp,
        }
    );
    let sock = match TcpStream::connect_created(&v4(), 8, 0) {
        Open::Next(sock, Call::SockConnect { fd: 8, .. }) => sock,
        _ => panic!("no socket"),
    };
    assert!(matches!(TcpStream::connect_created(&v4(), -1, 23), Open::NoSocket(Error(23))));
    assert!(matches!(TcpStream::connect_created(&v6(2, 0), 8, 0), Open::Refused(_)));
    let mut stream = TcpStream::connect_done(sock, 0, 0).ok().unwrap();
    match TcpStream::connect_done(sock, -1, 111) {
        Err(failed) => assert_eq!(failed.error, Error(111)),
        Ok(_) => panic!("connected"),
    }
    assert_eq!(stream.send(vec![9]), Call::SockSend { fd: 8, bytes: vec![9] });
    assert_eq!(TcpStream::send_done(1, 0), Ok(1));
    assert_eq!(stream.recv(32), Call::SockRecv { fd: 8, size: 32 });
    assert_eq!(TcpStream::recv_done(0, 0), Ok(0));
    assert_eq!(TcpStream::recv_done(-1, 104), Err(Error(104)));
    assert_eq!(stream.sock.drop(), Call::SockClose { fd: 8 });
}
