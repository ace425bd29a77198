//! Networking over UDP and TCP.
use crate::error::Error;
use crate::net::ipaddr::{to_c, SocketAddr, Sockaddr};
use crate::net::socket::{
    carries, errno_count_of, errno_result_of, peer_of, Domain, Protocol, SockType, Socket,
};
use crate::raw::{Call, SOCKADDR_SIZE};
use vstd::prelude::*;

pub mod ipaddr;
pub mod socket;

verus! {

/// An operation failed after a socket was created: the call that closes the socket, and the error.
pub struct Failed {
    /// The call that closes the socket.
    pub close: Call,
    /// Why the operation failed.
    pub error: Error,
}

/// How the creation of a socket at an address goes on.
pub enum Open {
    /// The socket could not be created.
    NoSocket(Error),
    /// The address cannot be used.  The socket is closed.
    Refused(Failed),
    /// The socket is there, and this call binds or connects it.
    Next(Socket, Call),
}

fn fail(sock: Socket, error: Error) -> (r: Failed)
    ensures
        r == (Failed { close: Call::SockClose { fd: sock.fd }, error }),
{
    Failed { close: sock.drop(), error }
}

/// A UDP socket.
#[derive(Clone, Copy, Debug, PartialEq, Eq, Structural)]
pub struct UdpSocket {
    /// The socket.
    pub sock: Socket,
}

/// A TCP socket that accepts connections.
#[derive(Clone, Copy, Debug, PartialEq, Eq, Structural)]
pub struct TcpListener {
    /// The socket.
    pub sock: Socket,
}

/// A TCP connection.
#[derive(Clone, Copy, Debug, PartialEq, Eq, Structural)]
pub struct TcpStream {
    /// The socket.
    pub sock: Socket,
}

/// What binding a new socket to an address comes to, from the answer to its creation.
pub open spec fn bind_step(addr: SocketAddr, code: i32, errno: u32, r: Open) -> bool {
    match errno_result_of(code, errno) {
        Err(e) => r == Open::NoSocket(e),
        Ok(fd) => match to_c(addr) {
            Err(e) => r == Open::Refused(Failed { close: Call::SockClose { fd }, error: e }),
            Ok(_) => {
                &&& r matches Open::Next(sock, call)
                &&& sock.fd == fd
                &&& call matches Call::SockBind { fd: f, addr: c, addrlen }
                &&& f == fd
                &&& carries(addr, c, addrlen)
            },
        },
    }
}

/// What comes of a socket after a call on it that only succeeds or fails.
pub open spec fn kept_or_closed(sock: Socket, code: i32, errno: u32) -> Result<Socket, Failed> {
    match errno_result_of(code, errno) {
        Ok(_) => Ok(sock),
        Err(e) => Err(Failed { close: Call::SockClose { fd: sock.fd }, error: e }),
    }
}

fn keep_or_close(sock: Socket, code: i32, errno: u32) -> (r: Result<Socket, Failed>)
    ensures
        r == kept_or_closed(sock, code, errno),
{
    match Socket::void_done(code, errno) {
        Ok(()) => Ok(sock),
        Err(e) => Err(fail(sock, e)),
    }
}

fn bind_created(addr: &SocketAddr, code: i32, errno: u32) -> (r: Open)
    ensures
        bind_step(*addr, code, errno, r),
{
    match Socket::new_done(code, errno) {
        Err(e) => Open::NoSocket(e),
        Ok(sock) => {
            let mut sock = sock;
            match sock.bind(addr) {
                Ok(call) => Open::Next(sock, call),
                Err(e) => Open::Refused(fail(sock, e)),
            }
        },
    }
}

impl UdpSocket {
    /// Create a socket that is bound to an address: the creation.
    pub fn bind(addr: &SocketAddr) -> (call: Call)
        ensures
            call == (Call::SockSocket {
                domain: Domain::of(*addr),
                sock_type: SockType::Dgram,
                protocol: Protocol::IpProtoUdp,
            }),
    {
        Socket::new(Domain::from_socket_addr(addr), SockType::Dgram, Protocol::IpProtoUdp)
    }

    /// The socket was created: the binding.
    pub fn bind_created(addr: &SocketAddr, code: i32, errno: u32) -> (r: Open)
        ensures
            bind_step(*addr, code, errno, r),
    {
        bind_created(addr, code, errno)
    }

    /// The socket was bound.
    pub fn bind_done(sock: Socket, code: i32, errno: u32) -> (r: Result<UdpSocket, Failed>)
        ensures
            r == (match kept_or_closed(sock, code, errno) {
                Ok(sock) => Ok::<UdpSocket, Failed>(UdpSocket { sock }),
                Err(e) => Err(e),
            }),
    {
        match keep_or_close(sock, code, errno) {
            Ok(sock) => Ok(UdpSocket { sock }),
            Err(e) => Err(e),
        }
    }

    /// Send data to an address.
    pub fn send_to(&self, buf: Vec<u8>, addr: &SocketAddr) -> (r: Result<Call, Error>)
        ensures
            match to_c(*addr) {
                Ok(_) => r matches Ok(Call::SockSendTo { fd, bytes, addr: c, addrlen }) && fd
                    == self.sock.fd && bytes == buf && carries(*addr, c, addrlen),
                Err(e) => r == Err::<Call, Error>(e),
            },
    {
        self.sock.send_to(buf, addr)
    }

    /// How many bytes were sent.
    pub fn send_to_done(code: i32, errno: u32) -> (r: Result<usize, Error>)
        ensures
            r == errno_count_of(code, errno),
    {
        Socket::count_done(code, errno)
    }

    /// Receive up to `size` bytes, and the address that they come from.
    pub fn recv_from(&self, size: usize) -> (call: Call)
        ensures
            call == (Call::SockRecvFrom { fd: self.sock.fd, size, addrlen: SOCKADDR_SIZE }),
    {
        self.sock.recv_from(size)
    }

    /// How many bytes were received, and from which address.
    pub fn recv_from_done(code: i32, errno: u32, sa: &Sockaddr, socklen: usize) -> (r: Result<
        (usize, SocketAddr),
        Error,
    >)
        ensures
            match errno_count_of(code, errno) {
                Err(e) => r == Err::<(usize, SocketAddr), Error>(e),
                Ok(count) => match r {
                    Ok((n, addr)) => n == count && peer_of(*sa, socklen, Ok(addr)),
                    Err(e) => peer_of(*sa, socklen, Err(e)),
                },
            },
    {
        Socket::recv_from_done(code, errno, sa, socklen)
    }
}

impl TcpListener {
    /// Create a socket that accepts connections at an address: the creation.
    pub fn bind(addr: &SocketAddr) -> (call: Call)
        ensures
            call == (Call::SockSocket {
                domain: Domain::of(*addr),
                sock_type: SockType::Stream,
                protocol: Protocol::IpProtoTcp,
            }),
    {
        Socket::new(Domain::from_socket_addr(addr), SockType::Stream, Protocol::IpProtoTcp)
    }

    /// The socket was created: the binding.
    pub fn bind_created(addr: &SocketAddr, code: i32, errno: u32) -> (r: Open)
        ensures
            bind_step(*addr, code, errno, r),
    {
        bind_created(addr, code, errno)
    }

    /// The socket was bound: it is made to listen.
    pub fn bind_bound(sock: Socket, code: i32, errno: u32, backlog: i32) -> (r: Result<
        (Socket, Call),
        Failed,
    >)
        ensures
            r == (match kept_or_closed(sock, code, errno) {
                Ok(sock) => Ok::<(Socket, Call), Failed>(
                    (sock, Call::SockListen { fd: sock.fd, backlog }),
                ),
                Err(e) => Err(e),
            }),
    {
        match keep_or_close(sock, code, errno) {
            Ok(sock) => {
                let mut sock = sock;
                let call = sock.listen(backlog);
                Ok((sock, call))
            },
            Err(e) => Err(e),
        }
    }

    /// The socket listens.
    pub fn bind_done(sock: Socket, code: i32, errno: u32) -> (r: Result<TcpListener, Failed>)
        ensures
            r == (match kept_or_closed(sock, code, errno) {
                Ok(sock) => Ok::<TcpListener, Failed>(TcpListener { sock }),
                Err(e) => Err(e),
            }),
    {
        match keep_or_close(sock, code, errno) {
            Ok(sock) => Ok(TcpListener { sock }),
            Err(e) => Err(e),
        }
    }

    /// Accept a connection.
    pub fn accept(&mut self) -> (call: Call)
        ensures
            *final(self) == *old(self),
            call == (Call::SockAccept { fd: old(self).sock.fd, addrlen: SOCKADDR_SIZE }),
    {
        self.sock.accept()
    }

    /// The connection, and the address of the peer.  Where the address is not understood, the
    /// connection is closed.
    pub fn accept_done(code: i32, errno: u32, sa: &Sockaddr, socklen: usize) -> (r: Result<
        (TcpStream, SocketAddr),
        (Option<Call>, Error),
    >)
        ensures
            match errno_result_of(code, errno) {
                Err(e) => r == Err::<(TcpStream, SocketAddr), (Option<Call>, Error)>((None, e)),
                Ok(fd) => match r {
                    Ok((stream, peer)) => stream.sock.fd == fd && peer_of(*sa, socklen, Ok(peer)),
                    Err((close, e)) => close == Some(Call::SockClose { fd }) && peer_of(
                        *sa,
                        socklen,
                        Err(e),
                    ),
                },
            },
    {
        match Socket::new_done(code, errno) {
            Err(e) => Err((None, e)),
            Ok(sock) => match ipaddr::try_sockaddr_from_c(sa, socklen) {
                Ok(peer) => Ok((TcpStream { sock }, peer)),
                Err(e) => Err((Some(sock.drop()), e)),
            },
        }
    }
}

impl TcpStream {
    /// Create a socket that is connected to an address: the creation.
    pub fn connect(addr: &SocketAddr) -> (call: Call)
        ensures
            call == (Call::SockSocket {
                domain: Domain::of(*addr),
                sock_type: SockType::Stream,
                protocol: Protocol::IpProtoTcp,
            }),
    {
        Socket::new(Domain::from_socket_addr(addr), SockType::Stream, Protocol::IpProtoTcp)
    }

    /// The socket was created: the connection.
    pub fn connect_created(addr: &SocketAddr, code: i32, errno: u32) -> (r: Open)
        ensures
            match errno_result_of(code, errno) {
                Err(e) => r == Open::NoSocket(e),
                Ok(fd) => match to_c(*addr) {
                    Err(e) => r == Open::Refused(
                        Failed { close: Call::SockClose { fd }, error: e },
                    ),
                    Ok(_) => {
                        &&& r matches Open::Next(sock, call)
                        &&& sock.fd == fd
                        &&& call matches Call::SockConnect { fd: f, addr: c, addrlen }
                        &&& f == fd
                        &&& carries(*addr, c, addrlen)
                    },
                },
            },
    {
        match Socket::new_done(code, errno) {
            Err(e) => Open::NoSocket(e),
            Ok(sock) => {
                let mut sock = sock;
                match sock.connect(addr) {
                    Ok(call) => Open::Next(sock, call),
                    Err(e) => Open::Refused(fail(sock, e)),
                }
            },
        }
    }

    /// The socket is connected.
    pub fn connect_done(sock: Socket, code: i32, errno: u32) -> (r: Result<TcpStream, Failed>)
        ensures
            r == (match kept_or_closed(sock, code, errno) {
                Ok(sock) => Ok::<TcpStream, Failed>(TcpStream { sock }),
                Err(e) => Err(e),
            }),
    {
        match keep_or_close(sock, code, errno) {
            Ok(sock) => Ok(TcpStream { sock }),
            Err(e) => Err(e),
        }
    }

    /// Send data to the peer.
    pub fn send(&mut self, buf: Vec<u8>) -> (call: Call)
        ensures
            *final(self) == *old(self),
            call == (Call::SockSend { fd: old(self).sock.fd, bytes: buf }),
    {
        self.sock.send(buf)
    }

    /// How many bytes were sent.
    pub fn send_done(code: i32, errno: u32) -> (r: Result<usize, Error>)
        ensures
            r == errno_count_of(code, errno),
    {
        Socket::count_done(code, errno)
    }

    /// Receive up to `size` bytes from the peer.
    pub fn recv(&mut self, size: usize) -> (call: Call)
        ensures
            *final(self) == *old(self),
            call == (Call::SockRecv { fd: old(self).sock.fd, size }),
    {
        self.sock.recv(size)
    }

    /// How many bytes were received.
    pub fn recv_done(code: i32, errno: u32) -> (r: Result<usize, Error>)
        ensures
            r == errno_count_of(code, errno),
    {
        Socket::count_done(code, errno)
    }
}

/// What the kernel counts is what the caller gets, of sent and of received bytes: the return code,
/// unless it is negative.  Then the error is the one in `errno`.
pub proof fn law_counts_are_codes(
    code: i32,
    errno: u32,
    datagram: Result<usize, Error>,
    sent: Result<usize, Error>,
    received: Result<usize, Error>,
)
    requires
        call_ensures(UdpSocket::send_to_done, (code, errno), datagram),
        call_ensures(TcpStream::send_done, (code, errno), sent),
        call_ensures(TcpStream::recv_done, (code, errno), received),
    ensures
        code >= 0 ==> {
            &&& datagram matches Ok(n) && n == code
            &&& sent matches Ok(n) && n == code
            &&& received matches Ok(n) && n == code
        },
        code < 0 ==> {
            &&& datagram matches Err(e) && e.0 == errno
            &&& sent matches Err(e) && e.0 == errno
            &&& received matches Err(e) && e.0 == errno
        },
{
}

/// A datagram, and a connection, come with the address of the peer, which the kernel reports in its
/// form.
pub proof fn law_peer_is_reported(
    peer: SocketAddr,
    c: Sockaddr,
    len: usize,
    code: i32,
    errno: u32,
    datagram: Result<(usize, SocketAddr), Error>,
    accepted: Result<(TcpStream, SocketAddr), (Option<Call>, Error)>,
)
    requires
        call_ensures(
            ipaddr::try_sockaddr_to_c,
            (&peer,),
            Ok::<(Sockaddr, usize), Error>((c, len)),
        ),
        call_ensures(UdpSocket::recv_from_done, (code, errno, &c, len), datagram),
        call_ensures(TcpListener::accept_done, (code, errno, &c, len), accepted),
    ensures
        code < 0 ==> (datagram matches Err(e) && e.0 == errno) && (accepted matches Err((call, e))
            && call is None && e.0 == errno),
        code >= 0 ==> {
            &&& datagram matches Ok((n, got)) && n == code && match (peer, got) {
                (SocketAddr::V4(a), SocketAddr::V4(b)) => a.port == b.port && a.ip.octets@
                    == b.ip.octets@,
                (SocketAddr::V6(a), SocketAddr::V6(b)) => a.port == b.port && a.ip.octets@
                    == b.ip.octets@ && a.scope_id == b.scope_id,
                _ => false,
            }
            &&& accepted matches Ok((stream, got)) && stream.sock.fd == code && match (peer, got) {
                (SocketAddr::V4(a), SocketAddr::V4(b)) => a.port == b.port && a.ip.octets@
                    == b.ip.octets@,
                (SocketAddr::V6(a), SocketAddr::V6(b)) => a.port == b.port && a.ip.octets@
                    == b.ip.octets@ && a.scope_id == b.scope_id,
                _ => false,
            }
        },
{
    match peer {
        SocketAddr::V4(a) => ipaddr::law_v4_round_trip(a),
        SocketAddr::V6(a) => ipaddr::law_v6_round_trip(a),
    }
}

/// A connection whose peer is not understood is closed.
pub proof fn law_unknown_peer_is_closed(
    c: Sockaddr,
    len: usize,
    code: i32,
    errno: u32,
    accepted: Result<(TcpStream, SocketAddr), (Option<Call>, Error)>,
)
    requires
        call_ensures(TcpListener::accept_done, (code, errno, &c, len), accepted),
        code >= 0,
        !(c.sa_family == 1 && len == 8) && !(c.sa_family == 2 && len == 24),
    ensures
        accepted matches Err((call, e)) && e.0 == 22 && call == Some(Call::SockClose { fd: code }),
{
}

/// A datagram goes out unchanged, to the address that was given: the form that the kernel gets,
/// converted back, is that address.
pub proof fn law_datagram_reaches_address(
    udp: UdpSocket,
    buf: Vec<u8>,
    addr: SocketAddr,
    r: Result<Call, Error>,
    back: Result<SocketAddr, Error>,
)
    requires
        call_ensures(UdpSocket::send_to, (&udp, buf, &addr), r),
        r matches Ok(Call::SockSendTo { addr: c, addrlen, .. }) ==> call_ensures(
            ipaddr::try_sockaddr_from_c,
            (&c, addrlen),
            back,
        ),
    ensures
        r is Err <==> (addr matches SocketAddr::V6(a) && (a.flowinfo != 0 || a.scope_id > 255)),
        r matches Ok(call) ==> {
            &&& call matches Call::SockSendTo { fd, bytes, .. }
            &&& fd == udp.sock.fd
            &&& bytes@ == buf@
            &&& back matches Ok(got)
            &&& match (addr, got) {
                (SocketAddr::V4(a), SocketAddr::V4(b)) => a.port == b.port && a.ip.octets@
                    == b.ip.octets@,
                (SocketAddr::V6(a), SocketAddr::V6(b)) => a.port == b.port && a.ip.octets@
                    == b.ip.octets@ && a.scope_id == b.scope_id,
                _ => false,
            }
        },
{
    match addr {
        SocketAddr::V4(a) => ipaddr::law_v4_round_trip(a),
        SocketAddr::V6(a) => if a.flowinfo == 0 && a.scope_id <= 255 {
            ipaddr::law_v6_round_trip(a)
        },
    }
}

/// The sockets that are created: of the family of the address, for datagrams or for a stream.
pub proof fn law_sockets_are_created(addr: SocketAddr, udp: Call, listener: Call, stream: Call)
    requires
        call_ensures(UdpSocket::bind, (&addr,), udp),
        call_ensures(TcpListener::bind, (&addr,), listener),
        call_ensures(TcpStream::connect, (&addr,), stream),
    ensures
        ({
            let domain = if addr is V4 {
                Domain::AfInet
            } else {
                Domain::AfInet6
            };
            &&& udp == (Call::SockSocket {
                domain,
                sock_type: SockType::Dgram,
                protocol: Protocol::IpProtoUdp,
            })
            &&& listener == (Call::SockSocket {
                domain,
                sock_type: SockType::Stream,
                protocol: Protocol::IpProtoTcp,
            })
            &&& stream == listener
        }),
{
}

/// A socket that was created is bound or connected to the address that was given, under the
/// descriptor that the kernel gave it.  Where the address has no form for the kernel, the socket is
/// closed.  Where it was not created, the error is the one in `errno`.
pub proof fn law_created_sockets_reach_address(
    addr: SocketAddr,
    code: i32,
    errno: u32,
    udp: Open,
    listener: Open,
    stream: Open,
    c: Sockaddr,
    len: usize,
)
    requires
        call_ensures(UdpSocket::bind_created, (&addr, code, errno), udp),
        call_ensures(TcpListener::bind_created, (&addr, code, errno), listener),
        call_ensures(TcpStream::connect_created, (&addr, code, errno), stream),
        addr is V4 || (addr matches SocketAddr::V6(a) && a.flowinfo == 0 && a.scope_id <= 255)
            ==> call_ensures(
            ipaddr::try_sockaddr_to_c,
            (&addr,),
            Ok::<(Sockaddr, usize), Error>((c, len)),
        ),
    ensures
        code < 0 ==> {
            &&& udp matches Open::NoSocket(e) && e.0 == errno
            &&& listener matches Open::NoSocket(e) && e.0 == errno
            &&& stream matches Open::NoSocket(e) && e.0 == errno
        },
        code >= 0 && (addr matches SocketAddr::V6(a) && (a.flowinfo != 0 || a.scope_id > 255)) ==> {
            &&& udp matches Open::Refused(f) && f.error.0 == 22 && f.close == (Call::SockClose {
                fd: code,
            })
            &&& listener matches Open::Refused(f) && f.error.0 == 22 && f.close
                == (Call::SockClose { fd: code })
            &&& stream matches Open::Refused(f) && f.error.0 == 22 && f.close == (Call::SockClose {
                fd: code,
            })
        },
        code >= 0 && (addr is V4 || (addr matches SocketAddr::V6(a) && a.flowinfo == 0 && a.scope_id
            <= 255)) ==> {
            &&& udp matches Open::Next(s, Call::SockBind { fd, addr: d, addrlen }) && s.fd == code
                && fd == code && d.sa_family == c.sa_family && d.data@ == c.data@ && addrlen == len
            &&& listener matches Open::Next(s, Call::SockBind { fd, addr: d, addrlen }) && s.fd
                == code && fd == code && d.sa_family == c.sa_family && d.data@ == c.data@ && addrlen
                == len
            &&& stream matches Open::Next(s, Call::SockConnect { fd, addr: d, addrlen }) && s.fd
                == code && fd == code && d.sa_family == c.sa_family && d.data@ == c.data@ && addrlen
                == len
        },
{
}

/// A socket is kept where the kernel succeeds, and closed where it fails, with the error in
/// `errno`. A listener listens in between, with the backlog that was given.
pub proof fn law_sockets_kept_or_closed(
    sock: Socket,
    code: i32,
    errno: u32,
    backlog: i32,
    udp: Result<UdpSocket, Failed>,
    bound: Result<(Socket, Call), Failed>,
    listener: Result<TcpListener, Failed>,
    stream: Result<TcpStream, Failed>,
)
    requires
        call_ensures(UdpSocket::bind_done, (sock, code, errno), udp),
        call_ensures(TcpListener::bind_bound, (sock, code, errno, backlog), bound),
        call_ensures(TcpListener::bind_done, (sock, code, errno), listener),
        call_ensures(TcpStream::connect_done, (sock, code, errno), stream),
    ensures
        code >= 0 ==> {
            &&& udp matches Ok(s) && s.sock.fd == sock.fd
            &&& bound matches Ok((s, call)) && s.fd == sock.fd && call == (Call::SockListen {
                fd: sock.fd,
                backlog,
            })
            &&& listener matches Ok(s) && s.sock.fd == sock.fd
            &&& stream matches Ok(s) && s.sock.fd == sock.fd
        },
        code < 0 ==> {
            let close = Call::SockClose { fd: sock.fd };
            &&& udp matches Err(f) && f.close == close && f.error.0 == errno
            &&& bound matches Err(f) && f.close == close && f.error.0 == errno
            &&& listener matches Err(f) && f.close == close && f.error.0 == errno
            &&& stream matches Err(f) && f.close == close && f.error.0 == errno
        },
{
}

/// Whatever the kernel reports of the peer, what is received is counted as the kernel counts it,
/// and an accepted connection is the one that the kernel names.  The peer is read from the port,
/// the octets and the scope that were reported, and from nothing else; where its family and length
/// are not those of an address, it is refused.
pub proof fn law_reported_bytes_are_peer(
    c: Sockaddr,
    len: usize,
    code: i32,
    errno: u32,
    raw: Result<(usize, SocketAddr), Error>,
    datagram: Result<(usize, SocketAddr), Error>,
    accepted: Result<(TcpStream, SocketAddr), (Option<Call>, Error)>,
)
    requires
        code >= 0,
        call_ensures(Socket::recv_from_done, (code, errno, &c, len), raw),
        call_ensures(UdpSocket::recv_from_done, (code, errno, &c, len), datagram),
        call_ensures(TcpListener::accept_done, (code, errno, &c, len), accepted),
    ensures
        ({
            let v4 = c.sa_family == 1 && len == 8;
            let v6 = c.sa_family == 2 && len == 24;
            let reported = |got: SocketAddr|
                match got {
                    SocketAddr::V4(a) => {
                        &&& v4
                        &&& a.port == c.data@[0] * 256 + c.data@[1]
                        &&& a.ip.octets@ == c.data@.subrange(2, 6)
                    },
                    SocketAddr::V6(a) => {
                        &&& v6
                        &&& a.port == c.data@[0] * 256 + c.data@[1]
                        &&& a.ip.octets@ == c.data@.subrange(2, 18)
                        &&& a.flowinfo == 0
                        &&& a.scope_id == c.data@[18]
                    },
                };
            &&& raw is Ok <==> v4 || v6
            &&& datagram is Ok <==> v4 || v6
            &&& accepted is Ok <==> v4 || v6
            &&& raw matches Ok((n, got)) ==> n == code && reported(got)
            &&& raw matches Err(e) ==> e.0 == 22
            &&& datagram matches Ok((n, got)) ==> n == code && reported(got)
            &&& datagram matches Err(e) ==> e.0 == 22
            &&& accepted matches Ok((stream, got)) ==> stream.sock.fd == code && reported(got)
            &&& accepted matches Err((close, e)) ==> e.0 == 22 && close == Some(
                Call::SockClose { fd: code },
            )
        }),
{
}

} // verus!
