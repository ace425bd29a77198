//! Sockets of the kernel.
use crate::error::{to_result_errno, Error};
use crate::net::ipaddr::{
    from_c, parts, to_c, try_sockaddr_from_c, try_sockaddr_to_c, SocketAddr, Sockaddr,
};
use crate::raw::{Call, EINVAL, SOCKADDR_SIZE};
use vstd::prelude::*;

verus! {

/// The address family of a socket.
#[derive(Clone, Copy, Debug, PartialEq, Eq, Structural)]
pub enum Domain {
    /// `AF_INET`
    AfInet,
    /// `AF_INET6`
    AfInet6,
}

/// The type of a socket.
#[derive(Clone, Copy, Debug, PartialEq, Eq, Structural)]
pub enum SockType {
    /// `SOCK_DGRAM`
    Dgram,
    /// `SOCK_STREAM`
    Stream,
}

/// The protocol of a socket.
#[derive(Clone, Copy, Debug, PartialEq, Eq, Structural)]
pub enum Protocol {
    /// `IPPROTO_UDP`
    IpProtoUdp,
    /// `IPPROTO_TCP`
    IpProtoTcp,
}

impl Domain {
    /// The family of an address.
    pub open spec fn of(addr: SocketAddr) -> Domain {
        match addr {
            SocketAddr::V4(_) => Domain::AfInet,
            SocketAddr::V6(_) => Domain::AfInet6,
        }
    }

    /// The family of an address.
    pub fn from_socket_addr(addr: &SocketAddr) -> (r: Domain)
        ensures
            r == Domain::of(*addr),
    {
        match addr {
            SocketAddr::V4(_) => Domain::AfInet,
            SocketAddr::V6(_) => Domain::AfInet6,
        }
    }
}

/// What a return code stands for that leaves the error number in `errno`.
pub open spec fn errno_result_of(code: i32, errno: u32) -> Result<i32, Error> {
    if code < 0 {
        Err(Error(errno))
    } else {
        Ok(code)
    }
}

/// The count of bytes that such a return code stands for.
pub open spec fn errno_count_of(code: i32, errno: u32) -> Result<usize, Error> {
    if code < 0 {
        Err(Error(errno))
    } else {
        Ok(code as usize)
    }
}

fn to_count_errno(code: i32, errno: u32) -> (r: Result<usize, Error>)
    ensures
        r == errno_count_of(code, errno),
{
    match to_result_errno(code, errno) {
        Ok(count) => Ok(count as usize),
        Err(e) => Err(e),
    }
}

/// A socket.
#[derive(Clone, Copy, Debug, PartialEq, Eq, Structural)]
pub struct Socket {
    /// Its file descriptor.
    pub fd: i32,
}

/// Whether a call hands the kernel's form of `addr` over, of which there must be one.
pub open spec fn carries(addr: SocketAddr, c: Sockaddr, len: usize) -> bool {
    to_c(addr) matches Ok((family, data, l)) && c.sa_family == family && c.data@ == data && len == l
}

/// Whether a peer address that the kernel reported is `r`.
pub open spec fn peer_of(sa: Sockaddr, socklen: usize, r: Result<SocketAddr, Error>) -> bool {
    match from_c(sa.sa_family, sa.data@, socklen) {
        Some(p) => r matches Ok(addr) && parts(addr) == p && (addr matches SocketAddr::V6(a)
            ==> a.flowinfo == 0),
        None => r == Err::<SocketAddr, Error>(Error(EINVAL)),
    }
}

impl Socket {
    /// Create a socket.
    pub fn new(domain: Domain, sock_type: SockType, protocol: Protocol) -> (call: Call)
        ensures
            call == (Call::SockSocket { domain, sock_type, protocol }),
    {
        Call::SockSocket { domain, sock_type, protocol }
    }

    /// The socket.
    pub fn new_done(code: i32, errno: u32) -> (r: Result<Socket, Error>)
        ensures
            r == (match errno_result_of(code, errno) {
                Ok(fd) => Ok::<Socket, Error>(Socket { fd }),
                Err(e) => Err(e),
            }),
    {
        match to_result_errno(code, errno) {
            Ok(fd) => Ok(Socket { fd }),
            Err(e) => Err(e),
        }
    }

    /// Bind the socket to an address.
    pub fn bind(&mut self, addr: &SocketAddr) -> (r: Result<Call, Error>)
        ensures
            *final(self) == *old(self),
            match to_c(*addr) {
                Ok(_) => r matches Ok(Call::SockBind { fd, addr: c, addrlen }) && fd == old(self).fd
                    && carries(*addr, c, addrlen),
                Err(e) => r == Err::<Call, Error>(e),
            },
    {
        match try_sockaddr_to_c(addr) {
            Ok((sockaddr, socklen)) => Ok(
                Call::SockBind { fd: self.fd, addr: sockaddr, addrlen: socklen },
            ),
            Err(e) => Err(e),
        }
    }

    /// Connect the socket to an address.
    pub fn connect(&mut self, addr: &SocketAddr) -> (r: Result<Call, Error>)
        ensures
            *final(self) == *old(self),
            match to_c(*addr) {
                Ok(_) => r matches Ok(Call::SockConnect { fd, addr: c, addrlen }) && fd == old(
                    self,
                ).fd && carries(*addr, c, addrlen),
                Err(e) => r == Err::<Call, Error>(e),
            },
    {
        match try_sockaddr_to_c(addr) {
            Ok((sockaddr, socklen)) => Ok(
                Call::SockConnect { fd: self.fd, addr: sockaddr, addrlen: socklen },
            ),
            Err(e) => Err(e),
        }
    }

    /// Whether a call that only succeeds or fails succeeded.
    pub fn void_done(code: i32, errno: u32) -> (r: Result<(), Error>)
        ensures
            r == (match errno_result_of(code, errno) {
                Ok(_) => Ok::<(), Error>(()),
                Err(e) => Err(e),
            }),
    {
        match to_result_errno(code, errno) {
            Ok(_) => Ok(()),
            Err(e) => Err(e),
        }
    }

    /// Wait for connections, of which `backlog` may be pending.
    pub fn listen(&mut self, backlog: i32) -> (call: Call)
        ensures
            *final(self) == *old(self),
            call == (Call::SockListen { fd: old(self).fd, backlog }),
    {
        Call::SockListen { fd: self.fd, backlog }
    }

    /// Accept a connection.
    pub fn accept(&mut self) -> (call: Call)
        ensures
            *final(self) == *old(self),
            call == (Call::SockAccept { fd: old(self).fd, addrlen: SOCKADDR_SIZE }),
    {
        Call::SockAccept { fd: self.fd, addrlen: SOCKADDR_SIZE }
    }

    /// Receive up to `size` bytes, and the address that they come from.
    pub fn recv_from(&self, size: usize) -> (call: Call)
        ensures
            call == (Call::SockRecvFrom { fd: self.fd, size, addrlen: SOCKADDR_SIZE }),
    {
        Call::SockRecvFrom { fd: self.fd, size, addrlen: SOCKADDR_SIZE }
    }

    /// How many bytes were received, and from which address.
    pub fn recv_from_done(code: i32, errno: u32, sa: &Sockaddr, socklen: usize) -> (r: Result<
        (usize, SocketAddr),
        Error,
    >)
        ensures
            match errno_count_of(code, errno) {
                Err(e) => r == Err::<(usize, SocketAddr), Error>(e),
                Ok(count) => match r {
                    Ok((n, addr)) => n == count && peer_of(*sa, socklen, Ok(addr)),
                    Err(e) => peer_of(*sa, socklen, Err(e)),
                },
            },
    {
        match to_count_errno(code, errno) {
            Ok(count) => match try_sockaddr_from_c(sa, socklen) {
                Ok(peer) => Ok((count, peer)),
                Err(e) => Err(e),
            },
            Err(e) => Err(e),
        }
    }

    /// Send data to an address.
    pub fn send_to(&self, buf: Vec<u8>, addr: &SocketAddr) -> (r: Result<Call, Error>)
        ensures
            match to_c(*addr) {
                Ok(_) => r matches Ok(Call::SockSendTo { fd, bytes, addr: c, addrlen }) && fd
                    == self.fd && bytes == buf && carries(*addr, c, addrlen),
                Err(e) => r == Err::<Call, Error>(e),
            },
    {
        match try_sockaddr_to_c(addr) {
            Ok((sa, socklen)) => Ok(
                Call::SockSendTo { fd: self.fd, bytes: buf, addr: sa, addrlen: socklen },
            ),
            Err(e) => Err(e),
        }
    }

    /// Send data to the peer.
    pub fn send(&self, buf: Vec<u8>) -> (call: Call)
        ensures
            call == (Call::SockSend { fd: self.fd, bytes: buf }),
    {
        Call::SockSend { fd: self.fd, bytes: buf }
    }

    /// Receive up to `size` bytes from the peer.
    pub fn recv(&self, size: usize) -> (call: Call)
        ensures
            call == (Call::SockRecv { fd: self.fd, size }),
    {
        Call::SockRecv { fd: self.fd, size }
    }

    /// How many bytes were sent or received.
    pub fn count_done(code: i32, errno: u32) -> (r: Result<usize, Error>)
        ensures
            r == errno_count_of(code, errno),
    {
        to_count_errno(code, errno)
    }

    /// Close the socket.
    pub fn drop(self) -> (call: Call)
        ensures
            call == (Call::SockClose { fd: self.fd }),
    {
        Call::SockClose { fd: self.fd }
    }
}

/// A call that the kernel answers with a count, which is the return code unless that is negative.
/// Then the error is the one in `errno`.
pub proof fn law_count_is_code(code: i32, errno: u32, r: Result<usize, Error>)
    requires
        call_ensures(Socket::count_done, (code, errno), r),
    ensures
        code >= 0 ==> (r matches Ok(n) && n == code),
        code < 0 ==> (r matches Err(e) && e.0 == errno),
{
}

/// The descriptor of a new socket is the return code, and any other call succeeds, unless the
/// return code is negative.  Then the error is the one in `errno`.
pub proof fn law_socket_is_code(
    code: i32,
    errno: u32,
    sock: Result<Socket, Error>,
    void: Result<(), Error>,
)
    requires
        call_ensures(Socket::new_done, (code, errno), sock),
        call_ensures(Socket::void_done, (code, errno), void),
    ensures
        code >= 0 ==> (sock matches Ok(s) && s.fd == code) && void is Ok,
        code < 0 ==> (sock matches Err(e) && e.0 == errno) && (void matches Err(e) && e.0 == errno),
{
}

/// What is received comes with its length and with the address of its sender: `peer` is an address
/// that the kernel reports in its form.
pub proof fn law_datagram_has_peer(
    peer: SocketAddr,
    c: Sockaddr,
    len: usize,
    code: i32,
    errno: u32,
    r: Result<(usize, SocketAddr), Error>,
)
    requires
        call_ensures(try_sockaddr_to_c, (&peer,), Ok::<(Sockaddr, usize), Error>((c, len))),
        call_ensures(Socket::recv_from_done, (code, errno, &c, len), r),
    ensures
        code < 0 ==> (r matches Err(e) && e.0 == errno),
        code >= 0 ==> (r matches Ok((n, got)) && n == code && match (peer, got) {
            (SocketAddr::V4(a), SocketAddr::V4(b)) => a.port == b.port && a.ip.octets@
                == b.ip.octets@,
            (SocketAddr::V6(a), SocketAddr::V6(b)) => a.port == b.port && a.ip.octets@
                == b.ip.octets@ && a.scope_id == b.scope_id,
            _ => false,
        }),
{
    match peer {
        SocketAddr::V4(a) => crate::net::ipaddr::law_v4_round_trip(a),
        SocketAddr::V6(a) => crate::net::ipaddr::law_v6_round_trip(a),
    }
}

/// What is sent to an address goes out unchanged on the socket, with the form that the address has
/// for the kernel: converted back it is the address.  It fails only where the address has no such
/// form.
pub proof fn law_send_to_reaches_address(
    sock: Socket,
    buf: Vec<u8>,
    addr: SocketAddr,
    r: Result<Call, Error>,
    back: Result<SocketAddr, Error>,
)
    requires
        call_ensures(Socket::send_to, (&sock, buf, &addr), r),
        r matches Ok(Call::SockSendTo { addr: c, addrlen, .. }) ==> call_ensures(
            try_sockaddr_from_c,
            (&c, addrlen),
            back,
        ),
    ensures
        r is Err <==> (addr matches SocketAddr::V6(a) && (a.flowinfo != 0 || a.scope_id > 255)),
        r matches Err(e) ==> e.0 == 22,
        r matches Ok(call) ==> {
            &&& call matches Call::SockSendTo { fd, bytes, .. }
            &&& fd == sock.fd
            &&& bytes@ == buf@
            &&& back matches Ok(got)
            &&& match (addr, got) {
                (SocketAddr::V4(a), SocketAddr::V4(b)) => a.port == b.port && a.ip.octets@
                    == b.ip.octets@,
                (SocketAddr::V6(a), SocketAddr::V6(b)) => a.port == b.port && a.ip.octets@
                    == b.ip.octets@ && a.scope_id == b.scope_id,
                _ => false,
            }
        },
{
    match addr {
        SocketAddr::V4(a) => crate::net::ipaddr::law_v4_round_trip(a),
        SocketAddr::V6(a) => if a.flowinfo == 0 && a.scope_id <= 255 {
            crate::net::ipaddr::law_v6_round_trip(a)
        },
    }
}

/// A socket is bound or connected to the address that was asked for: the form that the kernel gets,
/// converted back, is that address.
pub proof fn law_bind_and_connect_reach_address(
    sock: &mut Socket,
    other: &mut Socket,
    addr: SocketAddr,
    bound: Call,
    connected: Call,
    back: Result<SocketAddr, Error>,
)
    requires
        call_ensures(Socket::bind, (sock, &addr), Ok::<Call, Error>(bound)),
        call_ensures(Socket::connect, (other, &addr), Ok::<Call, Error>(connected)),
        bound matches Call::SockBind { addr: c, addrlen, .. } ==> call_ensures(
            try_sockaddr_from_c,
            (&c, addrlen),
            back,
        ),
    ensures
        final(sock).fd == old(sock).fd,
        final(other).fd == old(other).fd,
        ({
            &&& bound matches Call::SockBind { fd, addr: c, addrlen }
            &&& connected matches Call::SockConnect { fd: f, addr: d, addrlen: l }
            &&& fd == old(sock).fd && f == old(other).fd
            &&& d.data@ == c.data@ && d.sa_family == c.sa_family && l == addrlen
        }),
        back matches Ok(got) && match (addr, got) {
            (SocketAddr::V4(a), SocketAddr::V4(b)) => a.port == b.port && a.ip.octets@
                == b.ip.octets@,
            (SocketAddr::V6(a), SocketAddr::V6(b)) => a.port == b.port && a.ip.octets@
                == b.ip.octets@ && a.scope_id == b.scope_id,
            _ => false,
        },
{
    match addr {
        SocketAddr::V4(a) => crate::net::ipaddr::law_v4_round_trip(a),
        SocketAddr::V6(a) => crate::net::ipaddr::law_v6_round_trip(a),
    }
}

} // verus!
