//! Addresses, and the form in which the kernel takes them.
//!
//! The kernel's `struct sockaddr` is the address family followed by bytes.  Of an IPv4 address
//! these are the port and the address, both in network order.  Of an IPv6 address they are followed
//! by the scope, in one byte.
use crate::error::Error;
use crate::raw::{AF_INET, AF_INET6, EINVAL, SOCKADDR_IN6_SIZE, SOCKADDR_IN_SIZE};
use vstd::prelude::*;

verus! {

/// An IPv4 address.
#[derive(Clone, Copy, Debug, PartialEq, Eq)]
pub struct Ipv4Addr {
    /// The address, in network order.
    pub octets: [u8; 4],
}

/// An IPv6 address.
#[derive(Clone, Copy, Debug, PartialEq, Eq)]
pub struct Ipv6Addr {
    /// The address, in network order.
    pub octets: [u8; 16],
}

/// The address of an IPv4 socket.
#[derive(Clone, Copy, Debug, PartialEq, Eq)]
pub struct SocketAddrV4 {
    /// The address.
    pub ip: Ipv4Addr,
    /// The port.
    pub port: u16,
}

/// The address of an IPv6 socket.
#[derive(Clone, Copy, Debug, PartialEq, Eq)]
pub struct SocketAddrV6 {
    /// The address.
    pub ip: Ipv6Addr,
    /// The port.
    pub port: u16,
    /// The flow information, which the kernel does not have.
    pub flowinfo: u32,
    /// The scope, of which the kernel has a byte.
    pub scope_id: u32,
}

/// The address of a socket.
#[derive(Clone, Copy, Debug, PartialEq, Eq)]
pub enum SocketAddr {
    /// An IPv4 address.
    V4(SocketAddrV4),
    /// An IPv6 address.
    V6(SocketAddrV6),
}

/// The kernel's `struct in_addr`.
#[derive(Clone, Copy, Debug, PartialEq, Eq)]
pub struct InAddr {
    /// The bytes, in network order.
    pub s4_addr: [u8; 4],
}

/// The kernel's `struct in6_addr`.
#[derive(Clone, Copy, Debug, PartialEq, Eq)]
pub struct In6Addr {
    /// The bytes, in network order.
    pub s6_addr: [u8; 16],
}

/// The kernel's `struct sockaddr_in`.
#[derive(Clone, Copy, Debug, PartialEq, Eq)]
pub struct SockaddrIn {
    /// The address family.
    pub sin_family: u16,
    /// The port, in network order.
    pub sin_port: [u8; 2],
    /// The address.
    pub sin_addr: InAddr,
}

/// The kernel's `struct sockaddr_in6`.
#[derive(Clone, Copy, Debug, PartialEq, Eq)]
pub struct SockaddrIn6 {
    /// The address family.
    pub sin6_family: u16,
    /// The port, in network order.
    pub sin6_port: [u8; 2],
    /// The address.
    pub sin6_addr: In6Addr,
    /// The scope.
    pub sin6_scope_id: u8,
}

/// The kernel's `struct sockaddr`.
#[derive(Clone, Copy, Debug, PartialEq, Eq)]
pub struct Sockaddr {
    /// The address family.
    pub sa_family: u16,
    /// The rest of the address.
    pub data: [u8; 22],
}

/// The bytes of a port, in network order.
pub open spec fn port_bytes(port: u16) -> Seq<u8> {
    seq![(port / 256) as u8, (port % 256) as u8]
}

/// The port that two bytes in network order stand for.
pub open spec fn port_of(bytes: Seq<u8>) -> u16 {
    (bytes[0] * 256 + bytes[1]) as u16
}

/// `n` zero bytes.
pub open spec fn zeros(n: nat) -> Seq<u8> {
    Seq::new(n, |i: int| 0u8)
}

/// What follows the address family of an IPv4 address.
pub open spec fn v4_data(sa: SocketAddrV4) -> Seq<u8> {
    port_bytes(sa.port) + sa.ip.octets@
}

/// What follows the address family of an IPv6 address.
pub open spec fn v6_data(sa: SocketAddrV6) -> Seq<u8> {
    (port_bytes(sa.port) + sa.ip.octets@).push(sa.scope_id as u8)
}

/// Whether the kernel can hold an IPv6 address.
pub open spec fn v6_fits(sa: SocketAddrV6) -> bool {
    sa.flowinfo == 0 && sa.scope_id <= u8::MAX
}

/// The kernel's form of a port.
pub fn port_to_c(port: u16) -> (r: [u8; 2])
    ensures
        r@ == port_bytes(port),
{
    let r: [u8; 2] = [(port / 256) as u8, (port % 256) as u8];
    assert(r@ =~= port_bytes(port));
    r
}

/// The port in the kernel's form.
pub fn port_from_c(bytes: [u8; 2]) -> (r: u16)
    ensures
        r == port_of(bytes@),
{
    bytes[0] as u16 * 256 + bytes[1] as u16
}

/// The kernel's form of an IPv4 address.
pub fn ipv4_addr_to_c(addr: &Ipv4Addr) -> (r: InAddr)
    ensures
        r.s4_addr == addr.octets,
{
    InAddr { s4_addr: addr.octets }
}

/// The IPv4 address in the kernel's form.
pub fn ipv4_addr_from_c(addr: &InAddr) -> (r: Ipv4Addr)
    ensures
        r.octets == addr.s4_addr,
{
    Ipv4Addr { octets: addr.s4_addr }
}

/// The kernel's form of an IPv6 address.
pub fn ipv6_addr_to_c(addr: &Ipv6Addr) -> (r: In6Addr)
    ensures
        r.s6_addr == addr.octets,
{
    In6Addr { s6_addr: addr.octets }
}

/// The IPv6 address in the kernel's form.
pub fn ipv6_addr_from_c(addr: &In6Addr) -> (r: Ipv6Addr)
    ensures
        r.octets == addr.s6_addr,
{
    Ipv6Addr { octets: addr.s6_addr }
}

/// The kernel's form of the address of an IPv4 socket.
pub fn sockaddr_v4_to_c(sa: &SocketAddrV4) -> (r: SockaddrIn)
    ensures
        r.sin_family == AF_INET,
        r.sin_port@ == port_bytes(sa.port),
        r.sin_addr.s4_addr == sa.ip.octets,
{
    SockaddrIn {
        sin_family: AF_INET,
        sin_port: port_to_c(sa.port),
        sin_addr: ipv4_addr_to_c(&sa.ip),
    }
}

/// The address of an IPv4 socket in the kernel's form, if the family says that it is one.
pub fn try_sockaddr_v4_from_c(sa: &SockaddrIn) -> (r: Result<SocketAddrV4, Error>)
    ensures
        r == (if sa.sin_family != AF_INET {
            Err::<SocketAddrV4, Error>(Error(EINVAL))
        } else {
            Ok(
                SocketAddrV4 {
                    ip: Ipv4Addr { octets: sa.sin_addr.s4_addr },
                    port: port_of(sa.sin_port@),
                },
            )
        }),
{
    if sa.sin_family != AF_INET {
        return Err(Error(EINVAL));
    }
    Ok(SocketAddrV4 { ip: ipv4_addr_from_c(&sa.sin_addr), port: port_from_c(sa.sin_port) })
}

/// The kernel's form of the address of an IPv6 socket, if the kernel can hold it.
pub fn try_sockaddr_v6_to_c(sa: &SocketAddrV6) -> (r: Result<SockaddrIn6, Error>)
    ensures
        !v6_fits(*sa) ==> r == Err::<SockaddrIn6, Error>(Error(EINVAL)),
        v6_fits(*sa) ==> {
            &&& r matches Ok(c)
            &&& c.sin6_family == AF_INET6
            &&& c.sin6_port@ == port_bytes(sa.port)
            &&& c.sin6_addr.s6_addr == sa.ip.octets
            &&& c.sin6_scope_id == sa.scope_id
        },
{
    if sa.flowinfo != 0 || sa.scope_id > u8::MAX as u32 {
        return Err(Error(EINVAL));
    }
    Ok(
        SockaddrIn6 {
            sin6_family: AF_INET6,
            sin6_port: port_to_c(sa.port),
            sin6_addr: ipv6_addr_to_c(&sa.ip),
            sin6_scope_id: sa.scope_id as u8,
        },
    )
}

/// The address of an IPv6 socket in the kernel's form, if the family says that it is one.
pub fn try_sockaddr_v6_from_c(sa: &SockaddrIn6) -> (r: Result<SocketAddrV6, Error>)
    ensures
        r == (if sa.sin6_family != AF_INET6 {
            Err::<SocketAddrV6, Error>(Error(EINVAL))
        } else {
            Ok(
                SocketAddrV6 {
                    ip: Ipv6Addr { octets: sa.sin6_addr.s6_addr },
                    port: port_of(sa.sin6_port@),
                    flowinfo: 0,
                    scope_id: sa.sin6_scope_id as u32,
                },
            )
        }),
{
    if sa.sin6_family != AF_INET6 {
        return Err(Error(EINVAL));
    }
    Ok(
        SocketAddrV6 {
            ip: ipv6_addr_from_c(&sa.sin6_addr),
            port: port_from_c(sa.sin6_port),
            flowinfo: 0,
            scope_id: sa.sin6_scope_id as u32,
        },
    )
}

/// What the kernel gets for a socket address: its form, and its length.  Bytes that the address
/// does not use are zero.
pub open spec fn to_c(sa: SocketAddr) -> Result<(u16, Seq<u8>, usize), Error> {
    match sa {
        SocketAddr::V4(sa4) => Ok((AF_INET, v4_data(sa4) + zeros(16), SOCKADDR_IN_SIZE)),
        SocketAddr::V6(sa6) => if v6_fits(sa6) {
            Ok((AF_INET6, v6_data(sa6) + zeros(3), SOCKADDR_IN6_SIZE))
        } else {
            Err(Error(EINVAL))
        },
    }
}

/// What an address in the kernel's form, with its length, stands for, up to the octets of the IP
/// address: `None` where it is refused, otherwise family, port, octets and scope.
pub open spec fn from_c(family: u16, data: Seq<u8>, socklen: usize) -> Option<
    (u16, u16, Seq<u8>, u32),
> {
    if family == AF_INET && socklen == SOCKADDR_IN_SIZE {
        Some((AF_INET, port_of(data), data.subrange(2, 6), 0))
    } else if family == AF_INET6 && socklen == SOCKADDR_IN6_SIZE {
        Some((AF_INET6, port_of(data), data.subrange(2, 18), data[18] as u32))
    } else {
        None
    }
}

/// The parts of a socket address.
pub open spec fn parts(sa: SocketAddr) -> (u16, u16, Seq<u8>, u32) {
    match sa {
        SocketAddr::V4(sa4) => (AF_INET, sa4.port, sa4.ip.octets@, 0),
        SocketAddr::V6(sa6) => (AF_INET6, sa6.port, sa6.ip.octets@, sa6.scope_id),
    }
}

/// The kernel's form of a socket address, and its length.
pub fn try_sockaddr_to_c(sa: &SocketAddr) -> (r: Result<(Sockaddr, usize), Error>)
    ensures
        match to_c(*sa) {
            Ok((family, data, len)) => r matches Ok((c, l)) && c.sa_family == family && c.data@
                == data && l == len,
            Err(e) => r == Err::<(Sockaddr, usize), Error>(e),
        },
{
    let mut data: [u8; 22] = [0u8;22];
    match sa {
        SocketAddr::V4(sa4) => {
            let src = sockaddr_v4_to_c(sa4);
            data[0] = src.sin_port[0];
            data[1] = src.sin_port[1];
            let mut i: usize = 0;
            while i < 4
                invariant
                    i <= 4,
                    src.sin_port@ == port_bytes(sa4.port),
                    src.sin_addr.s4_addr == sa4.ip.octets,
                    data@.len() == 22,
                    data@[0] == src.sin_port@[0],
                    data@[1] == src.sin_port@[1],
                    forall|j: int| 0 <= j < i ==> data@[2 + j] == sa4.ip.octets@[j],
                    forall|j: int| 2 + i <= j < 22 ==> data@[j] == 0,
                decreases 4 - i,
            {
                data[2 + i] = src.sin_addr.s4_addr[i];
                i = i + 1;
            }
            assert(data@ =~= v4_data(*sa4) + zeros(16)) by {
                assert forall|k: int| 2 <= k < 6 implies data@[k] == sa4.ip.octets@[k - 2] by {
                    assert(data@[2 + (k - 2)] == sa4.ip.octets@[k - 2]);
                }
            }
            Ok((Sockaddr { sa_family: src.sin_family, data }, SOCKADDR_IN_SIZE))
        },
        SocketAddr::V6(sa6) => {
            let src = match try_sockaddr_v6_to_c(sa6) {
                Ok(src) => src,
                Err(e) => {
                    return Err(e);
                },
            };
            data[0] = src.sin6_port[0];
            data[1] = src.sin6_port[1];
            let mut i: usize = 0;
            while i < 16
                invariant
                    i <= 16,
                    src.sin6_port@ == port_bytes(sa6.port),
                    src.sin6_addr.s6_addr == sa6.ip.octets,
                    data@.len() == 22,
                    data@[0] == src.sin6_port@[0],
                    data@[1] == src.sin6_port@[1],
                    forall|j: int| 0 <= j < i ==> data@[2 + j] == sa6.ip.octets@[j],
                    forall|j: int| 2 + i <= j < 22 ==> data@[j] == 0,
                decreases 16 - i,
            {
                data[2 + i] = src.sin6_addr.s6_addr[i];
                i = i + 1;
            }
            data[18] = src.sin6_scope_id;
            assert(data@ =~= v6_data(*sa6) + zeros(3)) by {
                assert forall|k: int| 2 <= k < 18 implies data@[k] == sa6.ip.octets@[k - 2] by {
                    assert(data@[2 + (k - 2)] == sa6.ip.octets@[k - 2]);
                }
            }
            Ok((Sockaddr { sa_family: src.sin6_family, data }, SOCKADDR_IN6_SIZE))
        },
    }
}

/// The socket address in the kernel's form.  The length must be exactly that of the family.
pub fn try_sockaddr_from_c(sa: &Sockaddr, socklen: usize) -> (r: Result<SocketAddr, Error>)
    ensures
        match from_c(sa.sa_family, sa.data@, socklen) {
            Some(p) => r matches Ok(addr) && parts(addr) == p && (addr matches SocketAddr::V6(a)
                ==> a.flowinfo == 0),
            None => r == Err::<SocketAddr, Error>(Error(EINVAL)),
        },
{
    if sa.sa_family == AF_INET {
        if socklen != SOCKADDR_IN_SIZE {
            return Err(Error(EINVAL));
        }
        let d = &sa.data;
        let sa4 = SockaddrIn {
            sin_family: sa.sa_family,
            sin_port: [d[0], d[1]],
            sin_addr: InAddr { s4_addr: [d[2], d[3], d[4], d[5]] },
        };
        assert(sa4.sin_addr.s4_addr@ =~= sa.data@.subrange(2, 6));
        match try_sockaddr_v4_from_c(&sa4) {
            Ok(res) => Ok(SocketAddr::V4(res)),
            Err(e) => Err(e),
        }
    } else if sa.sa_family == AF_INET6 {
        if socklen != SOCKADDR_IN6_SIZE {
            return Err(Error(EINVAL));
        }
        let d = &sa.data;
        let sa6 = SockaddrIn6 {
            sin6_family: sa.sa_family,
            sin6_port: [d[0], d[1]],
            sin6_addr: In6Addr {
                s6_addr: [
                    d[2], d[3], d[4], d[5], d[6], d[7], d[8], d[9],
                    d[10], d[11], d[12], d[13], d[14], d[15], d[16], d[17],
                ],
            },
            sin6_scope_id: d[18],
        };
        assert(sa6.sin6_addr.s6_addr@ =~= sa.data@.subrange(2, 18));
        match try_sockaddr_v6_from_c(&sa6) {
            Ok(res) => Ok(SocketAddr::V6(res)),
            Err(e) => Err(e),
        }
    } else {
        Err(Error(EINVAL))
    }
}

proof fn lemma_port_round_trip(port: u16)
    ensures
        port_of(port_bytes(port)) == port,
{
}

/// An IPv6 address that the kernel can hold comes back as it was.
pub proof fn law_v6_round_trip(sa: SocketAddrV6)
    requires
        v6_fits(sa),
    ensures
        to_c(SocketAddr::V6(sa)) matches Ok((family, data, len)) && from_c(family, data, len)
            == Some(parts(SocketAddr::V6(sa))),
{
    lemma_port_round_trip(sa.port);
    let data = v6_data(sa) + zeros(3);
    assert(data.subrange(2, 18) =~= sa.ip.octets@);
}

/// An IPv4 address comes back as it was.
pub proof fn law_v4_round_trip(sa: SocketAddrV4)
    ensures
        to_c(SocketAddr::V4(sa)) matches Ok((family, data, len)) && from_c(family, data, len)
            == Some(parts(SocketAddr::V4(sa))),
{
    lemma_port_round_trip(sa.port);
    let data = v4_data(sa) + zeros(16);
    assert(data.subrange(2, 6) =~= sa.ip.octets@);
}

/// Of two addresses that the kernel can hold, different ones have different forms.
pub proof fn law_addresses_distinct(a: SocketAddr, b: SocketAddr)
    requires
        to_c(a) is Ok,
        to_c(b) is Ok,
        parts(a) != parts(b),
    ensures
        to_c(a)->Ok_0.0 != to_c(b)->Ok_0.0 || to_c(a)->Ok_0.1 != to_c(b)->Ok_0.1,
{
    match a {
        SocketAddr::V4(sa) => law_v4_round_trip(sa),
        SocketAddr::V6(sa) => law_v6_round_trip(sa),
    }
    match b {
        SocketAddr::V4(sa) => law_v4_round_trip(sa),
        SocketAddr::V6(sa) => law_v6_round_trip(sa),
    }
}

/// The bytes of an address in the kernel's form: the port with its high byte first, the octets in
/// their order, the scope of an IPv6 address, and zeros.  Every IPv4 address has such a form, and
/// an IPv6 address where it has no flow information and a scope of one byte.
pub proof fn law_address_bytes(sa: SocketAddr, r: Result<(Sockaddr, usize), Error>)
    requires
        call_ensures(try_sockaddr_to_c, (&sa,), r),
    ensures
        match sa {
            SocketAddr::V4(a) => {
                &&& r matches Ok((c, len))
                &&& c.sa_family == 1
                &&& len == 8
                &&& c.data@.len() == 22
                &&& c.data@[0] * 256 + c.data@[1] == a.port
                &&& forall|i: int| 0 <= i < 4 ==> c.data@[2 + i] == #[trigger] a.ip.octets@[i]
                &&& forall|i: int| 6 <= i < 22 ==> #[trigger] c.data@[i] == 0
            },
            SocketAddr::V6(a) => if a.flowinfo == 0 && a.scope_id < 256 {
                &&& r matches Ok((c, len))
                &&& c.sa_family == 2
                &&& len == 24
                &&& c.data@.len() == 22
                &&& c.data@[0] * 256 + c.data@[1] == a.port
                &&& forall|i: int| 0 <= i < 16 ==> c.data@[2 + i] == #[trigger] a.ip.octets@[i]
                &&& c.data@[18] == a.scope_id
                &&& forall|i: int| 19 <= i < 22 ==> #[trigger] c.data@[i] == 0
            } else {
                r matches Err(e) && e.0 == 22
            },
        },
{
}

/// Two calls that undo each other: an address that was converted for the kernel, and converted back
/// with the length that it had, is the same address.
pub proof fn law_address_comes_back(
    sa: SocketAddr,
    c: Sockaddr,
    len: usize,
    back: Result<SocketAddr, Error>,
)
    requires
        call_ensures(try_sockaddr_to_c, (&sa,), Ok::<(Sockaddr, usize), Error>((c, len))),
        call_ensures(try_sockaddr_from_c, (&c, len), back),
    ensures
        back matches Ok(got) && match (sa, got) {
            (SocketAddr::V4(a), SocketAddr::V4(b)) => a.port == b.port && a.ip.octets@
                == b.ip.octets@,
            (SocketAddr::V6(a), SocketAddr::V6(b)) => a.port == b.port && a.ip.octets@
                == b.ip.octets@ && a.flowinfo == b.flowinfo && a.scope_id == b.scope_id,
            _ => false,
        },
{
    match sa {
        SocketAddr::V4(a) => law_v4_round_trip(a),
        SocketAddr::V6(a) => law_v6_round_trip(a),
    }
}

/// An address in the kernel's form is understood exactly where its family is known and its length
/// is the one of that family.  What it is understood as is in the bytes.
pub proof fn law_address_understood(c: Sockaddr, len: usize, r: Result<SocketAddr, Error>)
    requires
        call_ensures(try_sockaddr_from_c, (&c, len), r),
    ensures
        r is Ok <==> c.sa_family == 1 && len == 8 || c.sa_family == 2 && len == 24,
        r matches Err(e) ==> e.0 == 22,
        r matches Ok(SocketAddr::V4(a)) ==> {
            &&& c.sa_family == 1
            &&& a.port == c.data@[0] * 256 + c.data@[1]
            &&& a.ip.octets@ == c.data@.subrange(2, 6)
        },
        r matches Ok(SocketAddr::V6(a)) ==> {
            &&& c.sa_family == 2
            &&& a.port == c.data@[0] * 256 + c.data@[1]
            &&& a.ip.octets@ == c.data@.subrange(2, 18)
            &&& a.flowinfo == 0
            &&& a.scope_id == c.data@[18]
        },
{
}

/// The parts of an address are converted one for one, both ways.
pub proof fn law_parts_convert(
    port: u16,
    bytes: [u8; 2],
    back: u16,
    v4: Ipv4Addr,
    c4: InAddr,
    v6: Ipv6Addr,
    c6: In6Addr,
)
    requires
        call_ensures(port_to_c, (port,), bytes),
        call_ensures(port_from_c, (bytes,), back),
        call_ensures(ipv4_addr_to_c, (&v4,), c4),
        call_ensures(ipv6_addr_to_c, (&v6,), c6),
    ensures
        bytes@[0] * 256 + bytes@[1] == port,
        back == port,
        c4.s4_addr@ == v4.octets@,
        c6.s6_addr@ == v6.octets@,
        forall|b: Ipv4Addr| #[trigger]
            call_ensures(ipv4_addr_from_c, (&c4,), b) ==> b.octets@ == v4.octets@,
        forall|b: Ipv6Addr| #[trigger]
            call_ensures(ipv6_addr_from_c, (&c6,), b) ==> b.octets@ == v6.octets@,
{
}

} // verus!
