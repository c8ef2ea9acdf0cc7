//! Sockets and their addresses.
use vstd::prelude::*;

verus! {

/// `AF_INET`: IPv4.
pub const AF_INET: i32 = 2;

/// `SOCK_STREAM`
pub const SOCK_STREAM: i32 = 1;

/// `SOCK_DGRAM`
pub const SOCK_DGRAM: i32 = 2;

/// `INADDR_ANY`: every local address.
pub const INADDR_ANY: u32 = 0;

/// Size in bytes of a `sockaddr_in`, and so its `sin_len`.
pub const SOCKADDR_IN_LEN: u8 = 16;

/// `socket` of the 11.00 build.
pub struct Socket {}

impl Socket {
    /// Byte offset of `so_timeo`, which serves only as a sleep address.
    pub const TIMEOUT_OFFSET: usize = 0x6e;

    /// Byte offset of `so_error`, a 16-bit atomic.
    pub const ERROR_OFFSET: usize = 0x70;

    /// Address of `so_timeo` in the socket at `so`.
    pub fn timeout(so: usize) -> (r: usize)
        requires
            so + Socket::TIMEOUT_OFFSET <= usize::MAX,
        ensures
            r == so + Socket::TIMEOUT_OFFSET,
    {
        so + Socket::TIMEOUT_OFFSET
    }

    /// Address of `so_error` in the socket at `so`.
    pub fn error(so: usize) -> (r: usize)
        requires
            so + Socket::ERROR_OFFSET <= usize::MAX,
        ensures
            r == so + Socket::ERROR_OFFSET,
    {
        so + Socket::ERROR_OFFSET
    }
}

/// `port` in network byte order, as a value the little-endian x86-64 target
/// stores with its high byte first.
pub open spec fn net_order(port: u16) -> u16 {
    (((port & 0xff) << 8) | (port >> 8)) as u16
}

/// `in_addr`: an IPv4 address as stored.
#[derive(Debug, Clone, Copy, PartialEq, Eq, Structural)]
pub struct InAddr {
    pub s_addr: u32,
}

impl InAddr {
    /// `INADDR_ANY`.
    pub fn any() -> (r: InAddr)
        ensures
            r.s_addr == INADDR_ANY,
    {
        InAddr { s_addr: INADDR_ANY }
    }
}

impl From<u32> for InAddr {
    fn from(value: u32) -> (r: InAddr) {
        InAddr { s_addr: value }
    }
}

impl vstd::std_specs::convert::FromSpecImpl<u32> for InAddr {
    open spec fn obeys_from_spec() -> bool {
        true
    }

    open spec fn from_spec(v: u32) -> InAddr {
        InAddr { s_addr: v }
    }
}

/// `sockaddr`: the generic socket address.
#[derive(Debug, Clone, Copy, PartialEq, Eq)]
pub struct SockAddr {
    pub sa_len: u8,
    pub sa_family: u8,
    pub sa_data: [u8; 14],
}

/// `sockaddr_in`: an IPv4 socket address.
#[derive(Debug, Clone, Copy, PartialEq, Eq)]
pub struct SockAddrIn {
    pub sin_len: u8,
    pub sin_family: u8,
    /// The port, in network byte order.
    pub sin_port: u16,
    pub sin_addr: InAddr,
    pub sin_zero: [u8; 8],
}

impl SockAddrIn {
    /// The address `addr` with `port`, given in host byte order.
    pub fn new(addr: InAddr, port: u16) -> (r: SockAddrIn)
        ensures
            r.sin_len == SOCKADDR_IN_LEN,
            r.sin_family == AF_INET,
            r.sin_port == net_order(port),
            r.sin_addr == addr,
            r.sin_zero@ == Seq::new(8, |i: int| 0u8),
    {
        let r = SockAddrIn {
            sin_len: SOCKADDR_IN_LEN,
            sin_family: AF_INET as u8,
            sin_port: ((port & 0xff) << 8) | (port >> 8),
            sin_addr: addr,
            sin_zero: [0u8; 8],
        };
        assert(r.sin_zero@ =~= Seq::new(8, |i: int| 0u8));
        r
    }

    /// The same address seen as a generic `sockaddr`: `sa_data` holds the
    /// bytes of the port, the address and the zero padding as the
    /// little-endian target lays them out.
    pub fn as_sockaddr(&self) -> (r: SockAddr)
        ensures
            r.sa_len == self.sin_len,
            r.sa_family == self.sin_family,
            r.sa_data@ == seq![
                (self.sin_port & 0xff) as u8,
                (self.sin_port >> 8) as u8,
                (self.sin_addr.s_addr & 0xff) as u8,
                ((self.sin_addr.s_addr >> 8) & 0xff) as u8,
                ((self.sin_addr.s_addr >> 16) & 0xff) as u8,
                (self.sin_addr.s_addr >> 24) as u8,
            ] + self.sin_zero@,
    {
        let p = self.sin_port;
        let a = self.sin_addr.s_addr;
        let z = self.sin_zero;
        let data: [u8; 14] = [
            (p & 0xff) as u8,
            (p >> 8) as u8,
            (a & 0xff) as u8,
            ((a >> 8) & 0xff) as u8,
            ((a >> 16) & 0xff) as u8,
            (a >> 24) as u8,
            z[0],
            z[1],
            z[2],
            z[3],
            z[4],
            z[5],
            z[6],
            z[7],
        ];
        let r = SockAddr { sa_len: self.sin_len, sa_family: self.sin_family, sa_data: data };
        assert(r.sa_data@ =~= seq![
            (p & 0xff) as u8,
            (p >> 8) as u8,
            (a & 0xff) as u8,
            ((a >> 8) & 0xff) as u8,
            ((a >> 16) & 0xff) as u8,
            (a >> 24) as u8,
        ] + z@);
        r
    }
}

} // verus!
