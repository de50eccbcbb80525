use vstd::prelude::*;

pub mod addrtype;
pub mod command;
pub mod method;

verus! {

/// Version byte of every SOCKS5 request and response.
pub const SOCKS5: u8 = 0x05;

/// Reserved byte.
pub const RESERVED: u8 = 0x00;

/// An IP address as its raw octets.
#[derive(Clone, Copy, Debug, PartialEq, Eq)]
pub enum IpAddr {
    V4([u8; 4]),
    V6([u8; 16]),
}

impl View for IpAddr {
    /// The octets: four of them for IPv4, sixteen for IPv6.
    type V = Seq<u8>;

    open spec fn view(&self) -> Seq<u8> {
        match self {
            IpAddr::V4(a) => a@,
            IpAddr::V6(a) => a@,
        }
    }
}

impl IpAddr {
    /// The octets of the address, in network order.
    pub fn octets(&self) -> (r: Vec<u8>)
        ensures
            r@ == self@,
            self is V4 ==> r@.len() == 4,
            self is V6 ==> r@.len() == 16,
    {
        let a: &[u8] = match self {
            IpAddr::V4(a) => a.as_slice(),
            IpAddr::V6(a) => a.as_slice(),
        };
        copy_range(a, 0, a.len())
    }
}

/// Copies `b[start..end]` into an owned vector.
pub(crate) fn copy_range(b: &[u8], start: usize, end: usize) -> (r: Vec<u8>)
    requires
        start <= end <= b@.len(),
    ensures
        r@ == b@.subrange(start as int, end as int),
{
    let mut r: Vec<u8> = Vec::new();
    let mut i: usize = start;
    while i < end
        invariant
            start <= i <= end <= b@.len(),
            r@ == b@.subrange(start as int, i as int),
        decreases end - i,
    {
        r.push(b[i]);
        proof {
            assert(b@.subrange(start as int, i + 1) =~= b@.subrange(start as int, i as int).push(b@[i as int]));
        }
        i = i + 1;
    }
    r
}

/// An IP address and a port.
#[derive(Clone, Copy, Debug, PartialEq, Eq)]
pub struct SocketAddr {
    pub ip: IpAddr,
    pub port: u16,
}

impl View for SocketAddr {
    /// The octets of the address and the port.
    type V = (Seq<u8>, u16);

    open spec fn view(&self) -> (Seq<u8>, u16) {
        (self.ip@, self.port)
    }
}

impl SocketAddr {
    pub fn new(ip: IpAddr, port: u16) -> (r: SocketAddr)
        ensures
            r.ip == ip,
            r.port == port,
    {
        SocketAddr { ip, port }
    }

    pub fn ip(&self) -> (r: IpAddr)
        ensures
            r == self.ip,
    {
        self.ip
    }

    pub fn port(&self) -> (r: u16)
        ensures
            r == self.port,
    {
        self.port
    }
}

/// Destination address in a request.
#[derive(Clone, Debug, PartialEq, Eq)]
pub enum DestAddr {
    /// An IP address.
    IP(IpAddr),
    /// A domain name, as the raw bytes the client sent (not resolved yet).
    FQDN(Vec<u8>),
}

/// A destination address over mathematical sequences.
pub enum DestAddrView {
    IP(Seq<u8>),
    FQDN(Seq<u8>),
}

impl View for DestAddr {
    type V = DestAddrView;

    open spec fn view(&self) -> DestAddrView {
        match self {
            DestAddr::IP(a) => DestAddrView::IP(a@),
            DestAddr::FQDN(d) => DestAddrView::FQDN(d@),
        }
    }
}

/// A parsed request: destination address and port.
#[derive(Clone, Debug, PartialEq, Eq)]
pub struct Request {
    pub dest_addr: DestAddr,
    pub dest_port: u16,
}

pub struct RequestView {
    pub dest_addr: DestAddrView,
    pub dest_port: u16,
}

impl View for Request {
    type V = RequestView;

    open spec fn view(&self) -> RequestView {
        RequestView { dest_addr: self.dest_addr@, dest_port: self.dest_port }
    }
}

impl Request {
    pub fn new(dest_addr: DestAddr, dest_port: u16) -> (r: Self)
        ensures
            r.dest_addr == dest_addr,
            r.dest_port == dest_port,
    {
        Self { dest_addr, dest_port }
    }
}

} // verus!
