use vstd::prelude::*;

use crate::common::addrtype::{addr_type_of, AddrType};
use crate::common::command::{command_kind_of, Command, CommandKind, CommandView};
use crate::common::{
    copy_range, DestAddr, DestAddrView, IpAddr, Request, RequestView, SocketAddr, RESERVED, SOCKS5,
};
use crate::common::addrtype;
use crate::error::{reply_code, Error, ParserErrorKind, Repr, Result, Socks5ErrorKind};

verus! {

/// The parser error for a buffer that is too short.
pub open spec fn short() -> Repr {
    Repr::Parser(ParserErrorKind::ShortBuffer)
}

/// A big-endian 16-bit integer from two bytes.
pub open spec fn be16(hi: u8, lo: u8) -> u16 {
    (hi as int * 256 + lo as int) as u16
}

/// What a greeting holds: the version byte and the offered methods.
pub open spec fn greeting_spec(b: Seq<u8>) -> core::result::Result<(u8, Seq<u8>), Repr> {
    if b.len() < 3 {
        Err(short())
    } else if b[1] == 0 {
        Err(Repr::Parser(ParserErrorKind::ZeroAuthMethods))
    } else if b.len() < 2 + b[1] {
        Err(short())
    } else {
        Ok((b[0], b.subrange(2, 2 + b[1] as int)))
    }
}

/// The number of bytes a well-formed greeting takes.
pub open spec fn greeting_len(b: Seq<u8>) -> int {
    2 + b[1] as int
}

/// Where the destination address of a request starts.
pub open spec fn addr_start(t: AddrType) -> int {
    match t {
        AddrType::FQDN => 5,
        _ => 4,
    }
}

/// Where the destination address of a request ends (the port follows).
pub open spec fn addr_end(t: AddrType, b: Seq<u8>) -> int {
    match t {
        AddrType::V4 => 8,
        AddrType::FQDN => 5 + b[4] as int,
        AddrType::V6 => 20,
    }
}

/// The number of bytes a request with valid command and address type takes.
pub open spec fn request_len(b: Seq<u8>) -> int {
    addr_end(addr_type_of(b[3])->0, b) + 2
}

/// What a request holds: the version byte and the command with its
/// destination, or the error that rejects it.
pub open spec fn request_spec(b: Seq<u8>) -> core::result::Result<(u8, CommandView), Repr> {
    if b.len() < 5 {
        Err(short())
    } else {
        match command_kind_of(b[1]) {
            None => Err(Repr::Socks5(Socks5ErrorKind::CommandNotSupported)),
            Some(kind) => match addr_type_of(b[3]) {
                None => Err(Repr::Socks5(Socks5ErrorKind::AddressTypeNotSupported)),
                Some(t) => {
                    let s = addr_start(t);
                    let e = addr_end(t, b);
                    if b.len() < e + 2 {
                        Err(short())
                    } else {
                        let dest = match t {
                            AddrType::FQDN => DestAddrView::FQDN(b.subrange(s, e)),
                            _ => DestAddrView::IP(b.subrange(s, e)),
                        };
                        Ok(
                            (
                                b[0],
                                CommandView {
                                    kind,
                                    request: RequestView { dest_addr: dest, dest_port: be16(b[e], b[e + 1]) },
                                },
                            ),
                        )
                    }
                },
            },
        }
    }
}

/// Fails with a short-buffer error unless `buffer` holds at least `len` bytes.
fn check_buffer_length(buffer: &[u8], len: usize) -> (r: Result<()>)
    ensures
        r is Ok <==> buffer@.len() >= len,
        r matches Err(e) ==> e.repr == short(),
{
    if buffer.len() < len {
        Err(Error::short_buffer())
    } else {
        Ok(())
    }
}

fn read_be16(hi: u8, lo: u8) -> (r: u16)
    ensures
        r == be16(hi, lo),
{
    (hi as u16) * 256 + (lo as u16)
}

/// Parses a client greeting: the version byte and the offered authentication methods.
pub fn parse_client_methods(buffer: &[u8]) -> (r: Result<(u8, Vec<u8>)>)
    ensures
        match r {
            Ok((v, m)) => greeting_spec(buffer@) == Ok::<(u8, Seq<u8>), Repr>((v, m@)),
            Err(e) => greeting_spec(buffer@) == Err::<(u8, Seq<u8>), Repr>(e.repr),
        },
{
    check_buffer_length(buffer, 3)?;
    let v = buffer[0];
    let methods_count = buffer[1] as usize;
    if methods_count == 0 {
        return Err(Error::from(ParserErrorKind::ZeroAuthMethods));
    }
    check_buffer_length(buffer, 2 + methods_count)?;
    Ok((v, copy_range(buffer, 2, 2 + methods_count)))
}

/// Parses a client request: the version byte and the command with its destination.
pub fn parse_client_request(buffer: &[u8]) -> (r: Result<(u8, Command)>)
    ensures
        match r {
            Ok((v, c)) => request_spec(buffer@) == Ok::<(u8, CommandView), Repr>((v, c@)),
            Err(e) => request_spec(buffer@) == Err::<(u8, CommandView), Repr>(e.repr),
        },
{
    check_buffer_length(buffer, 5)?;
    let v = buffer[0];
    let cmd = CommandKind::try_from(buffer[1])?;
    // byte 2 is reserved and skipped
    let addr_type = AddrType::try_from(buffer[3])?;
    let (dest_addr, end) = match addr_type {
        AddrType::V4 => {
            check_buffer_length(buffer, 10)?;
            let a: [u8; 4] = [buffer[4], buffer[5], buffer[6], buffer[7]];
            proof {
                assert(a@ =~= buffer@.subrange(4, 8));
            }
            (DestAddr::IP(IpAddr::V4(a)), 8usize)
        },
        AddrType::FQDN => {
            let addr_length = buffer[4] as usize;
            check_buffer_length(buffer, 7 + addr_length)?;
            (DestAddr::FQDN(copy_range(buffer, 5, 5 + addr_length)), 5 + addr_length)
        },
        AddrType::V6 => {
            check_buffer_length(buffer, 22)?;
            let a: [u8; 16] = [
                buffer[4],
                buffer[5],
                buffer[6],
                buffer[7],
                buffer[8],
                buffer[9],
                buffer[10],
                buffer[11],
                buffer[12],
                buffer[13],
                buffer[14],
                buffer[15],
                buffer[16],
                buffer[17],
                buffer[18],
                buffer[19],
            ];
            proof {
                assert(a@ =~= buffer@.subrange(4, 20));
            }
            (DestAddr::IP(IpAddr::V6(a)), 20usize)
        },
    };
    let dest_port = read_be16(buffer[end], buffer[end + 1]);
    let r = Request::new(dest_addr, dest_port);
    let command = match cmd {
        CommandKind::Connect => Command::Connect(r),
        CommandKind::Bind => Command::Bind(r),
        CommandKind::Associate => Command::Associate(r),
    };
    Ok((v, command))
}

/// The address-type byte that a reply carries for an address.
pub open spec fn reply_addr_type(ip: IpAddr) -> u8 {
    match ip {
        IpAddr::V4(_) => addrtype::V4,
        IpAddr::V6(_) => addrtype::V6,
    }
}

/// The reply byte: success when there is no error.
pub open spec fn reply_byte(reply: Option<Error>) -> u8 {
    match reply {
        None => 0x00,
        Some(e) => reply_code(e.repr),
    }
}

/// The bytes of a reply: header, bound address and big-endian bound port.
pub open spec fn reply_spec(code: u8, addr: SocketAddr) -> Seq<u8> {
    seq![SOCKS5, code, RESERVED, reply_addr_type(addr.ip)] + addr.ip@ + seq![
        (addr.port / 256) as u8,
        (addr.port % 256) as u8,
    ]
}

/// A reply to a client request.
pub struct Reply;

impl Reply {
    /// Encodes a reply that reports `reply` (success when absent) with `addr`
    /// as the bound address.
    pub fn new(reply: Option<Error>, addr: SocketAddr) -> (r: Vec<u8>)
        ensures
            r@ == reply_spec(reply_byte(reply), addr),
    {
        let code: u8 = match reply {
            Some(e) => e.to_socks5_reply(),
            None => 0x00,
        };
        let ip = addr.ip();
        let addr_type: u8 = match ip {
            IpAddr::V4(_) => AddrType::V4.byte(),
            IpAddr::V6(_) => AddrType::V6.byte(),
        };
        let octets = ip.octets();
        let port = addr.port();
        let mut buffer: Vec<u8> = Vec::with_capacity(octets.len() + 6);
        buffer.push(SOCKS5);
        buffer.push(code);
        buffer.push(RESERVED);
        buffer.push(addr_type);
        let mut i: usize = 0;
        while i < octets.len()
            invariant
                0 <= i <= octets@.len(),
                buffer@ == seq![SOCKS5, code, RESERVED, addr_type] + octets@.subrange(0, i as int),
            decreases octets@.len() - i,
        {
            buffer.push(octets[i]);
            proof {
                assert(octets@.subrange(0, i + 1) =~= octets@.subrange(0, i as int).push(octets@[i as int]));
            }
            i = i + 1;
        }
        buffer.push((port / 256) as u8);
        buffer.push((port % 256) as u8);
        proof {
            assert(octets@.subrange(0, octets@.len() as int) =~= octets@);
            assert(buffer@ =~= reply_spec(reply_byte(reply), addr));
        }
        buffer
    }
}

/// Every truncation of a well-formed greeting, down to the empty buffer,
/// is rejected as a short buffer.
pub proof fn lemma_truncated_greeting(b: Seq<u8>, k: int)
    requires
        greeting_spec(b) is Ok,
        0 <= k < greeting_len(b),
    ensures
        greeting_spec(b.subrange(0, k)) == Err::<(u8, Seq<u8>), Repr>(short()),
{
}

/// Every truncation of a well-formed request, down to the empty buffer, is
/// rejected as a short buffer.
pub proof fn lemma_truncated_request(b: Seq<u8>, k: int)
    requires
        request_spec(b) is Ok,
        0 <= k < request_len(b),
    ensures
        request_spec(b.subrange(0, k)) == Err::<(u8, CommandView), Repr>(short()),
{
}

/// Decoding the header of a success reply gives back the address family,
/// the address and the port it was encoded from; the reply takes ten bytes
/// for an IPv4 address and twenty-two for an IPv6 one.
pub proof fn lemma_reply_round_trip(addr: SocketAddr)
    ensures
        ({
            let r = reply_spec(0x00, addr);
            let n = addr.ip@.len() as int;
            &&& addr.ip is V4 ==> r.len() == 10 && addr_type_of(r[3]) == Some(AddrType::V4)
            &&& addr.ip is V6 ==> r.len() == 22 && addr_type_of(r[3]) == Some(AddrType::V6)
            &&& r[0] == SOCKS5
            &&& r[1] == 0x00
            &&& r[2] == RESERVED
            &&& r.subrange(4, 4 + n) == addr.ip@
            &&& be16(r[4 + n], r[5 + n]) == addr.port
        }),
{
    let r = reply_spec(0x00, addr);
    let n = addr.ip@.len() as int;
    assert(r.subrange(4, 4 + n) =~= addr.ip@);
}

} // verus!
