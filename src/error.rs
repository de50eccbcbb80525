use vstd::prelude::*;

verus! {

/// Failures that can be reported to a client in a reply.
#[derive(Clone, Copy, Debug, PartialEq, Eq, Structural)]
pub enum Socks5ErrorKind {
    GeneralServerFailure,
    ConnectionNotAllowed,
    NetworkUnreachable,
    HostUnreachable,
    ConnectionRefused,
    TTLExpired,
    CommandNotSupported,
    AddressTypeNotSupported,
}

/// The reply byte the protocol defines for each kind.
pub open spec fn kind_code(k: Socks5ErrorKind) -> u8 {
    match k {
        Socks5ErrorKind::GeneralServerFailure => 0x01,
        Socks5ErrorKind::ConnectionNotAllowed => 0x02,
        Socks5ErrorKind::NetworkUnreachable => 0x03,
        Socks5ErrorKind::HostUnreachable => 0x04,
        Socks5ErrorKind::ConnectionRefused => 0x05,
        Socks5ErrorKind::TTLExpired => 0x06,
        Socks5ErrorKind::CommandNotSupported => 0x07,
        Socks5ErrorKind::AddressTypeNotSupported => 0x08,
    }
}

impl Socks5ErrorKind {
    /// The reply byte for this kind.
    pub fn code(self) -> (r: u8)
        ensures
            r == kind_code(self),
    {
        match self {
            Socks5ErrorKind::GeneralServerFailure => 0x01,
            Socks5ErrorKind::ConnectionNotAllowed => 0x02,
            Socks5ErrorKind::NetworkUnreachable => 0x03,
            Socks5ErrorKind::HostUnreachable => 0x04,
            Socks5ErrorKind::ConnectionRefused => 0x05,
            Socks5ErrorKind::TTLExpired => 0x06,
            Socks5ErrorKind::CommandNotSupported => 0x07,
            Socks5ErrorKind::AddressTypeNotSupported => 0x08,
        }
    }
}

impl From<Socks5ErrorKind> for u8 {
    fn from(k: Socks5ErrorKind) -> (r: u8) {
        k.code()
    }
}

impl vstd::std_specs::convert::FromSpecImpl<Socks5ErrorKind> for u8 {
    open spec fn obeys_from_spec() -> bool {
        true
    }

    open spec fn from_spec(k: Socks5ErrorKind) -> u8 {
        kind_code(k)
    }
}

/// The text describing each kind.
pub open spec fn kind_text(k: Socks5ErrorKind) -> Seq<char> {
    match k {
        Socks5ErrorKind::GeneralServerFailure => "general server failure"@,
        Socks5ErrorKind::ConnectionNotAllowed => "connection not allowed"@,
        Socks5ErrorKind::NetworkUnreachable => "network unreachable"@,
        Socks5ErrorKind::HostUnreachable => "host unreachable"@,
        Socks5ErrorKind::ConnectionRefused => "host unreachable"@,
        Socks5ErrorKind::TTLExpired => "TTL expired"@,
        Socks5ErrorKind::CommandNotSupported => "command not supported"@,
        Socks5ErrorKind::AddressTypeNotSupported => "address type not supported"@,
    }
}

impl Socks5ErrorKind {
    /// A short human-readable description of this kind.
    pub fn to_string(&self) -> (r: String)
        ensures
            r@ == kind_text(*self),
    {
        let s: &str = match self {
            Socks5ErrorKind::GeneralServerFailure => "general server failure",
            Socks5ErrorKind::ConnectionNotAllowed => "connection not allowed",
            Socks5ErrorKind::NetworkUnreachable => "network unreachable",
            Socks5ErrorKind::HostUnreachable => "host unreachable",
            Socks5ErrorKind::ConnectionRefused => "host unreachable",
            Socks5ErrorKind::TTLExpired => "TTL expired",
            Socks5ErrorKind::CommandNotSupported => "command not supported",
            Socks5ErrorKind::AddressTypeNotSupported => "address type not supported",
        };
        s.to_owned()
    }
}

/// Errors that come from parsing client messages.
#[derive(Clone, Copy, Debug, PartialEq, Eq, Structural)]
pub enum ParserErrorKind {
    /// The buffer is shorter than the message needs.
    ShortBuffer,
    /// The greeting offers no authentication method.
    ZeroAuthMethods,
}

/// What the library needs to know of a transport failure: whether the
/// destination network was unreachable.
#[derive(Clone, Copy, Debug, PartialEq, Eq, Structural)]
pub enum IoFailure {
    NetworkUnreachable,
    Other,
}

/// The three sources of failure: transport, protocol and parser.
#[derive(Clone, Copy, Debug, PartialEq, Eq, Structural)]
pub enum Repr {
    IO(IoFailure),
    Socks5(Socks5ErrorKind),
    Parser(ParserErrorKind),
}

/// The library's error value.
#[derive(Clone, Copy, Debug, PartialEq, Eq, Structural)]
pub struct Error {
    pub repr: Repr,
}

/// The text describing an error: a protocol kind's description, a parser
/// kind's name, or the kind of transport failure.
pub open spec fn error_text(r: Repr) -> Seq<char> {
    match r {
        Repr::IO(IoFailure::NetworkUnreachable) => "network unreachable"@,
        Repr::IO(IoFailure::Other) => "other error"@,
        Repr::Socks5(k) => kind_text(k),
        Repr::Parser(ParserErrorKind::ShortBuffer) => "ShortBuffer"@,
        Repr::Parser(ParserErrorKind::ZeroAuthMethods) => "ZeroAuthMethods"@,
    }
}

/// The reply byte for a failure: transport failures are general failures
/// unless the network was unreachable; parser failures are general failures.
pub open spec fn reply_code(r: Repr) -> u8 {
    match r {
        Repr::IO(IoFailure::NetworkUnreachable) => kind_code(Socks5ErrorKind::NetworkUnreachable),
        Repr::IO(IoFailure::Other) => kind_code(Socks5ErrorKind::GeneralServerFailure),
        Repr::Socks5(k) => kind_code(k),
        Repr::Parser(_) => kind_code(Socks5ErrorKind::GeneralServerFailure),
    }
}

impl Error {
    /// A parser error for a buffer that is too short.
    pub fn short_buffer() -> (e: Error)
        ensures
            e.repr == Repr::Parser(ParserErrorKind::ShortBuffer),
    {
        Error { repr: Repr::Parser(ParserErrorKind::ShortBuffer) }
    }

    /// A short human-readable description of this error.
    pub fn to_string(&self) -> (r: String)
        ensures
            r@ == error_text(self.repr),
    {
        match self.repr {
            Repr::IO(IoFailure::NetworkUnreachable) => "network unreachable".to_owned(),
            Repr::IO(IoFailure::Other) => "other error".to_owned(),
            Repr::Socks5(k) => k.to_string(),
            Repr::Parser(ParserErrorKind::ShortBuffer) => "ShortBuffer".to_owned(),
            Repr::Parser(ParserErrorKind::ZeroAuthMethods) => "ZeroAuthMethods".to_owned(),
        }
    }

    /// The reply byte that reports this error to a client.
    pub fn to_socks5_reply(&self) -> (r: u8)
        ensures
            r == reply_code(self.repr),
    {
        match self.repr {
            Repr::IO(f) => {
                let code = match f {
                    IoFailure::NetworkUnreachable => Socks5ErrorKind::NetworkUnreachable,
                    IoFailure::Other => Socks5ErrorKind::GeneralServerFailure,
                };
                code.code()
            },
            Repr::Socks5(k) => k.code(),
            Repr::Parser(p) => match p {
                ParserErrorKind::ShortBuffer => Socks5ErrorKind::GeneralServerFailure.code(),
                ParserErrorKind::ZeroAuthMethods => Socks5ErrorKind::GeneralServerFailure.code(),
            },
        }
    }
}

impl From<IoFailure> for Error {
    fn from(f: IoFailure) -> (e: Error) {
        Error { repr: Repr::IO(f) }
    }
}

impl vstd::std_specs::convert::FromSpecImpl<IoFailure> for Error {
    open spec fn obeys_from_spec() -> bool {
        true
    }

    open spec fn from_spec(f: IoFailure) -> Error {
        Error { repr: Repr::IO(f) }
    }
}

impl From<Socks5ErrorKind> for Error {
    fn from(k: Socks5ErrorKind) -> (e: Error) {
        Error { repr: Repr::Socks5(k) }
    }
}

impl vstd::std_specs::convert::FromSpecImpl<Socks5ErrorKind> for Error {
    open spec fn obeys_from_spec() -> bool {
        true
    }

    open spec fn from_spec(k: Socks5ErrorKind) -> Error {
        Error { repr: Repr::Socks5(k) }
    }
}

impl From<ParserErrorKind> for Error {
    fn from(p: ParserErrorKind) -> (e: Error) {
        Error { repr: Repr::Parser(p) }
    }
}

impl vstd::std_specs::convert::FromSpecImpl<ParserErrorKind> for Error {
    open spec fn obeys_from_spec() -> bool {
        true
    }

    open spec fn from_spec(p: ParserErrorKind) -> Error {
        Error { repr: Repr::Parser(p) }
    }
}

impl From<Error> for u8 {
    fn from(e: Error) -> (r: u8) {
        e.to_socks5_reply()
    }
}

impl vstd::std_specs::convert::FromSpecImpl<Error> for u8 {
    open spec fn obeys_from_spec() -> bool {
        true
    }

    open spec fn from_spec(e: Error) -> u8 {
        reply_code(e.repr)
    }
}

/// Distinct protocol kinds report distinct reply bytes, every reply byte of
/// a failure lies in `0x01..=0x08`, and failures without a protocol code of
/// their own share the general-failure byte `0x01`.
pub proof fn lemma_reply_codes(a: Socks5ErrorKind, b: Socks5ErrorKind, r: Repr)
    ensures
        kind_code(a) == kind_code(b) <==> a == b,
        0x01 <= reply_code(r) <= 0x08,
        r is Parser ==> reply_code(r) == 0x01,
        r == Repr::IO(IoFailure::Other) ==> reply_code(r) == 0x01,
        r == Repr::IO(IoFailure::NetworkUnreachable) ==> reply_code(r) == 0x03,
{
}

/// The result of the library's fallible operations.
pub type Result<T> = core::result::Result<T, Error>;

} // verus!
