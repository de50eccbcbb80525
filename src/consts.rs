use vstd::prelude::*;

use crate::error::{Error, Repr, Socks5ErrorKind};

pub mod addr_type;
pub mod command;
pub mod method;

verus! {

/// Version byte of every SOCKS5 request and response.
pub const SOCKS5: u8 = 0x05;

/// Reserved byte.
pub const RESERVED: u8 = 0x00;

/// SOCKS5 authentication methods.
#[derive(Clone, Copy, Debug, PartialEq, Eq, Structural)]
pub enum Method {
    NoAuth,
    GSSAPI,
    UserPass,
    NoAcceptableMethods,
}

/// The byte of a method.
pub open spec fn method_byte(m: Method) -> u8 {
    match m {
        Method::NoAuth => method::NO_AUTH,
        Method::GSSAPI => method::GSSAPI,
        Method::UserPass => method::USER_PASS,
        Method::NoAcceptableMethods => method::NO_ACCEPTABLE_METHODS,
    }
}

impl Method {
    /// The byte that stands for this method on the wire.
    pub fn byte(self) -> (r: u8)
        ensures
            r == method_byte(self),
    {
        match self {
            Method::NoAuth => method::NO_AUTH,
            Method::GSSAPI => method::GSSAPI,
            Method::UserPass => method::USER_PASS,
            Method::NoAcceptableMethods => method::NO_ACCEPTABLE_METHODS,
        }
    }
}

/// SOCKS5 commands.
#[derive(Clone, Copy, Debug, PartialEq, Eq, Structural)]
pub enum Command {
    Connect,
    Bind,
    Associate,
}

/// The command a byte stands for, if any.
pub open spec fn command_of(b: u8) -> Option<Command> {
    if b == command::CONNECT {
        Some(Command::Connect)
    } else if b == command::BIND {
        Some(Command::Bind)
    } else if b == command::ASSOCIATE {
        Some(Command::Associate)
    } else {
        None
    }
}

/// The byte of a command.
pub open spec fn command_byte(c: Command) -> u8 {
    match c {
        Command::Connect => command::CONNECT,
        Command::Bind => command::BIND,
        Command::Associate => command::ASSOCIATE,
    }
}

impl Command {
    /// The byte that stands for this command on the wire.
    pub fn byte(self) -> (r: u8)
        ensures
            r == command_byte(self),
    {
        match self {
            Command::Connect => command::CONNECT,
            Command::Bind => command::BIND,
            Command::Associate => command::ASSOCIATE,
        }
    }
}

impl TryFrom<u8> for Command {
    type Error = Error;

    fn try_from(value: u8) -> (r: Result<Self, Self::Error>) {
        match value {
            command::CONNECT => Ok(Command::Connect),
            command::BIND => Ok(Command::Bind),
            command::ASSOCIATE => Ok(Command::Associate),
            _ => Err(Error { repr: Repr::Socks5(Socks5ErrorKind::CommandNotSupported) }),
        }
    }
}

impl vstd::std_specs::convert::TryFromSpecImpl<u8> for Command {
    open spec fn obeys_try_from_spec() -> bool {
        true
    }

    open spec fn try_from_spec(value: u8) -> Result<Self, Error> {
        match command_of(value) {
            Some(c) => Ok(c),
            None => Err(Error { repr: Repr::Socks5(Socks5ErrorKind::CommandNotSupported) }),
        }
    }
}

/// SOCKS5 address types.
#[derive(Clone, Copy, Debug, PartialEq, Eq, Structural)]
pub enum AddrType {
    /// IPv4
    V4,
    /// Fully qualified domain name
    FQDN,
    /// IPv6
    V6,
}

/// The address type a byte stands for, if any.
pub open spec fn addr_type_of(b: u8) -> Option<AddrType> {
    if b == addr_type::V4 {
        Some(AddrType::V4)
    } else if b == addr_type::FQDN {
        Some(AddrType::FQDN)
    } else if b == addr_type::V6 {
        Some(AddrType::V6)
    } else {
        None
    }
}

/// The byte of an address type.
pub open spec fn addr_type_byte(t: AddrType) -> u8 {
    match t {
        AddrType::V4 => addr_type::V4,
        AddrType::FQDN => addr_type::FQDN,
        AddrType::V6 => addr_type::V6,
    }
}

impl AddrType {
    /// The byte that stands for this address type on the wire.
    pub fn byte(self) -> (r: u8)
        ensures
            r == addr_type_byte(self),
    {
        match self {
            AddrType::V4 => addr_type::V4,
            AddrType::FQDN => addr_type::FQDN,
            AddrType::V6 => addr_type::V6,
        }
    }
}

impl TryFrom<u8> for AddrType {
    type Error = Error;

    fn try_from(value: u8) -> (r: Result<Self, Self::Error>) {
        match value {
            addr_type::V4 => Ok(AddrType::V4),
            addr_type::FQDN => Ok(AddrType::FQDN),
            addr_type::V6 => Ok(AddrType::V6),
            _ => Err(Error { repr: Repr::Socks5(Socks5ErrorKind::AddressTypeNotSupported) }),
        }
    }
}

impl vstd::std_specs::convert::TryFromSpecImpl<u8> for AddrType {
    open spec fn obeys_try_from_spec() -> bool {
        true
    }

    open spec fn try_from_spec(value: u8) -> Result<Self, Error> {
        match addr_type_of(value) {
            Some(t) => Ok(t),
            None => Err(Error { repr: Repr::Socks5(Socks5ErrorKind::AddressTypeNotSupported) }),
        }
    }
}

} // verus!
