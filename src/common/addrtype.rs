use vstd::prelude::*;

use crate::error::{Error, Repr, Socks5ErrorKind};

verus! {

pub const V4: u8 = 0x01;

pub const FQDN: u8 = 0x03;

pub const V6: u8 = 0x04;

/// Address type of a request's destination.
#[derive(Clone, Copy, Debug, PartialEq, Eq, Structural)]
pub enum AddrType {
    /// IPv4
    V4,
    /// Fully qualified domain name
    FQDN,
    /// IPv6
    V6,
}

/// The address type a byte stands for, if any.
pub open spec fn addr_type_of(b: u8) -> Option<AddrType> {
    if b == V4 {
        Some(AddrType::V4)
    } else if b == FQDN {
        Some(AddrType::FQDN)
    } else if b == V6 {
        Some(AddrType::V6)
    } else {
        None
    }
}

/// The byte of an address type.
pub open spec fn addr_type_byte(t: AddrType) -> u8 {
    match t {
        AddrType::V4 => V4,
        AddrType::FQDN => FQDN,
        AddrType::V6 => V6,
    }
}

impl AddrType {
    /// The byte that stands for this address type on the wire.
    pub fn byte(self) -> (r: u8)
        ensures
            r == addr_type_byte(self),
    {
        match self {
            AddrType::V4 => V4,
            AddrType::FQDN => FQDN,
            AddrType::V6 => V6,
        }
    }
}

impl TryFrom<u8> for AddrType {
    type Error = Error;

    fn try_from(value: u8) -> (r: Result<Self, Self::Error>) {
        match value {
            V4 => Ok(AddrType::V4),
            FQDN => Ok(AddrType::FQDN),
            V6 => Ok(AddrType::V6),
            _ => Err(Error { repr: Repr::Socks5(Socks5ErrorKind::AddressTypeNotSupported) }),
        }
    }
}

impl vstd::std_specs::convert::TryFromSpecImpl<u8> for AddrType {
    open spec fn obeys_try_from_spec() -> bool {
        true
    }

    open spec fn try_from_spec(value: u8) -> Result<Self, Error> {
        match addr_type_of(value) {
            Some(t) => Ok(t),
            None => Err(Error { repr: Repr::Socks5(Socks5ErrorKind::AddressTypeNotSupported) }),
        }
    }
}

} // verus!
