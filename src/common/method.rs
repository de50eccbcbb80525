use vstd::prelude::*;

verus! {

pub const NO_AUTH: u8 = 0x00;

pub const GSSAPI: u8 = 0x01;

pub const USER_PASS: u8 = 0x02;

pub const NO_ACCEPTABLE_METHODS: u8 = 0xff;

/// Authentication methods.
#[derive(Clone, Copy, Debug, PartialEq, Eq, Structural)]
pub enum Method {
    NoAuth,
    GSSAPI,
    UserPass,
    NoAcceptableMethods,
}

/// The byte of a method.
pub open spec fn method_byte(m: Method) -> u8 {
    match m {
        Method::NoAuth => NO_AUTH,
        Method::GSSAPI => GSSAPI,
        Method::UserPass => USER_PASS,
        Method::NoAcceptableMethods => NO_ACCEPTABLE_METHODS,
    }
}

impl Method {
    /// The byte that stands for this method on the wire.
    pub fn byte(self) -> (r: u8)
        ensures
            r == method_byte(self),
    {
        match self {
            Method::NoAuth => NO_AUTH,
            Method::GSSAPI => GSSAPI,
            Method::UserPass => USER_PASS,
            Method::NoAcceptableMethods => NO_ACCEPTABLE_METHODS,
        }
    }
}

} // verus!
