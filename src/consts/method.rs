use vstd::prelude::*;

verus! {

pub const NO_AUTH: u8 = 0x00;

pub const GSSAPI: u8 = 0x01;

pub const USER_PASS: u8 = 0x02;

pub const NO_ACCEPTABLE_METHODS: u8 = 0xff;

} // verus!
