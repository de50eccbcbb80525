use vstd::prelude::*;

verus! {

pub const V4: u8 = 0x01;

pub const FQDN: u8 = 0x03;

pub const V6: u8 = 0x04;

} // verus!
