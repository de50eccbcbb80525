use vstd::prelude::*;

verus! {

pub const CONNECT: u8 = 0x01;

pub const BIND: u8 = 0x02;

pub const ASSOCIATE: u8 = 0x03;

} // verus!
