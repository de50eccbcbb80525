use vstd::prelude::*;

use crate::common::{Request, RequestView};
use crate::error::{Error, Repr, Socks5ErrorKind};

verus! {

pub const CONNECT: u8 = 0x01;

pub const BIND: u8 = 0x02;

pub const ASSOCIATE: u8 = 0x03;

/// Kind of a client command.
#[derive(Clone, Copy, Debug, PartialEq, Eq, Structural)]
pub enum CommandKind {
    Connect,
    Bind,
    Associate,
}

/// The command kind a byte stands for, if any.
pub open spec fn command_kind_of(b: u8) -> Option<CommandKind> {
    if b == CONNECT {
        Some(CommandKind::Connect)
    } else if b == BIND {
        Some(CommandKind::Bind)
    } else if b == ASSOCIATE {
        Some(CommandKind::Associate)
    } else {
        None
    }
}

/// The byte of a command kind.
pub open spec fn command_kind_byte(k: CommandKind) -> u8 {
    match k {
        CommandKind::Connect => CONNECT,
        CommandKind::Bind => BIND,
        CommandKind::Associate => ASSOCIATE,
    }
}

impl CommandKind {
    /// The byte that stands for this command on the wire.
    pub fn byte(self) -> (r: u8)
        ensures
            r == command_kind_byte(self),
    {
        match self {
            CommandKind::Connect => CONNECT,
            CommandKind::Bind => BIND,
            CommandKind::Associate => ASSOCIATE,
        }
    }
}

impl TryFrom<u8> for CommandKind {
    type Error = Error;

    fn try_from(value: u8) -> (r: Result<Self, Self::Error>) {
        match value {
            CONNECT => Ok(CommandKind::Connect),
            BIND => Ok(CommandKind::Bind),
            ASSOCIATE => Ok(CommandKind::Associate),
            _ => Err(Error { repr: Repr::Socks5(Socks5ErrorKind::CommandNotSupported) }),
        }
    }
}

impl vstd::std_specs::convert::TryFromSpecImpl<u8> for CommandKind {
    open spec fn obeys_try_from_spec() -> bool {
        true
    }

    open spec fn try_from_spec(value: u8) -> Result<Self, Error> {
        match command_kind_of(value) {
            Some(k) => Ok(k),
            None => Err(Error { repr: Repr::Socks5(Socks5ErrorKind::CommandNotSupported) }),
        }
    }
}

/// A parsed client command with its request.
#[derive(Clone, Debug, PartialEq, Eq)]
pub enum Command {
    Connect(Request),
    Bind(Request),
    Associate(Request),
}

pub struct CommandView {
    pub kind: CommandKind,
    pub request: RequestView,
}

impl View for Command {
    type V = CommandView;

    open spec fn view(&self) -> CommandView {
        match self {
            Command::Connect(r) => CommandView { kind: CommandKind::Connect, request: r@ },
            Command::Bind(r) => CommandView { kind: CommandKind::Bind, request: r@ },
            Command::Associate(r) => CommandView { kind: CommandKind::Associate, request: r@ },
        }
    }
}

} // verus!
