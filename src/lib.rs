//! A minimal, low-level SOCKS5 protocol library. It works on raw bytes
//! rather than on sockets, so the same parsing and encoding logic can sit
//! behind any transport.

pub mod common;
pub mod consts;
pub mod error;
pub mod io;
pub mod server;
pub mod session;
