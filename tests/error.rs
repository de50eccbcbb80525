use socks5rs::consts;
use socks5rs::common::addrtype::AddrType;
use socks5rs::common::command::CommandKind;
use socks5rs::error::{Error, IoFailure, ParserErrorKind, Repr, Socks5ErrorKind};
use socks5rs::io::check_read;

#[test]
fn every_kind_has_its_reply_byte() {
    let kinds = [
        (Socks5ErrorKind::GeneralServerFailure, 0x01u8),
        (Socks5ErrorKind::ConnectionNotAllowed, 0x02),
        (Socks5ErrorKind::NetworkUnreachable, 0x03),
        (Socks5ErrorKind::HostUnreachable, 0x04),
        (Socks5ErrorKind::ConnectionRefused, 0x05),
        (Socks5ErrorKind::TTLExpired, 0x06),
        (Socks5ErrorKind::CommandNotSupported, 0x07),
        (Socks5ErrorKind::AddressTypeNotSupported, 0x08),
    ];
    for (k, code) in kinds.iter() {
        assert_eq!(k.code(), *code);
        assert_eq!(u8::from(*k), *code);
        assert_eq!(Error::from(*k).to_socks5_reply(), *code);
    }
    for i in 0..kinds.len() {
        for j in 0..kinds.len() {
            assert_eq!(kinds[i].0.code() == kinds[j].0.code(), i == j);
        }
    }
    assert_eq!(Error::from(ParserErrorKind::ShortBuffer).to_socks5_reply(), 0x01);
    assert_eq!(Error::from(ParserErrorKind::ZeroAuthMethods).to_socks5_reply(), 0x01);
    assert_eq!(Error::from(IoFailure::NetworkUnreachable).to_socks5_reply(), 0x03);
    assert_eq!(Error::from(IoFailure::Other).to_socks5_reply(), 0x01);
    let b: u8 = Error::from(Socks5ErrorKind::TTLExpired).into();
    assert_eq!(b, 0x06);
}

#[test]
fn kind_descriptions() {
    assert_eq!(Socks5ErrorKind::GeneralServerFailure.to_string(), "general server failure");
    assert_eq!(Socks5ErrorKind::ConnectionRefused.to_string(), "host unreachable");
    assert_eq!(Socks5ErrorKind::HostUnreachable.to_string(), "host unreachable");
    assert_eq!(Error::from(Socks5ErrorKind::CommandNotSupported).to_string(), "command not supported");
    assert_eq!(Error::from(ParserErrorKind::ShortBuffer).to_string(), "ShortBuffer");
    assert_eq!(Error::from(ParserErrorKind::ZeroAuthMethods).to_string(), "ZeroAuthMethods");
    assert_eq!(Error::from(IoFailure::NetworkUnreachable).to_string(), "network unreachable");
    assert_eq!(Error::from(IoFailure::Other).to_string(), "other error");
    assert_eq!(Socks5ErrorKind::TTLExpired.to_string(), "TTL expired");
    assert_eq!(Socks5ErrorKind::AddressTypeNotSupported.to_string(), "address type not supported");
}

#[test]
fn byte_decoding() {
    assert_eq!(AddrType::try_from(0x01).unwrap(), AddrType::V4);
    assert_eq!(AddrType::try_from(0x03).unwrap(), AddrType::FQDN);
    assert_eq!(AddrType::try_from(0x04).unwrap(), AddrType::V6);
    assert_eq!(
        AddrType::try_from(0x02).unwrap_err().repr,
        Repr::Socks5(Socks5ErrorKind::AddressTypeNotSupported)
    );
    assert_eq!(AddrType::V6.byte(), 0x04);
    assert_eq!(CommandKind::try_from(0x02).unwrap(), CommandKind::Bind);
    assert_eq!(
        CommandKind::try_from(0x00).unwrap_err().repr,
        Repr::Socks5(Socks5ErrorKind::CommandNotSupported)
    );
    assert_eq!(consts::Command::try_from(0x03).unwrap(), consts::Command::Associate);
    assert_eq!(CommandKind::Connect.byte(), 0x01);
    assert_eq!(CommandKind::Bind.byte(), 0x02);
    assert_eq!(CommandKind::Associate.byte(), 0x03);
    assert_eq!(consts::Command::Bind.byte(), 0x02);
    assert_eq!(consts::AddrType::FQDN.byte(), 0x03);
    assert_eq!(consts::AddrType::V6.byte(), 0x04);
    assert_eq!(consts::Method::NoAuth.byte(), 0x00);
    assert_eq!(consts::Method::UserPass.byte(), 0x02);
    assert_eq!(consts::Method::NoAcceptableMethods.byte(), 0xff);
    assert!(consts::Command::try_from(0x04).is_err());
    assert_eq!(consts::AddrType::try_from(0x04).unwrap(), consts::AddrType::V6);
    assert!(consts::AddrType::try_from(0xff).is_err());
}

#[test]
fn short_reads_are_refused() {
    assert_eq!(check_read(Some(3), 3), Some(3));
    assert_eq!(check_read(Some(2), 3), None);
    assert_eq!(check_read(None, 0), None);
}
