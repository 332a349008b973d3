use bytes::Bytes;
use bytes::BytesMut;
use vrpn::BytesRequired;
use vrpn::CookieData;
use vrpn::Error;
use vrpn::cookie::COOKIE_SIZE;
use vrpn::cookie::MAGIC_MAJOR;
use vrpn::cookie::MAGIC_MINOR;
use vrpn::read_and_check_nonfile_cookie;

fn encoded(cookie: &CookieData) -> Bytes {
    let mut buf = BytesMut::new();
    cookie.buffer_ref(&mut buf).unwrap();
    buf.freeze()
}

#[test]
fn cookie_encodes_to_fixed_width_template() {
    let cookie = CookieData::make_cookie(0);
    let wire = encoded(&cookie);
    assert_eq!(wire.len(), COOKIE_SIZE);
    assert_eq!(&wire.as_ref()[..18], b"vrpn: ver. 07.35 0");
    assert_eq!(&wire.as_ref()[18..], &[0u8; 6]);
}

#[test]
fn cookie_roundtrip() {
    let cookie = CookieData::make_cookie(3);
    let mut wire = encoded(&cookie);
    let read_back = CookieData::unbuffer_ref(&mut wire).unwrap();
    assert_eq!(read_back, cookie);
    assert_eq!(wire.len(), 0, "exactly the cookie's width is consumed");
    assert_eq!(read_back.version.major, MAGIC_MAJOR);
    assert_eq!(read_back.version.minor, MAGIC_MINOR);
    assert_eq!(read_back.log_mode, 3);
}

#[test]
fn short_cookie_needs_exactly_the_rest() {
    let mut short = Bytes::copy_from_slice(b"vrpn: ver. 07");
    let before = short.clone();
    assert_eq!(
        CookieData::unbuffer_ref(&mut short).unwrap_err(),
        Error::NeedMoreData(BytesRequired::Exactly(11))
    );
    assert_eq!(short, before);
}

#[test]
fn wrong_magic_is_fatal() {
    let mut wire = BytesMut::from(encoded(&CookieData::make_cookie(0)).as_ref());
    wire[0] = b'x';
    let mut frozen = wire.freeze();
    assert_eq!(
        CookieData::unbuffer_ref(&mut frozen).unwrap_err(),
        Error::InvalidMagic
    );
}

#[test]
fn non_digit_version_is_rejected() {
    let mut wire = BytesMut::from(encoded(&CookieData::make_cookie(0)).as_ref());
    wire[11] = b'x';
    let mut frozen = wire.freeze();
    assert_eq!(
        CookieData::unbuffer_ref(&mut frozen).unwrap_err(),
        Error::InvalidDecimalDigit(b'x')
    );
}

#[test]
fn unsupported_major_version_fails_closed() {
    // A cookie with a correct magic but another major version fails the
    // handshake, so no connection object is ever constructed.
    let peer = CookieData {
        version: vrpn::Version { major: 8, minor: 0 },
        log_mode: 0,
    };
    let mut wire = encoded(&peer);
    let read_back = CookieData::unbuffer_ref(&mut wire).unwrap();
    assert_eq!(
        read_back.check_ver_nonfile_compatible().unwrap_err(),
        Error::VersionMismatch(8)
    );
}

#[test]
fn minor_version_differences_are_tolerated() {
    let peer = CookieData {
        version: vrpn::Version {
            major: MAGIC_MAJOR,
            minor: 12,
        },
        log_mode: 1,
    };
    let mut wire = encoded(&peer);
    let read_back = CookieData::unbuffer_ref(&mut wire).unwrap();
    assert!(read_back.check_ver_nonfile_compatible().is_ok());
}

#[test]
fn cookie_gate_accepts_only_a_supported_major() {
    // The supported version is accepted; exactly the cookie's width of
    // bytes is read.
    let mut good = encoded(&CookieData::make_cookie(0));
    let accepted = read_and_check_nonfile_cookie(&mut good).unwrap();
    assert_eq!(accepted.version.major, MAGIC_MAJOR);
    assert_eq!(good.len(), 0);
    // A correct magic with another major version never yields a cookie.
    let peer = CookieData {
        version: vrpn::Version { major: 9, minor: 35 },
        log_mode: 0,
    };
    let mut bad = encoded(&peer);
    assert_eq!(
        read_and_check_nonfile_cookie(&mut bad).unwrap_err(),
        Error::VersionMismatch(9)
    );
    // A minor-version difference alone passes.
    let newer_minor = CookieData {
        version: vrpn::Version {
            major: MAGIC_MAJOR,
            minor: 40,
        },
        log_mode: 0,
    };
    let mut ok = encoded(&newer_minor);
    assert!(read_and_check_nonfile_cookie(&mut ok).is_ok());
}
