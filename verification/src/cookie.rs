//! The handshake cookie: a fixed-size preamble exchanged once per raw byte
//! stream before any framed message flows.
//!
//! The cookie is 24 bytes: the ASCII magic signature, the protocol version
//! as two zero-padded decimal fields separated by a dot, a space, one
//! decimal log-mode digit, and zero padding. A wrong magic or an
//! unsupported major version is fatal — the connection never proceeds to
//! message exchange. Minor versions differ freely within a major version.

use vstd::prelude::*;
use bytes::Bytes;
use bytes::BytesMut;
use crate::buffer::bytes_len;
use crate::buffer::bytes_mut_put_u8;
use crate::buffer::bytes_mut_remaining_mut;
use crate::buffer::bytes_mut_view;
use crate::buffer::bytes_split_to;
use crate::buffer::bytes_to_vec;
use crate::buffer::bytes_view;
use crate::endian::zero_bytes;
use crate::error::BytesRequired;
use crate::error::Error;

verus! {

/// The wire width of the whole cookie.
pub const COOKIE_SIZE: usize = 24;

/// The major protocol version this implementation speaks.
pub const MAGIC_MAJOR: u8 = 7;

/// The minor protocol version this implementation speaks.
pub const MAGIC_MINOR: u8 = 35;

/// The ASCII bytes of `"vrpn: ver. "`, the magic signature that opens every
/// cookie.
pub open spec fn magic_prefix() -> Seq<u8> {
    seq![118u8, 114u8, 112u8, 110u8, 58u8, 32u8, 118u8, 101u8, 114u8, 46u8, 32u8]
}

/// A protocol version pair.
#[derive(Debug, Clone, Copy, Eq, PartialEq, Ord, PartialOrd, Hash, Structural)]
pub struct Version {
    pub major: u8,
    pub minor: u8,
}

/// The decoded contents of a handshake cookie.
#[derive(Debug, Clone, Copy, Eq, PartialEq, Hash, Structural)]
pub struct CookieData {
    pub version: Version,
    /// The peer's logging mode, a single decimal digit.
    pub log_mode: u8,
}

/// The two zero-padded ASCII digits of a value below one hundred.
pub open spec fn two_digits(v: u8) -> Seq<u8>
    recommends
        v < 100,
{
    seq![(48 + v / 10) as u8, (48 + v % 10) as u8]
}

/// The 24 bytes a cookie occupies on the wire.
pub open spec fn cookie_bytes(c: CookieData) -> Seq<u8>
    recommends
        c.wf(),
{
    magic_prefix() + two_digits(c.version.major) + seq![46u8] + two_digits(c.version.minor)
        + seq![32u8] + seq![(48 + c.log_mode) as u8] + zero_bytes(6)
}

impl CookieData {
    /// The version fields fit two decimal digits and the log mode fits one.
    pub open spec fn wf(self) -> bool {
        self.version.major < 100 && self.version.minor < 100 && self.log_mode <= 9
    }

    /// The cookie this side sends: its own version, with the given log
    /// mode.
    pub fn make_cookie(log_mode: u8) -> (r: CookieData)
        requires
            log_mode <= 9,
        ensures
            r.version.major == MAGIC_MAJOR,
            r.version.minor == MAGIC_MINOR,
            r.log_mode == log_mode,
            r.wf(),
    {
        CookieData { version: Version { major: MAGIC_MAJOR, minor: MAGIC_MINOR }, log_mode }
    }

    /// Appends the cookie's 24 bytes to `buf`; fails with `OutOfBuffer`,
    /// writing nothing, when the destination cannot hold them.
    pub fn buffer_ref(&self, buf: &mut BytesMut) -> (r: Result<(), Error>)
        requires
            self.wf(),
        ensures
            bytes_mut_view(*old(buf)).len() + COOKIE_SIZE <= isize::MAX ==> (r == Ok::<(), Error>(
                (),
            ) && bytes_mut_view(*final(buf)) == bytes_mut_view(*old(buf)) + cookie_bytes(*self)),
            bytes_mut_view(*old(buf)).len() + COOKIE_SIZE > isize::MAX ==> (r == Err::<(), Error>(
                Error::OutOfBuffer,
            ) && bytes_mut_view(*final(buf)) == bytes_mut_view(*old(buf))),
    {
        if bytes_mut_remaining_mut(buf) < COOKIE_SIZE {
            return Err(Error::OutOfBuffer);
        }
        bytes_mut_put_u8(buf, 118);
        bytes_mut_put_u8(buf, 114);
        bytes_mut_put_u8(buf, 112);
        bytes_mut_put_u8(buf, 110);
        bytes_mut_put_u8(buf, 58);
        bytes_mut_put_u8(buf, 32);
        bytes_mut_put_u8(buf, 118);
        bytes_mut_put_u8(buf, 101);
        bytes_mut_put_u8(buf, 114);
        bytes_mut_put_u8(buf, 46);
        bytes_mut_put_u8(buf, 32);
        bytes_mut_put_u8(buf, 48 + self.version.major / 10);
        bytes_mut_put_u8(buf, 48 + self.version.major % 10);
        bytes_mut_put_u8(buf, 46);
        bytes_mut_put_u8(buf, 48 + self.version.minor / 10);
        bytes_mut_put_u8(buf, 48 + self.version.minor % 10);
        bytes_mut_put_u8(buf, 32);
        bytes_mut_put_u8(buf, 48 + self.log_mode);
        bytes_mut_put_u8(buf, 0);
        bytes_mut_put_u8(buf, 0);
        bytes_mut_put_u8(buf, 0);
        bytes_mut_put_u8(buf, 0);
        bytes_mut_put_u8(buf, 0);
        bytes_mut_put_u8(buf, 0);
        proof {
            assert(bytes_mut_view(*buf) =~= bytes_mut_view(*old(buf)) + cookie_bytes(*self));
        }
        Ok(())
    }

    /// Reads a cookie from the front of `buf`, consuming exactly the
    /// cookie's width once enough bytes are present. A wrong byte anywhere
    /// in the fixed template is `InvalidMagic`; a non-digit where a digit
    /// belongs is `InvalidDecimalDigit`. Trailing padding bytes are
    /// ignored.
    pub fn unbuffer_ref(buf: &mut Bytes) -> (r: Result<CookieData, Error>)
        ensures
            bytes_view(*old(buf)).len() < COOKIE_SIZE ==> (r == Err::<CookieData, Error>(
                Error::NeedMoreData(
                    BytesRequired::Exactly((COOKIE_SIZE - bytes_view(*old(buf)).len()) as usize),
                ),
            ) && bytes_view(*final(buf)) == bytes_view(*old(buf))),
            bytes_view(*old(buf)).len() >= COOKIE_SIZE ==> bytes_view(*final(buf)) == bytes_view(
                *old(buf),
            ).skip(COOKIE_SIZE as int),
            bytes_view(*old(buf)).len() >= COOKIE_SIZE ==> (match r {
                Ok(c) => cookie_template_ok(bytes_view(*old(buf))) && all_digits_ok(
                    bytes_view(*old(buf)),
                ) && c.version.major == digit_pair_val(bytes_view(*old(buf)), 11)
                    && c.version.minor == digit_pair_val(bytes_view(*old(buf)), 14) && c.log_mode
                    == bytes_view(*old(buf))[17] - 48,
                Err(e) => (e == Error::InvalidMagic && !cookie_template_ok(bytes_view(*old(buf))))
                    || (e matches Error::InvalidDecimalDigit(b) && cookie_template_ok(
                    bytes_view(*old(buf)),
                ) && !all_digits_ok(bytes_view(*old(buf)))),
            }),
    {
        let len = bytes_len(buf);
        if len < COOKIE_SIZE {
            return Err(Error::NeedMoreData(BytesRequired::Exactly(COOKIE_SIZE - len)));
        }
        let ghost s = bytes_view(*buf);
        let head = bytes_split_to(buf, COOKIE_SIZE);
        let v = bytes_to_vec(&head);
        let template_ok = v[0] == 118 && v[1] == 114 && v[2] == 112 && v[3] == 110 && v[4] == 58
            && v[5] == 32 && v[6] == 118 && v[7] == 101 && v[8] == 114 && v[9] == 46 && v[10] == 32
            && v[13] == 46 && v[16] == 32;
        proof {
            assert(v@ == s.take(COOKIE_SIZE as int));
            if template_ok {
                assert(s.take(11) =~= magic_prefix());
            }
        }
        if !template_ok {
            return Err(Error::InvalidMagic);
        }
        let major = parse_digit_pair(&v, 11)?;
        let minor = parse_digit_pair(&v, 14)?;
        let log_byte = v[17];
        if !(48 <= log_byte && log_byte <= 57) {
            return Err(Error::InvalidDecimalDigit(log_byte));
        }
        Ok(CookieData { version: Version { major, minor }, log_mode: log_byte - 48 })
    }

    /// Fail-closed version gate: a peer with another major version never
    /// gets a connection; minor versions are compatible within a major.
    pub fn check_ver_nonfile_compatible(&self) -> (r: Result<(), Error>)
        ensures
            self.version.major == MAGIC_MAJOR ==> r == Ok::<(), Error>(()),
            self.version.major != MAGIC_MAJOR ==> r == Err::<(), Error>(
                Error::VersionMismatch(self.version.major),
            ),
    {
        if self.version.major == MAGIC_MAJOR {
            Ok(())
        } else {
            Err(Error::VersionMismatch(self.version.major))
        }
    }
}

/// Every fixed (non-digit, non-padding) byte of the cookie template is in
/// place at the front of `s`.
pub open spec fn cookie_template_ok(s: Seq<u8>) -> bool
    recommends
        s.len() >= COOKIE_SIZE,
{
    s.take(11) == magic_prefix() && s[13] == 46 && s[16] == 32
}

/// True when `s[i]` is an ASCII decimal digit.
pub open spec fn is_digit(s: Seq<u8>, i: int) -> bool {
    48 <= s[i] <= 57
}

/// Every digit position of the cookie holds a digit.
pub open spec fn all_digits_ok(s: Seq<u8>) -> bool
    recommends
        s.len() >= COOKIE_SIZE,
{
    is_digit(s, 11) && is_digit(s, 12) && is_digit(s, 14) && is_digit(s, 15) && is_digit(s, 17)
}

/// The value of the two decimal digits at positions `i`, `i + 1`.
pub open spec fn digit_pair_val(s: Seq<u8>, i: int) -> int {
    (s[i] - 48) * 10 + (s[i + 1] - 48)
}

/// Parses the two decimal digits at positions `i`, `i + 1` of the cookie.
fn parse_digit_pair(v: &Vec<u8>, i: usize) -> (r: Result<u8, Error>)
    requires
        i + 1 < v@.len(),
        i < 100,
    ensures
        match r {
            Ok(val) => is_digit(v@, i as int) && is_digit(v@, i as int + 1) && val
                == digit_pair_val(v@, i as int) && val < 100,
            Err(e) => e matches Error::InvalidDecimalDigit(b) && !(is_digit(v@, i as int)
                && is_digit(v@, i as int + 1)),
        },
{
    let hi = v[i];
    if !(48 <= hi && hi <= 57) {
        return Err(Error::InvalidDecimalDigit(hi));
    }
    let lo = v[i + 1];
    if !(48 <= lo && lo <= 57) {
        return Err(Error::InvalidDecimalDigit(lo));
    }
    Ok((hi - 48) * 10 + (lo - 48))
}

/// Law: a well-formed cookie's bytes read back to the same cookie.
pub proof fn lemma_cookie_roundtrip(c: CookieData)
    requires
        c.wf(),
    ensures
        cookie_bytes(c).len() == COOKIE_SIZE,
        cookie_template_ok(cookie_bytes(c)),
        all_digits_ok(cookie_bytes(c)),
        digit_pair_val(cookie_bytes(c), 11) == c.version.major,
        digit_pair_val(cookie_bytes(c), 14) == c.version.minor,
        cookie_bytes(c)[17] - 48 == c.log_mode,
{
    let s = cookie_bytes(c);
    assert(s.take(11) =~= magic_prefix());
    assert(s[11] == 48 + c.version.major / 10);
    assert(s[12] == 48 + c.version.major % 10);
    assert(s[14] == 48 + c.version.minor / 10);
    assert(s[15] == 48 + c.version.minor % 10);
    assert((c.version.major / 10) * 10 + c.version.major % 10 == c.version.major) by {
        vstd::arithmetic::div_mod::lemma_fundamental_div_mod(c.version.major as int, 10);
    };
    assert((c.version.minor / 10) * 10 + c.version.minor % 10 == c.version.minor) by {
        vstd::arithmetic::div_mod::lemma_fundamental_div_mod(c.version.minor as int, 10);
    };
}

/// The whole receive-side handshake gate, from bytes: reads one cookie and
/// applies the fail-closed version check. A correct magic with an
/// unsupported major version yields `VersionMismatch` and no cookie — the
/// connection is never established; a minor-version difference alone
/// passes.
pub fn read_and_check_nonfile_cookie(buf: &mut Bytes) -> (r: Result<CookieData, Error>)
    ensures
        bytes_view(*old(buf)).len() < COOKIE_SIZE ==> (r == Err::<CookieData, Error>(
            Error::NeedMoreData(
                BytesRequired::Exactly((COOKIE_SIZE - bytes_view(*old(buf)).len()) as usize),
            ),
        ) && bytes_view(*final(buf)) == bytes_view(*old(buf))),
        bytes_view(*old(buf)).len() >= COOKIE_SIZE ==> bytes_view(*final(buf)) == bytes_view(
            *old(buf),
        ).skip(COOKIE_SIZE as int),
        bytes_view(*old(buf)).len() >= COOKIE_SIZE ==> (match r {
            Ok(c) => cookie_template_ok(bytes_view(*old(buf))) && all_digits_ok(
                bytes_view(*old(buf)),
            ) && c.version.major == MAGIC_MAJOR && c.version.major == digit_pair_val(
                bytes_view(*old(buf)),
                11,
            ) && c.version.minor == digit_pair_val(bytes_view(*old(buf)), 14) && c.log_mode
                == bytes_view(*old(buf))[17] - 48,
            Err(e) => (e == Error::InvalidMagic && !cookie_template_ok(bytes_view(*old(buf)))) || (
            e matches Error::InvalidDecimalDigit(b) && cookie_template_ok(bytes_view(*old(buf)))
                && !all_digits_ok(bytes_view(*old(buf)))) || (e matches Error::VersionMismatch(m)
                && cookie_template_ok(bytes_view(*old(buf))) && all_digits_ok(
                bytes_view(*old(buf)),
            ) && m == digit_pair_val(bytes_view(*old(buf)), 11) && m != MAGIC_MAJOR),
        }),
{
    let cookie = CookieData::unbuffer_ref(buf)?;
    cookie.check_ver_nonfile_compatible()?;
    Ok(cookie)
}

} // verus!
