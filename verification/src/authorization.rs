//! The `Authorization` header of HTTP Basic authentication.
use crate::request::{Credentials, Request, RequestView};
use vstd::prelude::*;
use vstd::utf8::*;

verus! {

/// The sixty-four digits of base64, in the order of their values.
pub const ALPHABET: &'static str =
    "ABCDEFGHIJKLMNOPQRSTUVWXYZabcdefghijklmnopqrstuvwxyz0123456789+/";

/// A number below sixty-four as a base64 digit.
pub open spec fn base64_digit_text(value: int) -> Seq<char> {
    ALPHABET@.subrange(value, value + 1)
}

/// Bytes in base64, with the standard alphabet and with padding: every three
/// bytes, read as one number of twenty-four bits, give four digits of six
/// bits each; two bytes at the end give three digits and one `=`, and one
/// byte at the end gives two digits and `==`.
pub open spec fn base64_text(bytes: Seq<u8>) -> Seq<char>
    decreases bytes.len(),
{
    if bytes.len() == 0 {
        Seq::empty()
    } else if bytes.len() == 1 {
        let number = bytes[0] as int;
        base64_digit_text(number / 4) + base64_digit_text((number % 4) * 16) + "=="@
    } else if bytes.len() == 2 {
        let number = bytes[0] as int * 256 + bytes[1] as int;
        base64_digit_text(number / 1024) + base64_digit_text((number / 16) % 64)
            + base64_digit_text((number % 16) * 4) + "="@
    } else {
        let number = bytes[0] as int * 65536 + bytes[1] as int * 256 + bytes[2] as int;
        base64_digit_text(number / 262144) + base64_digit_text((number / 4096) % 64)
            + base64_digit_text((number / 64) % 64) + base64_digit_text(number % 64)
            + base64_text(bytes.skip(3))
    }
}

/// The value of the `Authorization` header for a key and a secret: `Basic`,
/// a space, and the base64 of the UTF-8 bytes of the key, a colon and the
/// secret.
pub open spec fn basic_authorization(key: Seq<char>, secret: Seq<char>) -> Seq<char> {
    "Basic "@ + base64_text(encode_utf8(key + ":"@ + secret))
}

impl RequestView {
    /// The value of the request's `Authorization` header.
    pub open spec fn authorization(self) -> Seq<char> {
        basic_authorization(self.auth.0, self.auth.1)
    }
}

/// Writes a base64 digit.
fn base64_digit(value: usize) -> (digit: &'static str)
    requires
        value < 64,
    ensures
        digit@ == base64_digit_text(value as int),
{
    proof {
        reveal_strlit("ABCDEFGHIJKLMNOPQRSTUVWXYZabcdefghijklmnopqrstuvwxyz0123456789+/");
    }
    ALPHABET.substring_ascii(value, value + 1)
}

/// Writes bytes in base64.
pub fn base64(bytes: &[u8]) -> (text: String)
    ensures
        text@ == base64_text(bytes@),
{
    let mut text = String::new();
    let mut i: usize = 0;
    proof {
        assert(bytes@.skip(0) =~= bytes@);
        assert(text@ + base64_text(bytes@) =~= base64_text(bytes@));
    }
    while bytes.len() - i >= 3
        invariant
            i <= bytes.len(),
            base64_text(bytes@) == text@ + base64_text(bytes@.skip(i as int)),
        decreases bytes.len() - i,
    {
        let number: usize = bytes[i] as usize * 65536 + bytes[i + 1] as usize * 256 + bytes[i
            + 2] as usize;
        let ghost before = text@;
        let ghost rest = bytes@.skip(i as int);
        text.append(base64_digit(number / 262144));
        text.append(base64_digit((number / 4096) % 64));
        text.append(base64_digit((number / 64) % 64));
        text.append(base64_digit(number % 64));
        proof {
            assert(rest.skip(3) =~= bytes@.skip(i + 3));
            assert(rest[0] == bytes@[i as int] && rest[1] == bytes@[i + 1] && rest[2] == bytes@[i
                + 2]);
            assert(base64_text(bytes@) =~= text@ + base64_text(bytes@.skip(i + 3)));
        }
        i += 3;
    }
    let ghost rest = bytes@.skip(i as int);
    if bytes.len() - i == 1 {
        let number: usize = bytes[i] as usize;
        text.append(base64_digit(number / 4));
        text.append(base64_digit((number % 4) * 16));
        text.append("==");
        proof {
            assert(rest[0] == bytes@[i as int]);
            assert(base64_text(bytes@) =~= text@);
        }
    } else if bytes.len() - i == 2 {
        let number: usize = bytes[i] as usize * 256 + bytes[i + 1] as usize;
        text.append(base64_digit(number / 1024));
        text.append(base64_digit((number / 16) % 64));
        text.append(base64_digit((number % 16) * 4));
        text.append("=");
        proof {
            assert(rest[0] == bytes@[i as int] && rest[1] == bytes@[i + 1]);
            assert(base64_text(bytes@) =~= text@);
        }
    } else {
        proof {
            assert(base64_text(bytes@) =~= text@);
        }
    }
    text
}

impl Credentials {
    /// Writes the value of the `Authorization` header for these credentials.
    pub fn authorization(&self) -> (header: String)
        ensures
            header@ == basic_authorization(self.key@, self.secret@),
    {
        let mut pair = self.key.clone();
        pair.append(":");
        pair.append(self.secret.as_str());
        let mut header = String::from_str("Basic ");
        header.append(base64(pair.as_str().as_bytes()).as_str());
        header
    }
}

impl Request {
    /// Writes the value of the request's `Authorization` header.
    pub fn authorization(&self) -> (header: String)
        ensures
            header@ == self@.authorization(),
    {
        self.auth.authorization()
    }
}

} // verus!
