//! Percent-encoding, base64 and decimal rendering of integers.
//!
//! The specification-level functions here pin down, character by character,
//! what the executable code produces. Percent-encoding and base64 are
//! performed by outside crates behind trusted wrappers whose contracts state
//! the exact output.

use vstd::prelude::*;

verus! {

use base64::Engine;
use vstd::string::StringExecFns;

/// The bytes that percent-encoding leaves untouched: ASCII alphanumerics and
/// `-`, `.`, `_`, `~`.
pub open spec fn is_unreserved_byte(b: u8) -> bool {
    (65 <= b && b <= 90)  // 'A' ..= 'Z'
    || (97 <= b && b <= 122)  // 'a' ..= 'z'
    || (48 <= b && b <= 57)  // '0' ..= '9'
    || b == 45 || b == 46 || b == 95 || b == 126  // '-' '.' '_' '~'
}

/// Upper-case hexadecimal digit for a value below 16.
pub open spec fn hex_upper(d: u8) -> char {
    if d < 10 {
        (d + 48) as char
    } else {
        (d + 55) as char
    }
}

/// Percent-encoding of a single byte: unreserved bytes stand as themselves,
/// every other byte becomes `%` followed by two upper-case hex digits.
pub open spec fn pct_byte(b: u8) -> Seq<char> {
    if is_unreserved_byte(b) {
        seq![b as char]
    } else {
        seq!['%', hex_upper(b / 16), hex_upper(b % 16)]
    }
}

/// Percent-encoding of a byte sequence, byte by byte.
pub open spec fn pct_bytes(bs: Seq<u8>) -> Seq<char>
    decreases bs.len(),
{
    if bs.len() == 0 {
        Seq::empty()
    } else {
        pct_byte(bs.first()) + pct_bytes(bs.drop_first())
    }
}

/// Percent-encoding of a string: its UTF-8 bytes, each encoded by [`pct_byte`].
pub open spec fn pct_encoded(s: Seq<char>) -> Seq<char> {
    pct_bytes(vstd::utf8::encode_utf8(s))
}

/// Relies on `urlencoding::encode`: percent-encodes every byte of the UTF-8
/// form of the input except ASCII alphanumerics and `-`, `_`, `.`, `~`, using
/// upper-case hex digits.
#[verifier::external_body]
pub(crate) fn url_encode(s: &str) -> (r: String)
    ensures
        r@ == pct_encoded(s@),
{
    urlencoding::encode(s).into_owned()
}

/// The 64 digits of the standard base64 alphabet, in order.
pub open spec fn b64_alphabet() -> Seq<char> {
    "ABCDEFGHIJKLMNOPQRSTUVWXYZabcdefghijklmnopqrstuvwxyz0123456789+/"@
}

/// The base64 digit with the given 6-bit value.
pub open spec fn b64_digit(v: int) -> char {
    b64_alphabet()[v]
}

/// Standard, padded base64 of a byte sequence: groups of three bytes become
/// four digits; a trailing group of one or two bytes is padded with `=`.
pub open spec fn b64_of(bs: Seq<u8>) -> Seq<char>
    decreases bs.len(),
{
    if bs.len() == 0 {
        Seq::empty()
    } else if bs.len() == 1 {
        let b0 = bs[0];
        seq![b64_digit(b0 as int / 4), b64_digit((b0 as int % 4) * 16), '=', '=']
    } else if bs.len() == 2 {
        let b0 = bs[0];
        let b1 = bs[1];
        seq![
            b64_digit(b0 as int / 4),
            b64_digit((b0 as int % 4) * 16 + b1 as int / 16),
            b64_digit((b1 as int % 16) * 4),
            '=',
        ]
    } else {
        let b0 = bs[0];
        let b1 = bs[1];
        let b2 = bs[2];
        seq![
            b64_digit(b0 as int / 4),
            b64_digit((b0 as int % 4) * 16 + b1 as int / 16),
            b64_digit((b1 as int % 16) * 4 + b2 as int / 64),
            b64_digit(b2 as int % 64),
        ] + b64_of(bs.skip(3))
    }
}

/// Relies on base64's `STANDARD` engine: standard alphabet, `=`-padded
/// encoding of the input bytes.
#[verifier::external_body]
pub(crate) fn base64_encode(bytes: &[u8]) -> (r: String)
    ensures
        r@ == b64_of(bytes@),
{
    base64::engine::general_purpose::STANDARD.encode(bytes)
}

/// Decimal digits of a non-negative integer, most significant first.
pub open spec fn dec_nat(n: nat) -> Seq<char>
    decreases n,
{
    if n < 10 {
        seq![(n + 48) as char]
    } else {
        dec_nat(n / 10) + seq![(n % 10 + 48) as char]
    }
}

/// Decimal rendering of a signed integer: a `-` sign for negative values,
/// then the digits of the absolute value.
pub open spec fn dec_int(n: int) -> Seq<char> {
    if n < 0 {
        seq!['-'] + dec_nat((-n) as nat)
    } else {
        dec_nat(n as nat)
    }
}

fn digit_str(d: u64) -> (r: &'static str)
    requires
        d < 10,
    ensures
        r@ == seq![(d + 48) as char],
{
    let r = match d {
        0 => "0",
        1 => "1",
        2 => "2",
        3 => "3",
        4 => "4",
        5 => "5",
        6 => "6",
        7 => "7",
        8 => "8",
        _ => "9",
    };
    proof {
        reveal_strlit("0");
        reveal_strlit("1");
        reveal_strlit("2");
        reveal_strlit("3");
        reveal_strlit("4");
        reveal_strlit("5");
        reveal_strlit("6");
        reveal_strlit("7");
        reveal_strlit("8");
        reveal_strlit("9");
        assert(r@ =~= seq![(d + 48) as char]);
    }
    r
}

/// Renders an unsigned integer in decimal.
pub(crate) fn u64_to_dec(n: u64) -> (r: String)
    ensures
        r@ == dec_nat(n as nat),
    decreases n,
{
    if n < 10 {
        String::from_str(digit_str(n))
    } else {
        let prefix = u64_to_dec(n / 10);
        prefix.concat(digit_str(n % 10))
    }
}

/// Renders a signed integer in decimal, with a leading `-` when negative.
pub(crate) fn i64_to_dec(n: i64) -> (r: String)
    ensures
        r@ == dec_int(n as int),
{
    if n >= 0 {
        u64_to_dec(n as u64)
    } else {
        let m: u64 = if n == i64::MIN {
            9223372036854775808u64
        } else {
            (-n) as u64
        };
        let digits = u64_to_dec(m);
        let r = String::from_str("-").concat(digits.as_str());
        proof {
            reveal_strlit("-");
            assert(r@ =~= dec_int(n as int));
        }
        r
    }
}

} // verus!
