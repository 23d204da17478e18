//! Text as the format stores it: 16-bit units and bytes, turned into strings,
//! and bytes shown as hexadecimal digits.

use vstd::prelude::*;
use vstd::string::StringExecFns;
use vstd::utf8::{decode_utf8, valid_utf8};
use crate::model::{Bytes, FCPGDOLD};

verus! {

/// Whether `u` is the first unit of a surrogate pair.
pub open spec fn is_high_surrogate(u: u16) -> bool {
    0xD800 <= u <= 0xDBFF
}

/// Whether `u` is the second unit of a surrogate pair.
pub open spec fn is_low_surrogate(u: u16) -> bool {
    0xDC00 <= u <= 0xDFFF
}

/// The character that the surrogate pair `hi`, `lo` stands for.
pub open spec fn surrogate_pair_char(hi: u16, lo: u16) -> char {
    (0x1_0000 + (hi - 0xD800) * 0x400 + (lo - 0xDC00)) as char
}

/// The text that `units` encode in UTF-16, or `None` where they hold a
/// surrogate that is not part of a pair.
pub open spec fn utf16_text(units: Seq<u16>) -> Option<Seq<char>>
    decreases units.len(),
{
    if units.len() == 0 {
        Some(Seq::empty())
    } else if !is_high_surrogate(units[0]) && !is_low_surrogate(units[0]) {
        match utf16_text(units.skip(1)) {
            Some(rest) => Some(seq![units[0] as char] + rest),
            None => None,
        }
    } else if is_high_surrogate(units[0]) && units.len() >= 2 && is_low_surrogate(units[1]) {
        match utf16_text(units.skip(2)) {
            Some(rest) => Some(seq![surrogate_pair_char(units[0], units[1])] + rest),
            None => None,
        }
    } else {
        None
    }
}

/// The text that `bytes` encode in UTF-8, or `None` where they are no valid
/// encoding.
pub open spec fn utf8_text(bytes: Seq<u8>) -> Option<Seq<char>> {
    if valid_utf8(bytes) {
        Some(decode_utf8(bytes))
    } else {
        None
    }
}

/// The upper-case hexadecimal digit of a value below sixteen.
pub open spec fn hex_digit(d: int) -> char {
    if d < 10 {
        (0x30 + d) as char
    } else {
        (0x37 + d) as char
    }
}

/// Two upper-case hexadecimal digits for each byte of `bytes`, the high
/// half first.
pub open spec fn hex_text(bytes: Seq<u8>) -> Seq<char> {
    Seq::new(
        2 * bytes.len(),
        |i: int|
            if i % 2 == 0 {
                hex_digit(bytes[i / 2] as int / 16)
            } else {
                hex_digit(bytes[i / 2] as int % 16)
            },
    )
}

/// `String::from_utf16`: the string that the units encode in UTF-16, and
/// nothing where a unit is an unpaired surrogate.
#[verifier::external_body]
pub(crate) fn string_from_utf16(units: &[u16]) -> (r: Option<String>)
    ensures
        match r {
            Some(t) => utf16_text(units@) == Some(t@),
            None => utf16_text(units@) is None,
        },
{
    match String::from_utf16(units) {
        Ok(t) => Some(t),
        Err(_) => None,
    }
}

/// `String::from_utf8`: the string that the bytes encode in UTF-8, and nothing
/// where the bytes are no valid UTF-8.
#[verifier::external_body]
pub(crate) fn string_from_utf8(bytes: Vec<u8>) -> (r: Option<String>)
    ensures
        match r {
            Some(t) => utf8_text(bytes@) == Some(t@),
            None => utf8_text(bytes@) is None,
        },
{
    match String::from_utf8(bytes) {
        Ok(t) => Some(t),
        Err(_) => None,
    }
}

/// `hex::encode_upper`: each byte as two digits out of `0123456789ABCDEF`, the
/// high half of the byte first.
#[verifier::external_body]
pub(crate) fn hex_upper(bytes: &[u8]) -> (r: String)
    ensures
        r@ == hex_text(bytes@),
{
    hex::encode_upper(bytes)
}

/// The decimal digit of a value below ten.
pub open spec fn digit_char(d: int) -> char {
    (0x30 + d) as char
}

/// The decimal digits of `n`, without leading zeros.
pub open spec fn decimal_digits(n: nat) -> Seq<char>
    decreases n,
{
    if n < 10 {
        seq![digit_char(n as int)]
    } else {
        decimal_digits(n / 10).push(digit_char((n % 10) as int))
    }
}

/// The number `n` in decimal digits, with a minus sign where it is negative.
pub open spec fn decimal_text(n: int) -> Seq<char> {
    if n < 0 {
        seq!['-'] + decimal_digits((-n) as nat)
    } else {
        decimal_digits(n as nat)
    }
}

/// A truth value as a word.
pub open spec fn bool_text(b: bool) -> Seq<char> {
    if b {
        "true"@
    } else {
        "false"@
    }
}

/// Raw bytes as they are shown: `0x` and two hexadecimal digits for each.
pub open spec fn bytes_text(bytes: Seq<u8>) -> Seq<char> {
    "0x"@ + hex_text(bytes)
}

/// Three truth values as a bracketed list.
pub open spec fn flags_text(flags: [bool; 3]) -> Seq<char> {
    "["@ + bool_text(flags[0]) + ","@ + bool_text(flags[1]) + ","@ + bool_text(flags[2]) + "]"@
}

/// The four words of an old page descriptor locator, each under its name.
pub open spec fn fcpgd_text(v: FCPGDOLD) -> Seq<char> {
    "{\"fcPgd\":"@ + decimal_text(v.fcPgd as int) + ",\"lcbPgd\":"@ + decimal_text(v.lcbPgd as int)
        + ",\"fcBkd\":"@ + decimal_text(v.fcBkd as int) + ",\"lcbBkd\":"@ + decimal_text(
        v.lcbBkd as int,
    ) + "}"@
}

/// The digit `d` as a string.
fn digit_str(d: u64) -> (r: &'static str)
    requires
        d < 10,
    ensures
        r@ == seq![digit_char(d as int)],
{
    proof {
        reveal_strlit("0");
        reveal_strlit("1");
        reveal_strlit("2");
        reveal_strlit("3");
        reveal_strlit("4");
        reveal_strlit("5");
        reveal_strlit("6");
        reveal_strlit("7");
        reveal_strlit("8");
        reveal_strlit("9");
    }
    let r: &'static str = match d {
        0 => "0",
        1 => "1",
        2 => "2",
        3 => "3",
        4 => "4",
        5 => "5",
        6 => "6",
        7 => "7",
        8 => "8",
        _ => "9",
    };
    assert(r@ =~= seq![digit_char(d as int)]);
    r
}

/// Appends the decimal digits of `n` to `out`.
fn append_digits(out: &mut String, n: u64)
    ensures
        final(out)@ == old(out)@ + decimal_digits(n as nat),
    decreases n,
{
    if n >= 10 {
        append_digits(out, n / 10);
    }
    out.append(digit_str(n % 10));
    assert(out@ =~= old(out)@ + decimal_digits(n as nat));
}

/// The number `n` in decimal digits.
pub fn decimal_string(n: i64) -> (r: String)
    ensures
        r@ == decimal_text(n as int),
{
    let mut out: String = String::new();
    if n < 0 {
        proof {
            reveal_strlit("-");
        }
        out.append("-");
        assert(out@ =~= seq!['-']);
        let magnitude: u64 = if n == i64::MIN {
            0x8000_0000_0000_0000u64
        } else {
            (-n) as u64
        };
        append_digits(&mut out, magnitude);
    } else {
        append_digits(&mut out, n as u64);
        assert(out@ =~= decimal_digits(n as nat));
    }
    out
}

/// The number `n` in decimal digits.
pub fn unsigned_decimal_string(n: u64) -> (r: String)
    ensures
        r@ == decimal_text(n as int),
{
    let mut out: String = String::new();
    append_digits(&mut out, n);
    assert(out@ =~= decimal_digits(n as nat));
    out
}

/// The truth value `b` as a word.
pub fn bool_string(b: bool) -> (r: String)
    ensures
        r@ == bool_text(b),
{
    if b {
        String::from_str("true")
    } else {
        String::from_str("false")
    }
}

/// The bytes of `bytes` as they are shown.
pub fn bytes_string(bytes: &Bytes) -> (r: String)
    ensures
        r@ == bytes_text(bytes@),
{
    let mut out: String = String::from_str("0x");
    let digits: String = hex_upper(bytes.bytes.as_slice());
    out.append(digits.as_str());
    out
}

/// Three truth values as a bracketed list.
pub fn flags_string(flags: &[bool; 3]) -> (r: String)
    ensures
        r@ == flags_text(*flags),
{
    let mut out: String = String::from_str("[");
    out.append(bool_string(flags[0]).as_str());
    out.append(",");
    out.append(bool_string(flags[1]).as_str());
    out.append(",");
    out.append(bool_string(flags[2]).as_str());
    out.append("]");
    out
}

/// The four words of an old page descriptor locator, each under its name.
pub fn fcpgd_string(v: &FCPGDOLD) -> (r: String)
    ensures
        r@ == fcpgd_text(*v),
{
    let mut out: String = String::from_str("{\"fcPgd\":");
    out.append(decimal_string(v.fcPgd as i64).as_str());
    out.append(",\"lcbPgd\":");
    out.append(decimal_string(v.lcbPgd as i64).as_str());
    out.append(",\"fcBkd\":");
    out.append(decimal_string(v.fcBkd as i64).as_str());
    out.append(",\"lcbBkd\":");
    out.append(decimal_string(v.lcbBkd as i64).as_str());
    out.append("}");
    out
}

} // verus!
