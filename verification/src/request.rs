//! Building the request URL: the fixed endpoint with the three query
//! parameters `str`, `len` and `ch`, their values written in the
//! `application/x-www-form-urlencoded` form.
//!
//! The encoding writes each character's UTF-8 bytes one by one: ASCII
//! letters and digits and `*`, `-`, `.`, `_` stand as they are, a space
//! becomes `+`, and every other byte becomes `%` and two upper-case
//! hexadecimal digits.

use vstd::prelude::*;
use vstd::string::StrSliceExecFns;
use vstd::string::StringExecFns;
use crate::text::push_char;

verus! {

/// True of the bytes the form encoding leaves unchanged: ASCII letters
/// and digits, `*`, `-`, `.` and `_`.
pub open spec fn is_unreserved(b: u8) -> bool {
    (48 <= b <= 57) || (65 <= b <= 90) || (97 <= b <= 122) || b == 42 || b == 45 || b == 46
        || b == 95
}

/// The character of one hexadecimal digit, upper case. Digits below ten
/// are also the decimal digit characters.
pub open spec fn hex_digit(n: u8) -> char
    recommends
        n < 16,
{
    if n < 10 {
        ((48 + n) as u8) as char
    } else {
        ((55 + n) as u8) as char
    }
}

/// The percent-escape of one byte: `%` and two upper-case hex digits.
pub open spec fn pct(b: u8) -> Seq<char> {
    seq!['%', hex_digit(b / 16), hex_digit(b % 16)]
}

/// How the form encoding writes one byte on its own.
pub open spec fn byte_encoded(b: u8) -> Seq<char> {
    if b == 32 {
        seq!['+']
    } else if is_unreserved(b) {
        seq![b as char]
    } else {
        pct(b)
    }
}

/// How the form encoding writes one character: each of its UTF-8 bytes
/// escaped; only a single-byte character can stand unescaped.
pub open spec fn char_encoded(c: char) -> Seq<char> {
    let u = c as u32;
    if u < 0x80 {
        byte_encoded(u as u8)
    } else if u < 0x800 {
        pct((0xC0 + u / 0x40) as u8) + pct((0x80 + u % 0x40) as u8)
    } else if u < 0x10000 {
        pct((0xE0 + u / 0x1000) as u8) + pct((0x80 + (u / 0x40) % 0x40) as u8) + pct(
            (0x80 + u % 0x40) as u8,
        )
    } else {
        pct((0xF0 + u / 0x40000) as u8) + pct((0x80 + (u / 0x1000) % 0x40) as u8) + pct(
            (0x80 + (u / 0x40) % 0x40) as u8,
        ) + pct((0x80 + u % 0x40) as u8)
    }
}

/// The form encoding of the first `i` characters of `s`.
pub open spec fn encoded_prefix(s: Seq<char>, i: int) -> Seq<char>
    decreases i,
{
    if i <= 0 {
        Seq::empty()
    } else {
        encoded_prefix(s, i - 1) + char_encoded(s[i - 1])
    }
}

/// The form encoding of a whole string.
pub open spec fn form_encoded(s: Seq<char>) -> Seq<char> {
    encoded_prefix(s, s.len() as int)
}

/// The decimal digits of `n`, most significant first.
pub open spec fn decimal(n: u32) -> Seq<char>
    decreases n,
{
    if n < 10 {
        seq![hex_digit((n % 10) as u8)]
    } else {
        decimal(n / 10).push(hex_digit((n % 10) as u8))
    }
}

/// The exact URL of a padding request for the given parameters.
pub open spec fn url_of(s: Seq<char>, c: Seq<char>, len: u32) -> Seq<char> {
    "https://api.left-pad.io/?str="@ + form_encoded(s) + "&len="@ + decimal(len) + "&ch="@
        + form_encoded(c)
}

fn hex_char(n: u8) -> (c: char)
    requires
        n < 16,
    ensures
        c == hex_digit(n),
{
    if n < 10 {
        (48 + n) as char
    } else {
        (55 + n) as char
    }
}

fn push_pct(out: &mut String, b: u8)
    ensures
        final(out)@ == old(out)@ + pct(b),
{
    push_char(out, '%');
    push_char(out, hex_char(b / 16));
    push_char(out, hex_char(b % 16));
    proof {
        assert(old(out)@.push('%').push(hex_digit(b / 16)).push(hex_digit(b % 16)) =~= old(out)@
            + pct(b));
    }
}

fn is_unreserved_byte(b: u8) -> (r: bool)
    ensures
        r == is_unreserved(b),
{
    (48 <= b && b <= 57) || (65 <= b && b <= 90) || (97 <= b && b <= 122) || b == 42 || b == 45
        || b == 46 || b == 95
}

fn push_byte_encoded(out: &mut String, b: u8)
    ensures
        final(out)@ == old(out)@ + byte_encoded(b),
{
    if b == 32 {
        push_char(out, '+');
        proof {
            assert(old(out)@.push('+') =~= old(out)@ + byte_encoded(b));
        }
    } else if is_unreserved_byte(b) {
        push_char(out, b as char);
        proof {
            assert(old(out)@.push(b as char) =~= old(out)@ + byte_encoded(b));
        }
    } else {
        push_pct(out, b);
    }
}

fn push_char_encoded(out: &mut String, c: char)
    ensures
        final(out)@ == old(out)@ + char_encoded(c),
{
    let u = c as u32;
    if u < 0x80 {
        push_byte_encoded(out, u as u8);
    } else if u < 0x800 {
        push_pct(out, (0xC0 + u / 0x40) as u8);
        push_pct(out, (0x80 + u % 0x40) as u8);
        proof {
            assert(old(out)@ + pct((0xC0 + u / 0x40) as u8) + pct((0x80 + u % 0x40) as u8)
                =~= old(out)@ + char_encoded(c));
        }
    } else if u < 0x10000 {
        push_pct(out, (0xE0 + u / 0x1000) as u8);
        push_pct(out, (0x80 + (u / 0x40) % 0x40) as u8);
        push_pct(out, (0x80 + u % 0x40) as u8);
        proof {
            assert(old(out)@ + pct((0xE0 + u / 0x1000) as u8) + pct(
                (0x80 + (u / 0x40) % 0x40) as u8,
            ) + pct((0x80 + u % 0x40) as u8) =~= old(out)@ + char_encoded(c));
        }
    } else {
        push_pct(out, (0xF0 + u / 0x40000) as u8);
        push_pct(out, (0x80 + (u / 0x1000) % 0x40) as u8);
        push_pct(out, (0x80 + (u / 0x40) % 0x40) as u8);
        push_pct(out, (0x80 + u % 0x40) as u8);
        proof {
            assert(old(out)@ + pct((0xF0 + u / 0x40000) as u8) + pct(
                (0x80 + (u / 0x1000) % 0x40) as u8,
            ) + pct((0x80 + (u / 0x40) % 0x40) as u8) + pct((0x80 + u % 0x40) as u8) =~= old(out)@
                + char_encoded(c));
        }
    }
}

fn push_encoded(out: &mut String, s: &str)
    ensures
        final(out)@ == old(out)@ + form_encoded(s@),
{
    let n = s.unicode_len();
    for i in 0..n
        invariant
            n == s@.len(),
            out@ == old(out)@ + encoded_prefix(s@, i as int),
    {
        let c = s.get_char(i);
        push_char_encoded(out, c);
        proof {
            assert(old(out)@ + encoded_prefix(s@, i as int) + char_encoded(c) =~= old(out)@
                + encoded_prefix(s@, i + 1));
        }
    }
}

fn push_decimal(out: &mut String, n: u32)
    ensures
        final(out)@ == old(out)@ + decimal(n),
    decreases n,
{
    if n < 10 {
        push_char(out, hex_char((n % 10) as u8));
        proof {
            assert(old(out)@.push(hex_digit((n % 10) as u8)) =~= old(out)@ + decimal(n));
        }
    } else {
        push_decimal(out, n / 10);
        push_char(out, hex_char((n % 10) as u8));
        proof {
            assert((old(out)@ + decimal(n / 10)).push(hex_digit((n % 10) as u8)) =~= old(out)@
                + decimal(n));
        }
    }
}

/// Builds the URL of one padding request: the fixed endpoint with the
/// query parameters `str`, `len` and `ch` in that order, the two string
/// values form-encoded and the length in decimal.
pub fn request_url(string: &str, ch: &str, len: u32) -> (r: String)
    ensures
        r@ == url_of(string@, ch@, len),
{
    let mut url = String::new();
    url.append("https://api.left-pad.io/?str=");
    push_encoded(&mut url, string);
    url.append("&len=");
    push_decimal(&mut url, len);
    url.append("&ch=");
    push_encoded(&mut url, ch);
    proof {
        assert(url@ =~= url_of(string@, ch@, len));
    }
    url
}

} // verus!
