//! Conversions between 16-bit USB identifiers and their hexadecimal text.

use vstd::prelude::*;
use vstd::string::*;

verus! {

/// Why a hexadecimal identifier could not be read, after std's
/// `IntErrorKind`.
#[derive(Clone, Copy, Debug, PartialEq, Eq, Structural)]
pub enum HexError {
    /// Nothing is left to read.
    Empty,
    /// A character is not a hexadecimal digit.
    InvalidDigit,
    /// The number does not fit in 16 bits.
    PosOverflow,
}

/// The value of a hexadecimal digit, either case.
pub open spec fn hex_digit_value(c: char) -> Option<nat> {
    if '0' <= c && c <= '9' {
        Some((c as u32 - '0' as u32) as nat)
    } else if 'a' <= c && c <= 'f' {
        Some((c as u32 - 'a' as u32 + 10) as nat)
    } else if 'A' <= c && c <= 'F' {
        Some((c as u32 - 'A' as u32 + 10) as nat)
    } else {
        None
    }
}

/// `s` without every leading `0x`.
pub open spec fn strip_0x(s: Seq<char>) -> Seq<char>
    decreases s.len(),
{
    if s.len() >= 2 && s[0] == '0' && s[1] == 'x' {
        strip_0x(s.skip(2))
    } else {
        s
    }
}

/// The value of the first `n` digits of `b`, read left to right; the first
/// bad digit, or the first digit that takes the value past 16 bits, is the
/// error.
pub open spec fn hex_prefix_value(b: Seq<char>, n: nat) -> Result<nat, HexError>
    decreases n,
{
    if n == 0 {
        Ok(0)
    } else {
        match hex_prefix_value(b, (n - 1) as nat) {
            Err(e) => Err(e),
            Ok(v) => match hex_digit_value(b[n - 1]) {
                None => Err(HexError::InvalidDigit),
                Some(d) => if v * 16 + d > u16::MAX {
                    Err(HexError::PosOverflow)
                } else {
                    Ok(v * 16 + d)
                },
            },
        }
    }
}

/// The 16-bit number written in hexadecimal as `s`, as `u16::from_str_radix`
/// reads it: an optional `+`, then one or more digits.
pub open spec fn parse_hex_u16(s: Seq<char>) -> Result<nat, HexError> {
    if s.len() == 0 {
        Err(HexError::Empty)
    } else {
        let body = if s[0] == '+' { s.drop_first() } else { s };
        if body.len() == 0 {
            Err(HexError::InvalidDigit)
        } else {
            hex_prefix_value(body, body.len())
        }
    }
}

fn digit_value(c: char) -> (r: Option<u16>)
    ensures
        r matches Some(d) ==> hex_digit_value(c) == Some(d as nat) && d < 16,
        r is None ==> hex_digit_value(c) is None,
{
    if '0' <= c && c <= '9' {
        Some((c as u32 - '0' as u32) as u16)
    } else if 'a' <= c && c <= 'f' {
        Some((c as u32 - 'a' as u32 + 10) as u16)
    } else if 'A' <= c && c <= 'F' {
        Some((c as u32 - 'A' as u32 + 10) as u16)
    } else {
        None
    }
}

/// Reads a 16-bit identifier written in hexadecimal, with any number of
/// leading `0x` removed first.
pub fn convert_to_int(hex: &str) -> (r: Result<u16, HexError>)
    ensures
        match parse_hex_u16(strip_0x(hex@)) {
            Ok(v) => r == Ok::<u16, HexError>(v as u16),
            Err(e) => r == Err::<u16, HexError>(e),
        },
{
    let n = hex.unicode_len();
    let mut start: usize = 0;
    assert(hex@.skip(0) =~= hex@);
    while n - start > 1 && hex.get_char(start) == '0' && hex.get_char(start + 1) == 'x'
        invariant
            n == hex@.len(),
            start <= n,
            strip_0x(hex@) == strip_0x(hex@.skip(start as int)),
        decreases n - start,
    {
        proof {
            assert(hex@.skip(start as int).skip(2) =~= hex@.skip(start as int + 2));
        }
        start = start + 2;
    }
    let ghost s = hex@.skip(start as int);
    proof {
        assert(strip_0x(s) == s);
    }
    if start == n {
        return Err(HexError::Empty);
    }
    let mut i = start;
    if hex.get_char(i) == '+' {
        i = i + 1;
    }
    if i == n {
        return Err(HexError::InvalidDigit);
    }
    let ghost body = hex@.skip(i as int);
    proof {
        assert(body =~= if s[0] == '+' { s.drop_first() } else { s });
    }
    let mut acc: u16 = 0;
    let mut k: usize = i;
    while k < n
        invariant
            n == hex@.len(),
            i <= k <= n,
            body == hex@.skip(i as int),
            hex_prefix_value(body, (k - i) as nat) == Ok::<nat, HexError>(acc as nat),
            parse_hex_u16(s) == hex_prefix_value(body, body.len()),
            strip_0x(hex@) == s,
        decreases n - k,
    {
        let c = hex.get_char(k);
        proof {
            assert(body[(k - i) as int] == c);
        }
        match digit_value(c) {
            None => {
                proof {
                    assert(hex_prefix_value(body, (k - i + 1) as nat) == Err::<nat, HexError>(
                        HexError::InvalidDigit,
                    ));
                    lemma_prefix_error_sticks(body, (k - i + 1) as nat, body.len());
                }
                return Err(HexError::InvalidDigit);
            },
            Some(d) => {
                let next: u32 = (acc as u32) * 16 + (d as u32);
                if next > 65535 {
                    proof {
                        assert(hex_prefix_value(body, (k - i + 1) as nat) == Err::<nat, HexError>(
                            HexError::PosOverflow,
                        ));
                        lemma_prefix_error_sticks(body, (k - i + 1) as nat, body.len());
                    }
                    return Err(HexError::PosOverflow);
                }
                acc = next as u16;
            },
        }
        k = k + 1;
    }
    Ok(acc)
}

/// Once reading a prefix fails, every longer prefix fails the same way.
proof fn lemma_prefix_error_sticks(b: Seq<char>, n: nat, m: nat)
    requires
        n <= m,
        hex_prefix_value(b, n) is Err,
    ensures
        hex_prefix_value(b, m) == hex_prefix_value(b, n),
    decreases m - n,
{
    if n < m {
        lemma_prefix_error_sticks(b, n, (m - 1) as nat);
    }
}

/// The uppercase hexadecimal digit for a value below 16.
pub open spec fn hex_digit_char(d: nat) -> char {
    if d < 10 {
        ((d + 48) as u8) as char
    } else {
        ((d + 55) as u8) as char
    }
}

/// A 16-bit identifier as `0x` and four uppercase hexadecimal digits.
pub open spec fn hex_text(v: u16) -> Seq<char> {
    seq![
        '0',
        'x',
        hex_digit_char((v / 4096) as nat),
        hex_digit_char(((v / 256) % 16) as nat),
        hex_digit_char(((v / 16) % 16) as nat),
        hex_digit_char((v % 16) as nat),
    ]
}

fn digit_char(d: u16) -> (r: char)
    requires
        d < 16,
    ensures
        r == hex_digit_char(d as nat),
{
    if d < 10 {
        ((d + 48) as u8) as char
    } else {
        ((d + 55) as u8) as char
    }
}

/// Relies on std's `String: FromIterator<char>`: the string of exactly these
/// characters, in order.
#[verifier::external_body]
pub(crate) fn string_of_chars(chars: &Vec<char>) -> (r: String)
    ensures
        r@ == chars@,
{
    chars.iter().collect()
}

/// Writes a 16-bit identifier as `0x` and four uppercase hexadecimal digits,
/// as `format!("{:#06X}", id)` does.
pub fn convert_to_hex(id: u16) -> (r: String)
    ensures
        r@ == hex_text(id),
{
    let mut v: Vec<char> = Vec::new();
    v.push('0');
    v.push('x');
    v.push(digit_char(id / 4096));
    v.push(digit_char((id / 256) % 16));
    v.push(digit_char((id / 16) % 16));
    v.push(digit_char(id % 16));
    assert(v@ =~= hex_text(id));
    string_of_chars(&v)
}

} // verus!
