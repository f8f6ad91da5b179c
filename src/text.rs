//! Text stored in registry data: UTF-16LE strings, and single-byte
//! (extended ASCII) strings that carry no marker of their encoding.

use vstd::prelude::*;
use vstd::slice::*;

verus! {

/// The text and the had-replacements flag that encoding_rs's UTF-16LE decoder
/// gives for `bytes` without BOM handling.
pub uninterp spec fn utf16le_decoding(bytes: Seq<u8>) -> (Seq<char>, bool);

/// Every second byte (each high byte of a UTF-16LE unit) is zero.
pub open spec fn high_bytes_zero(b: Seq<u8>) -> bool {
    forall|i: int| 0 <= i < b.len() / 2 ==> #[trigger] b[2 * i + 1] == 0u8
}

/// Each byte read as the character with that code (Latin-1).
pub open spec fn latin1(b: Seq<u8>) -> Seq<char> {
    Seq::new(b.len(), |i: int| b[i] as char)
}

/// The bytes with a zero byte after each one.
pub open spec fn interleave_zero(b: Seq<u8>) -> Seq<u8> {
    Seq::new(2 * b.len(), |i: int| if i % 2 == 0 { b[i / 2] } else { 0u8 })
}

/// Relies on `encoding_rs::UTF_16LE.decode_without_bom_handling`: the result
/// depends on the bytes alone. Units below 0x100 are never surrogates, so a
/// buffer of such units decodes to those code points without replacement.
#[verifier::external_body]
fn utf16le_decode(bytes: &[u8]) -> (r: (String, bool))
    ensures
        (r.0@, r.1) == utf16le_decoding(bytes@),
        bytes@.len() % 2 == 0 && high_bytes_zero(bytes@) ==> r.0@ == Seq::new(
            bytes@.len() / 2,
            |i: int| bytes@[2 * i] as char,
        ) && !r.1,
{
    let (text, had_errors) = encoding_rs::UTF_16LE.decode_without_bom_handling(bytes);
    (text.into_owned(), had_errors)
}

/// Decodes UTF-16LE data lossily, replacing malformed units with U+FFFD, and
/// reports whether any replacement was made.
pub fn decode_utf16le(buffer: &[u8]) -> (r: (String, bool))
    ensures
        (r.0@, r.1) == utf16le_decoding(buffer@),
{
    utf16le_decode(buffer)
}

/// Reads `length` single-byte characters from `buf` at `offset`, each byte
/// being the code point of one character. `None` where the window does not
/// lie within the buffer.
pub fn read_extended_ascii(buf: &[u8], offset: usize, length: usize) -> (r: Option<String>)
    ensures
        offset as int + length as int > buf@.len() <==> r is None,
        r matches Some(s) ==> s@ == latin1(buf@.subrange(offset as int, offset + length)),
{
    if offset > buf.len() || buf.len() - offset < length {
        return None;
    }
    let n = buf.len();
    let mut raw: Vec<u8> = Vec::new();
    let mut i: usize = 0;
    while i < length
        invariant
            n == buf@.len(),
            offset + length <= n,
            i <= length,
            raw@ == interleave_zero(buf@.subrange(offset as int, offset + i)),
        decreases length - i,
    {
        let ghost before = raw@;
        raw.push(buf[offset + i]);
        raw.push(0u8);
        proof {
            let w = buf@.subrange(offset as int, offset + i + 1);
            assert(raw@ =~= interleave_zero(w)) by {
                assert forall|k: int| 0 <= k < raw@.len() implies raw@[k] == interleave_zero(w)[k] by {
                    if k < 2 * i {
                        assert(raw@[k] == before[k]);
                    }
                }
            }
        }
        i = i + 1;
    }
    let ghost w = buf@.subrange(offset as int, offset + length);
    let (text, _) = utf16le_decode(raw.as_slice());
    proof {
        assert(high_bytes_zero(raw@)) by {
            assert forall|k: int| 0 <= k < raw@.len() / 2 implies #[trigger] raw@[2 * k + 1] == 0u8 by {
                assert((2 * k + 1) % 2 == 1);
            }
        }
        assert(text@ =~= latin1(w)) by {
            assert forall|k: int| 0 <= k < w.len() implies text@[k] == latin1(w)[k] by {
                assert((2 * k) % 2 == 0);
                assert((2 * k) / 2 == k);
            }
        }
    }
    Some(text)
}

/// How a blob of registry data holds its text.
#[derive(Clone, Copy, Debug, PartialEq, Eq, Structural)]
pub enum TextEncoding {
    /// Two bytes per character, little-endian.
    Utf16Le,
    /// One byte per character.
    ExtendedAscii,
}

/// The encoding that the data's layout suggests: UTF-16LE where every
/// second byte is zero, extended ASCII otherwise.
pub fn guess_encoding(data: &[u8]) -> (r: TextEncoding)
    ensures
        high_bytes_zero(data@) ==> r == TextEncoding::Utf16Le,
        !high_bytes_zero(data@) ==> r == TextEncoding::ExtendedAscii,
{
    let n = data.len();
    let half = n / 2;
    let mut i: usize = 0;
    while i < half
        invariant
            n == data@.len(),
            half == n / 2,
            i <= half,
            forall|k: int| 0 <= k < i ==> #[trigger] data@[2 * k + 1] == 0u8,
        decreases half - i,
    {
        if data[2 * i + 1] != 0 {
            return TextEncoding::ExtendedAscii;
        }
        i = i + 1;
    }
    TextEncoding::Utf16Le
}

/// The text of a blob whose encoding is not recorded: decoded as UTF-16LE
/// where every second byte is zero, and byte by byte otherwise.
pub fn decode_unmarked_text(data: &[u8]) -> (r: (TextEncoding, String))
    ensures
        high_bytes_zero(data@) ==> r.0 == TextEncoding::Utf16Le && r.1@ == utf16le_decoding(
            data@,
        ).0,
        !high_bytes_zero(data@) ==> r.0 == TextEncoding::ExtendedAscii && r.1@ == latin1(data@),
{
    match guess_encoding(data) {
        TextEncoding::Utf16Le => {
            let (text, _) = utf16le_decode(data);
            (TextEncoding::Utf16Le, text)
        },
        TextEncoding::ExtendedAscii => {
            let text = read_extended_ascii(data, 0, data.len());
            proof {
                assert(data@.subrange(0, data@.len() as int) =~= data@);
            }
            match text {
                Some(t) => (TextEncoding::ExtendedAscii, t),
                None => (TextEncoding::ExtendedAscii, String::new()),
            }
        },
    }
}

} // verus!
