//! Turning the raw bytes printed by a probing tool into text.
//!
//! The tool announces no character set, so three encodings are tried in a
//! fixed order: strict UTF-8, then UTF-16LE when it decodes cleanly, then the
//! GBK legacy code page, which always yields some text.

use vstd::prelude::*;
use vstd::utf8::*;

verus! {

/// The two bytes that encode one UTF-16 code unit, low byte first.
pub open spec fn unit_le(u: int) -> Seq<u8> {
    seq![(u % 256) as u8, (u / 256) as u8]
}

/// The UTF-16LE encoding of one character: one code unit below U+10000,
/// a surrogate pair above.
pub open spec fn encode_utf16le_char(c: char) -> Seq<u8> {
    let v = (c as u32) as int;
    if v < 0x10000 {
        unit_le(v)
    } else {
        unit_le(0xD800 + (v - 0x10000) / 1024) + unit_le(0xDC00 + (v - 0x10000) % 1024)
    }
}

/// The UTF-16LE encoding of a character sequence, without byte-order mark.
pub open spec fn encode_utf16le(chars: Seq<char>) -> Seq<u8>
    decreases chars.len(),
{
    if chars.len() == 0 {
        seq![]
    } else {
        encode_utf16le_char(chars[0]) + encode_utf16le(chars.drop_first())
    }
}

/// True when the bytes begin with a UTF-8, UTF-16LE or UTF-16BE byte-order mark.
pub open spec fn starts_with_bom(b: Seq<u8>) -> bool {
    ||| (b.len() >= 3 && b[0] == 0xEFu8 && b[1] == 0xBBu8 && b[2] == 0xBFu8)
    ||| (b.len() >= 2 && b[0] == 0xFFu8 && b[1] == 0xFEu8)
    ||| (b.len() >= 2 && b[0] == 0xFEu8 && b[1] == 0xFFu8)
}

/// The text and the error flag that the UTF-16LE decoder gives for some bytes.
pub uninterp spec fn utf16le_decoding(b: Seq<u8>) -> (Seq<char>, bool);

/// The text and the error flag that the GBK decoder gives for some bytes.
pub uninterp spec fn gbk_decoding(b: Seq<u8>) -> (Seq<char>, bool);

/// Relies on `std::str::from_utf8`: it succeeds exactly on valid UTF-8, and
/// the string it returns is the decoding of those bytes.
#[verifier::external_body]
fn utf8_strict(b: &[u8]) -> (r: Option<String>)
    ensures
        r is Some <==> valid_utf8(b@),
        r is Some ==> r->0@ == decode_utf8(b@),
{
    match std::str::from_utf8(b) {
        Ok(s) => Some(s.to_owned()),
        Err(_) => None,
    }
}

/// Relies on `encoding_rs::UTF_16LE.decode`: the decoded text and whether a
/// malformed sequence was replaced. Without a leading byte-order mark (which
/// `decode` sniffs and acts on), the UTF-16LE encoding of a text decodes back
/// to that text with no error.
#[verifier::external_body]
fn utf16le_lossy(b: &[u8]) -> (r: (String, bool))
    ensures
        r.0@ == utf16le_decoding(b@).0,
        r.1 == utf16le_decoding(b@).1,
        forall|s: Seq<char>|
            #![trigger encode_utf16le(s)]
            encode_utf16le(s) == b@ && !starts_with_bom(b@) ==> r.0@ == s && !r.1,
{
    let (text, _, had_errors) = encoding_rs::UTF_16LE.decode(b);
    (text.into_owned(), had_errors)
}

/// Relies on `encoding_rs::GBK.decode`: the decoded text and whether a
/// malformed sequence was replaced.
#[verifier::external_body]
fn gbk_lossy(b: &[u8]) -> (r: (String, bool))
    ensures
        r.0@ == gbk_decoding(b@).0,
        r.1 == gbk_decoding(b@).1,
{
    let (text, _, had_errors) = encoding_rs::GBK.decode(b);
    (text.into_owned(), had_errors)
}

/// Decoded probe output, and whether the last-resort decoding had to
/// replace malformed sequences.
pub struct Decoded {
    pub text: String,
    pub degraded: bool,
}

/// What the cascade yields for some bytes: text and degradation flag.
pub open spec fn resolved(b: Seq<u8>) -> (Seq<char>, bool) {
    if valid_utf8(b) {
        (decode_utf8(b), false)
    } else if !utf16le_decoding(b).1 {
        (utf16le_decoding(b).0, false)
    } else {
        gbk_decoding(b)
    }
}

/// Decodes tool output of unknown encoding. Never fails.
///
/// Valid UTF-8 comes back as its UTF-8 decoding. Bytes that are not valid
/// UTF-8 but are the UTF-16LE encoding of a text (with no leading
/// byte-order mark) come back as that text.
pub fn resolve(bytes: &[u8]) -> (r: Decoded)
    ensures
        (r.text@, r.degraded) == resolved(bytes@),
        valid_utf8(bytes@) ==> r.text@ == decode_utf8(bytes@),
        forall|s: Seq<char>|
            #![trigger encode_utf16le(s)]
            encode_utf16le(s) == bytes@ && !valid_utf8(bytes@) && !starts_with_bom(bytes@)
                ==> r.text@ == s,
        r.degraded ==> !valid_utf8(bytes@),
{
    match utf8_strict(bytes) {
        Some(text) => Decoded { text, degraded: false },
        None => {
            let (text, had_errors) = utf16le_lossy(bytes);
            if !had_errors {
                Decoded { text, degraded: false }
            } else {
                let (text, had_errors) = gbk_lossy(bytes);
                Decoded { text, degraded: had_errors }
            }
        },
    }
}

} // verus!
