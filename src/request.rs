//! The part of handling a request for a file that needs no I/O: reading the
//! percent-encoded path that the front end sends, and finishing the metadata
//! of the file at that path.

use vstd::prelude::*;
use vstd::utf8::{decode_utf8, encode_utf8, valid_utf8};
use crate::normalize::{checked, extracted, normalized, Metadata, apply_filename_fallback, validate, extract_fields};
use crate::tags::{combine_tags, combined, ProbeTags};

verus! {

/// An ASCII hexadecimal digit.
pub open spec fn is_hex_digit(b: u8) -> bool {
    (0x30 <= b <= 0x39) || (0x41 <= b <= 0x46) || (0x61 <= b <= 0x66)
}

/// The value of an ASCII hexadecimal digit.
pub open spec fn hex_value(b: u8) -> int {
    if b <= 0x39 {
        b - 0x30
    } else if b <= 0x46 {
        b - 0x41 + 10
    } else {
        b - 0x61 + 10
    }
}

/// The bytes with each `%` followed by two hexadecimal digits replaced by the
/// byte they spell; every other byte, `+` and a stray `%` included, is kept.
pub open spec fn percent_decoded(b: Seq<u8>) -> Seq<u8>
    decreases b.len(),
{
    if b.len() == 0 {
        seq![]
    } else if b[0] == 0x25u8 && b.len() >= 3 && is_hex_digit(b[1]) && is_hex_digit(b[2]) {
        seq![(hex_value(b[1]) * 16 + hex_value(b[2])) as u8] + percent_decoded(b.skip(3))
    } else {
        seq![b[0]] + percent_decoded(b.drop_first())
    }
}

/// The text a percent-encoded string stands for, when its decoded bytes are
/// valid UTF-8.
pub open spec fn url_decoded(s: Seq<char>) -> Option<Seq<char>> {
    let b = percent_decoded(encode_utf8(s));
    if valid_utf8(b) {
        Some(decode_utf8(b))
    } else {
        None
    }
}

/// Relies on `urlencoding::decode`: percent-decoding of the UTF-8 bytes of
/// the string, which fails when the decoded bytes are not valid UTF-8.
#[verifier::external_body]
fn percent_decode(s: &str) -> (r: Option<String>)
    ensures
        r is Some <==> url_decoded(s@) is Some,
        r is Some ==> r->0@ == url_decoded(s@)->0,
{
    match urlencoding::decode(s) {
        Ok(text) => Some(text.into_owned()),
        Err(_) => None,
    }
}

/// Why a request path could not be read.
pub enum PathError {
    /// The percent-decoded path is not valid UTF-8.
    NotUtf8,
}

/// Reads the percent-encoded path of a request.
pub fn decode_request_path(path: &str) -> (r: Result<String, PathError>)
    ensures
        r is Ok <==> url_decoded(path@) is Some,
        r is Ok ==> r->Ok_0@ == url_decoded(path@)->0,
{
    match percent_decode(path) {
        Some(p) => Ok(p),
        None => Err(PathError::NotUtf8),
    }
}

/// Relies on `std::path::Path::file_stem`: the file name without its last
/// extension, if the path has a file name. Which part that is follows the
/// path syntax of the platform, so nothing is stated of it.
#[verifier::external_body]
fn file_stem(path: &str) -> (r: Option<String>) {
    std::path::Path::new(path).file_stem().map(|s| s.to_string_lossy().into_owned())
}

/// The metadata of the file at `path`, from the tags that probing it gave
/// (none when the probe failed or its output could not be read). The file
/// name fallback applies when the path has a file name.
pub fn metadata_for_path(path: &str, p: &ProbeTags) -> (r: Metadata)
    ensures
        r@ == checked(extracted(combined(p@))) || exists|stem: Seq<char>|
            r@ == #[trigger] normalized(combined(p@), stem),
{
    let tags = combine_tags(p);
    let m = validate(extract_fields(&tags));
    match file_stem(path) {
        Some(stem) => {
            let r = apply_filename_fallback(m, stem.as_str());
            assert(r@ == normalized(combined(p@), stem@));
            r
        },
        None => m,
    }
}

} // verus!
